use runyte::app::{App, CapturedContext, Keymap};
use runyte::keys::{GrammarKind, InputEvent, KeyCode, KeyStroke, Modifiers};
use runyte::plugin_input::{FormStep, PickerStep};
use runyte::validation::ValidationOutcome;
use runyte::surface::{
    Field, FieldKind, FieldValidation, Surface, SurfacePicker, ValidationState, ValidationStatus,
    Value,
};

fn context() -> CapturedContext {
    CapturedContext {
        action: None,
        foreground_allowed: true,
        attachment: 0,
        foreground: 0,
        pane: 0,
        buffer: 0,
        terminal: None,
    }
}

fn field(id: &str, kind: FieldKind, validate: bool) -> Field {
    Field {
        id: String::from(id),
        label: id.to_uppercase(),
        kind,
        validate,
        maximum_length: 8,
        choices: vec![String::from("red"), String::from("green"), String::from("blue")],
        validation_message: None,
    }
}

fn surface(fields: Vec<Field>, values: Vec<Value>) -> Surface {
    Surface {
        owner: 2,
        handle: String::from("form"),
        context: context(),
        title: String::from("Title"),
        fields,
        values,
        selected: 0,
        cursor: 0,
        error: false,
        confirmation: false,
        picker: None,
        validation: ValidationState {
            revision: 0,
            queued: None,
            in_flight: None,
            submit: None,
            results: Vec::new(),
            unavailable: false,
        },
        max_value_bytes: 16,
    }
}

fn key(code: KeyCode) -> InputEvent {
    InputEvent::Key(KeyStroke::plain(code))
}

#[test]
fn display_masks_secrets() {
    let s = surface(
        vec![field("name", FieldKind::Text, false), field("pin", FieldKind::Secret, false), field("ok", FieldKind::Boolean, false)],
        vec![Value::Text("ab".chars().collect()), Value::Text("1234".chars().collect()), Value::Boolean(true)],
    );
    assert_eq!(s.display(0), "ab");
    assert_eq!(s.display(1), "••••");
    assert_eq!(s.display(2), "true");
}

#[test]
fn validation_feedback_lines() {
    let mut s = surface(vec![field("name", FieldKind::Text, true)], vec![Value::Text(Vec::new())]);
    assert_eq!(s.validation_feedback(), None);
    s.validation.results.push(FieldValidation { field: String::from("name"), status: ValidationStatus::Invalid });
    assert_eq!(
        s.validation_feedback(),
        Some(String::from("NAME: Value was not accepted; press Enter to retry"))
    );
    s.validation.in_flight = Some((String::from("i:0"), 0));
    assert_eq!(s.validation_feedback(), Some(String::from("Checking fields…")));
    s.validation.in_flight = Some((String::from("i:7"), 0));
    assert_eq!(
        s.validation_feedback(),
        Some(String::from("NAME: Value was not accepted; press Enter to retry"))
    );
    s.validation.unavailable = true;
    assert_eq!(
        s.validation_feedback(),
        Some(String::from("Validation unavailable; press Enter to retry or Escape to cancel"))
    );
}

#[test]
fn surface_list_filters_and_chooses() {
    let mut p = SurfacePicker { filter: Vec::new(), selected: 0, visible: vec![String::from("a"), String::from("b")] };
    assert!(matches!(p.handle(&key(KeyCode::Down)), PickerStep::Stay));
    assert_eq!(p.selected, 1);
    assert!(matches!(p.handle(&key(KeyCode::Down)), PickerStep::Stay));
    assert_eq!(p.selected, 1);
    match p.handle(&key(KeyCode::Enter)) {
        PickerStep::Choose(label) => assert_eq!(label, "b"),
        _ => panic!("expected a choice"),
    }
    p.handle(&InputEvent::Text(String::from("xy")));
    assert_eq!(p.filter, vec!['x', 'y']);
    assert_eq!(p.selected, 0);
    p.handle(&key(KeyCode::Backspace));
    assert_eq!(p.filter, vec!['x']);
    p.handle(&InputEvent::Text(String::from("\u{7}")));
    assert_eq!(p.filter, vec!['x']);
    assert!(matches!(p.handle(&InputEvent::Key(KeyStroke::ctrl('c'))), PickerStep::Cancel));
}

#[test]
fn form_edits_and_limits() {
    let mut s = surface(
        vec![field("name", FieldKind::Text, false), field("color", FieldKind::Choice, false)],
        vec![Value::Text(Vec::new()), Value::Text("red".chars().collect())],
    );
    let accept = vec![true, true];
    s.form_input(&InputEvent::Text(String::from("abc")), &accept, 0);
    assert_eq!(s.display(0), "abc");
    assert_eq!(s.cursor, 3);
    s.form_input(&InputEvent::Text(String::from("defghi")), &accept, 0);
    assert!(s.error);
    assert_eq!(s.display(0), "abc");
    s.form_input(&key(KeyCode::Backspace), &accept, 0);
    assert_eq!(s.display(0), "ab");
    assert_eq!(s.form_input(&key(KeyCode::Tab), &accept, 0), FormStep::Stay);
    assert_eq!(s.selected, 1);
    assert_eq!(s.cursor, 3);
    s.form_input(&key(KeyCode::Right), &accept, 0);
    assert_eq!(s.display(1), "green");
    s.form_input(&key(KeyCode::Left), &accept, 0);
    s.form_input(&key(KeyCode::Left), &accept, 0);
    assert_eq!(s.display(1), "blue");
    assert_eq!(s.form_input(&key(KeyCode::Enter), &accept, 0), FormStep::Finish(true));
    assert_eq!(s.form_input(&key(KeyCode::Enter), &vec![true, false], 0), FormStep::Stay);
    assert_eq!(s.selected, 1);
    assert!(s.error);
    assert_eq!(s.form_input(&key(KeyCode::Escape), &accept, 0), FormStep::Finish(false));
}

#[test]
fn form_with_validation_queues_a_request() {
    let mut s = surface(vec![field("name", FieldKind::Text, true)], vec![Value::Text(vec!['x'])]);
    s.validation.revision = 5;
    assert_eq!(s.form_input(&key(KeyCode::Enter), &vec![true], 9), FormStep::Stay);
    let queued = s.validation.queued.as_ref().unwrap();
    assert_eq!(queued.revision, vec!['i', ':', '5']);
    assert_eq!(queued.foreground, 9);
    assert_eq!(s.validation.submit, Some((5, 9)));
}

#[test]
fn app_closes_confirmation_surfaces() {
    let mut a = App::new(
        Keymap { leader: KeyStroke::plain(KeyCode::Char(' ')), window_prefix: KeyStroke::ctrl('w') },
        GrammarKind::Runyte,
    );
    let mut s = surface(vec![field("ok", FieldKind::Boolean, false)], vec![Value::Boolean(false)]);
    s.confirmation = true;
    a.plugins.input = Some(s);
    assert!(a.plugin_input_active());
    a.handle_plugin_input(&InputEvent::Key(KeyStroke::new(KeyCode::Enter, Modifiers::none())), &vec![true]);
    assert!(!a.plugin_input_active());
    let finished = a.plugins.input_finished.last().unwrap();
    assert!(finished.submission.accepted);
    assert_eq!(finished.owner, 2);
    assert!(matches!(finished.submission.values[0].1, Value::Boolean(true)));
    let mut other = surface(vec![field("name", FieldKind::Text, false)], vec![Value::Text(Vec::new())]);
    other.owner = 5;
    a.plugins.input = Some(other);
    a.cancel_plugin_input(4, None);
    assert!(a.plugin_input_active());
    a.cancel_plugin_input(5, None);
    assert!(!a.plugin_input_active());
    assert!(!a.plugins.input_finished.last().unwrap().submission.accepted);
}

fn answer(id: &str, status: ValidationStatus) -> FieldValidation {
    FieldValidation { field: String::from(id), status }
}

fn checked_surface() -> Surface {
    let mut s = surface(
        vec![field("name", FieldKind::Text, true), field("pin", FieldKind::Text, true), field("note", FieldKind::Text, false)],
        vec![Value::Text(vec!['a']), Value::Text(vec!['1', '2', '3']), Value::Text(Vec::new())],
    );
    s.validation.revision = 3;
    s.validation.in_flight = Some((String::from("i:3"), 7));
    s.validation.submit = Some((3, 7));
    s
}

#[test]
fn validation_answer_for_another_request_is_ignored() {
    let mut s = checked_surface();
    let answers = vec![answer("name", ValidationStatus::Valid), answer("pin", ValidationStatus::Valid)];
    assert_eq!(s.apply_validation(2, "form", "i:3", 8, 7, answers), ValidationOutcome::Ignored);
    assert_eq!(s.validation.in_flight, Some((String::from("i:3"), 7)));
    let answers = vec![answer("name", ValidationStatus::Valid), answer("pin", ValidationStatus::Valid)];
    assert_eq!(s.apply_validation(3, "form", "i:3", 7, 7, answers), ValidationOutcome::Ignored);
    let answers = vec![answer("name", ValidationStatus::Valid), answer("pin", ValidationStatus::Valid)];
    assert_eq!(s.apply_validation(2, "other", "i:3", 7, 7, answers), ValidationOutcome::Ignored);
    assert_eq!(s.validation.submit, Some((3, 7)));
}

#[test]
fn validation_answer_for_old_values_is_stale() {
    let mut s = checked_surface();
    s.validation.in_flight = Some((String::from("i:2"), 7));
    let answers = vec![answer("name", ValidationStatus::Invalid), answer("pin", ValidationStatus::Valid)];
    assert_eq!(s.apply_validation(2, "form", "i:2", 7, 7, answers), ValidationOutcome::Stale);
    assert_eq!(s.validation.in_flight, None);
    assert_eq!(s.validation.submit, Some((3, 7)));
    assert!(s.validation.results.is_empty());
    assert_eq!(s.selected, 0);
}

#[test]
fn validation_answer_with_missing_or_repeated_fields_is_unavailable() {
    let mut s = checked_surface();
    let answers = vec![answer("name", ValidationStatus::Valid)];
    assert_eq!(s.apply_validation(2, "form", "i:3", 7, 7, answers), ValidationOutcome::Unavailable);
    assert!(s.validation.unavailable);
    assert_eq!(s.validation.submit, None);
    assert_eq!(s.validation.in_flight, None);

    let mut s = checked_surface();
    let answers = vec![
        answer("name", ValidationStatus::Valid),
        answer("pin", ValidationStatus::Valid),
        answer("pin", ValidationStatus::Valid),
    ];
    assert_eq!(s.apply_validation(2, "form", "i:3", 7, 7, answers), ValidationOutcome::Unavailable);

    let mut s = checked_surface();
    let answers = vec![
        answer("name", ValidationStatus::Valid),
        answer("pin", ValidationStatus::Valid),
        answer("note", ValidationStatus::Valid),
    ];
    assert_eq!(s.apply_validation(2, "form", "i:3", 7, 7, answers), ValidationOutcome::Unavailable);
}

#[test]
fn validation_answer_all_valid_submits_the_waiting_form() {
    let mut s = checked_surface();
    let answers = vec![answer("pin", ValidationStatus::Valid), answer("name", ValidationStatus::Valid)];
    assert_eq!(s.apply_validation(2, "form", "i:3", 7, 7, answers), ValidationOutcome::Checked { submit: true });
    assert_eq!(s.validation.results.len(), 2);
    assert!(!s.validation.unavailable);

    let mut s = checked_surface();
    let answers = vec![answer("pin", ValidationStatus::Valid), answer("name", ValidationStatus::Valid)];
    assert_eq!(s.apply_validation(2, "form", "i:3", 7, 8, answers), ValidationOutcome::Checked { submit: false });
    assert_eq!(s.validation.submit, None);
}

#[test]
fn validation_answer_with_rejection_selects_the_field() {
    let mut s = checked_surface();
    let answers = vec![answer("name", ValidationStatus::Valid), answer("pin", ValidationStatus::Invalid)];
    assert_eq!(s.apply_validation(2, "form", "i:3", 7, 7, answers), ValidationOutcome::Checked { submit: false });
    assert_eq!(s.selected, 1);
    assert_eq!(s.cursor, 3);
    assert_eq!(s.validation.submit, None);
    assert_eq!(s.validation_feedback(), Some(String::from("PIN: Value was not accepted; press Enter to retry")));

    let mut s = checked_surface();
    let answers = vec![answer("name", ValidationStatus::Unavailable), answer("pin", ValidationStatus::Valid)];
    assert_eq!(s.apply_validation(2, "form", "i:3", 7, 7, answers), ValidationOutcome::Checked { submit: false });
    assert!(s.validation.unavailable);
    assert_eq!(s.selected, 0);
    assert_eq!(s.cursor, 1);
}

fn attached_app() -> App {
    let mut a = App::new(
        Keymap { leader: KeyStroke::plain(KeyCode::Char(' ')), window_prefix: KeyStroke::ctrl('w') },
        GrammarKind::Runyte,
    );
    a.plugins.frontend_attached = true;
    a
}

#[test]
fn app_validation_round_trip_submits() {
    let mut a = attached_app();
    a.plugins.input = Some(surface(vec![field("name", FieldKind::Text, true)], vec![Value::Text(vec!['x'])]));
    assert_eq!(a.peek_plugin_validation().map(|i| i.revision), None);
    a.handle_plugin_input(&key(KeyCode::Enter), &vec![true]);
    assert!(a.plugin_input_active());
    let intent = a.peek_plugin_validation().unwrap();
    assert_eq!(intent.revision, vec!['i', ':', '0']);
    assert_eq!(intent.fields, vec![String::from("name")]);
    assert!(a.plugin_validation_current(2, "form", "i:0"));
    assert!(!a.plugin_validation_current(2, "form", "i:1"));
    assert!(a.plugin_validation_pending(&intent));
    assert!(!a.plugin_validation_pending(&intent));
    assert!(a.peek_plugin_validation().is_none());
    assert!(!a.apply_plugin_validation(2, "form", "i:0", 1, vec![answer("name", ValidationStatus::Valid)]));
    assert!(a.plugin_input_active());
    assert!(a.apply_plugin_validation(2, "form", "i:0", 0, vec![answer("name", ValidationStatus::Valid)]));
    assert!(!a.plugin_input_active());
    let finished = a.plugins.input_finished.last().unwrap();
    assert!(finished.submission.accepted);
    assert_eq!(finished.submission.values.len(), 1);
}

#[test]
fn app_validation_failure_marks_unavailable() {
    let mut a = attached_app();
    a.plugins.input = Some(surface(vec![field("name", FieldKind::Text, true)], vec![Value::Text(vec!['x'])]));
    a.handle_plugin_input(&key(KeyCode::Enter), &vec![true]);
    let intent = a.peek_plugin_validation().unwrap();
    assert!(a.plugin_validation_pending(&intent));
    assert!(!a.plugin_validation_failed(2, "form", "i:1", 0));
    assert!(a.plugin_validation_failed(2, "form", "i:0", 0));
    let s = a.plugins.input.as_ref().unwrap();
    assert!(s.validation.unavailable);
    assert_eq!(s.validation.submit, None);
    assert_eq!(s.validation.in_flight, None);
    assert!(!a.plugin_validation_failed(2, "form", "i:0", 0));
}

#[test]
fn app_validation_drops_a_detached_surface() {
    let mut a = attached_app();
    a.plugins.input = Some(surface(vec![field("name", FieldKind::Text, true)], vec![Value::Text(vec!['x'])]));
    a.handle_plugin_input(&key(KeyCode::Enter), &vec![true]);
    let intent = a.peek_plugin_validation().unwrap();
    a.plugins.frontend_attached = false;
    assert!(!a.plugin_validation_pending(&intent));
    assert!(!a.plugin_input_active());
    assert!(!a.plugins.input_finished.last().unwrap().submission.accepted);
}

#[test]
fn rejected_plugin_text_leaves_the_field() {
    let mut a = attached_app();
    let mut s = surface(vec![field("name", FieldKind::Text, false)], vec![Value::Text(vec!['a', 'b'])]);
    s.cursor = 1;
    a.plugins.input = Some(s);
    a.handle_plugin_input(&InputEvent::Text(String::from("cdefghijk")), &vec![true]);
    let s = a.plugins.input.as_ref().unwrap();
    assert_eq!(s.display(0), "ab");
    assert_eq!(s.cursor, 1);
    assert!(s.error);
    assert_eq!(s.validation.revision, 0);
    a.handle_plugin_input(&InputEvent::Text(String::from("x\ty")), &vec![true]);
    let s = a.plugins.input.as_ref().unwrap();
    assert_eq!(s.display(0), "ab");
    assert!(s.error);
    a.handle_plugin_input(&InputEvent::Text(String::from("xy")), &vec![true]);
    let s = a.plugins.input.as_ref().unwrap();
    assert_eq!(s.display(0), "axyb");
    assert_eq!(s.cursor, 3);
    assert!(!s.error);
    assert_eq!(s.validation.revision, 1);
    assert!(a.is_well_formed());
}
