use runyte::app::{App, Finder, FinderMode, Keymap};
use runyte::keys::{GrammarKind, KeyCode, KeyStroke, Modifiers};
use runyte::picker::{
    apply_picker_edit, picker_key, PickerEdit, PickerKey, PickerMove, SplitAxis,
};

fn app() -> App {
    App::new(
        Keymap { leader: KeyStroke::plain(KeyCode::Char(' ')), window_prefix: KeyStroke::ctrl('w') },
        GrammarKind::Runyte,
    )
}

fn open_picker(query: &str, cursor: usize) -> App {
    let mut a = app();
    a.picker_query = Some(query.chars().collect());
    a.picker_cursor = cursor;
    a
}

fn query(a: &App) -> String {
    a.picker_query.as_ref().unwrap().iter().collect()
}

#[test]
fn picker_keys_classify() {
    assert_eq!(picker_key(KeyStroke::plain(KeyCode::Escape), false), PickerKey::Close);
    assert_eq!(picker_key(KeyStroke::ctrl('c'), true), PickerKey::Close);
    assert_eq!(picker_key(KeyStroke::plain(KeyCode::Tab), false), PickerKey::Move(PickerMove::Down));
    assert_eq!(picker_key(KeyStroke::plain(KeyCode::Tab), true), PickerKey::ToggleFinderMode);
    let shift_tab = KeyStroke::new(KeyCode::Tab, Modifiers::shift());
    assert_eq!(picker_key(shift_tab, true), PickerKey::Ignored);
    assert_eq!(picker_key(KeyStroke::plain(KeyCode::BackTab), true), PickerKey::Move(PickerMove::Up));
    assert_eq!(picker_key(KeyStroke::ctrl('s'), false), PickerKey::Split(SplitAxis::Vertical));
    assert_eq!(picker_key(KeyStroke::ctrl('v'), true), PickerKey::Split(SplitAxis::Horizontal));
    assert_eq!(picker_key(KeyStroke::ctrl('t'), false), PickerKey::TogglePreview);
    assert_eq!(picker_key(KeyStroke::ctrl('w'), false), PickerKey::Edit(PickerEdit::DeleteWord));
    assert_eq!(picker_key(KeyStroke::ctrl('x'), false), PickerKey::Ignored);
    assert_eq!(
        picker_key(KeyStroke::new(KeyCode::Char('Q'), Modifiers::shift()), false),
        PickerKey::Edit(PickerEdit::Insert('Q'))
    );
    assert_eq!(picker_key(KeyStroke::new(KeyCode::Char('q'), Modifiers::alt()), false), PickerKey::Ignored);
    assert_eq!(picker_key(KeyStroke::plain(KeyCode::Enter), false), PickerKey::Open);
    assert_eq!(picker_key(KeyStroke::plain(KeyCode::End), false), PickerKey::Move(PickerMove::Last));
}

#[test]
fn picker_query_edits() {
    let mut q: Vec<char> = "abcd".chars().collect();
    let mut c = 2;
    assert!(apply_picker_edit(&mut q, &mut c, PickerEdit::Backspace));
    assert_eq!(q.iter().collect::<String>(), "acd");
    assert_eq!(c, 1);
    assert!(apply_picker_edit(&mut q, &mut c, PickerEdit::DeleteEnd));
    assert_eq!(q.iter().collect::<String>(), "a");
    assert!(!apply_picker_edit(&mut q, &mut c, PickerEdit::Delete));
    assert!(!apply_picker_edit(&mut q, &mut c, PickerEdit::Right));
    assert_eq!(c, 1);
    assert!(!apply_picker_edit(&mut q, &mut c, PickerEdit::Start));
    assert_eq!(c, 0);
    assert!(!apply_picker_edit(&mut q, &mut c, PickerEdit::Backspace));
    assert!(apply_picker_edit(&mut q, &mut c, PickerEdit::Insert('z')));
    assert_eq!(q.iter().collect::<String>(), "za");
    assert_eq!(c, 1);
    assert!(!apply_picker_edit(&mut q, &mut c, PickerEdit::End));
    assert_eq!(c, 2);
}

#[test]
fn picker_typing_and_closing() {
    let mut a = open_picker("ab", 2);
    let step = a.handle_picker(KeyStroke::plain(KeyCode::Char('c')));
    assert!(step.query_changed && step.refresh_preview && !step.publish_rows);
    assert_eq!(query(&a), "abc");
    assert_eq!(a.picker_cursor, 3);
    let step = a.handle_picker(KeyStroke::plain(KeyCode::Left));
    assert!(!step.query_changed && !step.refresh_preview && step.publish_rows);
    assert_eq!(a.picker_cursor, 2);
    let step = a.handle_picker(KeyStroke::plain(KeyCode::Down));
    assert_eq!(step.key, PickerKey::Move(PickerMove::Down));
    assert!(step.refresh_preview && step.publish_rows);
    let preview = a.picker_preview;
    a.handle_picker(KeyStroke::ctrl('t'));
    assert_eq!(a.picker_preview, !preview);
    a.finder_dirty_terminals = vec![3];
    let step = a.handle_picker(KeyStroke::plain(KeyCode::Escape));
    assert_eq!(step.key, PickerKey::Close);
    assert!(a.picker_query.is_none());
    assert!(a.finder_dirty_terminals.is_empty());
}

#[test]
fn finder_refreshes_after_every_key_it_keeps() {
    let mut a = open_picker("", 0);
    a.finder = Some(Finder { mode: FinderMode::Names, name_rank_pending: false });
    let step = a.handle_picker(KeyStroke::plain(KeyCode::Left));
    assert!(step.refresh_preview && !step.query_changed);
    let step = a.handle_picker(KeyStroke::plain(KeyCode::Enter));
    assert_eq!(step.key, PickerKey::Open);
    assert!(!step.refresh_preview);
    let step = a.handle_picker(KeyStroke::plain(KeyCode::Tab));
    assert_eq!(step.key, PickerKey::ToggleFinderMode);
    assert!(step.publish_rows);
}

#[test]
fn finder_mode_toggles_under_fresh_scan_ids() {
    let mut a = app();
    assert_eq!(a.toggle_finder_mode(), None);
    a.finder = Some(Finder { mode: FinderMode::Names, name_rank_pending: true });
    a.next_file_scan_id = u64::MAX;
    assert_eq!(a.toggle_finder_mode(), Some((FinderMode::Contents, u64::MAX)));
    assert_eq!(a.next_file_scan_id, 1);
    assert_eq!(a.toggle_finder_mode(), Some((FinderMode::Names, 1)));
    assert_eq!(a.next_file_scan_id, 2);
    assert!(a.finder.as_ref().unwrap().name_rank_pending);
}

#[test]
fn picker_query_deletes_the_word_before_the_caret() {
    let mut q: Vec<char> = "src/app main".chars().collect();
    let mut c = q.len();
    assert!(apply_picker_edit(&mut q, &mut c, PickerEdit::DeleteWord));
    assert_eq!(q.iter().collect::<String>(), "src/app ");
    assert_eq!(c, 8);
    let mut c0 = 0;
    assert!(!apply_picker_edit(&mut q, &mut c0, PickerEdit::DeleteWord));
    assert_eq!(q.iter().collect::<String>(), "src/app ");
}
