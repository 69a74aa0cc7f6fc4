use runyte::app::{App, CommandAvailability, Keymap, ListAction, ListView, WorkspaceRow};
use runyte::keys::{GrammarKind, KeyCode, KeyStroke, Modifiers};
use runyte::list::{list_key, ListKey, ListKeyOutcome, ListMove};
use runyte::menus::SessionMenuOutcome;

fn app() -> App {
    App::new(
        Keymap { leader: KeyStroke::plain(KeyCode::Char(' ')), window_prefix: KeyStroke::ctrl('w') },
        GrammarKind::Runyte,
    )
}

fn key(code: KeyCode) -> KeyStroke {
    KeyStroke::plain(code)
}

fn view() -> ListView {
    ListView {
        filter: Vec::new(),
        accepts_filter: true,
        report: false,
        has_tags: false,
        has_preview: true,
        show_preview: true,
        sessions: false,
        settings: false,
        selected: None,
    }
}

fn filter(a: &App) -> String {
    a.list.as_ref().unwrap().filter.iter().collect()
}

#[test]
fn list_keys_classify() {
    assert_eq!(list_key(KeyStroke::ctrl('c'), false), ListKey::Close);
    assert_eq!(list_key(key(KeyCode::BackTab), false), ListKey::Move(ListMove::Up));
    assert_eq!(list_key(KeyStroke::ctrl('d'), false), ListKey::Move(ListMove::PageDown));
    assert_eq!(list_key(KeyStroke::ctrl('t'), true), ListKey::TogglePreview);
    assert_eq!(list_key(KeyStroke::ctrl('t'), false), ListKey::Ignored);
    assert_eq!(list_key(key(KeyCode::Char('x')), false), ListKey::Type('x'));
    assert_eq!(list_key(KeyStroke::new(KeyCode::Char('x'), Modifiers::alt()), false), ListKey::Ignored);
}

#[test]
fn filter_edits_and_closing() {
    let mut a = app();
    a.list = Some(view());
    assert_eq!(a.handle_list_key(key(KeyCode::Char('a'))), ListKeyOutcome::FilterEdited);
    assert_eq!(a.handle_list_key(key(KeyCode::Char('b'))), ListKeyOutcome::FilterEdited);
    assert_eq!(filter(&a), "ab");
    assert_eq!(a.handle_list_key(key(KeyCode::Backspace)), ListKeyOutcome::FilterEdited);
    assert_eq!(filter(&a), "a");
    assert_eq!(a.handle_list_key(key(KeyCode::Delete)), ListKeyOutcome::FilterEdited);
    assert_eq!(filter(&a), "");
    assert_eq!(a.handle_list_key(KeyStroke::ctrl('t')), ListKeyOutcome::PreviewToggled);
    assert!(!a.list.as_ref().unwrap().show_preview);
    assert_eq!(a.handle_list_key(key(KeyCode::Down)), ListKeyOutcome::Move(ListMove::Down));
    assert_eq!(a.handle_list_key(key(KeyCode::Tab)), ListKeyOutcome::Move(ListMove::Down));
    a.list.as_mut().unwrap().has_tags = true;
    assert_eq!(a.handle_list_key(key(KeyCode::Tab)), ListKeyOutcome::CycleTag);
    assert_eq!(a.handle_list_key(key(KeyCode::Enter)), ListKeyOutcome::Activate);
    a.list.as_mut().unwrap().accepts_filter = false;
    assert_eq!(a.handle_list_key(key(KeyCode::Char('z'))), ListKeyOutcome::Ignored);
    a.list.as_mut().unwrap().settings = true;
    assert_eq!(a.handle_list_key(key(KeyCode::Escape)), ListKeyOutcome::CancelSettings);
    assert!(a.list.is_some());
    a.list.as_mut().unwrap().settings = false;
    assert_eq!(a.handle_list_key(key(KeyCode::Escape)), ListKeyOutcome::Closed);
    assert!(a.list.is_none());
}

#[test]
fn reports_only_scroll() {
    let mut a = app();
    a.list = Some(ListView { report: true, ..view() });
    assert_eq!(a.handle_list_key(KeyStroke::ctrl('u')), ListKeyOutcome::Move(ListMove::PageUp));
    assert_eq!(a.handle_list_key(key(KeyCode::BackTab)), ListKeyOutcome::Ignored);
    assert_eq!(a.handle_list_key(key(KeyCode::Char('a'))), ListKeyOutcome::Ignored);
    assert!(a.list.as_ref().unwrap().filter.is_empty());
    assert_eq!(a.handle_list_key(key(KeyCode::Escape)), ListKeyOutcome::Closed);
}

fn sessions() -> App {
    let mut a = app();
    a.workspace_rows = vec![
        WorkspaceRow { running: true, name: Some(String::from("runyte")), number: Some(2) },
        WorkspaceRow { running: false, name: None, number: Some(5) },
    ];
    a.list = Some(ListView { sessions: true, selected: Some(ListAction::Workspace(1)), ..view() });
    a
}

#[test]
fn session_shortcuts_attach_by_number() {
    let mut a = sessions();
    assert_eq!(a.handle_list_key(key(KeyCode::Char('5'))), ListKeyOutcome::Attach(Some(1)));
    assert!(a.list.is_none());
    let mut a = sessions();
    assert_eq!(a.handle_list_key(key(KeyCode::Char('7'))), ListKeyOutcome::Attach(None));
    assert_eq!(a.status, "no session is numbered 7");
    assert!(a.status_error);
    let mut a = sessions();
    a.persistent_session = CommandAvailability::Unavailable(String::from("off"));
    assert_eq!(a.handle_list_key(key(KeyCode::Char('2'))), ListKeyOutcome::Attach(None));
    assert_eq!(a.status, "attaching sessions needs workspace.mode: persistent");
    let mut a = sessions();
    a.handle_list_key(key(KeyCode::Char('r')));
    assert_eq!(a.handle_list_key(key(KeyCode::Char('2'))), ListKeyOutcome::FilterEdited);
    assert_eq!(filter(&a), "r2");
}

#[test]
fn tab_opens_the_selected_rows_actions_which_then_take_keys() {
    let mut a = sessions();
    assert_eq!(
        a.handle_list_key(key(KeyCode::Tab)),
        ListKeyOutcome::MenuOpened(ListAction::Workspace(1))
    );
    assert!(a.menus.session.is_some());
    assert_eq!(
        a.handle_list_key(key(KeyCode::Escape)),
        ListKeyOutcome::Session(SessionMenuOutcome::Nothing)
    );
    assert!(a.menus.session.is_none());
    assert!(a.list.is_some());
}

#[test]
fn activating_the_selected_row() {
    let mut a = app();
    a.list = Some(ListView { settings: true, ..view() });
    assert_eq!(a.activate_list_selection(), None);
    assert_eq!(a.status, "no matching setting choice · clear the filter or press Esc");
    assert!(a.list.is_some());
    let mut a = sessions();
    a.persistent_session = CommandAvailability::Unavailable(String::from("off"));
    assert_eq!(a.activate_list_selection(), None);
    assert_eq!(a.status, "attaching sessions needs workspace.mode: persistent");
    let mut a = sessions();
    assert_eq!(a.activate_list_selection(), Some(ListAction::Workspace(1)));
    assert!(a.list.is_none());
    let mut a = app();
    a.list = Some(ListView { selected: Some(ListAction::Terminal(4)), ..view() });
    assert_eq!(a.activate_list_selection(), Some(ListAction::Terminal(4)));
    let mut a = app();
    a.list = Some(view());
    assert_eq!(a.activate_list_selection(), None);
    assert!(a.list.is_none());
}
