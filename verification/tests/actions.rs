use runyte::app::{App, BufferKind, Keymap, ProgramAction, ProgramChoice};
use runyte::completion::{CompletionAction, CompletionSource, CompletionStep};
use runyte::keys::{GrammarKind, KeyCode, KeyStroke, Mode};
use runyte::lsp::BufferAction;
use runyte::menus::DiscardPlan;
use runyte::programs::{program_storage_call, ProgramStorageCall};
use runyte::retire::closed_buffer_fallback;
use runyte::selection::{Range, Selection, SelectionSemantics};
use runyte::text::Text;
use runyte::vim::{enter_insert, enter_normal_mode};

fn app() -> App {
    App::new(
        Keymap { leader: KeyStroke::plain(KeyCode::Char(' ')), window_prefix: KeyStroke::ctrl('w') },
        GrammarKind::Runyte,
    )
}

fn key(code: KeyCode) -> KeyStroke {
    KeyStroke::plain(code)
}

fn text(s: &str) -> Text {
    Text::from_chars(s.chars().collect())
}

#[test]
fn entering_normal_mode_keeps_carets() {
    let t = text("abc\nde");
    let s = Selection::new(vec![Range::new(0, 3), Range::new(4, 4)], 0);
    let (n, semantics, mode) = enter_normal_mode(&t, &s, SelectionSemantics::Runyte, Mode::Insert, GrammarKind::Vim);
    assert_eq!(n.ranges, vec![Range::new(2, 2), Range::new(4, 4)]);
    assert_eq!(semantics, SelectionSemantics::HalfOpen);
    assert_eq!(mode, Mode::Normal);
    let (n, semantics, _) = enter_normal_mode(&t, &s, SelectionSemantics::Runyte, Mode::Select, GrammarKind::Runyte);
    assert_eq!(n.ranges, vec![Range::new(3, 3), Range::new(4, 4)]);
    assert_eq!(semantics, SelectionSemantics::Runyte);
}

#[test]
fn entering_insert_places_carets_before_or_after() {
    let t = text("abc\nde");
    let s = Selection::new(vec![Range::new(2, 0), Range::new(4, 4)], 1);
    let (before, mode) = enter_insert(&t, &s, false);
    assert_eq!(before.ranges, vec![Range::new(0, 0), Range::new(4, 4)]);
    assert_eq!(before.primary, 1);
    assert_eq!(mode, Mode::Insert);
    let (after, _) = enter_insert(&t, &s, true);
    assert_eq!(after.ranges, vec![Range::new(3, 3), Range::new(5, 5)]);
    let (end, _) = enter_insert(&t, &Selection::point(2), true);
    assert_eq!(end.ranges, vec![Range::new(3, 3)]);
}

#[test]
fn buffer_actions_run() {
    let mut a = app();
    assert_eq!(a.run_buffer_action(0, BufferAction::Save, "a.rs"), Some(BufferAction::Save));
    assert_eq!(a.run_buffer_action(0, BufferAction::Discard, "a.rs"), None);
    assert_eq!(a.buffer_discard_confirmation, Some(0));
    assert_eq!(a.status, "Discard changes to a.rs?\nEnter confirms.\nEscape cancels.");
    assert_eq!(a.run_buffer_action(0, BufferAction::Close, "a.rs"), Some(BufferAction::Close));
}

#[test]
fn closing_the_active_buffer() {
    let mut a = app();
    assert_eq!(a.close_active_buffer(false), Some(0));
    a.buffers[0].dirty = true;
    assert_eq!(a.close_active_buffer(false), None);
    assert_eq!(a.status, "modified buffer; use :close! to discard its unsaved changes");
    assert!(a.status_error);
    assert_eq!(a.close_active_buffer(true), Some(0));
    a.panes[0].terminal = Some(3);
    assert_eq!(a.close_active_buffer(true), None);
    assert_eq!(a.status, "a terminal is not a buffer; close it explicitly in :terminals");
}

#[test]
fn program_actions_store_and_report() {
    let vim = ProgramChoice { program: String::from("vim"), system: false, remembered: true, is_default: false };
    let opener = ProgramChoice { program: String::from("xdg-open"), system: true, remembered: false, is_default: false };
    assert!(matches!(program_storage_call(&vim, ProgramAction::Delete), ProgramStorageCall::Forget(p) if p == "vim"));
    assert!(matches!(
        program_storage_call(&vim, ProgramAction::SetDefault),
        ProgramStorageCall::SetDefault(Some(p)) if p == "vim"
    ));
    assert!(matches!(program_storage_call(&opener, ProgramAction::SetDefault), ProgramStorageCall::SetDefault(None)));
    let mut a = app();
    a.command = "vi".chars().collect();
    a.command_cursor = 2;
    a.run_program_action(&vim, ProgramAction::SetDefault, Ok(()));
    assert_eq!(a.status, "vim is now the default application");
    assert!(a.command.is_empty());
    assert_eq!(a.command_cursor, 0);
    a.run_program_action(&vim, ProgramAction::Delete, Ok(()));
    assert_eq!(a.status, "forgot vim");
    a.command = "x".chars().collect();
    a.run_program_action(&vim, ProgramAction::Delete, Err(String::from("read-only store")));
    assert_eq!(a.status, "read-only store");
    assert!(a.status_error);
    assert_eq!(a.command.len(), 1);
}

#[test]
fn completion_popup_keys() {
    let mut a = app();
    assert_eq!(
        a.handle_completion_key(key(KeyCode::Tab)),
        CompletionStep { action: CompletionAction::Passed, consumed: false }
    );
    a.completion = Some(CompletionSource::Language);
    assert_eq!(
        a.handle_completion_key(KeyStroke::ctrl('n')),
        CompletionStep { action: CompletionAction::Step(true), consumed: true }
    );
    assert_eq!(a.handle_completion_key(key(KeyCode::Tab)).action, CompletionAction::Accept);
    assert_eq!(
        a.handle_completion_key(key(KeyCode::Char('x'))),
        CompletionStep { action: CompletionAction::Passed, consumed: false }
    );
    assert_eq!(
        a.handle_completion_key(key(KeyCode::Escape)),
        CompletionStep { action: CompletionAction::Dismissed, consumed: true }
    );
    assert!(a.completion.is_none());
    a.completion = Some(CompletionSource::Word);
    assert!(!a.handle_completion_key(key(KeyCode::Escape)).consumed);
    a.completion = Some(CompletionSource::Path);
    a.buffers[0].kind = BufferKind::Directory;
    assert!(!a.handle_completion_key(key(KeyCode::Escape)).consumed);
    a.completion = Some(CompletionSource::Path);
    assert_eq!(
        a.handle_completion_key(key(KeyCode::Enter)),
        CompletionStep { action: CompletionAction::Dismissed, consumed: false }
    );
    assert!(a.completion.is_none());
}

#[test]
fn discarding_buffer_changes_by_kind() {

    let mut a = app();
    a.buffers[0].syntax_ready = true;
    assert_eq!(a.discard_buffer_changes(0), DiscardPlan::Clear(0));
    assert!(!a.buffers[0].syntax_ready);
    a.buffers[0].kind = BufferKind::File;
    assert_eq!(a.discard_buffer_changes(0), DiscardPlan::Reload(0));
    a.buffers[0].kind = BufferKind::CommitMessage;
    assert_eq!(a.discard_buffer_changes(0), DiscardPlan::Abandon(0));
    a.buffers[0].kind = BufferKind::GitLog;
    assert_eq!(a.discard_buffer_changes(0), DiscardPlan::Refused);
    assert_eq!(a.status, "virtual buffers have no changes to discard");
    a.buffers[0].kind = BufferKind::Directory;
    assert_eq!(a.discard_buffer_changes(0), DiscardPlan::Refused);
    assert_eq!(a.status, "this buffer cannot be discarded here");
    a.report_discarded("notes");
    assert_eq!(a.status, "discarded changes to notes");
    assert!(!a.status_error);
}

#[test]
fn closed_buffers_fall_back_to_history_then_round() {
    let mut history = vec![1, 4, 2, 3, 2];
    assert_eq!(closed_buffer_fallback(&mut history, 2, 5, &vec![3]), Some(4));
    assert_eq!(history, vec![1]);
    let mut history = vec![7, 2];
    assert_eq!(closed_buffer_fallback(&mut history, 2, 5, &vec![3, 4]), Some(0));
    assert!(history.is_empty());
    let mut history = Vec::new();
    assert_eq!(closed_buffer_fallback(&mut history, 1, 3, &vec![0, 2]), None);
    assert_eq!(closed_buffer_fallback(&mut history, 0, 1, &vec![]), None);
}

#[test]
fn command_selection_wraps_round() {
    let mut a = app();
    a.select_previous_command(3);
    assert_eq!(a.command_selection, 2);
    a.select_next_command(3);
    assert_eq!(a.command_selection, 0);
    a.select_next_command(0);
    assert_eq!(a.command_selection, 0);
    a.command_selection = 7;
    a.select_next_command(3);
    assert_eq!(a.command_selection, 2);
    a.command_selection = 7;
    a.select_previous_command(3);
    assert_eq!(a.command_selection, 0);
}

#[test]
fn path_popup_needs_a_path() {
    let mut a = app();
    a.open_path_popup(None);
    assert_eq!(a.status, "buffer has no path");
    assert!(a.menus.path_popup.is_none());
    a.open_path_popup(Some(String::from("/p/a.rs")));
    assert_eq!(a.menus.path_popup.as_deref(), Some("/p/a.rs"));
}

#[test]
fn reopening_the_lsp_permission_retries_storage() {
    let mut a = app();
    a.lsp.trust_store = Some(true);
    a.lsp.trust_error = Some(String::from("Cannot read LSP permission: busy"));
    a.lsp.open_lsp_trust(Some(Ok(())));
    assert!(a.lsp.trust_error.is_none());
    assert!(a.lsp.list_open);
    assert_eq!(a.lsp.list_actions.len(), 3);
    a.lsp.open_lsp_trust(Some(Err(String::from("denied"))));
    assert_eq!(a.lsp.trust_error.as_deref(), Some("Cannot read LSP permission: denied"));
    assert_eq!(a.lsp.list_actions.len(), 2);
}
