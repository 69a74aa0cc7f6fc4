use std::collections::HashMap;

use runyte::app::{
    App, Autoscroll, BufferInfo, BufferKind, ContentScan, Finder, FinderMode, FinderRefresh,
    Keymap, ListAction, Pane, PaneBody, ParentWaitError, ParentWaitStep, PersistentExitRequest, PointerDrag,
    PromptKind, Terminal,
};
use runyte::keys::{GrammarKind, KeyCode, KeyStroke, Modifiers, Mode, PointerEvent};

fn keymap() -> Keymap {
    Keymap {
        leader: KeyStroke::plain(KeyCode::Char(' ')),
        window_prefix: KeyStroke::ctrl('w'),
    }
}

fn app() -> App {
    App::new(keymap(), GrammarKind::Runyte)
}

#[test]
fn key_hint_modes() {
    let mut a = app();
    assert_eq!(a.key_hint_mode(), Some(Mode::Normal));
    a.mode = Mode::Select;
    assert_eq!(a.key_hint_mode(), Some(Mode::Select));
    a.grammar.kind = GrammarKind::Vim;
    assert_eq!(a.key_hint_mode(), Some(Mode::Normal));
    a.grammar.awaiting_character = true;
    assert_eq!(a.key_hint_mode(), None);
    a.grammar.awaiting_character = false;
    a.mode = Mode::Insert;
    assert_eq!(a.key_hint_mode(), None);
    assert_eq!(a.key_hint_mode_for_key(KeyStroke::ctrl('w')), Some(Mode::Insert));
    assert_eq!(a.key_hint_mode_for_key(KeyStroke::plain(KeyCode::Char('x'))), None);
}

#[test]
fn grammar_accessors() {
    let mut a = app();
    a.grammar.count = Some(3);
    a.grammar.pending.push(KeyStroke::plain(KeyCode::Char('g')));
    assert_eq!(a.pending_count(), Some(3));
    assert_eq!(a.pending_sequence().len(), 1);
    assert_eq!(a.grammar_kind(), GrammarKind::Runyte);
    let other = Keymap {
        leader: KeyStroke::plain(KeyCode::Char(',')),
        window_prefix: KeyStroke::ctrl('x'),
    };
    a.set_keymap(other);
    assert_eq!(*a.keymap(), other);
}

#[test]
fn exit_request_is_taken_once() {
    let mut a = app();
    assert_eq!(a.take_persistent_exit_request(), None);
    a.should_quit = true;
    assert_eq!(
        a.take_persistent_exit_request(),
        Some(PersistentExitRequest::Quit { force: false })
    );
    assert_eq!(a.take_persistent_exit_request(), None);
    a.should_quit = true;
    a.persistent_exit_request = Some(PersistentExitRequest::Quit { force: true });
    assert_eq!(
        a.take_persistent_exit_request(),
        Some(PersistentExitRequest::Quit { force: true })
    );
    assert_eq!(a.persistent_exit_request, None);
}

#[test]
fn pointer_drag_cancel() {
    let mut a = app();
    assert!(!a.pointer_selection_drag_active());
    assert!(!a.cancel_pointer_drag());
    let drag = PointerDrag::Selection { pane: 0, buffer: 0, anchor: 2 };
    a.pointer_drag = Some(drag);
    a.pointer_autoscroll = Some(Autoscroll {
        drag,
        event: PointerEvent { column: 1, row: 0, modifiers: Modifiers::none() },
        direction: -1,
        due: 160,
    });
    assert!(a.pointer_selection_drag_active());
    assert_eq!(a.pointer_autoscroll_delay(100), Some(60));
    assert_eq!(a.pointer_autoscroll_delay(200), Some(0));
    a.input_overlay = true;
    assert_eq!(a.pointer_autoscroll_delay(100), None);
    a.input_overlay = false;
    assert!(a.cancel_pointer_drag());
    assert!(!a.pointer_selection_drag_active());
    assert_eq!(a.pointer_autoscroll_delay(100), None);
}

fn with_terminal(live: bool) -> App {
    let mut a = app();
    a.terminals.push(Terminal { id: 7, live });
    a.panes.push(Pane { id: 1, buffer: 0, terminal: Some(7), covered_terminal: None });
    a
}

#[test]
fn parent_wait_origins() {
    let mut a = with_terminal(true);
    assert!(a.parent_wait_origin_available(7));
    assert!(!a.parent_wait_origin_available(8));
    assert_eq!(a.begin_parent_wait(7, &vec![3, 4]), Ok(()));
    assert_eq!(a.active_pane, 1);
    assert_eq!(a.mode, Mode::Normal);
    assert_eq!(a.panes[1].buffer, 3);
    assert_eq!(a.panes[1].covered_terminal, Some((3, 7)));
    assert_eq!(a.panes[1].terminal, None);
    assert_eq!(a.parent_wait_origins, vec![(3, (1, 7)), (4, (1, 7))]);
    assert_eq!(a.status, ":wq saves and returns to terminal");
    // The covering buffer still leads back to the terminal.
    assert!(a.parent_wait_origin_available(7));

    let mut waited = HashMap::new();
    waited.insert(4, 1);
    a.set_parent_wait_buffers(waited);
    assert_eq!(a.parent_wait_origins, vec![(4, (1, 7))]);

    a.parent_wait_actions.push((4, false));
    assert_eq!(a.take_parent_wait_actions(), vec![(4, false)]);
    assert!(a.take_parent_wait_actions().is_empty());
}

#[test]
fn parent_wait_refusals() {
    let mut hidden = app();
    assert_eq!(hidden.begin_parent_wait(7, &vec![1]), Err(ParentWaitError::OriginNotVisible));
    let mut exited = with_terminal(false);
    assert!(!exited.parent_wait_origin_available(7));
    assert_eq!(exited.begin_parent_wait(7, &vec![1]), Err(ParentWaitError::OriginExited));
}

#[test]
fn plugin_frontend_generations() {
    let mut a = app();
    assert!(!a.plugin_input_active());
    a.note_plugin_frontend(false);
    assert_eq!(a.plugins.attachment_generation, 0);
    a.note_plugin_frontend(true);
    assert_eq!(a.plugins.attachment_generation, 1);
    a.note_plugin_frontend(true);
    assert_eq!(a.plugins.attachment_generation, 1);
    a.note_plugin_frontend(false);
    assert_eq!(a.plugins.attachment_generation, 2);
}

#[test]
fn finder_flags_and_refresh() {
    let mut a = app();
    assert!(!a.resource_finder_scan_pending());
    assert!(!a.finder_scan_refills());
    assert!(!a.finder_terminals_dirty());
    a.note_terminal_finder_change(3);
    assert!(!a.finder_terminals_dirty());
    a.finder = Some(Finder { mode: FinderMode::Names, name_rank_pending: true });
    assert!(a.resource_finder_scan_pending());
    a.note_terminal_finder_change(3);
    a.note_terminal_finder_change(3);
    a.note_terminal_finder_change(5);
    assert!(a.finder_terminals_dirty());
    a.finder_content_scan = Some(ContentScan { refilling: true });
    assert!(a.finder_scan_refills());
    assert!(matches!(a.refresh_finder_terminals(), FinderRefresh::Nothing));
    a.finder_content_scan = None;
    match a.refresh_finder_terminals() {
        FinderRefresh::Names(t) => assert_eq!(t, vec![3, 5]),
        _ => panic!("expected a name refresh"),
    }
    assert!(!a.finder_terminals_dirty());
}

#[test]
fn prompt_control_keys() {
    let mut a = app();
    a.open_prompt_with_value(PromptKind::Command, "foo bar".chars().collect());
    assert_eq!(a.mode, Mode::Command);
    assert_eq!(a.command_cursor, 7);
    a.handle_prompt_control(KeyStroke::ctrl('w'));
    assert_eq!(a.command.iter().collect::<String>(), "foo ");
    a.handle_prompt_control(KeyStroke::ctrl('a'));
    assert_eq!(a.command_cursor, 0);
    a.handle_prompt_control(KeyStroke::ctrl('d'));
    assert_eq!(a.command.iter().collect::<String>(), "oo ");
    a.handle_prompt_control(KeyStroke::ctrl('e'));
    a.handle_prompt_control(KeyStroke::ctrl('h'));
    assert_eq!(a.command.iter().collect::<String>(), "oo");
    a.handle_prompt_control(KeyStroke::ctrl('u'));
    assert!(a.command.is_empty());
    a.handle_prompt_control(KeyStroke::ctrl('c'));
    assert_eq!(a.mode, Mode::Normal);
    assert_eq!(a.prompt_kind, PromptKind::Command);
}

fn waiting_on(buffers: &[usize]) -> App {
    let mut a = with_terminal(true);
    for _ in 0..4 {
        a.buffers.push(BufferInfo {
            kind: BufferKind::File,
            dirty: false,
            empty: false,
            language: None,
            syntax_ready: false,
            syntax_stale: false,
            revision: 0,
            provider: None,
            len_bytes: 0,
            mutation_pending: false,
        });
    }
    assert_eq!(a.begin_parent_wait(7, &buffers.to_vec()), Ok(()));
    let mut waited = HashMap::new();
    for b in buffers {
        waited.insert(*b, 1);
    }
    a.set_parent_wait_buffers(waited);
    a
}

#[test]
fn parent_wait_completes_back_to_the_terminal() {
    let mut a = waiting_on(&[3, 4]);
    a.buffers[3].mutation_pending = true;
    assert_eq!(a.complete_parent_wait(false), ParentWaitStep::WritePending);
    a.buffers[3].mutation_pending = false;
    assert_eq!(
        a.complete_parent_wait(false),
        ParentWaitStep::Finished { buffer: 3, cancel: false, return_to: Some((1, 7)) }
    );
    assert_eq!(a.status, "external edit completed");
    assert_eq!(a.parent_wait_actions, vec![(3, false)]);
    assert!(!a.parent_wait_buffers.contains_key(&3));
    assert_eq!(a.parent_wait_origins, vec![(4, (1, 7))]);
    assert_eq!(a.complete_parent_wait(false), ParentWaitStep::NotWaiting);
}

#[test]
fn parent_wait_with_unsaved_changes() {
    let mut a = waiting_on(&[3]);
    a.buffers[3].dirty = true;
    assert_eq!(a.complete_parent_wait(false), ParentWaitStep::Refused);
    assert_eq!(a.status, "unsaved changes · :wq saves and returns to terminal");
    assert_eq!(a.complete_parent_wait(true), ParentWaitStep::Discard(3));
    a.parent_wait_buffers.insert(3, 2);
    assert_eq!(a.complete_parent_wait(true), ParentWaitStep::Refused);
    assert_eq!(a.status, "another pending request shares this buffer; save before canceling");
    a.parent_wait_buffers.insert(3, 1);
    a.buffers[3].dirty = false;
    a.terminals[0].live = false;
    assert_eq!(
        a.complete_parent_wait(true),
        ParentWaitStep::Finished { buffer: 3, cancel: true, return_to: None }
    );
    assert_eq!(a.status, "external editor request canceled");
}

#[test]
fn edge_drags_scroll_on_a_steady_schedule() {
    let mut a = app();
    let drag = PointerDrag::Selection { pane: 0, buffer: 0, anchor: 3 };
    a.pointer_drag = Some(drag);
    let body = Some(PaneBody { y: 2, height: 10 });
    let at = |row: u16| PointerEvent { column: 4, row, modifiers: Modifiers::none() };
    a.update_pointer_autoscroll(at(1), body, 100);
    assert_eq!(a.pointer_autoscroll.map(|s| (s.direction, s.due)), Some((-1, 160)));
    a.update_pointer_autoscroll(at(2), body, 130);
    assert_eq!(a.pointer_autoscroll.map(|s| (s.direction, s.due)), Some((-1, 160)));
    a.update_pointer_autoscroll(at(11), body, 130);
    assert_eq!(a.pointer_autoscroll.map(|s| (s.direction, s.due)), Some((1, 190)));
    assert_eq!(a.pointer_autoscroll_due(150), None);
    assert!(a.pointer_autoscroll_due(400).is_some());
    // A late step schedules the next one from when it ran.
    assert!(a.finish_pointer_autoscroll(true, 400));
    assert_eq!(a.pointer_autoscroll.map(|s| s.due), Some(460));
    assert!(!a.finish_pointer_autoscroll(false, 470));
    assert!(a.pointer_autoscroll.is_none());
    a.update_pointer_autoscroll(at(6), body, 500);
    assert!(a.pointer_autoscroll.is_none());
    a.update_pointer_autoscroll(at(2), Some(PaneBody { y: 2, height: 1 }), 500);
    assert!(a.pointer_autoscroll.is_none());
    a.pointer_drag = None;
    a.update_pointer_autoscroll(at(2), body, 500);
    assert!(a.pointer_autoscroll.is_none());
}

#[test]
fn buffer_list_skips_closed_and_hidden_empty_scratch() {
    let mut a = app();
    for kind in [BufferKind::File, BufferKind::Scratch, BufferKind::File] {
        a.buffers.push(BufferInfo {
            kind,
            dirty: false,
            empty: true,
            language: None,
            syntax_ready: false,
            syntax_stale: false,
            revision: 0,
            provider: None,
            len_bytes: 0,
            mutation_pending: false,
        });
    }
    a.closed_buffers = vec![3];
    // Buffer 0 is an empty scratch buffer, but the first pane shows it.
    assert!(a.buffer_is_discoverable(0));
    assert!(a.buffer_is_discoverable(1));
    assert!(!a.buffer_is_discoverable(2));
    assert!(!a.buffer_is_discoverable(3));
    assert!(!a.buffer_is_discoverable(9));
    assert_eq!(a.buffer_list_actions(), vec![ListAction::Buffer(0), ListAction::Buffer(1)]);
    a.buffers[2].dirty = true;
    assert_eq!(
        a.buffer_list_actions(),
        vec![ListAction::Buffer(0), ListAction::Buffer(1), ListAction::Buffer(2)]
    );
}
