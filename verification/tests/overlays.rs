use runyte::app::{
    App, PathClipboardTarget, BufferKind, CommandAvailability, FsConfirmation, Keymap, ListAction, ProgramAction,
    PromptKind, PullRebase, SessionAction, Severity, TerminalAction, Terminal, TypedConfirmation,
    WorkspaceRow,
};
use runyte::confirm::{ConfirmationOutcome, DeletionAuthorization, DeletionMode};
use runyte::keys::{GrammarKind, KeyCode, KeyStroke, Modifiers, Mode};
use runyte::lsp::{BufferAction, TrustStorageCall, TrustStoreOutcome};
use runyte::menu::Menu;
use runyte::menus::{ActionMenuOutcome, ContextAction, SessionMenuOutcome, TerminalMenuOutcome};
use runyte::programs::PromptKeyOutcome;
use runyte::route::KeyRoute;
use runyte::text_input::TextRoute;

fn app() -> App {
    App::new(
        Keymap { leader: KeyStroke::plain(KeyCode::Char(' ')), window_prefix: KeyStroke::ctrl('w') },
        GrammarKind::Runyte,
    )
}

fn key(code: KeyCode) -> KeyStroke {
    KeyStroke::plain(code)
}

fn typed(expected: &str, typed: bool) -> TypedConfirmation {
    TypedConfirmation {
        input: Vec::new(),
        cursor: 0,
        expected: expected.chars().collect(),
        typed,
        subject: String::from("/tmp/wt"),
        cancelled_message: String::from("switch cancelled"),
    }
}

#[test]
fn fs_confirmation_navigation() {
    let mut a = app();
    a.fs_confirmation = Some(FsConfirmation { buffer: 0, operations: 25, selected: 0 });
    assert_eq!(a.handle_fs_confirmation(key(KeyCode::Down)), None);
    assert_eq!(a.fs_confirmation.unwrap().selected, 1);
    a.handle_fs_confirmation(key(KeyCode::PageDown));
    assert_eq!(a.fs_confirmation.unwrap().selected, 11);
    a.handle_fs_confirmation(key(KeyCode::End));
    assert_eq!(a.fs_confirmation.unwrap().selected, 24);
    a.handle_fs_confirmation(key(KeyCode::PageDown));
    assert_eq!(a.fs_confirmation.unwrap().selected, 24);
    a.handle_fs_confirmation(KeyStroke::ctrl('u'));
    assert_eq!(a.fs_confirmation.unwrap().selected, 14);
    a.handle_fs_confirmation(key(KeyCode::Home));
    assert_eq!(a.fs_confirmation.unwrap().selected, 0);
    a.handle_fs_confirmation(key(KeyCode::Up));
    assert_eq!(a.fs_confirmation.unwrap().selected, 0);
    assert_eq!(a.handle_fs_confirmation(key(KeyCode::Enter)), Some(DeletionMode::Trash));
    assert_eq!(
        a.handle_fs_confirmation(key(KeyCode::Char('P'))),
        Some(DeletionMode::Permanent)
    );
    assert_eq!(a.handle_fs_confirmation(key(KeyCode::Escape)), None);
    assert!(a.fs_confirmation.is_none());
    assert_eq!(a.status, "filesystem plan cancelled");
}

#[test]
fn branch_deletion_needs_exact_name() {
    let mut a = app();
    a.git_branch_deletion = Some(typed("main", true));
    assert_eq!(
        a.handle_branch_deletion_confirmation(key(KeyCode::Enter)),
        ConfirmationOutcome::Refused
    );
    assert_eq!(a.status, "type the exact branch name before deleting it");
    assert!(a.status_error);
    for c in "main".chars() {
        assert_eq!(
            a.handle_branch_deletion_confirmation(key(KeyCode::Char(c))),
            ConfirmationOutcome::Edited
        );
    }
    assert_eq!(a.confirmation_revision, 4);
    assert_eq!(
        a.handle_branch_deletion_confirmation(key(KeyCode::Enter)),
        ConfirmationOutcome::Confirmed(DeletionAuthorization::Typed)
    );
    assert!(a.git_branch_deletion.is_none());
}

#[test]
fn untyped_deletion_confirms_on_enter() {
    let mut a = app();
    a.git_branch_deletion = Some(typed("main", false));
    assert_eq!(
        a.handle_branch_deletion_confirmation(key(KeyCode::Char('x'))),
        ConfirmationOutcome::Ignored
    );
    assert_eq!(
        a.handle_branch_deletion_confirmation(key(KeyCode::Enter)),
        ConfirmationOutcome::Confirmed(DeletionAuthorization::Enter)
    );
}

#[test]
fn worktree_and_switch_cancel_messages() {
    let mut a = app();
    a.git_worktree_removal = Some(typed("feature", true));
    assert_eq!(
        a.handle_worktree_removal_confirmation(key(KeyCode::Escape)),
        ConfirmationOutcome::Cancelled
    );
    assert_eq!(a.status, "remove cancelled; worktree /tmp/wt was kept and no branch was deleted");
    a.git_branch_switch = Some(typed("dev", true));
    assert_eq!(
        a.handle_branch_switch_confirmation(KeyStroke::ctrl('c')),
        ConfirmationOutcome::Cancelled
    );
    assert_eq!(a.status, "switch cancelled");
}

#[test]
fn pull_rebase_refusal_reports_drift() {
    let mut a = app();
    a.git_pull_rebase = Some(PullRebase {
        branch: String::from("main"),
        behind: 3,
        upstream: String::from("origin/main"),
    });
    assert!(!a.handle_pull_rebase_confirmation(key(KeyCode::Escape)));
    assert_eq!(a.status, "main was left as it is, still 3 commit(s) behind origin/main");
    a.git_pull_rebase = Some(PullRebase {
        branch: String::from("main"),
        behind: 1,
        upstream: String::from("origin/main"),
    });
    assert!(a.handle_pull_rebase_confirmation(key(KeyCode::Enter)));
    assert!(a.git_pull_rebase.is_none());
}

#[test]
fn buffer_discard_confirmation() {
    let mut a = app();
    a.buffer_discard_confirmation = Some(0);
    assert_eq!(a.handle_buffer_discard_confirmation(key(KeyCode::Char('x'))), None);
    assert_eq!(a.handle_buffer_discard_confirmation(key(KeyCode::Enter)), Some(0));
    assert!(a.buffer_discard_confirmation.is_none());
}

#[test]
fn typed_text_reaches_confirmation_and_prompt() {
    let mut a = app();
    a.git_branch_switch = Some(typed("dev", true));
    assert_eq!(a.handle_text(&"de".chars().collect()), TextRoute::Consumed);
    assert_eq!(a.git_branch_switch.as_ref().unwrap().input, vec!['d', 'e']);
    a.git_branch_switch = None;
    a.open_prompt(PromptKind::Command);
    assert_eq!(a.handle_text(&"wq".chars().collect()), TextRoute::Consumed);
    assert_eq!(a.command, vec!['w', 'q']);
    a.close_prompt();
    a.mode = Mode::Insert;
    assert_eq!(a.handle_text(&"x".chars().collect()), TextRoute::Document);
    a.picker_query = Some(Vec::new());
    assert_eq!(a.handle_text(&"x".chars().collect()), TextRoute::PickerQuery);
}

#[test]
fn space_and_overlays() {
    let mut a = app();
    assert!(!a.space_dismisses_input_overlay());
    a.picker_query = Some(Vec::new());
    assert!(a.space_dismisses_input_overlay());
    a.picker_query = Some(vec!['a']);
    assert!(!a.space_dismisses_input_overlay());
    a.git_branch_switch = Some(typed("dev", true));
    assert!(a.exact_confirmation_accepts_space());
    assert!(!a.space_dismisses_input_overlay());
}

fn with_programs() -> App {
    let mut a = app();
    a.programs = vec![String::from("code"), String::from("vim"), String::from("cat")];
    a.default_program = Some(String::from("vim"));
    a.system_program = Some(String::from("xdg-open"));
    a.open_prompt(PromptKind::ExternalProgram);
    a
}

#[test]
fn program_choices_list_default_first() {
    let a = with_programs();
    let rows: Vec<(String, bool, bool, bool)> = a
        .matching_program_choices()
        .into_iter()
        .map(|c| (c.program, c.system, c.remembered, c.is_default))
        .collect();
    assert_eq!(
        rows,
        vec![
            (String::from("vim"), false, true, true),
            (String::from("xdg-open"), true, false, false),
            (String::from("code"), false, true, false),
            (String::from("cat"), false, true, false),
        ]
    );
    let mut b = with_programs();
    b.command = vec!['c'];
    assert_eq!(b.matching_programs(), vec![String::from("code"), String::from("cat")]);
    let names: Vec<String> = b.matching_program_choices().into_iter().map(|c| c.program).collect();
    assert_eq!(names, vec![String::from("code"), String::from("cat")]);
}

#[test]
fn program_actions_menu() {
    let mut a = with_programs();
    a.command_selection = 2;
    a.open_program_actions();
    let (_, menu) = a.program_action_menu.as_ref().unwrap();
    assert_eq!(menu.actions, vec![ProgramAction::Delete, ProgramAction::SetDefault]);
    a.handle_program_action_key(key(KeyCode::Down));
    let chosen = a.handle_program_action_key(key(KeyCode::Enter)).unwrap();
    assert_eq!(chosen.0.program, "code");
    assert_eq!(chosen.1, ProgramAction::SetDefault);
    a.handle_program_action_key(key(KeyCode::Escape));
    assert!(a.program_action_menu.is_none());
    a.command_selection = 1;
    let mut no_default = with_programs();
    no_default.default_program = None;
    no_default.command_selection = 0;
    no_default.open_program_actions();
    assert_eq!(no_default.status, "the system opener is already the default");
}

#[test]
fn prompt_keys_edit_and_submit() {
    let mut a = app();
    a.open_prompt(PromptKind::Command);
    for c in "sav".chars() {
        a.handle_search_prompt(key(KeyCode::Char(c)));
    }
    a.handle_search_prompt(key(KeyCode::Left));
    a.handle_search_prompt(key(KeyCode::Backspace));
    assert_eq!(a.command, vec!['s', 'v']);
    a.handle_search_prompt(KeyStroke::new(KeyCode::Char('b'), Modifiers::alt()));
    assert_eq!(a.command_cursor, 0);
    match a.handle_search_prompt(key(KeyCode::Enter)) {
        PromptKeyOutcome::Submitted { kind, value, choice } => {
            assert_eq!(kind, PromptKind::Command);
            assert_eq!(value, vec!['s', 'v']);
            assert!(choice.is_none());
        }
        _ => panic!("expected a submission"),
    }
    assert_eq!(a.mode, Mode::Normal);
    assert!(a.command.is_empty());
}

#[test]
fn terminal_menu_arms_before_closing_hidden_terminal() {
    let mut a = app();
    a.terminals.push(Terminal { id: 4, live: true });
    a.open_terminal_actions(4);
    a.handle_terminal_action_key(key(KeyCode::Down));
    a.handle_terminal_action_key(key(KeyCode::Down));
    assert_eq!(a.handle_terminal_action_key(key(KeyCode::Enter)), TerminalMenuOutcome::Armed);
    assert_eq!(a.status, "closing ends this hidden live process; press Enter again");
    assert_eq!(
        a.handle_terminal_action_key(key(KeyCode::Enter)),
        TerminalMenuOutcome::Run { id: 4, action: TerminalAction::Close }
    );
    assert!(a.menus.terminal.is_none());
    a.open_terminal_actions(9);
    assert_eq!(a.status, "that terminal is gone");
}

#[test]
fn session_menu_actions() {
    let mut a = app();
    a.workspace_rows.push(WorkspaceRow { running: false, name: Some(String::from("web")), number: Some(12) });
    a.workspace_rows.push(WorkspaceRow { running: true, name: None, number: None });
    a.open_session_actions(1);
    a.handle_session_action_key(key(KeyCode::Up));
    assert_eq!(a.handle_session_action_key(key(KeyCode::Enter)), SessionMenuOutcome::Armed);
    assert_eq!(
        a.handle_session_action_key(key(KeyCode::Enter)),
        SessionMenuOutcome::Stop { row: 1, force: true }
    );
    a.open_session_actions(0);
    assert_eq!(
        a.menus.session.as_ref().unwrap().1.actions,
        vec![SessionAction::Open, SessionAction::Rename, SessionAction::Number, SessionAction::Forget]
    );
    a.handle_session_action_key(key(KeyCode::Down));
    a.handle_session_action_key(key(KeyCode::Down));
    assert_eq!(a.handle_session_action_key(key(KeyCode::Enter)), SessionMenuOutcome::Prompted { row: 0 });
    assert_eq!(a.prompt_kind, PromptKind::SessionNumber);
    assert_eq!(a.command, vec!['1', '2']);
    assert_eq!(a.command_cursor, 2);
}

#[test]
fn buffer_actions() {
    let mut a = app();
    assert_eq!(a.available_buffer_actions(0), vec![BufferAction::Close]);
    a.buffers[0].dirty = true;
    assert_eq!(a.available_buffer_actions(0), vec![BufferAction::Discard]);
    a.buffers[0].kind = BufferKind::File;
    assert_eq!(a.available_buffer_actions(0), vec![BufferAction::Save, BufferAction::Discard]);
    a.buffers[0].kind = BufferKind::GitLog;
    assert!(a.available_buffer_actions(0).is_empty());
    assert!(a.available_buffer_actions(5).is_empty());
    a.open_buffer_actions(0);
    assert_eq!(a.status, "this modified buffer must be opened before it can be managed");
    a.buffers[0].kind = BufferKind::File;
    a.open_buffer_actions(0);
    a.handle_buffer_action_key(key(KeyCode::Down));
    assert_eq!(a.handle_buffer_action_key(key(KeyCode::Enter)), Some((0, BufferAction::Discard)));
    a.request_buffer_discard(0, "notes.txt");
    assert_eq!(a.buffer_discard_confirmation, Some(0));
    assert!(a.menus.buffer.is_none());
}

#[test]
fn lsp_summary_and_capabilities() {
    let mut a = app();
    assert_eq!(a.lsp_summary(), None);
    a.buffers[0].language = Some(String::from("rust"));
    a.lsp.servers.push((String::from("rust"), String::from("rust-analyzer")));
    assert_eq!(a.lsp_summary(), Some(String::from("rust-analyzer")));
    let rust = || String::from("rust");
    a.lsp.diagnostics = vec![(rust(), Severity::Error), (rust(), Severity::Warning), (rust(), Severity::Warning), (rust(), Severity::Hint)];
    assert_eq!(a.lsp_summary(), Some(String::from("rust-analyzer 1E 2W")));

    let caps = a.command_capabilities();
    match caps.lsp_manager {
        CommandAvailability::Unavailable(reason) => {
            assert_eq!(reason, "LSP is disabled for this workspace; use :lsp-trust")
        }
        _ => panic!("manager should be unavailable"),
    }
    match caps.lsp_document {
        CommandAvailability::Unavailable(reason) => {
            assert_eq!(reason, "LSP is disabled for this workspace; use :lsp-trust")
        }
        _ => panic!("document should be unavailable"),
    }
    match caps.git_project {
        CommandAvailability::Unavailable(reason) => assert_eq!(reason, "no `git` executable was found"),
        _ => panic!("git should be unavailable"),
    }
    a.syntax_errors.push((String::from("rust"), String::from("bad grammar")));
    match a.command_capabilities().syntax {
        CommandAvailability::Unavailable(reason) => assert_eq!(reason, "syntax unavailable: bad grammar"),
        _ => panic!("syntax should be unavailable"),
    }
    a.lsp.workspace_allowed = true;
    a.lsp.attached = true;
    match a.command_capabilities().lsp_document {
        CommandAvailability::Unavailable(reason) => {
            assert_eq!(reason, "no language server is configured for rust")
        }
        _ => panic!("document should be unavailable"),
    }
    a.lsp.config_servers.push(String::from("rust"));
    a.lsp.documents.push(0);
    assert!(matches!(a.command_capabilities().lsp_document, CommandAvailability::Available));
}

#[test]
fn lsp_trust_flow() {
    let mut a = app();
    a.configure_lsp_trust(TrustStoreOutcome::Opened { can_remember: true, load: Ok(None) });
    assert!(!a.lsp.workspace_allowed);
    assert!(a.lsp.list_open);
    assert_eq!(
        a.lsp.list_actions,
        vec![
            ListAction::LspTrust { allowed: false, remember: true },
            ListAction::LspTrust { allowed: true, remember: false },
            ListAction::LspTrust { allowed: true, remember: true },
        ]
    );
    assert_eq!(a.lsp.storage_call(true, true), Some(TrustStorageCall::Save(true)));
    assert_eq!(a.lsp.storage_call(true, false), Some(TrustStorageCall::Forget));
    assert_eq!(a.lsp.storage_call(false, false), None);
    a.choose_lsp_trust(true, true, Err(String::from("disk full")));
    assert!(!a.lsp.workspace_allowed);
    assert_eq!(a.status, "Cannot remember LSP permission: disk full");
    assert!(a.status_error);
    a.choose_lsp_trust(true, true, Ok(()));
    assert!(a.lsp.workspace_allowed);
    assert_eq!(a.status, "LSP allowed for this workspace");
    assert!(!a.lsp.list_open);

    let mut b = app();
    b.configure_lsp_trust(TrustStoreOutcome::Opened { can_remember: true, load: Ok(Some(true)) });
    assert!(b.lsp.workspace_allowed);
    let mut c = app();
    c.configure_lsp_trust(TrustStoreOutcome::Unavailable(String::from("no home")));
    assert!(!c.lsp.workspace_allowed);
    assert_eq!(c.lsp.trust_error.as_deref(), Some("LSP permission storage unavailable: no home"));
    assert_eq!(
        c.lsp.list_actions,
        vec![
            ListAction::LspTrust { allowed: false, remember: false },
            ListAction::LspTrust { allowed: true, remember: false },
        ]
    );
    let mut d = app();
    d.lsp.config_enable = false;
    d.configure_lsp_trust(TrustStoreOutcome::Opened { can_remember: true, load: Ok(Some(true)) });
    assert!(!d.lsp.workspace_allowed);
}

#[test]
fn context_actions_run_by_enter_or_mnemonic() {
    let mut a = app();
    let rename = ContextAction { mnemonic: KeyStroke::plain(KeyCode::Char('r')), id: 7 };
    let open = ContextAction { mnemonic: KeyStroke::plain(KeyCode::Char('O')), id: 9 };
    a.menus.context = Some(Menu::new(vec![rename, open]));
    assert_eq!(a.handle_context_action_key(key(KeyCode::Char('j'))), ActionMenuOutcome::Moved);
    assert_eq!(a.menus.context.as_ref().unwrap().selected, 1);
    assert_eq!(a.handle_context_action_key(key(KeyCode::Down)), ActionMenuOutcome::Moved);
    assert_eq!(a.menus.context.as_ref().unwrap().selected, 0);
    assert_eq!(a.handle_context_action_key(key(KeyCode::BackTab)), ActionMenuOutcome::Moved);
    assert_eq!(a.menus.context.as_ref().unwrap().selected, 1);
    assert_eq!(a.handle_context_action_key(key(KeyCode::Char('z'))), ActionMenuOutcome::Ignored);
    assert!(a.menus.context.is_some());
    let shifted = KeyStroke::new(KeyCode::Char('O'), Modifiers { shift: true, control: false, alt: false, super_key: false });
    assert_eq!(a.handle_context_action_key(shifted), ActionMenuOutcome::Run(open));
    assert!(a.menus.context.is_none());
    a.menus.context = Some(Menu::new(vec![rename, open]));
    assert_eq!(a.handle_context_action_key(key(KeyCode::Enter)), ActionMenuOutcome::Run(rename));
    a.menus.context = Some(Menu::new(vec![rename]));
    assert_eq!(a.handle_context_action_key(key(KeyCode::Tab)), ActionMenuOutcome::Closed);
    assert!(a.menus.context.is_none());
}

#[test]
fn path_actions_copy_the_popup_path() {
    let mut a = app();
    a.menus.path_popup = Some(String::from("/p/a.rs"));
    a.handle_path_popup_key(key(KeyCode::Tab));
    assert_eq!(a.handle_path_action_key(key(KeyCode::Char('k'))), ActionMenuOutcome::Moved);
    assert_eq!(
        a.handle_path_action_key(key(KeyCode::Enter)),
        ActionMenuOutcome::Run(PathClipboardTarget::Register)
    );
    assert_eq!(a.handle_path_action_key(key(KeyCode::Char('s'))), ActionMenuOutcome::Unbound('s'));
    assert_eq!(a.run_path_action(PathClipboardTarget::Register, 'a'), Some(String::from("/p/a.rs")));
    assert_eq!(a.status, "copied path to register a");
    assert!(a.menus.path.is_none() && a.menus.path_popup.is_none());
    assert_eq!(a.run_path_action(PathClipboardTarget::System, '"'), None);
    a.menus.path_popup = Some(String::from("/p/b.rs"));
    assert_eq!(a.run_path_action(PathClipboardTarget::Register, '"'), Some(String::from("/p/b.rs")));
    assert_eq!(a.status, "copied path to register");
    a.report_path_copy(Ok(()));
    assert_eq!(a.status, "copied path to system clipboard");
    a.report_path_copy(Err(String::from("no clipboard")));
    assert!(a.status_error);
}

#[test]
fn keys_route_to_the_nearest_overlay() {
    let mut a = app();
    let space = key(KeyCode::Char(' '));
    assert_eq!(a.route_key(space), (space, KeyRoute::Editor));
    a.list = Some(runyte::app::ListView {
        filter: Vec::new(),
        accepts_filter: true,
        report: false,
        has_tags: false,
        has_preview: false,
        show_preview: false,
        sessions: false,
        settings: false,
        selected: None,
    });
    assert_eq!(a.route_key(space), (key(KeyCode::Escape), KeyRoute::List));
    a.list.as_mut().unwrap().filter = vec!['a'];
    assert_eq!(a.route_key(space), (space, KeyRoute::List));
    a.picker_query = Some(Vec::new());
    assert_eq!(a.route_key(space), (key(KeyCode::Escape), KeyRoute::Picker));
    a.git_branch_switch = Some(typed("main", true));
    assert_eq!(a.route_key(space), (space, KeyRoute::BranchSwitch));
    a.fs_confirmation = Some(FsConfirmation { buffer: 0, operations: 1, selected: 0 });
    assert_eq!(a.route_key(key(KeyCode::Down)).1, KeyRoute::FsConfirmation);
}

#[test]
fn lsp_trust_load_failure_records_the_error() {
    let mut a = app();
    a.configure_lsp_trust(TrustStoreOutcome::Opened { can_remember: true, load: Err(String::from("bad")) });
    assert!(!a.lsp.workspace_allowed);
    assert_eq!(a.lsp.trust_error.as_deref(), Some("Cannot read LSP permission: bad"));
    assert!(a.lsp.list_open);
    let mut b = app();
    b.lsp.config_enable = false;
    b.configure_lsp_trust(TrustStoreOutcome::Opened { can_remember: true, load: Ok(None) });
    assert!(!b.lsp.list_open);
    assert!(b.lsp.trust_error.is_none());
}
