//! The nested action menus of the terminal list, the session manager, the
//! buffer list and the path popup, and which overlay a Space closes.

use vstd::prelude::*;
use vstd::string::*;

use crate::app::{App, PathClipboardTarget, PromptKind, SessionAction, TerminalAction, terminal_live};
use crate::keys::{KeyCode, KeyStroke};
use crate::lsp::BufferAction;
use crate::menu::{
    Menu, MenuKey, classify_context_menu_key, classify_menu_key, next_index, previous_index,
    spec_classify_context_menu_key, spec_classify_menu_key,
};
use crate::strings::{chars_of, decimal, push_decimal, push_str, string_of};

verus! {

/// What a key did in the terminal action menu.
#[derive(Clone, Copy, Debug, PartialEq, Eq, Structural)]
pub enum TerminalMenuOutcome {
    /// Nothing for the host to do.
    Nothing,
    /// Closing a hidden live terminal was asked for once; it waits for a
    /// second Enter.
    Armed,
    /// The menu closed; the host runs `action` on terminal `id`.
    Run { id: usize, action: TerminalAction },
}

/// What a key did in the session action menu.
#[derive(Clone, Copy, Debug, PartialEq, Eq, Structural)]
pub enum SessionMenuOutcome {
    Nothing,
    /// Force-closing a running session was asked for once.
    Armed,
    /// The host opens the selected session.
    Open { row: usize },
    /// The host stops the running session of `row`, forcibly or not.
    Stop { row: usize, force: bool },
    /// The host forgets the stopped session of `row`.
    Forget { row: usize },
    /// A prompt opened for renaming or numbering the session of `row`.
    Prompted { row: usize },
    /// The choice does not apply; the status line says why.
    Refused,
}

/// A context action: the key that runs it from the menu, and the action
/// the keymap binds, by its id.
#[derive(Clone, Copy, Debug, PartialEq, Eq, Structural)]
pub struct ContextAction {
    pub mnemonic: KeyStroke,
    pub id: usize,
}

/// What a key did in a context or path action menu.
#[derive(Clone, Copy, Debug, PartialEq, Eq, Structural)]
pub enum ActionMenuOutcome<A> {
    Closed,
    Moved,
    /// The menu closed; the host runs the action.
    Run(A),
    /// A character that is no movement: the host runs the target whose
    /// mnemonic it is, if any.
    Unbound(char),
    Ignored,
}

/// The first of `actions` that `pressed` is the mnemonic of.
pub open spec fn find_mnemonic(actions: Seq<ContextAction>, pressed: KeyStroke) -> Option<ContextAction>
    decreases actions.len(),
{
    if actions.len() == 0 {
        None
    } else if actions[0].mnemonic == pressed {
        Some(actions[0])
    } else {
        find_mnemonic(actions.drop_first(), pressed)
    }
}

/// The first action of `actions` whose mnemonic is `pressed`.
fn first_with_mnemonic(actions: &Vec<ContextAction>, pressed: KeyStroke) -> (r: Option<ContextAction>)
    ensures
        r == find_mnemonic(actions@, pressed),
{
    let mut i: usize = 0;
    assert(actions@.skip(0) =~= actions@);
    while i < actions.len()
        invariant
            i <= actions@.len(),
            find_mnemonic(actions@, pressed) == find_mnemonic(actions@.skip(i as int), pressed),
        decreases actions@.len() - i,
    {
        assert(actions@.skip(i as int).drop_first() =~= actions@.skip(i + 1));
        if actions[i].mnemonic == pressed {
            return Some(actions[i]);
        }
        i = i + 1;
    }
    assert(actions@.skip(i as int).len() == 0);
    None
}

/// A menu's selection after a standard key, when the key moves it.
pub open spec fn moved_selection<A>(m: Menu<A>, key: MenuKey) -> int {
    if m.actions@.len() == 0 {
        m.selected as int
    } else if key == MenuKey::Next {
        next_index(m.selected as int, m.actions@.len() as int)
    } else if key == MenuKey::Previous {
        previous_index(m.selected as int, m.actions@.len() as int)
    } else {
        m.selected as int
    }
}

/// What key `key` does on the terminal action menu, from `before` to
/// `after` with outcome `r`: Escape closes it; the moving keys move the
/// highlight and disarm it; choosing closes it and hands the highlighted
/// action over, except that closing a live terminal not shown in the active
/// pane first arms and asks for Enter again; any other key changes nothing.
pub open spec fn terminal_menu_key(before: App, after: App, key: KeyStroke, r: TerminalMenuOutcome) -> bool {
    &&& (spec_classify_menu_key(key) == MenuKey::Close ==> r == TerminalMenuOutcome::Nothing
        && after.menus.terminal is None)
    &&& ((spec_classify_menu_key(key) == MenuKey::Next || spec_classify_menu_key(key)
        == MenuKey::Previous) ==> r == TerminalMenuOutcome::Nothing && (after.menus.terminal matches Some(m) && before.menus.terminal matches Some(o)
        && m.0 == o.0 && m.1.actions@ == o.1.actions@ && !m.1.armed && m.1.selected
        == moved_selection(o.1, spec_classify_menu_key(key))))
    &&& (spec_classify_menu_key(key) == MenuKey::Choose ==> ({
        let o = before.menus.terminal->0;
        let action = o.1.actions@[o.1.selected as int];
        if action == TerminalAction::Close && terminal_live(before.terminals@, o.0)
            && before.active_terminal() != Some(o.0) && !o.1.armed {
            r == TerminalMenuOutcome::Armed && (after.menus.terminal matches Some(m)
                && m.1.armed && m.0 == o.0 && m.1.selected == o.1.selected) && after.status@ == "closing ends this hidden live process; press Enter again"@
        } else {
            r == TerminalMenuOutcome::Run { id: o.0, action } && after.menus.terminal
                is None
        }
    }))
    &&& (spec_classify_menu_key(key) == MenuKey::Other ==> r == TerminalMenuOutcome::Nothing
        && after.menus.terminal == before.menus.terminal)
}

/// What key `key` does on the session action menu, from `before` to
/// `after` with outcome `r`: Escape closes it; the moving keys move the
/// highlight; choosing runs the highlighted action on its session row, a
/// forced close of a running session arming first, stopping or forgetting
/// refused where the session's state forbids it, and renaming or numbering
/// opening the prompt on the current value; any other key changes nothing.
pub open spec fn session_menu_key(before: App, after: App, key: KeyStroke, r: SessionMenuOutcome) -> bool {
    &&& (spec_classify_menu_key(key) == MenuKey::Close ==> r == SessionMenuOutcome::Nothing
        && after.menus.session is None)
    &&& ((spec_classify_menu_key(key) == MenuKey::Next || spec_classify_menu_key(key)
        == MenuKey::Previous) ==> r == SessionMenuOutcome::Nothing && (after.menus.session matches Some(m) && before.menus.session matches Some(o)
        && m.0 == o.0 && m.1.actions@ == o.1.actions@ && (o.1.actions@.len() > 0 ==> !m.1.armed)
        && m.1.selected == moved_selection(o.1, spec_classify_menu_key(key))))
    &&& (spec_classify_menu_key(key) == MenuKey::Choose ==> match before.menus.session {
        None => r == SessionMenuOutcome::Nothing,
        Some(o) => if o.1.selected >= o.1.actions@.len() || o.0 >= before.workspace_rows@.len() {
            r == SessionMenuOutcome::Nothing
        } else {
            let action = o.1.actions@[o.1.selected as int];
            let running = before.workspace_rows@[o.0 as int].running;
            if action == SessionAction::ForceClose && !o.1.armed && running {
                r == SessionMenuOutcome::Armed && (after.menus.session matches Some(m)
                    && m.1.armed)
            } else {
                match action {
                    SessionAction::Open => r == SessionMenuOutcome::Open { row: o.0 }
                        && after.menus.session is None,
                    SessionAction::Close => if running {
                        r == SessionMenuOutcome::Stop { row: o.0, force: false }
                    } else {
                        r == SessionMenuOutcome::Refused && after.status@
                            == "this session is already stopped"@
                    },
                    SessionAction::ForceClose => if running {
                        r == SessionMenuOutcome::Stop { row: o.0, force: true }
                    } else {
                        r == SessionMenuOutcome::Refused && after.status@
                            == "this session is already stopped"@
                    },
                    SessionAction::Forget => if running {
                        r == SessionMenuOutcome::Refused && after.status@
                            == "stop this session before forgetting it"@
                    } else {
                        r == SessionMenuOutcome::Forget { row: o.0 }
                    },
                    SessionAction::Rename => r == SessionMenuOutcome::Prompted { row: o.0 }
                        && after.menus.session is None && after.prompt_kind
                        == PromptKind::SessionRename && after.command@ == match before.workspace_rows@[o.0 as int].name {
                        Some(n) => n@,
                        None => Seq::<char>::empty(),
                    } && after.command_cursor == after.command@.len(),
                    SessionAction::Number => r == SessionMenuOutcome::Prompted { row: o.0 }
                        && after.menus.session is None && after.prompt_kind
                        == PromptKind::SessionNumber && after.command@ == match before.workspace_rows@[o.0 as int].number {
                        Some(n) => decimal(n as nat),
                        None => Seq::<char>::empty(),
                    } && after.command_cursor == after.command@.len(),
                }
            }
        },
    })
    &&& (spec_classify_menu_key(key) == MenuKey::Other ==> r == SessionMenuOutcome::Nothing
        && after.menus.session == before.menus.session)
}

/// What key `key` does on the buffer action menu, from `before` to `after`
/// with outcome `r`: Escape closes it; the moving keys move the highlight;
/// choosing hands the highlighted action over with its buffer, leaving the
/// menu open; any other key changes nothing.
pub open spec fn buffer_menu_key(before: App, after: App, key: KeyStroke, r: Option<(usize, BufferAction)>) -> bool {
    &&& (spec_classify_menu_key(key) == MenuKey::Close ==> r is None && after.menus.buffer
        is None)
    &&& ((spec_classify_menu_key(key) == MenuKey::Next || spec_classify_menu_key(key)
        == MenuKey::Previous) ==> r is None && (after.menus.buffer matches Some(m)
        && before.menus.buffer matches Some(o) && m.0 == o.0 && m.1.actions@
        == o.1.actions@ && m.1.selected == moved_selection(o.1, spec_classify_menu_key(key))))
    &&& (spec_classify_menu_key(key) == MenuKey::Choose ==> after.menus.buffer == before.menus.buffer && r == match before.menus.buffer {
        Some(o) => if o.1.selected < o.1.actions@.len() {
            Some((o.0, o.1.actions@[o.1.selected as int]))
        } else {
            None
        },
        None => None,
    })
    &&& (spec_classify_menu_key(key) == MenuKey::Other ==> r is None && after.menus.buffer
        == before.menus.buffer)
}

impl App {
    /// The terminal the active pane shows, if it shows one.
    pub open spec fn active_terminal(&self) -> Option<usize> {
        self.active().terminal
    }

    /// Opens the actions for terminal `id`, when it exists.
    pub fn open_terminal_actions(&mut self, id: usize)
        requires
            old(self).wf(),
        ensures
            final(self).list == old(self).list,
            (exists|i: int| 0 <= i < old(self).terminals@.len() && old(self).terminals@[i].id == id)
                ==> (final(self).menus.terminal matches Some(m) && m.0 == id && m.1.wf()
                && m.1.selected == 0 && !m.1.armed && m.1.actions@ == seq![
                TerminalAction::Show,
                TerminalAction::Rename,
                TerminalAction::Close,
                TerminalAction::Create,
            ]),
            !(exists|i: int| 0 <= i < old(self).terminals@.len() && old(self).terminals@[i].id == id)
                ==> final(self).menus.terminal == old(self).menus.terminal && final(self).status@
                == "that terminal is gone"@ && final(self).status_error,
    {
        let mut i: usize = 0;
        while i < self.terminals.len()
            invariant
                i <= self.terminals@.len(),
                forall|k: int| 0 <= k < i ==> self.terminals@[k].id != id,
            ensures
                i <= self.terminals@.len(),
                forall|k: int| 0 <= k < i ==> self.terminals@[k].id != id,
                i < self.terminals@.len() ==> self.terminals@[i as int].id == id,
            decreases self.terminals@.len() - i,
        {
            if self.terminals[i].id == id {
                break;
            }
            i = i + 1;
        }
        if i == self.terminals.len() {
            self.status = String::from_str("that terminal is gone");
            self.status_error = true;
            return;
        }
        let mut actions: Vec<TerminalAction> = Vec::new();
        actions.push(TerminalAction::Show);
        actions.push(TerminalAction::Rename);
        actions.push(TerminalAction::Close);
        actions.push(TerminalAction::Create);
        self.menus.terminal = Some((id, Menu::new(actions)));
    }

    /// The terminal the active pane shows.
    fn active_terminal_id(&self) -> (t: Option<usize>)
        requires
            self.wf(),
        ensures
            t == self.active_terminal(),
    {
        let mut i: usize = 0;
        while i < self.panes.len()
            invariant
                self.wf(),
                i <= self.panes@.len(),
                forall|k: int| 0 <= k < i ==> self.panes@[k].id != self.active_pane,
            decreases self.panes@.len() - i,
        {
            if self.panes[i].id == self.active_pane {
                proof {
                    let c = choose|k: int|
                        0 <= k < self.panes@.len() && self.panes@[k].id == self.active_pane;
                    if c < i {
                    } else if c > i {
                        assert(self.panes@[i as int].id != self.panes@[c].id);
                    }
                }
                return self.panes[i].terminal;
            }
            i = i + 1;
        }
        None
    }

    /// A key in the terminal action menu. Closing keys drop the menu; moving
    /// keys move it round and disarm it. Enter on Close for a live terminal
    /// the active pane is not showing first arms the menu; otherwise Enter
    /// closes the menu and hands the chosen action to the host.
    pub fn handle_terminal_action_key(&mut self, key: KeyStroke) -> (r: TerminalMenuOutcome)
        requires
            old(self).wf(),
            old(self).menus.terminal matches Some(m) ==> m.1.wf() && m.1.actions@.len() > 0,
            spec_classify_menu_key(key) == MenuKey::Next || spec_classify_menu_key(key)
                == MenuKey::Previous || spec_classify_menu_key(key) == MenuKey::Choose
                ==> old(self).menus.terminal is Some,
        ensures
            terminal_menu_key(*old(self), *final(self), key, r),
    {
        match classify_menu_key(key) {
            MenuKey::Close => {
                self.menus.terminal = None;
                TerminalMenuOutcome::Nothing
            },
            MenuKey::Next => {
                let (id, mut menu) = self.menus.terminal.take().unwrap();
                menu.select_next();
                self.menus.terminal = Some((id, menu));
                TerminalMenuOutcome::Nothing
            },
            MenuKey::Previous => {
                let (id, mut menu) = self.menus.terminal.take().unwrap();
                menu.select_previous();
                self.menus.terminal = Some((id, menu));
                TerminalMenuOutcome::Nothing
            },
            MenuKey::Choose => {
                let (id, mut menu) = self.menus.terminal.take().unwrap();
                let action = menu.selected_action().unwrap();
                if action == TerminalAction::Close && self.terminal_is_live(id)
                    && self.active_terminal_id() != Some(id) && !menu.armed {
                    menu.armed = true;
                    self.menus.terminal = Some((id, menu));
                    self.status = String::from_str(
                        "closing ends this hidden live process; press Enter again",
                    );
                    self.status_error = false;
                    return TerminalMenuOutcome::Armed;
                }
                TerminalMenuOutcome::Run { id, action }
            },
            MenuKey::Other => TerminalMenuOutcome::Nothing,
        }
    }

    /// Opens the actions for session row `row`: opening, renaming and
    /// numbering it, and stopping it (gently or by force) while it runs or
    /// forgetting it once stopped.
    pub fn open_session_actions(&mut self, row: usize)
        ensures
            final(self).list == old(self).list,
            row >= old(self).workspace_rows@.len() ==> final(self).menus.session
                == old(self).menus.session,
            row < old(self).workspace_rows@.len() ==> (final(self).menus.session matches Some(m)
                && m.0 == row && m.1.wf() && m.1.selected == 0 && !m.1.armed && m.1.actions@ == (
            if old(self).workspace_rows@[row as int].running {
                seq![
                    SessionAction::Open,
                    SessionAction::Rename,
                    SessionAction::Number,
                    SessionAction::Close,
                    SessionAction::ForceClose,
                ]
            } else {
                seq![
                    SessionAction::Open,
                    SessionAction::Rename,
                    SessionAction::Number,
                    SessionAction::Forget,
                ]
            })),
    {
        if row >= self.workspace_rows.len() {
            return;
        }
        let mut actions: Vec<SessionAction> = Vec::new();
        actions.push(SessionAction::Open);
        actions.push(SessionAction::Rename);
        actions.push(SessionAction::Number);
        if self.workspace_rows[row].running {
            actions.push(SessionAction::Close);
            actions.push(SessionAction::ForceClose);
        } else {
            actions.push(SessionAction::Forget);
        }
        self.menus.session = Some((row, Menu::new(actions)));
    }

    /// Opens a session prompt of `kind` holding `text`, the caret after it.
    fn open_session_prompt(&mut self, kind: PromptKind, text: Vec<char>)
        ensures
            final(self).prompt_kind == kind,
            final(self).command@ == text@,
            final(self).command_cursor == text@.len(),
            final(self).menus.session == old(self).menus.session,
            final(self).workspace_rows == old(self).workspace_rows,
    {
        self.open_prompt(kind);
        self.command_cursor = text.len();
        self.command = text;
    }

    /// A key in the session action menu. Closing keys drop the menu; moving
    /// keys move it round and disarm it. Enter on Force close for a running
    /// session first arms the menu. Otherwise Enter applies the selected
    /// action: opening, stopping and forgetting go to the host (stopping
    /// only a running session, forgetting only a stopped one, the status
    /// line saying so otherwise); renaming and numbering close the menu and
    /// open a prompt prefilled with the session's name or number.
    #[verifier::rlimit(100)]
    #[verifier::spinoff_prover]
    pub fn handle_session_action_key(&mut self, key: KeyStroke) -> (r: SessionMenuOutcome)
        requires
            old(self).menus.session matches Some(m) ==> m.1.wf(),
            spec_classify_menu_key(key) == MenuKey::Next || spec_classify_menu_key(key)
                == MenuKey::Previous ==> old(self).menus.session is Some,
        ensures
            session_menu_key(*old(self), *final(self), key, r),
    {
        match classify_menu_key(key) {
            MenuKey::Close => {
                self.menus.session = None;
                SessionMenuOutcome::Nothing
            },
            MenuKey::Next => {
                let (row, mut menu) = self.menus.session.take().unwrap();
                menu.select_next();
                self.menus.session = Some((row, menu));
                SessionMenuOutcome::Nothing
            },
            MenuKey::Previous => {
                let (row, mut menu) = self.menus.session.take().unwrap();
                menu.select_previous();
                self.menus.session = Some((row, menu));
                SessionMenuOutcome::Nothing
            },
            MenuKey::Other => SessionMenuOutcome::Nothing,
            MenuKey::Choose => {
                let Some((row, mut menu)) = self.menus.session.take() else {
                    return SessionMenuOutcome::Nothing;
                };
                let Some(action) = menu.selected_action() else {
                    self.menus.session = Some((row, menu));
                    return SessionMenuOutcome::Nothing;
                };
                if row >= self.workspace_rows.len() {
                    self.menus.session = Some((row, menu));
                    return SessionMenuOutcome::Nothing;
                }
                let running = self.workspace_rows[row].running;
                if action == SessionAction::ForceClose && !menu.armed && running {
                    menu.armed = true;
                    self.menus.session = Some((row, menu));
                    self.status = String::from_str(
                        "force close discards protected buffers, waiters, and live terminals; press Enter again to confirm",
                    );
                    self.status_error = false;
                    return SessionMenuOutcome::Armed;
                }
                match action {
                    SessionAction::Open => SessionMenuOutcome::Open { row },
                    SessionAction::Rename => {
                        let name = match &self.workspace_rows[row].name {
                            Some(n) => chars_of(n.as_str()),
                            None => Vec::new(),
                        };
                        self.open_session_prompt(PromptKind::SessionRename, name);
                        SessionMenuOutcome::Prompted { row }
                    },
                    SessionAction::Number => {
                        let mut number: Vec<char> = Vec::new();
                        match self.workspace_rows[row].number {
                            Some(n) => push_decimal(&mut number, n as u64),
                            None => {},
                        }
                        self.open_session_prompt(PromptKind::SessionNumber, number);
                        SessionMenuOutcome::Prompted { row }
                    },
                    SessionAction::Close | SessionAction::ForceClose => {
                        self.menus.session = Some((row, menu));
                        if running {
                            SessionMenuOutcome::Stop {
                                row,
                                force: action == SessionAction::ForceClose,
                            }
                        } else {
                            self.status = String::from_str("this session is already stopped");
                            self.status_error = false;
                            SessionMenuOutcome::Refused
                        }
                    },
                    SessionAction::Forget => {
                        self.menus.session = Some((row, menu));
                        if running {
                            self.status = String::from_str("stop this session before forgetting it");
                            self.status_error = false;
                            SessionMenuOutcome::Refused
                        } else {
                            SessionMenuOutcome::Forget { row }
                        }
                    },
                }
            },
        }
    }

    /// Opens the actions for buffer `buffer` in the buffer list; a buffer
    /// with none leaves a status line saying why.
    pub fn open_buffer_actions(&mut self, buffer: usize)
        ensures
            final(self).list == old(self).list,
            old(self).spec_available_buffer_actions(buffer).len() > 0 ==> (final(self).menus.buffer
                matches Some(m) && m.0 == buffer && m.1.actions@ == old(
                self).spec_available_buffer_actions(buffer) && m.1.selected == 0 && m.1.wf()),
            old(self).spec_available_buffer_actions(buffer).len() == 0 ==> final(self).menus.buffer
                == old(self).menus.buffer && final(self).status@ == (if buffer < old(
                self).buffers@.len() && old(self).buffers@[buffer as int].kind
                == crate::app::BufferKind::Directory {
                "explorer buffers have no management actions here"@
            } else {
                "this modified buffer must be opened before it can be managed"@
            }),
    {
        let actions = self.available_buffer_actions(buffer);
        if actions.len() == 0 {
            if buffer < self.buffers.len() && self.buffers[buffer].kind
                == crate::app::BufferKind::Directory {
                self.status = String::from_str("explorer buffers have no management actions here");
            } else {
                self.status = String::from_str(
                    "this modified buffer must be opened before it can be managed",
                );
            }
            self.status_error = false;
            return;
        }
        self.menus.buffer = Some((buffer, Menu::new(actions)));
    }

    /// A key in the buffer action menu. Closing keys drop the menu; moving
    /// keys move it round; Enter hands back the buffer and the selected
    /// action for the host to run.
    pub fn handle_buffer_action_key(&mut self, key: KeyStroke) -> (r: Option<(usize, BufferAction)>)
        requires
            old(self).menus.buffer matches Some(m) ==> m.1.wf(),
            spec_classify_menu_key(key) == MenuKey::Next || spec_classify_menu_key(key)
                == MenuKey::Previous ==> old(self).menus.buffer is Some,
        ensures
            buffer_menu_key(*old(self), *final(self), key, r),
    {
        match classify_menu_key(key) {
            MenuKey::Close => {
                self.menus.buffer = None;
                None
            },
            MenuKey::Next => {
                let (buffer, mut menu) = self.menus.buffer.take().unwrap();
                menu.select_next();
                self.menus.buffer = Some((buffer, menu));
                None
            },
            MenuKey::Previous => {
                let (buffer, mut menu) = self.menus.buffer.take().unwrap();
                menu.select_previous();
                self.menus.buffer = Some((buffer, menu));
                None
            },
            MenuKey::Choose => match &self.menus.buffer {
                Some((buffer, menu)) => match menu.selected_action() {
                    Some(action) => Some((*buffer, action)),
                    None => None,
                },
                None => None,
            },
            MenuKey::Other => None,
        }
    }

    /// Asks to discard `buffer`'s changes, naming it `name` on the status
    /// line: the action menu closes and the discard waits for confirmation.
    pub fn request_buffer_discard(&mut self, buffer: usize, name: &str)
        ensures
            final(self).menus.buffer is None,
            final(self).buffer_discard_confirmation == Some(buffer),
            final(self).confirmation_revision == (if old(self).confirmation_revision == u64::MAX {
                0
            } else {
                old(self).confirmation_revision + 1
            }),
            final(self).status@ == "Discard changes to "@ + name@
                + "?\nEnter confirms.\nEscape cancels."@,
            !final(self).status_error,
    {
        self.menus.buffer = None;
        self.buffer_discard_confirmation = Some(buffer);
        self.confirmation_revision = self.confirmation_revision.wrapping_add(1);
        let mut message = chars_of("Discard changes to ");
        push_str(&mut message, name);
        push_str(&mut message, "?\nEnter confirms.\nEscape cancels.");
        self.set_status(string_of(&message));
    }

    /// Runs a buffer-list action on `buffer`, named `name`: discarding asks
    /// for confirmation here; saving closes the menu and, like closing, is
    /// handed back for the host to carry out.
    pub fn run_buffer_action(&mut self, buffer: usize, action: BufferAction, name: &str) -> (r:
        Option<BufferAction>)
        ensures
            action == BufferAction::Discard ==> r is None && final(self).buffer_discard_confirmation
                == Some(buffer) && final(self).menus.buffer is None && final(self).status@
                == "Discard changes to "@ + name@ + "?\nEnter confirms.\nEscape cancels."@,
            action == BufferAction::Save ==> r == Some(BufferAction::Save) && *final(self) == (App {
                menus: crate::app::Menus { buffer: None, ..old(self).menus },
                ..*old(self)
            }),
            action == BufferAction::Close ==> r == Some(BufferAction::Close) && *final(self)
                == *old(self),
    {
        match action {
            BufferAction::Save => {
                self.menus.buffer = None;
                Some(BufferAction::Save)
            },
            BufferAction::Discard => {
                self.request_buffer_discard(buffer, name);
                None
            },
            BufferAction::Close => Some(BufferAction::Close),
        }
    }

    /// Closing the active buffer, by force or not: refused for a terminal
    /// and for a modified buffer without force; otherwise the buffer is
    /// handed back for the host to close.
    pub fn close_active_buffer(&mut self, force: bool) -> (r: Option<usize>)
        requires
            old(self).wf(),
            old(self).active().buffer < old(self).buffers@.len(),
        ensures
            old(self).active().terminal is Some ==> r is None && final(self).status_error
                && final(self).status@
                == "a terminal is not a buffer; close it explicitly in :terminals"@,
            old(self).active().terminal is None && old(self).buffers@[old(self).active().buffer as int].dirty
                && !force ==> r is None && final(self).status_error && final(self).status@
                == "modified buffer; use :close! to discard its unsaved changes"@,
            old(self).active().terminal is None && !(old(self).buffers@[old(self).active().buffer as int].dirty
                && !force) ==> r == Some(old(self).active().buffer) && *final(self) == *old(self),
    {
        let pane = self.active_pane_snapshot();
        if pane.terminal.is_some() {
            self.action_failed("a terminal is not a buffer; close it explicitly in :terminals");
            return None;
        }
        if self.buffers[pane.buffer].dirty && !force {
            self.action_failed("modified buffer; use :close! to discard its unsaved changes");
            return None;
        }
        Some(pane.buffer)
    }

    /// `:path`: shows the active buffer's path, `path`, in the path popup;
    /// a buffer without one says so.
    pub fn open_path_popup(&mut self, path: Option<String>)
        ensures
            match path {
                Some(p) => final(self).menus.path_popup == Some(p),
                None => final(self).menus.path_popup == old(self).menus.path_popup
                    && final(self).status_error && final(self).status@ == "buffer has no path"@,
            },
    {
        match path {
            Some(p) => self.menus.path_popup = Some(p),
            None => self.action_failed("buffer has no path"),
        }
    }

    /// A key in the path popup: Tab opens its copy actions, Escape and
    /// Control-c close it.
    pub fn handle_path_popup_key(&mut self, key: KeyStroke)
        ensures
            key.code == KeyCode::Tab ==> (final(self).menus.path matches Some(m) && m.wf()
                && m.selected == 0 && m.actions@ == seq![
                PathClipboardTarget::System,
                PathClipboardTarget::Register,
            ]) && final(self).menus.path_popup == old(self).menus.path_popup,
            key.spec_is_cancel() ==> final(self).menus.path_popup is None && final(self).menus.path
                == old(self).menus.path,
            !key.spec_is_cancel() && key.code != KeyCode::Tab ==> final(self).menus.path_popup
                == old(self).menus.path_popup && final(self).menus.path == old(self).menus.path,
    {
        if key.code == KeyCode::Tab {
            let mut actions: Vec<PathClipboardTarget> = Vec::new();
            actions.push(PathClipboardTarget::System);
            actions.push(PathClipboardTarget::Register);
            self.menus.path = Some(Menu::new(actions));
        } else if key.is_cancel() {
            self.menus.path_popup = None;
        }
    }

    /// Whether a typed confirmation is waiting for exact text, where a
    /// Space is part of what is typed.
    pub fn exact_confirmation_accepts_space(&self) -> (b: bool)
        ensures
            b == (self.git_branch_switch is Some || (self.git_branch_deletion matches Some(c)
                && c.typed) || (self.git_worktree_removal matches Some(c) && c.typed)),
    {
        self.git_branch_switch.is_some() || match &self.git_branch_deletion {
            Some(c) => c.typed,
            None => false,
        } || match &self.git_worktree_removal {
            Some(c) => c.typed,
            None => false,
        }
    }

    /// Whether a Space closes the overlay that owns input: never while a
    /// typed confirmation waits for text; always over a nested action menu;
    /// for the file picker, only while its query is empty; for a choice
    /// list, when it takes no filter or its filter is empty; otherwise
    /// whenever any overlay owns input.
    pub open spec fn spec_space_dismisses_input_overlay(&self) -> bool {
        if self.git_branch_switch is Some || (self.git_branch_deletion matches Some(c) && c.typed)
            || (self.git_worktree_removal matches Some(c) && c.typed) {
            false
        } else if self.menus.context is Some || self.program_action_menu is Some
            || self.menus.path is Some || self.menus.buffer is Some || self.menus.terminal is Some
            || self.menus.session is Some {
            true
        } else {
            match self.picker_query {
                Some(query) => query@.len() == 0,
                None => match self.list {
                    Some(list) => !list.accepts_filter || list.filter@.len() == 0,
                    None => self.input_overlay,
                },
            }
        }
    }

    /// Whether a Space closes the overlay that owns input.
    pub fn space_dismisses_input_overlay(&self) -> (b: bool)
        ensures
            b == self.spec_space_dismisses_input_overlay(),
    {
        if self.exact_confirmation_accepts_space() {
            return false;
        }
        if self.menus.context.is_some() || self.program_action_menu.is_some()
            || self.menus.path.is_some() || self.menus.buffer.is_some()
            || self.menus.terminal.is_some() || self.menus.session.is_some() {
            return true;
        }
        if let Some(query) = &self.picker_query {
            return query.len() == 0;
        }
        if let Some(list) = &self.list {
            return !list.accepts_filter || list.filter.len() == 0;
        }
        self.input_overlay
    }
}

/// Whether `n` is menu `m` after the standard key `k` moved its selection:
/// the same actions, the selection moved round, disarmed (an empty menu
/// stays as it is).
pub open spec fn moved_menu<A>(n: Menu<A>, m: Menu<A>, k: MenuKey) -> bool {
    &&& n.actions@ == m.actions@
    &&& n.selected == moved_selection(m, k)
    &&& n.armed == (m.armed && m.actions@.len() == 0)
}

impl App {
    /// Whether the path popup is open.
    pub fn path_popup_open(&self) -> (b: bool)
        ensures
            b == self.menus.path_popup is Some,
    {
        self.menus.path_popup.is_some()
    }

    /// Whether the path's clipboard-target menu is open.
    pub fn path_action_menu_open(&self) -> (b: bool)
        ensures
            b == self.menus.path is Some,
    {
        self.menus.path.is_some()
    }
}

impl App {
    /// A key in the context action menu: Escape, Control-c and Tab close
    /// it; Down, Up, `j`, `k` and Back-Tab move its selection round; Enter
    /// runs the selected action; any other key runs the action it is the
    /// mnemonic of (as bindings spell keys). Running an action closes the
    /// menu and hands the action to the host.
    #[verifier::rlimit(60)]
    pub fn handle_context_action_key(&mut self, key: KeyStroke) -> (r: ActionMenuOutcome<ContextAction>)
        requires
            old(self).menus.context matches Some(m) && m.wf(),
        ensures
            ({
                let m = old(self).menus.context->0;
                let k = spec_classify_context_menu_key(key);
                let chosen = if k == MenuKey::Choose {
                    if m.selected < m.actions@.len() {
                        Some(m.actions@[m.selected as int])
                    } else {
                        None
                    }
                } else if k == MenuKey::Other {
                    find_mnemonic(m.actions@, key.spec_canonical_for_binding())
                } else {
                    None
                };
                &&& k == MenuKey::Close ==> r == ActionMenuOutcome::<ContextAction>::Closed
                &&& (k == MenuKey::Next || k == MenuKey::Previous) ==> r
                    == ActionMenuOutcome::<ContextAction>::Moved
                &&& (k == MenuKey::Choose || k == MenuKey::Other) ==> match chosen {
                    Some(a) => r == ActionMenuOutcome::Run(a),
                    None => r == ActionMenuOutcome::<ContextAction>::Ignored,
                }
                &&& (k == MenuKey::Close || chosen is Some) ==> final(self).menus.context is None
                &&& (k == MenuKey::Next || k == MenuKey::Previous) ==> (final(self).menus.context matches Some(n) && moved_menu(n, m, k))
                &&& ((k == MenuKey::Choose || k == MenuKey::Other) && chosen is None) ==> final(self).menus.context == old(self).menus.context
                &&& final(self).menus.context matches Some(n) ==> n.wf()
            }),
    {
        let k = classify_context_menu_key(key);
        let mut menu = self.menus.context.take().unwrap();
        match k {
            MenuKey::Close => ActionMenuOutcome::Closed,
            MenuKey::Next => {
                menu.select_next();
                self.menus.context = Some(menu);
                ActionMenuOutcome::Moved
            },
            MenuKey::Previous => {
                menu.select_previous();
                self.menus.context = Some(menu);
                ActionMenuOutcome::Moved
            },
            MenuKey::Choose => {
                match menu.selected_action() {
                    Some(a) => ActionMenuOutcome::Run(a),
                    None => {
                        self.menus.context = Some(menu);
                        ActionMenuOutcome::Ignored
                    },
                }
            },
            MenuKey::Other => {
                match first_with_mnemonic(&menu.actions, key.canonical_for_binding()) {
                    Some(a) => ActionMenuOutcome::Run(a),
                    None => {
                        self.menus.context = Some(menu);
                        ActionMenuOutcome::Ignored
                    },
                }
            },
        }
    }

    /// A key in the path action menu: the context-menu keys close it, move
    /// its selection round and choose the selected target; another
    /// character is handed back for the host to match against the targets'
    /// mnemonics.
    pub fn handle_path_action_key(&mut self, key: KeyStroke) -> (r: ActionMenuOutcome<
        PathClipboardTarget,
    >)
        requires
            old(self).menus.path matches Some(m) && m.wf(),
        ensures
            ({
                let m = old(self).menus.path->0;
                let k = spec_classify_context_menu_key(key);
                &&& k == MenuKey::Close ==> r == ActionMenuOutcome::<PathClipboardTarget>::Closed
                    && final(self).menus.path is None
                &&& (k == MenuKey::Next || k == MenuKey::Previous) ==> r
                    == ActionMenuOutcome::<PathClipboardTarget>::Moved && (final(self).menus.path matches Some(n) && moved_menu(n, m, k))
                &&& k == MenuKey::Choose ==> final(self).menus.path == old(self).menus.path && (
                if m.selected < m.actions@.len() {
                    r == ActionMenuOutcome::Run(m.actions@[m.selected as int])
                } else {
                    r == ActionMenuOutcome::<PathClipboardTarget>::Ignored
                })
                &&& k == MenuKey::Other ==> final(self).menus.path == old(self).menus.path && match key.code {
                    KeyCode::Char(c) => r == ActionMenuOutcome::<PathClipboardTarget>::Unbound(c),
                    _ => r == ActionMenuOutcome::<PathClipboardTarget>::Ignored,
                }
                &&& final(self).menus.path matches Some(n) ==> n.wf()
            }),
    {
        let k = classify_context_menu_key(key);
        match k {
            MenuKey::Close => {
                self.menus.path = None;
                ActionMenuOutcome::Closed
            },
            MenuKey::Next | MenuKey::Previous => {
                let mut menu = self.menus.path.take().unwrap();
                if k == MenuKey::Next {
                    menu.select_next();
                } else {
                    menu.select_previous();
                }
                self.menus.path = Some(menu);
                ActionMenuOutcome::Moved
            },
            MenuKey::Choose => {
                let chosen = match &self.menus.path {
                    Some(menu) => menu.selected_action(),
                    None => None,
                };
                match chosen {
                    Some(target) => ActionMenuOutcome::Run(target),
                    None => ActionMenuOutcome::Ignored,
                }
            },
            MenuKey::Other => match key.code {
                KeyCode::Char(c) => ActionMenuOutcome::Unbound(c),
                _ => ActionMenuOutcome::Ignored,
            },
        }
    }

    /// Runs a path action: closes the menu and takes the popup's path,
    /// handing it back for the host to write to the system clipboard or to
    /// the selected register; for the register, also says where it went.
    /// Without a popup it only closes the menu.
    pub fn run_path_action(&mut self, target: PathClipboardTarget, selected_register: char) -> (r:
        Option<String>)
        ensures
            final(self).menus.path is None,
            final(self).menus.path_popup is None,
            r == old(self).menus.path_popup,
            r is Some && target == PathClipboardTarget::Register ==> !final(self).status_error
                && final(self).status@ == (if selected_register == '"' {
                "copied path to register"@
            } else {
                "copied path to register "@.push(selected_register)
            }),
    {
        self.menus.path = None;
        let Some(path) = self.menus.path_popup.take() else {
            return None;
        };
        if target == PathClipboardTarget::Register {
            let mut message = chars_of("copied path to register");
            if selected_register != '"' {
                message.push(' ');
                message.push(selected_register);
            }
            proof {
                reveal_strlit("copied path to register");
                reveal_strlit("copied path to register ");
            }
            self.set_status(string_of(&message));
        }
        Some(path)
    }

    /// Reports the host's write of a path to the system clipboard.
    pub fn report_path_copy(&mut self, written: Result<(), String>)
        ensures
            match written {
                Ok(_) => final(self).status@ == "copied path to system clipboard"@
                    && !final(self).status_error,
                Err(e) => final(self).status@ == e@ && final(self).status_error,
            },
    {
        match written {
            Ok(()) => self.set_status(String::from_str("copied path to system clipboard")),
            Err(e) => {
                self.status = e;
                self.status_error = true;
            },
        }
    }
}

/// How a buffer's changes are discarded.
#[derive(Clone, Copy, Debug, PartialEq, Eq, Structural)]
pub enum DiscardPlan {
    /// Refused; the status line says why.
    Refused,
    /// A file buffer: the host reloads it from disk.
    Reload(usize),
    /// A commit message: the host abandons it.
    Abandon(usize),
    /// A scratch buffer: the host empties its text; its syntax state is
    /// already dropped.
    Clear(usize),
}

impl App {
    /// Plans discarding `buffer`'s changes: refused for a closed buffer, a
    /// directory and the generated buffers, which have none; a scratch
    /// buffer is emptied, a file reloaded, a commit message abandoned.
    pub fn discard_buffer_changes(&mut self, buffer: usize) -> (r: DiscardPlan)
        requires
            buffer < old(self).buffers@.len(),
        ensures
            ({
                let kind = old(self).buffers@[buffer as int].kind;
                if old(self).closed_buffers@.contains(buffer) || kind == crate::app::BufferKind::Directory {
                    r == DiscardPlan::Refused && final(self).status_error && final(self).status@
                        == "this buffer cannot be discarded here"@
                } else if kind == crate::app::BufferKind::File {
                    r == DiscardPlan::Reload(buffer) && *final(self) == *old(self)
                } else if kind == crate::app::BufferKind::CommitMessage {
                    r == DiscardPlan::Abandon(buffer) && *final(self) == *old(self)
                } else if kind == crate::app::BufferKind::Scratch {
                    &&& r == DiscardPlan::Clear(buffer)
                    &&& final(self).buffers@.len() == old(self).buffers@.len()
                    &&& !final(self).buffers@[buffer as int].syntax_ready
                    &&& !final(self).buffers@[buffer as int].syntax_stale
                    &&& final(self).buffers@[buffer as int].kind == kind
                    &&& forall|i: int| 0 <= i < old(self).buffers@.len() && i != buffer ==> final(self).buffers@[i] == old(self).buffers@[i]
                } else {
                    r == DiscardPlan::Refused && final(self).status_error && final(self).status@
                        == "virtual buffers have no changes to discard"@
                }
            }),
    {
        let kind = self.buffers[buffer].kind;
        if self.is_closed(buffer) || kind == crate::app::BufferKind::Directory {
            self.action_failed("this buffer cannot be discarded here");
            return DiscardPlan::Refused;
        }
        match kind {
            crate::app::BufferKind::File => DiscardPlan::Reload(buffer),
            crate::app::BufferKind::CommitMessage => DiscardPlan::Abandon(buffer),
            crate::app::BufferKind::Scratch => {
                let mut info = self.buffers.remove(buffer);
                info.syntax_ready = false;
                info.syntax_stale = false;
                self.buffers.insert(buffer, info);
                DiscardPlan::Clear(buffer)
            },
            _ => {
                self.action_failed("virtual buffers have no changes to discard");
                DiscardPlan::Refused
            },
        }
    }

    /// Reports changes to the buffer named `name` discarded.
    pub fn report_discarded(&mut self, name: &str)
        ensures
            final(self).status@ == "discarded changes to "@ + name@,
            !final(self).status_error,
    {
        let mut message = chars_of("discarded changes to ");
        push_str(&mut message, name);
        self.set_status(string_of(&message));
    }
}

impl App {
    /// Whether some pane shows buffer `index` rather than a terminal.
    pub open spec fn spec_buffer_displayed(&self, index: int) -> bool {
        exists|i: int| 0 <= i < self.panes@.len() && (#[trigger] self.panes@[i]).terminal is None && self.panes@[i].buffer == index
    }

    /// Whether buffer `index` is listed among the buffers: it is open, and
    /// it is not an empty, unmodified scratch buffer that no pane shows.
    pub open spec fn spec_buffer_is_discoverable(&self, index: int) -> bool {
        &&& 0 <= index < self.buffers@.len()
        &&& !self.closed_buffers@.contains(index as usize)
        &&& !(self.buffers@[index].kind == crate::app::BufferKind::Scratch && !self.buffers@[index].dirty
            && self.buffers@[index].empty && !self.spec_buffer_displayed(index))
    }

    /// The listed buffers below `n`, in order.
    pub open spec fn discoverable_below(&self, n: int) -> Seq<usize>
        decreases n,
    {
        if n <= 0 {
            Seq::empty()
        } else if self.spec_buffer_is_discoverable(n - 1) {
            self.discoverable_below(n - 1).push((n - 1) as usize)
        } else {
            self.discoverable_below(n - 1)
        }
    }

    /// Whether some pane shows buffer `index`.
    fn buffer_displayed(&self, index: usize) -> (b: bool)
        ensures
            b == self.spec_buffer_displayed(index as int),
    {
        let mut i: usize = 0;
        while i < self.panes.len()
            invariant
                i <= self.panes@.len(),
                forall|k: int| 0 <= k < i ==> !((#[trigger] self.panes@[k]).terminal is None && self.panes@[k].buffer == index),
            decreases self.panes@.len() - i,
        {
            if self.panes[i].terminal.is_none() && self.panes[i].buffer == index {
                return true;
            }
            i = i + 1;
        }
        false
    }

    /// Whether buffer `index` is listed among the buffers.
    pub fn buffer_is_discoverable(&self, index: usize) -> (b: bool)
        ensures
            b == self.spec_buffer_is_discoverable(index as int),
    {
        if self.is_closed(index) || index >= self.buffers.len() {
            return false;
        }
        let info = &self.buffers[index];
        if info.kind == crate::app::BufferKind::Scratch && !info.dirty && info.empty
            && !self.buffer_displayed(index) {
            return false;
        }
        true
    }

    /// The buffers the buffer list offers, in order, each opened by choosing
    /// its row.
    pub fn buffer_list_actions(&self) -> (r: Vec<crate::app::ListAction>)
        ensures
            r@.len() == self.discoverable_below(self.buffers@.len() as int).len(),
            forall|k: int| 0 <= k < r@.len() ==> #[trigger] r@[k] == crate::app::ListAction::Buffer(
                self.discoverable_below(self.buffers@.len() as int)[k],
            ),
    {
        let mut actions: Vec<crate::app::ListAction> = Vec::new();
        let mut i: usize = 0;
        while i < self.buffers.len()
            invariant
                i <= self.buffers@.len(),
                actions@.len() == self.discoverable_below(i as int).len(),
                forall|k: int| 0 <= k < actions@.len() ==> #[trigger] actions@[k] == crate::app::ListAction::Buffer(
                    self.discoverable_below(i as int)[k],
                ),
            decreases self.buffers@.len() - i,
        {
            if self.buffer_is_discoverable(i) {
                actions.push(crate::app::ListAction::Buffer(i));
            }
            i = i + 1;
        }
        actions
    }
}

} // verus!
