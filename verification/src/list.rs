//! Keys of the choice lists: reports that only scroll, lists that filter as
//! they are typed into, and the session manager's numbered shortcuts.

use vstd::prelude::*;

use crate::app::{App, CommandAvailability, ListAction, ListView};
use crate::keys::{KeyCode, KeyStroke};
use crate::menus::{buffer_menu_key, session_menu_key, terminal_menu_key, SessionMenuOutcome, TerminalMenuOutcome};
use crate::lsp::BufferAction;
use crate::strings::{chars_of, decimal, push_decimal, string_of};

verus! {

/// A move of a list's selection.
#[derive(Clone, Copy, Debug, PartialEq, Eq, Structural)]
pub enum ListMove {
    Down,
    Up,
    PageDown,
    PageUp,
    First,
    Last,
}

/// What a key means to a choice list.
#[derive(Clone, Copy, Debug, PartialEq, Eq, Structural)]
pub enum ListKey {
    Close,
    Move(ListMove),
    /// Tab: the selected row's actions, the next tag, or the next row.
    Tab,
    TogglePreview,
    /// Backspace drops the filter's last character.
    PopFilter,
    /// Delete empties the filter.
    ClearFilter,
    Activate,
    Type(char),
    Ignored,
}

/// What a key means to a choice list that `has_preview` or not: Escape and
/// Control-c close it; Down and Control-n, Up, Control-p and Back-Tab,
/// Page Down and Control-d, Page Up and Control-u, Home and End move; Tab
/// acts on the selected row; Control-t toggles a preview where there is
/// one; Backspace and Delete edit the filter; Enter activates the row; a
/// character typed without Control, Alt or Super is typed.
pub open spec fn spec_list_key(key: KeyStroke, has_preview: bool) -> ListKey {
    let m = key.modifiers;
    match key.code {
        KeyCode::Escape => ListKey::Close,
        KeyCode::Down => ListKey::Move(ListMove::Down),
        KeyCode::Up | KeyCode::BackTab => ListKey::Move(ListMove::Up),
        KeyCode::Tab => ListKey::Tab,
        KeyCode::PageDown => ListKey::Move(ListMove::PageDown),
        KeyCode::PageUp => ListKey::Move(ListMove::PageUp),
        KeyCode::Home => ListKey::Move(ListMove::First),
        KeyCode::End => ListKey::Move(ListMove::Last),
        KeyCode::Backspace => ListKey::PopFilter,
        KeyCode::Delete => ListKey::ClearFilter,
        KeyCode::Enter => ListKey::Activate,
        KeyCode::Char(c) => if m.control {
            if c == 'c' {
                ListKey::Close
            } else if c == 'n' {
                ListKey::Move(ListMove::Down)
            } else if c == 'p' {
                ListKey::Move(ListMove::Up)
            } else if c == 'd' {
                ListKey::Move(ListMove::PageDown)
            } else if c == 'u' {
                ListKey::Move(ListMove::PageUp)
            } else if c == 't' && has_preview {
                ListKey::TogglePreview
            } else {
                ListKey::Ignored
            }
        } else if m.alt || m.super_key {
            ListKey::Ignored
        } else {
            ListKey::Type(c)
        },
        _ => ListKey::Ignored,
    }
}

/// What a key means to a list that `has_preview` or not.
pub fn list_key(key: KeyStroke, has_preview: bool) -> (k: ListKey)
    ensures
        k == spec_list_key(key, has_preview),
{
    let control = key.modifiers.control;
    match key.code {
        KeyCode::Escape => ListKey::Close,
        KeyCode::Down => ListKey::Move(ListMove::Down),
        KeyCode::Up | KeyCode::BackTab => ListKey::Move(ListMove::Up),
        KeyCode::Tab => ListKey::Tab,
        KeyCode::PageDown => ListKey::Move(ListMove::PageDown),
        KeyCode::PageUp => ListKey::Move(ListMove::PageUp),
        KeyCode::Home => ListKey::Move(ListMove::First),
        KeyCode::End => ListKey::Move(ListMove::Last),
        KeyCode::Backspace => ListKey::PopFilter,
        KeyCode::Delete => ListKey::ClearFilter,
        KeyCode::Enter => ListKey::Activate,
        KeyCode::Char(c) => {
            if control {
                if c == 'c' {
                    ListKey::Close
                } else if c == 'n' {
                    ListKey::Move(ListMove::Down)
                } else if c == 'p' {
                    ListKey::Move(ListMove::Up)
                } else if c == 'd' {
                    ListKey::Move(ListMove::PageDown)
                } else if c == 'u' {
                    ListKey::Move(ListMove::PageUp)
                } else if c == 't' && has_preview {
                    ListKey::TogglePreview
                } else {
                    ListKey::Ignored
                }
            } else if key.modifiers.alt || key.modifiers.super_key {
                ListKey::Ignored
            } else {
                ListKey::Type(c)
            }
        },
        _ => ListKey::Ignored,
    }
}

/// What a key means to a report, which only scrolls: Escape and Control-c
/// close it, and the moves of a list move it, Back-Tab aside.
pub open spec fn spec_report_key(key: KeyStroke) -> ListKey {
    match spec_list_key(key, false) {
        ListKey::Close => ListKey::Close,
        ListKey::Move(m) => if key.code == KeyCode::BackTab {
            ListKey::Ignored
        } else {
            ListKey::Move(m)
        },
        _ => ListKey::Ignored,
    }
}

/// The number a decimal digit names.
pub open spec fn digit_number(c: char) -> Option<u8> {
    if '0' <= c && c <= '9' {
        Some((c as u32 - '0' as u32) as u8)
    } else {
        None
    }
}

/// Whether row `i` is the first of `rows` numbered `n`.
pub open spec fn first_numbered(rows: Seq<crate::app::WorkspaceRow>, n: u8, i: int) -> bool {
    &&& 0 <= i < rows.len()
    &&& rows[i].number == Some(n)
    &&& forall|j: int| 0 <= j < i ==> (#[trigger] rows[j]).number != Some(n)
}

/// The first of `rows` numbered `n`.
fn first_numbered_row(rows: &Vec<crate::app::WorkspaceRow>, n: u8) -> (r: Option<usize>)
    ensures
        r matches Some(i) ==> first_numbered(rows@, n, i as int),
        r is None ==> forall|j: int| 0 <= j < rows@.len() ==> (#[trigger] rows@[j]).number != Some(n),
{
    let mut i: usize = 0;
    while i < rows.len()
        invariant
            i <= rows@.len(),
            forall|j: int| 0 <= j < i ==> (#[trigger] rows@[j]).number != Some(n),
        decreases rows@.len() - i,
    {
        if rows[i].number == Some(n) {
            return Some(i);
        }
        i = i + 1;
    }
    None
}

/// What attaching to the session `digit` numbers does, from `before` to
/// `after`, answering `r`.
pub open spec fn attach_step(before: App, after: App, digit: char, r: Option<usize>) -> bool {
    match digit_number(digit) {
        None => r is None && after == before,
        Some(n) => {
            let rows = before.workspace_rows@;
            if forall|j: int| 0 <= j < rows.len() ==> (#[trigger] rows[j]).number != Some(n) {
                r is None && after.status_error && after.status@ == "no session is numbered "@
                    + decimal(n as nat)
            } else if before.persistent_session is Available {
                r matches Some(i) && first_numbered(rows, n, i as int) && after.list is None
                    && after.menus.session is None
            } else {
                r is None && after.status_error && after.status@
                    == "attaching sessions needs workspace.mode: persistent"@
            }
        },
    }
}

impl App {
    /// Attaches to the session `digit` numbers, from the session manager:
    /// with a row of that number and persistent workspaces, closes the
    /// list and the session menu and hands back the row, for the host to
    /// switch to; otherwise says why not.
    pub fn attach_numbered_session(&mut self, digit: char) -> (r: Option<usize>)
        ensures
            attach_step(*old(self), *final(self), digit, r),
    {
        if !('0' <= digit && digit <= '9') {
            return None;
        }
        let n: u8 = (digit as u32 - '0' as u32) as u8;
        assert(digit_number(digit) == Some(n));
        let Some(i) = first_numbered_row(&self.workspace_rows, n) else {
            let mut message = chars_of("no session is numbered ");
            push_decimal(&mut message, n as u64);
            self.status = string_of(&message);
            self.status_error = true;
            return None;
        };
        let available = match &self.persistent_session {
            CommandAvailability::Available => true,
            CommandAvailability::Unavailable(_) => false,
        };
        if !available {
            self.action_failed("attaching sessions needs workspace.mode: persistent");
            return None;
        }
        self.list = None;
        self.menus.session = None;
        Some(i)
    }
}

/// What a key did to a choice list or to the action menu over it.
#[derive(Clone, Copy, Debug, PartialEq, Eq)]
pub enum ListKeyOutcome {
    Terminal(TerminalMenuOutcome),
    Session(SessionMenuOutcome),
    Buffer(Option<(usize, BufferAction)>),
    Closed,
    /// The host cancels the settings picker, restoring the setting.
    CancelSettings,
    /// The host moves the selection; the preview follows it.
    Move(ListMove),
    /// The host shows the next tag's rows; the preview follows.
    CycleTag,
    /// The selected row's action menu opened.
    MenuOpened(ListAction),
    PreviewToggled,
    /// The filter changed or was asked to; the preview follows.
    FilterEdited,
    /// The host activates the selected row.
    Activate,
    /// A session shortcut: the row to switch to, if the shortcut held.
    Attach(Option<usize>),
    Ignored,
}

/// Whether typing `c` into `list` is a session shortcut: a digit from 1 to
/// 9 typed into the session manager before anything else is typed.
pub open spec fn is_session_shortcut(list: ListView, c: char) -> bool {
    list.sessions && list.filter@.len() == 0 && '1' <= c && c <= '9'
}

/// Typing a character into a list's filter and pressing Backspace gives
/// back the filter.
pub proof fn lemma_filter_type_then_pop(list: ListView, typed: ListView, popped: ListView, c: char)
    requires
        edited_list(list, Some(typed), ListKey::Type(c)),
        edited_list(typed, Some(popped), ListKey::PopFilter),
    ensures
        popped.filter@ == list.filter@,
{
    assert(list.filter@.push(c).drop_last() =~= list.filter@);
}

/// What a key does to an open report: closes it, or scrolls it.
pub open spec fn report_step(before: App, after: App, key: KeyStroke, r: ListKeyOutcome) -> bool {
    match spec_report_key(key) {
        ListKey::Close => r == ListKeyOutcome::Closed && after == (App { list: None, ..before }),
        ListKey::Move(m) => r == ListKeyOutcome::Move(m) && after == before,
        _ => r == ListKeyOutcome::Ignored && after == before,
    }
}

/// The list `after` holds once `k` edited `list`: the preview toggled, the
/// filter without its last character, emptied, or with a character added.
pub open spec fn edited_list(list: ListView, after: Option<ListView>, k: ListKey) -> bool {
    match k {
        ListKey::TogglePreview => after == Some(ListView { show_preview: !list.show_preview, ..list }),
        _ => after matches Some(l) && l == (ListView { filter: l.filter, ..list }) && match k {
            ListKey::PopFilter => l.filter@ == (if list.filter@.len() > 0 {
                list.filter@.drop_last()
            } else {
                list.filter@
            }),
            ListKey::ClearFilter => l.filter@.len() == 0,
            ListKey::Type(c) => l.filter@ == list.filter@.push(c),
            _ => l.filter@ == list.filter@,
        },
    }
}

/// What a key does to an open choice list that is no report.
pub open spec fn choice_step(before: App, after: App, key: KeyStroke, r: ListKeyOutcome) -> bool {
    let list = before.list->0;
    let k = spec_list_key(key, list.has_preview);
    match k {
        ListKey::Close => if list.settings {
            r == ListKeyOutcome::CancelSettings && after == before
        } else {
            r == ListKeyOutcome::Closed && after == (App { list: None, ..before })
        },
        ListKey::Move(m) => r == ListKeyOutcome::Move(m) && after == before,
        ListKey::Tab => match list.selected {
            Some(ListAction::Workspace(row)) => r == ListKeyOutcome::MenuOpened(
                ListAction::Workspace(row),
            ) && after.list == before.list,
            Some(ListAction::Terminal(id)) => r == ListKeyOutcome::MenuOpened(
                ListAction::Terminal(id),
            ) && after.list == before.list,
            Some(ListAction::Buffer(b)) => r == ListKeyOutcome::MenuOpened(ListAction::Buffer(b))
                && after.list == before.list,
            _ => after == before && r == (if list.has_tags {
                ListKeyOutcome::CycleTag
            } else {
                ListKeyOutcome::Move(ListMove::Down)
            }),
        },
        ListKey::TogglePreview | ListKey::PopFilter | ListKey::ClearFilter => r == (if k
            == ListKey::TogglePreview {
            ListKeyOutcome::PreviewToggled
        } else {
            ListKeyOutcome::FilterEdited
        }) && after == (App { list: after.list, ..before }) && edited_list(list, after.list, k),
        ListKey::Activate => r == ListKeyOutcome::Activate && after == before,
        ListKey::Type(c) => if is_session_shortcut(list, c) {
            r matches ListKeyOutcome::Attach(a) && attach_step(before, after, c, a)
        } else if list.accepts_filter {
            r == ListKeyOutcome::FilterEdited && after == (App { list: after.list, ..before })
                && edited_list(list, after.list, k)
        } else {
            r == ListKeyOutcome::Ignored && after == before
        },
        ListKey::Ignored => r == ListKeyOutcome::Ignored && after == before,
    }
}

/// What a key does to an open choice list with no action menu over it,
/// from `before` to `after`, answering `r`.
pub open spec fn list_view_step(before: App, after: App, key: KeyStroke, r: ListKeyOutcome) -> bool {
    if before.list->0.report {
        report_step(before, after, key, r)
    } else {
        choice_step(before, after, key, r)
    }
}

impl App {
    /// A key while the choice list is open and no action menu is over it.
    /// A report closes or scrolls. Another list closes (the settings
    /// picker is cancelled by the host instead), hands moves and activation
    /// to the host, opens the selected row's action menu on Tab (else
    /// cycles tags, else moves down), toggles its preview, and edits its
    /// filter: Backspace drops the last character, Delete empties it, and a
    /// typed character is added where typing filters, unless it is a
    /// session shortcut.
    pub fn handle_list_view_key(&mut self, key: KeyStroke) -> (r: ListKeyOutcome)
        requires
            old(self).wf(),
            old(self).list is Some,
        ensures
            list_view_step(*old(self), *final(self), key, r),
    {
        if self.list.as_ref().unwrap().report {
            self.report_key(key)
        } else {
            self.choice_key(key)
        }
    }

    /// A key while a result list is open: the action menu over it, where
    /// one is open (the terminal's, then the session's, then the buffer's),
    /// takes the key; otherwise the list does.
    pub fn handle_list_key(&mut self, key: KeyStroke) -> (r: ListKeyOutcome)
        requires
            old(self).wf(),
            old(self).menus.terminal matches Some(m) ==> m.1.wf() && m.1.actions@.len() > 0,
            old(self).menus.session matches Some(m) ==> m.1.wf(),
            old(self).menus.buffer matches Some(m) ==> m.1.wf(),
            old(self).menus.terminal is None && old(self).menus.session is None
                && old(self).menus.buffer is None ==> old(self).list is Some,
        ensures
            old(self).menus.terminal is Some ==> (r matches ListKeyOutcome::Terminal(t)
                && terminal_menu_key(*old(self), *final(self), key, t)),
            old(self).menus.terminal is None && old(self).menus.session is Some ==> (
            r matches ListKeyOutcome::Session(t) && session_menu_key(*old(self), *final(self), key, t)),
            old(self).menus.terminal is None && old(self).menus.session is None
                && old(self).menus.buffer is Some ==> (r matches ListKeyOutcome::Buffer(t)
                && buffer_menu_key(*old(self), *final(self), key, t)),
            old(self).menus.terminal is None && old(self).menus.session is None
                && old(self).menus.buffer is None ==> list_view_step(*old(self), *final(self), key, r),
    {
        if self.menus.terminal.is_some() {
            return ListKeyOutcome::Terminal(self.handle_terminal_action_key(key));
        }
        if self.menus.session.is_some() {
            return ListKeyOutcome::Session(self.handle_session_action_key(key));
        }
        if self.menus.buffer.is_some() {
            return ListKeyOutcome::Buffer(self.handle_buffer_action_key(key));
        }
        self.handle_list_view_key(key)
    }

    /// Enter in a choice list: with nothing chosen in the settings picker,
    /// or a session chosen without persistent workspaces, says why not;
    /// otherwise the list and the buffer menu close and the chosen row's
    /// action, if any, is handed back for the host to run.
    #[verifier::rlimit(60)]
    pub fn activate_list_selection(&mut self) -> (r: Option<ListAction>)
        requires
            old(self).list is Some,
        ensures
            ({
                let list = old(self).list->0;
                let refused = (list.settings && list.selected is None) || (list.selected matches Some(
                    ListAction::Workspace(_),
                ) && old(self).persistent_session is Unavailable);
                &&& refused ==> r is None && final(self).status_error && final(self).list
                    == old(self).list && final(self).status@ == (if list.settings && list.selected
                    is None {
                    "no matching setting choice · clear the filter or press Esc"@
                } else {
                    "attaching sessions needs workspace.mode: persistent"@
                })
                &&& !refused ==> r == list.selected && *final(self) == (App {
                    list: None,
                    menus: crate::app::Menus { buffer: None, ..old(self).menus },
                    ..*old(self)
                })
            }),
    {
        let list = self.list.as_ref().unwrap();
        let chosen = list.selected;
        if list.settings && chosen.is_none() {
            self.action_failed("no matching setting choice · clear the filter or press Esc");
            return None;
        }
        let persistent = match &self.persistent_session {
            CommandAvailability::Available => true,
            CommandAvailability::Unavailable(_) => false,
        };
        if let Some(ListAction::Workspace(_)) = chosen {
            if !persistent {
                self.action_failed("attaching sessions needs workspace.mode: persistent");
                return None;
            }
        }
        self.list = None;
        self.menus.buffer = None;
        chosen
    }

    /// A key in an open report.
    fn report_key(&mut self, key: KeyStroke) -> (r: ListKeyOutcome)
        requires
            old(self).list is Some,
        ensures
            report_step(*old(self), *final(self), key, r),
    {
        match list_key(key, false) {
            ListKey::Close => {
                self.list = None;
                ListKeyOutcome::Closed
            },
            ListKey::Move(m) => if key.code == KeyCode::BackTab {
                ListKeyOutcome::Ignored
            } else {
                ListKeyOutcome::Move(m)
            },
            _ => ListKeyOutcome::Ignored,
        }
    }

    /// A key in an open choice list that is no report.
    #[verifier::rlimit(80)]
    fn choice_key(&mut self, key: KeyStroke) -> (r: ListKeyOutcome)
        requires
            old(self).wf(),
            old(self).list is Some,
        ensures
            choice_step(*old(self), *final(self), key, r),
    {
        let has_preview = self.list.as_ref().unwrap().has_preview;
        let k = list_key(key, has_preview);
        match k {
            ListKey::Close => {
                if self.list.as_ref().unwrap().settings {
                    ListKeyOutcome::CancelSettings
                } else {
                    self.list = None;
                    ListKeyOutcome::Closed
                }
            },
            ListKey::Move(m) => ListKeyOutcome::Move(m),
            ListKey::Tab => self.list_tab(),
            ListKey::TogglePreview => {
                self.edit_list(k);
                ListKeyOutcome::PreviewToggled
            },
            ListKey::PopFilter | ListKey::ClearFilter => {
                self.edit_list(k);
                ListKeyOutcome::FilterEdited
            },
            ListKey::Activate => ListKeyOutcome::Activate,
            ListKey::Type(c) => self.list_type(c),
            ListKey::Ignored => ListKeyOutcome::Ignored,
        }
    }

    /// A character typed into an open choice list.
    fn list_type(&mut self, c: char) -> (r: ListKeyOutcome)
        requires
            old(self).list is Some,
        ensures
            ({
                let list = old(self).list->0;
                if is_session_shortcut(list, c) {
                    r matches ListKeyOutcome::Attach(a) && attach_step(*old(self), *final(self), c, a)
                } else if list.accepts_filter {
                    r == ListKeyOutcome::FilterEdited && *final(self) == (App {
                        list: final(self).list,
                        ..*old(self)
                    }) && edited_list(list, final(self).list, ListKey::Type(c))
                } else {
                    r == ListKeyOutcome::Ignored && *final(self) == *old(self)
                }
            }),
    {
        let list = self.list.as_ref().unwrap();
        if list.sessions && list.filter.len() == 0 && '1' <= c && c <= '9' {
            return ListKeyOutcome::Attach(self.attach_numbered_session(c));
        }
        if list.accepts_filter {
            self.edit_list(ListKey::Type(c));
            ListKeyOutcome::FilterEdited
        } else {
            ListKeyOutcome::Ignored
        }
    }

    /// Applies an editing key to the open list: the preview toggles, the
    /// filter loses its last character or everything, or gains `c`.
    fn edit_list(&mut self, k: ListKey)
        requires
            old(self).list is Some,
        ensures
            *final(self) == (App { list: final(self).list, ..*old(self) }),
            edited_list(old(self).list->0, final(self).list, k),
    {
        let mut list = self.list.take().unwrap();
        match k {
            ListKey::TogglePreview => list.show_preview = !list.show_preview,
            ListKey::PopFilter => {
                list.filter.pop();
            },
            ListKey::ClearFilter => list.filter = Vec::new(),
            ListKey::Type(c) => list.filter.push(c),
            _ => {},
        }
        self.list = Some(list);
    }

    /// Tab in a choice list: the selected row's action menu, where it has
    /// one; else the next tag, where the list has tags; else the next row.
    fn list_tab(&mut self) -> (r: ListKeyOutcome)
        requires
            old(self).wf(),
            old(self).list is Some,
        ensures
            final(self).list == old(self).list,
            match old(self).list->0.selected {
                Some(ListAction::Workspace(row)) => r == ListKeyOutcome::MenuOpened(ListAction::Workspace(row)),
                Some(ListAction::Terminal(id)) => r == ListKeyOutcome::MenuOpened(ListAction::Terminal(id)),
                Some(ListAction::Buffer(b)) => r == ListKeyOutcome::MenuOpened(ListAction::Buffer(b)),
                _ => *final(self) == *old(self) && r == (if old(self).list->0.has_tags {
                    ListKeyOutcome::CycleTag
                } else {
                    ListKeyOutcome::Move(ListMove::Down)
                }),
            },
    {
        let selected = self.list.as_ref().unwrap().selected;
        match selected {
            Some(ListAction::Workspace(row)) => {
                self.open_session_actions(row);
                ListKeyOutcome::MenuOpened(ListAction::Workspace(row))
            },
            Some(ListAction::Terminal(id)) => {
                self.open_terminal_actions(id);
                ListKeyOutcome::MenuOpened(ListAction::Terminal(id))
            },
            Some(ListAction::Buffer(b)) => {
                self.open_buffer_actions(b);
                ListKeyOutcome::MenuOpened(ListAction::Buffer(b))
            },
            _ => if self.list.as_ref().unwrap().has_tags {
                ListKeyOutcome::CycleTag
            } else {
                ListKeyOutcome::Move(ListMove::Down)
            },
        }
    }
}

} // verus!
