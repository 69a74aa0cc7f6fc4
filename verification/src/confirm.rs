//! Confirmations that own input until they are answered: a filesystem plan,
//! discarding a buffer, and Git operations guarded by a typed name.

use vstd::prelude::*;
use vstd::string::*;

use crate::app::{App, DirectoryReload, FileReload, FileSnapshot, FsConfirmation, TypedConfirmation};
use crate::keys::{KeyCode, KeyStroke};
use crate::prompt::{edit_confirmation_text, spec_edit_confirmation_text};
use crate::strings::{chars_of, decimal, push_decimal, push_str, string_of};

verus! {

/// How a filesystem plan deletes.
#[derive(Clone, Copy, Debug, PartialEq, Eq, Structural)]
pub enum DeletionMode {
    Trash,
    Permanent,
}

/// How a destructive Git operation was authorized.
#[derive(Clone, Copy, Debug, PartialEq, Eq, Structural)]
pub enum DeletionAuthorization {
    /// The name was typed.
    Typed,
    /// Enter alone sufficed.
    Enter,
}

/// What a key did to a typed confirmation.
#[derive(Clone, Copy, Debug, PartialEq, Eq, Structural)]
pub enum ConfirmationOutcome {
    /// Cancelled; nothing was changed.
    Cancelled,
    /// Enter was refused because the typed text does not match.
    Refused,
    /// Confirmed; the host runs the operation.
    Confirmed(DeletionAuthorization),
    /// The typed text or caret changed.
    Edited,
    /// Nothing happened.
    Ignored,
}

/// `a + b`, capped at `cap`, adding without overflow.
pub open spec fn capped_add(a: int, b: int, cap: int) -> int {
    if a + b < cap {
        a + b
    } else {
        cap
    }
}

/// Where the selection of a filesystem plan of `operations` moves for
/// `key`, if `key` moves it.
pub open spec fn fs_selection_after(selected: int, operations: int, key: KeyStroke) -> Option<int> {
    let control = key.modifiers.control;
    let last = if operations > 0 {
        operations - 1
    } else {
        0
    };
    let up = |n: int|
        if selected > n {
            selected - n
        } else {
            0
        };
    match key.code {
        KeyCode::Down => Some(capped_add(selected, 1, last)),
        KeyCode::Up => Some(up(1)),
        KeyCode::PageDown => Some(capped_add(selected, 10, last)),
        KeyCode::PageUp => Some(up(10)),
        KeyCode::Home => Some(0),
        KeyCode::End => Some(last),
        KeyCode::Char(c) => if control && c == 'n' {
            Some(capped_add(selected, 1, last))
        } else if control && c == 'p' {
            Some(up(1))
        } else if control && c == 'd' {
            Some(capped_add(selected, 10, last))
        } else if control && c == 'u' {
            Some(up(10))
        } else {
            None
        },
        _ => None,
    }
}

/// The selection moved down `n` rows, staying on the last of `operations`.
fn selection_down(selected: usize, n: usize, operations: usize) -> (s: usize)
    ensures
        s == capped_add(
            selected as int,
            n as int,
            if operations > 0 {
                operations - 1
            } else {
                0
            },
        ),
{
    let last = operations.saturating_sub(1);
    let moved = selected.saturating_add(n);
    if moved < last {
        moved
    } else {
        last
    }
}

impl App {
    /// A key while a filesystem plan awaits confirmation: Escape and
    /// Control-c cancel it, Enter applies it through the trash and an
    /// unmodified `P` permanently (the host applies it), and the navigation
    /// keys move the selected operation.
    pub fn handle_fs_confirmation(&mut self, key: KeyStroke) -> (r: Option<DeletionMode>)
        requires
            fs_selection_after(0, 0, key) is Some ==> old(self).fs_confirmation is Some,
        ensures
            key.spec_is_cancel() ==> r is None && final(self).fs_confirmation is None
                && final(self).status@ == "filesystem plan cancelled"@,
            !key.spec_is_cancel() && key.code == KeyCode::Enter ==> r == Some(DeletionMode::Trash)
                && *final(self) == *old(self),
            !key.spec_is_cancel() && key.code == KeyCode::Char('P') && key.modifiers.spec_is_empty()
                ==> r == Some(DeletionMode::Permanent) && *final(self) == *old(self),
            !key.spec_is_cancel() && key.code != KeyCode::Enter && !(key.code == KeyCode::Char('P')
                && key.modifiers.spec_is_empty()) ==> r is None && match old(self).fs_confirmation {
                Some(c) => match fs_selection_after(c.selected as int, c.operations as int, key) {
                    Some(s) => final(self).fs_confirmation == Some(
                        FsConfirmation { buffer: c.buffer, operations: c.operations, selected: s as usize },
                    ),
                    None => final(self).fs_confirmation == old(self).fs_confirmation,
                },
                None => final(self).fs_confirmation is None,
            },
    {
        let control = key.modifiers.control;
        if key.is_cancel() {
            self.fs_confirmation = None;
            self.status = String::from_str("filesystem plan cancelled");
            self.status_error = false;
            return None;
        }
        match key.code {
            KeyCode::Enter => return Some(DeletionMode::Trash),
            KeyCode::Char(c) => {
                if c == 'P' && key.modifiers.is_empty() {
                    return Some(DeletionMode::Permanent);
                }
            },
            _ => {},
        }
        let moves_down_one = key.code == KeyCode::Down || (control && key.code == KeyCode::Char(
            'n',
        ));
        let moves_up_one = key.code == KeyCode::Up || (control && key.code == KeyCode::Char('p'));
        let moves_down_page = key.code == KeyCode::PageDown || (control && key.code
            == KeyCode::Char('d'));
        let moves_up_page = key.code == KeyCode::PageUp || (control && key.code == KeyCode::Char(
            'u',
        ));
        if !(moves_down_one || moves_up_one || moves_down_page || moves_up_page || key.code
            == KeyCode::Home || key.code == KeyCode::End) {
            return None;
        }
        let mut confirmation = self.fs_confirmation.unwrap();
        if moves_down_one {
            confirmation.selected = selection_down(confirmation.selected, 1, confirmation.operations);
        } else if moves_up_one {
            confirmation.selected = confirmation.selected.saturating_sub(1);
        } else if moves_down_page {
            confirmation.selected = selection_down(
                confirmation.selected,
                10,
                confirmation.operations,
            );
        } else if moves_up_page {
            confirmation.selected = confirmation.selected.saturating_sub(10);
        } else if key.code == KeyCode::Home {
            confirmation.selected = 0;
        } else {
            confirmation.selected = confirmation.operations.saturating_sub(1);
        }
        self.fs_confirmation = Some(confirmation);
        None
    }

    /// A key while discarding a buffer's changes awaits confirmation:
    /// Escape and Control-c cancel it; Enter hands back the buffer for the
    /// host to discard.
    pub fn handle_buffer_discard_confirmation(&mut self, key: KeyStroke) -> (r: Option<usize>)
        ensures
            key.spec_is_cancel() ==> r is None && final(self).buffer_discard_confirmation is None
                && final(self).status@ == "discard cancelled"@,
            !key.spec_is_cancel() && key.code == KeyCode::Enter ==> r == old(self).buffer_discard_confirmation && final(self).buffer_discard_confirmation is None,
            !key.spec_is_cancel() && key.code != KeyCode::Enter ==> r is None && *final(self)
                == *old(self),
    {
        if key.is_cancel() {
            self.buffer_discard_confirmation = None;
            self.status = String::from_str("discard cancelled");
            self.status_error = false;
            return None;
        }
        if key.code == KeyCode::Enter {
            return self.buffer_discard_confirmation.take();
        }
        None
    }

    /// Marks the last action as failed with `message`.
    pub(crate) fn action_failed(&mut self, message: &str)
        ensures
            final(self).status@ == message@,
            final(self).status_error,
            *final(self) == (App { status: final(self).status, status_error: true, ..*old(self) }),
    {
        self.status = String::from_str(message);
        self.status_error = true;
    }

    /// Shows `message` on the status line.
    pub(crate) fn set_status(&mut self, message: String)
        ensures
            final(self).status@ == message@,
            !final(self).status_error,
            *final(self) == (App { status: final(self).status, status_error: false, ..*old(self) }),
    {
        self.status = message;
        self.status_error = false;
    }
}

/// Applies an editing key to the typed confirmation in `slot`, if there is
/// one, and says whether there was.
fn edit_slot(slot: &mut Option<TypedConfirmation>, key: KeyStroke) -> (edited: bool)
    requires
        *old(slot) matches Some(c) ==> c.input@.len() < usize::MAX,
    ensures
        edited == (*old(slot) is Some),
        match *old(slot) {
            Some(c) => *final(slot) matches Some(n) && n.input@ == spec_edit_confirmation_text(
                c.input@,
                c.cursor as int,
                key,
            ).0 && n.cursor == spec_edit_confirmation_text(c.input@, c.cursor as int, key).1
                && n.expected@ == c.expected@ && n.typed == c.typed,
            None => *final(slot) is None,
        },
{
    match slot {
        Some(c) => {
            edit_confirmation_text(&mut c.input, &mut c.cursor, key);
            true
        },
        None => false,
    }
}

/// Whether a typed confirmation lets Enter through: no typing is asked for,
/// or what was typed is exactly what is expected.
pub open spec fn typed_accepts(c: TypedConfirmation) -> bool {
    !c.typed || c.input@ == c.expected@
}

/// Whether `a` and `b` hold the same characters.
pub(crate) fn same_chars(a: &Vec<char>, b: &Vec<char>) -> (r: bool)
    ensures
        r == (a@ == b@),
{
    if a.len() != b.len() {
        return false;
    }
    let mut i: usize = 0;
    while i < a.len()
        invariant
            i <= a@.len() == b@.len(),
            forall|k: int| 0 <= k < i ==> a@[k] == b@[k],
        decreases a@.len() - i,
    {
        if a[i] != b[i] {
            return false;
        }
        i = i + 1;
    }
    assert(a@ =~= b@);
    true
}

impl App {
    /// A key while deleting a branch awaits confirmation. Escape and
    /// Control-c cancel it; Enter confirms it when nothing must be typed or
    /// the branch name was typed exactly, and is refused otherwise; any
    /// other key edits the typed name, where one is asked for.
    pub fn handle_branch_deletion_confirmation(&mut self, key: KeyStroke) -> (r: ConfirmationOutcome)
        requires
            old(self).git_branch_deletion matches Some(c) ==> c.input@.len() < usize::MAX,
        ensures
            key.spec_is_cancel() ==> r == ConfirmationOutcome::Cancelled
                && final(self).git_branch_deletion is None && final(self).status@
                == "delete cancelled; the branch is still there"@,
            !key.spec_is_cancel() && key.code == KeyCode::Enter ==> match old(self).git_branch_deletion {
                Some(c) => if typed_accepts(c) {
                    r == ConfirmationOutcome::Confirmed(
                        if c.typed {
                            DeletionAuthorization::Typed
                        } else {
                            DeletionAuthorization::Enter
                        },
                    ) && final(self).git_branch_deletion is None
                } else {
                    r == ConfirmationOutcome::Refused && final(self).status@
                        == "type the exact branch name before deleting it"@ && final(self).status_error
                },
                None => r == ConfirmationOutcome::Refused && final(self).status_error,
            },
            !key.spec_is_cancel() && key.code != KeyCode::Enter ==> match old(self).git_branch_deletion {
                Some(c) => if c.typed {
                    r == ConfirmationOutcome::Edited && (final(self).git_branch_deletion matches Some(n) && n.input@ == spec_edit_confirmation_text(c.input@, c.cursor as int, key).0
                        && n.cursor == spec_edit_confirmation_text(c.input@, c.cursor as int, key).1)
                } else {
                    r == ConfirmationOutcome::Ignored && *final(self) == *old(self)
                },
                None => r == ConfirmationOutcome::Ignored && *final(self) == *old(self),
            },
    {
        if key.is_cancel() {
            self.git_branch_deletion = None;
            self.set_status(String::from_str("delete cancelled; the branch is still there"));
            return ConfirmationOutcome::Cancelled;
        }
        if key.code == KeyCode::Enter {
            let valid = match &self.git_branch_deletion {
                Some(c) => !c.typed || same_chars(&c.input, &c.expected),
                None => false,
            };
            if !valid {
                self.action_failed("type the exact branch name before deleting it");
                return ConfirmationOutcome::Refused;
            }
            let c = self.git_branch_deletion.take().unwrap();
            return ConfirmationOutcome::Confirmed(
                if c.typed {
                    DeletionAuthorization::Typed
                } else {
                    DeletionAuthorization::Enter
                },
            );
        }
        let typed = match &self.git_branch_deletion {
            Some(c) => c.typed,
            None => false,
        };
        if typed {
            edit_slot(&mut self.git_branch_deletion, key);
            self.confirmation_revision = self.confirmation_revision.wrapping_add(1);
            ConfirmationOutcome::Edited
        } else {
            ConfirmationOutcome::Ignored
        }
    }

    /// A key while removing a worktree awaits confirmation: as deleting a
    /// branch, with the worktree's own messages.
    pub fn handle_worktree_removal_confirmation(&mut self, key: KeyStroke) -> (r: ConfirmationOutcome)
        requires
            old(self).git_worktree_removal matches Some(c) ==> c.input@.len() < usize::MAX,
        ensures
            key.spec_is_cancel() ==> final(self).git_worktree_removal is None && match old(self).git_worktree_removal {
                Some(c) => r == ConfirmationOutcome::Cancelled && final(self).status@
                    == "remove cancelled; worktree "@ + c.subject@
                    + " was kept and no branch was deleted"@,
                None => r == ConfirmationOutcome::Ignored,
            },
            !key.spec_is_cancel() && key.code == KeyCode::Enter ==> match old(self).git_worktree_removal {
                Some(c) => if typed_accepts(c) {
                    r == ConfirmationOutcome::Confirmed(
                        if c.typed {
                            DeletionAuthorization::Typed
                        } else {
                            DeletionAuthorization::Enter
                        },
                    ) && final(self).git_worktree_removal is None
                } else {
                    r == ConfirmationOutcome::Refused && final(self).status@
                        == "type the exact branch name or worktree path before removing it"@
                        && final(self).status_error
                },
                None => r == ConfirmationOutcome::Refused && final(self).status_error,
            },
            !key.spec_is_cancel() && key.code != KeyCode::Enter ==> match old(self).git_worktree_removal {
                Some(c) => if c.typed {
                    r == ConfirmationOutcome::Edited && (final(self).git_worktree_removal matches Some(n) && n.input@ == spec_edit_confirmation_text(c.input@, c.cursor as int, key).0
                        && n.cursor == spec_edit_confirmation_text(c.input@, c.cursor as int, key).1)
                } else {
                    r == ConfirmationOutcome::Ignored && *final(self) == *old(self)
                },
                None => r == ConfirmationOutcome::Ignored && *final(self) == *old(self),
            },
    {
        if key.is_cancel() {
            let Some(c) = self.git_worktree_removal.take() else {
                return ConfirmationOutcome::Ignored;
            };
            let mut message = chars_of("remove cancelled; worktree ");
            push_str(&mut message, c.subject.as_str());
            push_str(&mut message, " was kept and no branch was deleted");
            self.set_status(string_of(&message));
            return ConfirmationOutcome::Cancelled;
        }
        if key.code == KeyCode::Enter {
            let valid = match &self.git_worktree_removal {
                Some(c) => !c.typed || same_chars(&c.input, &c.expected),
                None => false,
            };
            if !valid {
                self.action_failed("type the exact branch name or worktree path before removing it");
                return ConfirmationOutcome::Refused;
            }
            let c = self.git_worktree_removal.take().unwrap();
            return ConfirmationOutcome::Confirmed(
                if c.typed {
                    DeletionAuthorization::Typed
                } else {
                    DeletionAuthorization::Enter
                },
            );
        }
        let typed = match &self.git_worktree_removal {
            Some(c) => c.typed,
            None => false,
        };
        if typed {
            edit_slot(&mut self.git_worktree_removal, key);
            self.confirmation_revision = self.confirmation_revision.wrapping_add(1);
            ConfirmationOutcome::Edited
        } else {
            ConfirmationOutcome::Ignored
        }
    }

    /// A key while switching branches awaits confirmation. Escape and
    /// Control-c cancel it with its own message; Enter confirms it only
    /// when the branch name was typed exactly; any other key edits the name.
    pub fn handle_branch_switch_confirmation(&mut self, key: KeyStroke) -> (r: ConfirmationOutcome)
        requires
            old(self).git_branch_switch matches Some(c) ==> c.input@.len() < usize::MAX,
        ensures
            key.spec_is_cancel() ==> final(self).git_branch_switch is None && match old(self).git_branch_switch {
                Some(c) => r == ConfirmationOutcome::Cancelled && final(self).status@
                    == c.cancelled_message@,
                None => r == ConfirmationOutcome::Ignored,
            },
            !key.spec_is_cancel() && key.code == KeyCode::Enter ==> match old(self).git_branch_switch {
                Some(c) => if c.input@ == c.expected@ {
                    r == ConfirmationOutcome::Confirmed(DeletionAuthorization::Typed) && final(self).git_branch_switch is None
                } else {
                    r == ConfirmationOutcome::Refused && final(self).status@
                        == "type the exact branch name before switching branches"@
                        && final(self).status_error
                },
                None => r == ConfirmationOutcome::Refused && final(self).status_error,
            },
            !key.spec_is_cancel() && key.code != KeyCode::Enter ==> match old(self).git_branch_switch {
                Some(c) => r == ConfirmationOutcome::Edited && (final(self).git_branch_switch matches Some(n) && n.input@ == spec_edit_confirmation_text(c.input@, c.cursor as int, key).0
                    && n.cursor == spec_edit_confirmation_text(c.input@, c.cursor as int, key).1),
                None => r == ConfirmationOutcome::Ignored && *final(self) == *old(self),
            },
    {
        if key.is_cancel() {
            let Some(c) = self.git_branch_switch.take() else {
                return ConfirmationOutcome::Ignored;
            };
            self.set_status(c.cancelled_message);
            return ConfirmationOutcome::Cancelled;
        }
        if key.code == KeyCode::Enter {
            let valid = match &self.git_branch_switch {
                Some(c) => same_chars(&c.input, &c.expected),
                None => false,
            };
            if !valid {
                self.action_failed("type the exact branch name before switching branches");
                return ConfirmationOutcome::Refused;
            }
            self.git_branch_switch = None;
            return ConfirmationOutcome::Confirmed(DeletionAuthorization::Typed);
        }
        if self.git_branch_switch.is_some() {
            edit_slot(&mut self.git_branch_switch, key);
            self.confirmation_revision = self.confirmation_revision.wrapping_add(1);
            ConfirmationOutcome::Edited
        } else {
            ConfirmationOutcome::Ignored
        }
    }

    /// A key while a pull that needs a rebase awaits an answer. Escape and
    /// Control-c refuse it, saying how far the branch stays behind; Enter
    /// accepts it (the host rebases). Says whether the rebase should run.
    pub fn handle_pull_rebase_confirmation(&mut self, key: KeyStroke) -> (rebase: bool)
        ensures
            key.spec_is_cancel() ==> !rebase && final(self).git_pull_rebase is None && match old(self).git_pull_rebase {
                Some(p) => final(self).status@ == p.branch@ + " was left as it is, still "@
                    + decimal(p.behind as nat) + " commit(s) behind "@ + p.upstream@,
                None => *final(self) == *old(self),
            },
            !key.spec_is_cancel() && key.code == KeyCode::Enter ==> rebase == old(self).git_pull_rebase is Some && final(self).git_pull_rebase is None,
            !key.spec_is_cancel() && key.code != KeyCode::Enter ==> !rebase && *final(self)
                == *old(self),
    {
        if key.is_cancel() {
            let Some(p) = self.git_pull_rebase.take() else {
                return false;
            };
            let mut message = chars_of(p.branch.as_str());
            push_str(&mut message, " was left as it is, still ");
            push_decimal(&mut message, p.behind);
            push_str(&mut message, " commit(s) behind ");
            push_str(&mut message, p.upstream.as_str());
            self.set_status(string_of(&message));
            return false;
        }
        if key.code == KeyCode::Enter {
            return self.git_pull_rebase.take().is_some();
        }
        false
    }
}

/// What a key did to a confirmation that only awaits Enter.
pub enum Answer<T> {
    /// Cancelled; nothing was changed.
    Cancelled,
    /// Confirmed; the host carries out what was waiting.
    Confirmed(T),
    /// Nothing happened.
    Ignored,
}

impl App {
    /// A key while discarding a directory buffer's edits awaits
    /// confirmation: Escape and Control-c cancel it; Enter hands it back for
    /// the host to leave for its destination, or to reload the directory
    /// where it has none.
    pub fn handle_directory_reload_confirmation(&mut self, key: KeyStroke) -> (r: Answer<
        DirectoryReload,
    >)
        ensures
            key.spec_is_cancel() ==> r is Cancelled && final(self).directory_reload_confirmation
                is None && final(self).status@ == "directory refresh cancelled"@
                && !final(self).status_error,
            !key.spec_is_cancel() && key.code == KeyCode::Enter ==> final(self).directory_reload_confirmation is None && match old(self).directory_reload_confirmation {
                Some(c) => r == Answer::Confirmed(c),
                None => r is Ignored,
            },
            !key.spec_is_cancel() && key.code != KeyCode::Enter ==> r is Ignored && *final(self)
                == *old(self),
    {
        if key.is_cancel() {
            self.directory_reload_confirmation = None;
            self.set_status(String::from_str("directory refresh cancelled"));
            return Answer::Cancelled;
        }
        if key.code == KeyCode::Enter {
            return match self.directory_reload_confirmation.take() {
                Some(c) => Answer::Confirmed(c),
                None => Answer::Ignored,
            };
        }
        Answer::Ignored
    }

    /// A key while discarding working-tree changes awaits confirmation:
    /// Escape and Control-c cancel it; Enter hands back the paths for the
    /// host to discard.
    pub fn handle_git_discard_confirmation(&mut self, key: KeyStroke) -> (r: Answer<Vec<String>>)
        ensures
            key.spec_is_cancel() ==> r is Cancelled && final(self).git_discard_confirmation is None
                && final(self).status@ == "discard cancelled; nothing was changed"@
                && !final(self).status_error,
            !key.spec_is_cancel() && key.code == KeyCode::Enter ==> final(self).git_discard_confirmation is None && match old(self).git_discard_confirmation {
                Some(paths) => r == Answer::Confirmed(paths),
                None => r is Ignored,
            },
            !key.spec_is_cancel() && key.code != KeyCode::Enter ==> r is Ignored && *final(self)
                == *old(self),
    {
        if key.is_cancel() {
            self.git_discard_confirmation = None;
            self.set_status(String::from_str("discard cancelled; nothing was changed"));
            return Answer::Cancelled;
        }
        if key.code == KeyCode::Enter {
            return match self.git_discard_confirmation.take() {
                Some(paths) => Answer::Confirmed(paths),
                None => Answer::Ignored,
            };
        }
        Answer::Ignored
    }
}

/// What Enter did to a file reload.
#[derive(Clone, Copy, Debug, PartialEq, Eq, Structural)]
pub enum FileReloadOutcome {
    Cancelled,
    /// Refused: the buffer was closed or is no longer an ordinary file, or
    /// its baseline moved.
    Refused,
    /// The file changed again on disk: the host takes in the observation
    /// with this fingerprint, and the reload is offered again if the buffer
    /// then differs from disk.
    ChangedAgain(u64),
    /// The host reloads `buffer` from the observation it was offered.
    Install { buffer: usize, observation: u64 },
    Ignored,
}

/// What Enter does to the file reload `c`, given whether its buffer is gone
/// and what the disk shows now.
pub open spec fn spec_file_reload_outcome(c: FileReload, gone: bool, current: Option<FileSnapshot>) -> FileReloadOutcome {
    if gone {
        FileReloadOutcome::Refused
    } else {
        match current {
            None => FileReloadOutcome::Refused,
            Some(now) => if now.generation != c.generation || now.path@ != c.path@ {
                FileReloadOutcome::Refused
            } else if now.observation != c.observation {
                FileReloadOutcome::ChangedAgain(now.observation)
            } else {
                FileReloadOutcome::Install { buffer: c.buffer, observation: c.observation }
            },
        }
    }
}

/// The message a reload refused for `gone` or `current` shows.
pub open spec fn spec_file_reload_refusal(gone: bool, current: Option<FileSnapshot>) -> Seq<char> {
    if gone {
        "the file buffer was closed; reload cancelled"@
    } else if current is None {
        "the buffer is no longer an ordinary file; reload cancelled"@
    } else {
        "the file baseline changed; review reload again"@
    }
}

impl App {
    /// Whether buffer `buffer` is out of range or closed.
    fn buffer_gone(&self, buffer: usize) -> (b: bool)
        ensures
            b == (buffer >= self.buffers@.len() || self.closed_buffers@.contains(buffer)),
    {
        buffer >= self.buffers.len() || self.is_closed(buffer)
    }

    /// A key while reloading a file over its edits awaits confirmation.
    /// Escape and Control-c cancel it. Enter, with `current` what the disk
    /// shows of the buffer now (nothing once it is no longer an ordinary
    /// file), refuses when the buffer was closed or its baseline moved;
    /// when the file changed again it hands the new observation to the host
    /// and, where `stale` says the buffer will still differ from disk after
    /// taking it in and the observation is text, offers the reload again
    /// for it; otherwise it hands the reload to the host.
    pub fn handle_file_reload_confirmation(
        &mut self,
        key: KeyStroke,
        current: Option<FileSnapshot>,
        stale: bool,
    ) -> (r: FileReloadOutcome)
        ensures
            key.spec_is_cancel() ==> r == FileReloadOutcome::Cancelled
                && final(self).file_reload_confirmation is None && final(self).status@
                == "reload cancelled"@ && !final(self).status_error,
            !key.spec_is_cancel() && key.code != KeyCode::Enter ==> r == FileReloadOutcome::Ignored
                && *final(self) == *old(self),
            !key.spec_is_cancel() && key.code == KeyCode::Enter ==> match old(self).file_reload_confirmation {
                None => r == FileReloadOutcome::Ignored && *final(self) == *old(self),
                Some(c) => {
                    let gone = c.buffer >= old(self).buffers@.len()
                        || old(self).closed_buffers@.contains(c.buffer);
                    &&& r == spec_file_reload_outcome(c, gone, current)
                    &&& match r {
                        FileReloadOutcome::Refused => final(self).file_reload_confirmation is None
                            && final(self).status_error && final(self).status@
                            == spec_file_reload_refusal(gone, current),
                        FileReloadOutcome::ChangedAgain(o) => final(self).status_error
                            && final(self).status@
                            == "the file changed again on disk; review reload again"@
                            && final(self).file_reload_confirmation == (if current->0.text
                            && stale {
                            Some(FileReload { observation: o, ..c })
                        } else {
                            None
                        }),
                        _ => final(self).file_reload_confirmation is None,
                    }
                },
            },
    {
        if key.is_cancel() {
            self.file_reload_confirmation = None;
            self.set_status(String::from_str("reload cancelled"));
            return FileReloadOutcome::Cancelled;
        }
        if key.code != KeyCode::Enter {
            return FileReloadOutcome::Ignored;
        }
        let Some(mut c) = self.file_reload_confirmation.take() else {
            return FileReloadOutcome::Ignored;
        };
        if self.buffer_gone(c.buffer) {
            self.action_failed("the file buffer was closed; reload cancelled");
            return FileReloadOutcome::Refused;
        }
        let Some(now) = current else {
            self.action_failed("the buffer is no longer an ordinary file; reload cancelled");
            return FileReloadOutcome::Refused;
        };
        if now.generation != c.generation || !same_chars(&now.path, &c.path) {
            self.action_failed("the file baseline changed; review reload again");
            return FileReloadOutcome::Refused;
        }
        if now.observation != c.observation {
            if now.text && stale {
                c.observation = now.observation;
                self.file_reload_confirmation = Some(c);
            }
            self.action_failed("the file changed again on disk; review reload again");
            return FileReloadOutcome::ChangedAgain(now.observation);
        }
        FileReloadOutcome::Install { buffer: c.buffer, observation: c.observation }
    }
}

/// `message`, followed by ` · ` and `warning` where there is one.
pub open spec fn with_warning(message: Seq<char>, warning: Option<String>) -> Seq<char> {
    match warning {
        Some(w) => message + " · "@ + w@,
        None => message,
    }
}

/// The status after `n` filesystem operations were applied.
pub open spec fn applied_message(n: u64) -> Seq<char> {
    "applied "@ + decimal(n as nat) + " filesystem operation"@ + (if n == 1 {
        ""@
    } else {
        "s"@
    })
}

/// Appends ` · ` and `warning`, where there is one.
fn push_warning(message: &mut Vec<char>, warning: &Option<String>)
    ensures
        final(message)@ == with_warning(old(message)@, *warning),
{
    if let Some(w) = warning {
        push_str(message, " · ");
        push_str(message, w.as_str());
    }
}

impl App {
    /// Closes the filesystem plan once the host has applied it: `applied`
    /// is how many operations were applied, or the failure's message, and
    /// `warning` what reconciling the open buffers reported. Success shows
    /// the count; a failure shows its message as an error.
    pub fn apply_fs_confirmation(&mut self, applied: Result<u64, String>, warning: Option<String>)
        ensures
            final(self).fs_confirmation is None,
            match applied {
                Ok(n) => final(self).status@ == with_warning(applied_message(n), warning)
                    && !final(self).status_error,
                Err(m) => final(self).status@ == with_warning(m@, warning)
                    && final(self).status_error,
            },
    {
        self.fs_confirmation = None;
        match applied {
            Ok(n) => {
                let mut message = chars_of("applied ");
                push_decimal(&mut message, n);
                push_str(&mut message, " filesystem operation");
                if n != 1 {
                    push_str(&mut message, "s");
                }
                proof {
                    reveal_strlit("");
                }
                push_warning(&mut message, &warning);
                self.set_status(string_of(&message));
            },
            Err(m) => {
                let mut message = chars_of(m.as_str());
                push_warning(&mut message, &warning);
                self.status = string_of(&message);
                self.status_error = true;
            },
        }
    }
}

} // verus!
