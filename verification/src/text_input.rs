//! Where pasted or typed text goes: the overlay that owns input, the prompt,
//! a terminal, or the document.

use vstd::prelude::*;

use crate::app::{App, ListView, TypedConfirmation};
use crate::plugin_fs::bumped;
use crate::keys::Mode;
use crate::prompt::insert_confirmation_text;

verus! {

/// Who takes a piece of text that the application did not consume itself.
#[derive(Clone, Copy, Debug, PartialEq, Eq, Structural)]
pub enum TextRoute {
    /// Taken (or deliberately dropped) by the application.
    Consumed,
    /// The file picker's query takes it; the host inserts and re-ranks.
    PickerQuery,
    /// The terminal the active pane shows takes it as a paste.
    Terminal(usize),
    /// The document takes it as an edit.
    Document,
}

/// Appends the characters of `text` to `target`.
fn append_chars(target: &mut Vec<char>, text: &Vec<char>)
    ensures
        final(target)@ == old(target)@ + text@,
{
    let mut i: usize = 0;
    let ghost start = target@;
    while i < text.len()
        invariant
            i <= text@.len(),
            target@ == start + text@.take(i as int),
        decreases text@.len() - i,
    {
        target.push(text[i]);
        assert(text@.take(i + 1) == text@.take(i as int).push(text@[i as int]));
        i = i + 1;
    }
    assert(text@.take(text@.len() as int) == text@);
}

/// `input` with `text` inserted at the caret brought inside it.
pub open spec fn inserted_at(input: Seq<char>, cursor: int, text: Seq<char>) -> Seq<char> {
    let c = if cursor < input.len() {
        cursor
    } else {
        input.len() as int
    };
    input.subrange(0, c) + text + input.subrange(c, input.len() as int)
}

/// Confirmation `after` is `before` with `text` typed at its caret: the
/// text inserted there and the caret after it.
pub open spec fn typed_into_confirmation(before: TypedConfirmation, after: TypedConfirmation, text: Seq<char>) -> bool {
    let c = if before.cursor < before.input@.len() {
        before.cursor as int
    } else {
        before.input@.len() as int
    };
    &&& after.input@ == inserted_at(before.input@, before.cursor as int, text)
    &&& after.cursor == c + text.len()
    &&& after == (TypedConfirmation { input: after.input, cursor: after.cursor, ..before })
}

/// What text does to the typed confirmations of `before`, giving `after`:
/// the branch switch takes it; a branch deletion or worktree removal takes
/// it when it waits for typing and drops it when it waits for Enter; taking
/// it moves the confirmation revision on. Nothing else changes.
pub open spec fn confirmation_text_taken(before: App, after: App, text: Seq<char>) -> bool {
    match before.git_branch_switch {
        Some(c) => {
            &&& after.git_branch_switch matches Some(n) && typed_into_confirmation(c, n, text)
            &&& after == (App {
                git_branch_switch: after.git_branch_switch,
                confirmation_revision: bumped(before.confirmation_revision),
                ..before
            })
        },
        None => match before.git_branch_deletion {
            Some(c) => if c.typed {
                &&& after.git_branch_deletion matches Some(n) && typed_into_confirmation(c, n, text)
                &&& after == (App {
                    git_branch_deletion: after.git_branch_deletion,
                    confirmation_revision: bumped(before.confirmation_revision),
                    ..before
                })
            } else {
                after == before
            },
            None => match before.git_worktree_removal {
                Some(c) => if c.typed {
                    &&& after.git_worktree_removal matches Some(n) && typed_into_confirmation(c, n, text)
                    &&& after == (App {
                        git_worktree_removal: after.git_worktree_removal,
                        confirmation_revision: bumped(before.confirmation_revision),
                        ..before
                    })
                } else {
                    after == before
                },
                None => after == before,
            },
        },
    }
}

/// Types `text` into confirmation `c` at its caret.
fn type_into(c: &mut TypedConfirmation, text: &Vec<char>)
    requires
        old(c).input@.len() + text@.len() < usize::MAX,
    ensures
        typed_into_confirmation(*old(c), *final(c), text@),
{
    insert_confirmation_text(&mut c.input, &mut c.cursor, text);
}

impl App {
    /// Routes one piece of text. Empty text does nothing. A typed
    /// confirmation that waits for text takes it; one that waits for Enter,
    /// the filesystem, directory-reload or discard confirmation, the context
    /// action menu and the program menu drop it.
    /// The file picker takes it into its query; a filterable choice list,
    /// with no action menu over it, appends it to its filter. In Insert mode
    /// over a terminal the terminal takes it; in Insert or Replace the
    /// document does; in the prompt it is inserted at the caret.
    #[verifier::rlimit(80)]
    pub fn handle_text(&mut self, text: &Vec<char>) -> (r: TextRoute)
        requires
            old(self).wf(),
            old(self).git_branch_switch matches Some(c) ==> c.input@.len() + text@.len() < usize::MAX,
            old(self).git_branch_deletion matches Some(c) ==> c.input@.len() + text@.len() < usize::MAX,
            old(self).git_worktree_removal matches Some(c) ==> c.input@.len() + text@.len()
                < usize::MAX,
            old(self).command@.len() + text@.len() < usize::MAX,
        ensures
            text@.len() == 0 ==> r == TextRoute::Consumed && *final(self) == *old(self),
            text@.len() > 0 && (old(self).git_branch_switch is Some || old(self).git_branch_deletion
                is Some || old(self).git_worktree_removal is Some) ==> r == TextRoute::Consumed
                && confirmation_text_taken(*old(self), *final(self), text@),
            text@.len() > 0 && old(self).git_branch_switch is None && old(self).git_branch_deletion
                is None && old(self).git_worktree_removal is None && (old(self).fs_confirmation
                is Some || old(self).directory_reload_confirmation is Some
                || old(self).buffer_discard_confirmation is Some || old(self).menus.context is Some
                || old(self).program_action_menu is Some) ==> r == TextRoute::Consumed
                && *final(self) == *old(self),
            text@.len() > 0 && !old(self).text_overlay() ==> match old(self).picker_query {
                Some(_) => r == TextRoute::PickerQuery && *final(self) == *old(self),
                None => match old(self).list {
                    Some(list) => r == TextRoute::Consumed && (
                    if list.accepts_filter && old(self).menus.buffer is None && old(self).menus.terminal
                        is None {
                        final(self).list matches Some(l) && l.filter@ == list.filter@ + text@
                            && l == (ListView { filter: l.filter, ..list })
                    } else {
                        final(self).list == old(self).list
                    }),
                    None => if old(self).mode == Mode::Insert && old(self).active_terminal()
                        is Some {
                        r == TextRoute::Terminal(old(self).active_terminal()->0)
                    } else if old(self).mode == Mode::Insert || old(self).mode == Mode::Replace {
                        r == TextRoute::Document
                    } else if old(self).mode == Mode::Command {
                        r == TextRoute::Consumed && final(self).command@ == inserted_at(
                            old(self).command@,
                            old(self).command_cursor as int,
                            text@,
                        ) && final(self).command_selection == 0
                    } else {
                        r == TextRoute::Consumed && *final(self) == *old(self)
                    },
                },
            },
    {
        if text.len() == 0 {
            return TextRoute::Consumed;
        }
        if self.git_branch_switch.is_some() || self.git_branch_deletion.is_some()
            || self.git_worktree_removal.is_some() {
            self.confirmation_text(text);
            return TextRoute::Consumed;
        }
        if self.fs_confirmation.is_some() || self.directory_reload_confirmation.is_some()
            || self.buffer_discard_confirmation.is_some() || self.menus.context.is_some()
            || self.program_action_menu.is_some() {
            return TextRoute::Consumed;
        }
        if self.picker_query.is_some() {
            return TextRoute::PickerQuery;
        }
        if self.list.is_some() {
            let menus_closed = self.menus.buffer.is_none() && self.menus.terminal.is_none();
            if let Some(list) = &mut self.list {
                if menus_closed && list.accepts_filter {
                    append_chars(&mut list.filter, text);
                }
            }
            return TextRoute::Consumed;
        }
        let terminal = self.active_terminal_of_pane();
        if self.mode == Mode::Insert {
            if let Some(id) = terminal {
                return TextRoute::Terminal(id);
            }
        }
        if self.mode == Mode::Insert || self.mode == Mode::Replace {
            return TextRoute::Document;
        }
        if self.mode == Mode::Command {
            insert_confirmation_text(&mut self.command, &mut self.command_cursor, text);
            self.command_selection = 0;
        }
        TextRoute::Consumed
    }

    /// Text for a typed confirmation: the branch switch takes it, as does a
    /// deletion or removal that waits for typing; one that waits for Enter
    /// drops it.
    #[verifier::rlimit(60)]
    fn confirmation_text(&mut self, text: &Vec<char>)
        requires
            old(self).git_branch_switch matches Some(c) ==> c.input@.len() + text@.len() < usize::MAX,
            old(self).git_branch_deletion matches Some(c) ==> c.input@.len() + text@.len() < usize::MAX,
            old(self).git_worktree_removal matches Some(c) ==> c.input@.len() + text@.len()
                < usize::MAX,
        ensures
            confirmation_text_taken(*old(self), *final(self), text@),
    {
        if let Some(c) = &mut self.git_branch_switch {
            type_into(c, text);
            self.confirmation_revision = self.confirmation_revision.wrapping_add(1);
            return;
        }
        if let Some(c) = &mut self.git_branch_deletion {
            if c.typed {
                type_into(c, text);
                self.confirmation_revision = self.confirmation_revision.wrapping_add(1);
            }
            return;
        }
        if let Some(c) = &mut self.git_worktree_removal {
            if c.typed {
                type_into(c, text);
                self.confirmation_revision = self.confirmation_revision.wrapping_add(1);
            }
        }
    }

    /// Whether an overlay that text cannot reach owns input: a typed
    /// confirmation, the filesystem, directory-reload or discard
    /// confirmation, the context action menu, or the program menu.
    pub open spec fn text_overlay(&self) -> bool {
        self.git_branch_switch is Some || self.git_branch_deletion is Some
            || self.git_worktree_removal is Some || self.fs_confirmation is Some
            || self.directory_reload_confirmation is Some || self.buffer_discard_confirmation is Some
            || self.menus.context is Some || self.program_action_menu is Some
    }

    /// The terminal the active pane shows.
    fn active_terminal_of_pane(&self) -> (t: Option<usize>)
        requires
            self.wf(),
        ensures
            t == self.active_terminal(),
    {
        self.active_pane_snapshot().terminal
    }
}

} // verus!
