//! Small action menus: a list of actions, one selected, where moving past
//! either end wraps round, and a destructive choice may need arming first.

use vstd::prelude::*;

use crate::keys::{KeyCode, KeyStroke};

verus! {

/// A menu of `actions` with one selected.
pub struct Menu<A> {
    pub actions: Vec<A>,
    pub selected: usize,
    /// A destructive choice has been asked for once and waits for its
    /// confirmation.
    pub armed: bool,
}

/// What a key does to an open menu.
#[derive(Clone, Copy, Debug, PartialEq, Eq, Structural)]
pub enum MenuKey {
    Close,
    Next,
    Previous,
    Choose,
    Other,
}

/// The standard menu keys: Escape, Control-c and Tab close; Down and
/// Control-n move down; Up, Control-p and Back-Tab move up; Enter chooses.
pub open spec fn spec_classify_menu_key(key: KeyStroke) -> MenuKey {
    let control = key.modifiers.control;
    match key.code {
        KeyCode::Escape | KeyCode::Tab => MenuKey::Close,
        KeyCode::Char(c) => if control && c == 'c' {
            MenuKey::Close
        } else if control && c == 'n' {
            MenuKey::Next
        } else if control && c == 'p' {
            MenuKey::Previous
        } else {
            MenuKey::Other
        },
        KeyCode::Down => MenuKey::Next,
        KeyCode::Up | KeyCode::BackTab => MenuKey::Previous,
        KeyCode::Enter => MenuKey::Choose,
        _ => MenuKey::Other,
    }
}

/// What a key does to an open menu.
pub fn classify_menu_key(key: KeyStroke) -> (k: MenuKey)
    ensures
        k == spec_classify_menu_key(key),
{
    let control = key.modifiers.control;
    match key.code {
        KeyCode::Escape | KeyCode::Tab => MenuKey::Close,
        KeyCode::Char(c) => {
            if control && c == 'c' {
                MenuKey::Close
            } else if control && c == 'n' {
                MenuKey::Next
            } else if control && c == 'p' {
                MenuKey::Previous
            } else {
                MenuKey::Other
            }
        },
        KeyCode::Down => MenuKey::Next,
        KeyCode::Up | KeyCode::BackTab => MenuKey::Previous,
        KeyCode::Enter => MenuKey::Choose,
        _ => MenuKey::Other,
    }
}

/// The context-menu keys: as the standard ones, except that `j` and `k`
/// (without Control) move, Control-n and Control-p do not, and Enter
/// chooses only without Control.
pub open spec fn spec_classify_context_menu_key(key: KeyStroke) -> MenuKey {
    let control = key.modifiers.control;
    match key.code {
        KeyCode::Escape | KeyCode::Tab => MenuKey::Close,
        KeyCode::Char(c) => if control && c == 'c' {
            MenuKey::Close
        } else if !control && c == 'j' {
            MenuKey::Next
        } else if !control && c == 'k' {
            MenuKey::Previous
        } else {
            MenuKey::Other
        },
        KeyCode::Down => if control {
            MenuKey::Other
        } else {
            MenuKey::Next
        },
        KeyCode::Up => if control {
            MenuKey::Other
        } else {
            MenuKey::Previous
        },
        KeyCode::BackTab => MenuKey::Previous,
        KeyCode::Enter => if control {
            MenuKey::Other
        } else {
            MenuKey::Choose
        },
        _ => MenuKey::Other,
    }
}

/// What a key does to an open context menu.
pub fn classify_context_menu_key(key: KeyStroke) -> (k: MenuKey)
    ensures
        k == spec_classify_context_menu_key(key),
{
    let control = key.modifiers.control;
    match key.code {
        KeyCode::Escape | KeyCode::Tab => MenuKey::Close,
        KeyCode::Char(c) => {
            if control && c == 'c' {
                MenuKey::Close
            } else if !control && c == 'j' {
                MenuKey::Next
            } else if !control && c == 'k' {
                MenuKey::Previous
            } else {
                MenuKey::Other
            }
        },
        KeyCode::Down => if control {
            MenuKey::Other
        } else {
            MenuKey::Next
        },
        KeyCode::Up => if control {
            MenuKey::Other
        } else {
            MenuKey::Previous
        },
        KeyCode::BackTab => MenuKey::Previous,
        KeyCode::Enter => if control {
            MenuKey::Other
        } else {
            MenuKey::Choose
        },
        _ => MenuKey::Other,
    }
}

/// The selection after moving down one row, wrapping to the top.
pub open spec fn next_index(selected: int, len: int) -> int {
    (selected + 1) % len
}

/// The selection after moving up one row, wrapping to the bottom.
pub open spec fn previous_index(selected: int, len: int) -> int {
    (selected + len - 1) % len
}

impl<A: Copy> Menu<A> {
    /// The selection names an action, or the menu is empty and the
    /// selection is zero.
    pub open spec fn wf(&self) -> bool {
        self.selected < self.actions@.len() || (self.actions@.len() == 0 && self.selected == 0)
    }

    /// A menu of `actions` with the first selected and nothing armed.
    pub fn new(actions: Vec<A>) -> (m: Menu<A>)
        ensures
            m.wf(),
            m.actions@ == actions@,
            m.selected == 0,
            !m.armed,
    {
        Menu { actions, selected: 0, armed: false }
    }

    /// Moves the selection down one row, wrapping round, and disarms.
    pub fn select_next(&mut self)
        requires
            old(self).wf(),
        ensures
            final(self).wf(),
            final(self).actions@ == old(self).actions@,
            old(self).actions@.len() > 0 ==> {
                &&& final(self).selected == next_index(
                    old(self).selected as int,
                    old(self).actions@.len() as int,
                )
                &&& !final(self).armed
            },
            old(self).actions@.len() == 0 ==> *final(self) == *old(self),
    {
        if self.actions.len() > 0 {
            self.selected = (self.selected + 1) % self.actions.len();
            self.armed = false;
        }
    }

    /// Moves the selection up one row, wrapping round, and disarms.
    pub fn select_previous(&mut self)
        requires
            old(self).wf(),
        ensures
            final(self).wf(),
            final(self).actions@ == old(self).actions@,
            old(self).actions@.len() > 0 ==> {
                &&& final(self).selected == previous_index(
                    old(self).selected as int,
                    old(self).actions@.len() as int,
                )
                &&& !final(self).armed
            },
            old(self).actions@.len() == 0 ==> *final(self) == *old(self),
    {
        let len = self.actions.len();
        proof {
            if len > 0 {
                if self.selected == 0 {
                    vstd::arithmetic::div_mod::lemma_small_mod((len - 1) as nat, len as nat);
                } else {
                    vstd::arithmetic::div_mod::lemma_mod_add_multiples_vanish(
                        self.selected - 1,
                        len as int,
                    );
                    vstd::arithmetic::div_mod::lemma_small_mod(
                        (self.selected - 1) as nat,
                        len as nat,
                    );
                }
            }
        }
        if len > 0 {
            self.selected = if self.selected == 0 {
                len - 1
            } else {
                self.selected - 1
            };
            self.armed = false;
        }
    }

    /// The selected action, if the menu has one.
    pub fn selected_action(&self) -> (a: Option<A>)
        ensures
            a == (if self.selected < self.actions@.len() {
                Some(self.actions@[self.selected as int])
            } else {
                None::<A>
            }),
    {
        if self.selected < self.actions.len() {
            Some(self.actions[self.selected])
        } else {
            None
        }
    }
}

/// Moving down then up, or up then down, returns to the same row.
pub proof fn lemma_menu_moves_undo(selected: int, len: int)
    requires
        0 <= selected < len,
    ensures
        previous_index(next_index(selected, len), len) == selected,
        next_index(previous_index(selected, len), len) == selected,
{
    if selected + 1 == len {
        assert(next_index(selected, len) == 0) by {
            vstd::arithmetic::div_mod::lemma_mod_self_0(len);
        }
        assert(previous_index(0, len) == len - 1) by {
            vstd::arithmetic::div_mod::lemma_small_mod((len - 1) as nat, len as nat);
        }
    } else {
        vstd::arithmetic::div_mod::lemma_small_mod((selected + 1) as nat, len as nat);
        assert((selected + 1 + len - 1) % len == (selected + len) % len);
        vstd::arithmetic::div_mod::lemma_mod_add_multiples_vanish(selected, len);
        vstd::arithmetic::div_mod::lemma_small_mod(selected as nat, len as nat);
    }
    if selected == 0 {
        vstd::arithmetic::div_mod::lemma_small_mod((len - 1) as nat, len as nat);
        assert(next_index(len - 1, len) == 0) by {
            vstd::arithmetic::div_mod::lemma_mod_self_0(len);
        }
    } else {
        vstd::arithmetic::div_mod::lemma_mod_add_multiples_vanish(selected - 1, len);
        vstd::arithmetic::div_mod::lemma_small_mod((selected - 1) as nat, len as nat);
        vstd::arithmetic::div_mod::lemma_small_mod(selected as nat, len as nat);
    }
}

} // verus!
