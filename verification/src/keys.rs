//! Keys, modifiers, input events and editor modes.

use vstd::prelude::*;

verus! {

/// The key of a key stroke.
#[derive(Clone, Copy, Debug, PartialEq, Eq, Structural)]
pub enum KeyCode {
    Char(char),
    Enter,
    Escape,
    Tab,
    BackTab,
    Backspace,
    Delete,
    Left,
    Right,
    Up,
    Down,
    Home,
    End,
    PageUp,
    PageDown,
}

/// Held modifier keys.
#[derive(Clone, Copy, Debug, PartialEq, Eq, Structural)]
pub struct Modifiers {
    pub shift: bool,
    pub control: bool,
    pub alt: bool,
    pub super_key: bool,
}

impl Modifiers {
    /// No modifier.
    pub fn none() -> (m: Modifiers)
        ensures
            m == (Modifiers { shift: false, control: false, alt: false, super_key: false }),
    {
        Modifiers { shift: false, control: false, alt: false, super_key: false }
    }

    /// Shift alone.
    pub fn shift() -> (m: Modifiers)
        ensures
            m == (Modifiers { shift: true, control: false, alt: false, super_key: false }),
    {
        Modifiers { shift: true, control: false, alt: false, super_key: false }
    }

    /// Control alone.
    pub fn control() -> (m: Modifiers)
        ensures
            m == (Modifiers { shift: false, control: true, alt: false, super_key: false }),
    {
        Modifiers { shift: false, control: true, alt: false, super_key: false }
    }

    /// Alt alone.
    pub fn alt() -> (m: Modifiers)
        ensures
            m == (Modifiers { shift: false, control: false, alt: true, super_key: false }),
    {
        Modifiers { shift: false, control: false, alt: true, super_key: false }
    }

    pub open spec fn spec_is_empty(&self) -> bool {
        !self.shift && !self.control && !self.alt && !self.super_key
    }

    /// Whether no modifier is held.
    #[verifier::when_used_as_spec(spec_is_empty)]
    pub fn is_empty(&self) -> (b: bool)
        ensures
            b == self.spec_is_empty(),
    {
        !self.shift && !self.control && !self.alt && !self.super_key
    }

    /// Whether every modifier of `other` is held.
    pub fn contains(&self, other: Modifiers) -> (b: bool)
        ensures
            b == ((!other.shift || self.shift) && (!other.control || self.control) && (!other.alt
                || self.alt) && (!other.super_key || self.super_key)),
    {
        (!other.shift || self.shift) && (!other.control || self.control) && (!other.alt
            || self.alt) && (!other.super_key || self.super_key)
    }

    /// Whether Control or Alt is held.
    pub fn control_or_alt(&self) -> (b: bool)
        ensures
            b == (self.control || self.alt),
    {
        self.control || self.alt
    }
}

/// One key press with its modifiers.
#[derive(Clone, Copy, Debug, PartialEq, Eq, Structural)]
pub struct KeyStroke {
    pub code: KeyCode,
    pub modifiers: Modifiers,
}

impl KeyStroke {
    /// `code` with `modifiers`.
    pub fn new(code: KeyCode, modifiers: Modifiers) -> (k: KeyStroke)
        ensures
            k.code == code,
            k.modifiers == modifiers,
    {
        KeyStroke { code, modifiers }
    }

    /// `code` with no modifier.
    pub fn plain(code: KeyCode) -> (k: KeyStroke)
        ensures
            k.code == code,
            k.modifiers.spec_is_empty(),
    {
        KeyStroke { code, modifiers: Modifiers::none() }
    }

    /// Control with the character key `c`.
    pub fn ctrl(c: char) -> (k: KeyStroke)
        ensures
            k == (KeyStroke {
                code: KeyCode::Char(c),
                modifiers: Modifiers { shift: false, control: true, alt: false, super_key: false },
            }),
    {
        KeyStroke { code: KeyCode::Char(c), modifiers: Modifiers::control() }
    }

    /// The stroke as a binding spells it: a character key carries its case
    /// in the character, so Shift is dropped from it.
    pub open spec fn spec_canonical_for_binding(&self) -> KeyStroke {
        match self.code {
            KeyCode::Char(_) => KeyStroke {
                code: self.code,
                modifiers: Modifiers {
                    shift: false,
                    control: self.modifiers.control,
                    alt: self.modifiers.alt,
                    super_key: self.modifiers.super_key,
                },
            },
            _ => *self,
        }
    }

    /// The stroke as a binding spells it.
    pub fn canonical_for_binding(&self) -> (k: KeyStroke)
        ensures
            k == self.spec_canonical_for_binding(),
    {
        match self.code {
            KeyCode::Char(_) => KeyStroke {
                code: self.code,
                modifiers: Modifiers {
                    shift: false,
                    control: self.modifiers.control,
                    alt: self.modifiers.alt,
                    super_key: self.modifiers.super_key,
                },
            },
            _ => *self,
        }
    }

    /// Whether this stroke is Escape or Control-c, the two keys that cancel.
    pub open spec fn spec_is_cancel(&self) -> bool {
        self.code == KeyCode::Escape || (self.code == KeyCode::Char('c')
            && self.modifiers.control)
    }

    /// Whether this stroke cancels (Escape, or Control-c).
    pub fn is_cancel(&self) -> (b: bool)
        ensures
            b == self.spec_is_cancel(),
    {
        match self.code {
            KeyCode::Escape => true,
            KeyCode::Char(c) => c == 'c' && self.modifiers.control,
            _ => false,
        }
    }
}

/// A pointer position in terminal cells.
#[derive(Clone, Copy, Debug, PartialEq, Eq, Structural)]
pub struct PointerEvent {
    pub column: u16,
    pub row: u16,
    pub modifiers: Modifiers,
}

/// One frontend-neutral input event.
#[derive(Clone, Debug)]
pub enum InputEvent {
    Key(KeyStroke),
    Text(String),
    Pointer(PointerEvent),
}

/// The editor's modal state.
#[derive(Clone, Copy, Debug, PartialEq, Eq, Structural)]
pub enum Mode {
    Normal,
    Insert,
    Select,
    Replace,
    Command,
}

/// Which key grammar interprets keys.
#[derive(Clone, Copy, Debug, PartialEq, Eq, Structural)]
pub enum GrammarKind {
    Runyte,
    Vim,
}

/// Whether an input event cancels a running macro replay: Escape with any
/// modifiers, or exactly Control-c.
pub open spec fn spec_is_macro_replay_cancel(input: &InputEvent) -> bool {
    match input {
        InputEvent::Key(key) => key.code == KeyCode::Escape || *key == KeyStroke {
            code: KeyCode::Char('c'),
            modifiers: Modifiers { shift: false, control: true, alt: false, super_key: false },
        },
        _ => false,
    }
}

/// Whether `input` cancels a running macro replay.
pub fn is_macro_replay_cancel(input: &InputEvent) -> (b: bool)
    ensures
        b == spec_is_macro_replay_cancel(input),
{
    match input {
        InputEvent::Key(key) => {
            match key.code {
                KeyCode::Escape => true,
                KeyCode::Char(c) => c == 'c' && key.modifiers.control && !key.modifiers.shift
                    && !key.modifiers.alt && !key.modifiers.super_key,
                _ => false,
            }
        },
        _ => false,
    }
}

/// Whether a key in a picker only edits its query: Backspace and Delete,
/// Control-w and Control-k, and a character typed with no Control, Alt or
/// Super.
pub open spec fn spec_edits_picker_query(key: KeyStroke) -> bool {
    match key.code {
        KeyCode::Backspace | KeyCode::Delete => true,
        KeyCode::Char(c) => if key.modifiers.control && (c == 'w' || c == 'k') {
            true
        } else {
            !(key.modifiers.control || key.modifiers.alt || key.modifiers.super_key)
        },
        _ => false,
    }
}

/// Whether a key in a picker only edits its query.
///
/// Query editing is the one thing a picker does that does not read the list,
/// so it is also the only thing that may run against rows the ranker has
/// already replaced.
pub fn edits_picker_query(key: KeyStroke) -> (b: bool)
    ensures
        b == spec_edits_picker_query(key),
{
    let control = key.modifiers.control;
    match key.code {
        KeyCode::Backspace | KeyCode::Delete => true,
        KeyCode::Char(c) => {
            if control && (c == 'w' || c == 'k') {
                true
            } else {
                !(key.modifiers.control || key.modifiers.alt || key.modifiers.super_key)
            }
        },
        _ => false,
    }
}

} // verus!
