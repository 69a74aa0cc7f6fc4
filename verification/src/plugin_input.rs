//! Keys and text typed into a plugin's input surface, and how the surface
//! closes.

use vstd::prelude::*;

use crate::app::{App, CapturedContext, FinishedInput, Submission};
use crate::chars::{char_is_control, is_control};
use crate::keys::{InputEvent, KeyCode, KeyStroke, Modifiers};
use crate::surface::{FieldKind, Surface, SurfacePicker, ValidationIntent, ValidationState, Value};
use crate::strings::{chars_of, push_decimal};

verus! {

/// Two values hold the same thing.
pub open spec fn same_value(a: Value, b: Value) -> bool {
    match (a, b) {
        (Value::Text(x), Value::Text(y)) => x@ == y@,
        (Value::Boolean(x), Value::Boolean(y)) => x == y,
        _ => false,
    }
}

/// A copy of `v`.
pub fn copy_value(v: &Value) -> (r: Value)
    ensures
        same_value(r, *v),
{
    match v {
        Value::Text(t) => Value::Text(t.clone()),
        Value::Boolean(b) => Value::Boolean(*b),
    }
}

/// Whether `a` and `b` hold the same thing.
fn values_equal(a: &Value, b: &Value) -> (r: bool)
    ensures
        r == same_value(*a, *b),
{
    match (a, b) {
        (Value::Text(x), Value::Text(y)) => {
            if x.len() != y.len() {
                return false;
            }
            let mut i: usize = 0;
            assert(same_value(*a, *b) == (x@ == y@));
            while i < x.len()
                invariant
                    same_value(*a, *b) == (x@ == y@),
                    i <= x@.len() == y@.len(),
                    forall|k: int| 0 <= k < i ==> x@[k] == y@[k],
                decreases x@.len() - i,
            {
                if x[i] != y[i] {
                    assert(x@[i as int] != y@[i as int]);
                    return false;
                }
                i = i + 1;
            }
            assert(x@ =~= y@);
            true
        },
        (Value::Boolean(x), Value::Boolean(y)) => *x == *y,
        _ => false,
    }
}

/// Bytes a character takes in UTF-8.
pub open spec fn utf8_len(c: char) -> nat {
    if (c as u32) < 0x80 {
        1
    } else if (c as u32) < 0x800 {
        2
    } else if (c as u32) < 0x10000 {
        3
    } else {
        4
    }
}

/// Bytes `s` takes in UTF-8.
pub open spec fn utf8_bytes(s: Seq<char>) -> nat
    decreases s.len(),
{
    if s.len() == 0 {
        0
    } else {
        utf8_bytes(s.drop_last()) + utf8_len(s.last())
    }
}

/// Bytes `c` takes in UTF-8.
fn char_utf8_len(c: char) -> (n: usize)
    ensures
        n == utf8_len(c),
{
    let code = c as u32;
    if code < 0x80 {
        1
    } else if code < 0x800 {
        2
    } else if code < 0x10000 {
        3
    } else {
        4
    }
}

/// Bytes `s` takes in UTF-8, saturating.
fn utf8_size(s: &Vec<char>) -> (n: usize)
    ensures
        n == (if utf8_bytes(s@) < usize::MAX {
            utf8_bytes(s@)
        } else {
            usize::MAX as nat
        }),
{
    let mut n: usize = 0;
    let mut i: usize = 0;
    while i < s.len()
        invariant
            i <= s@.len(),
            n == (if utf8_bytes(s@.take(i as int)) < usize::MAX {
                utf8_bytes(s@.take(i as int))
            } else {
                usize::MAX as nat
            }),
        decreases s@.len() - i,
    {
        assert(s@.take(i + 1).drop_last() == s@.take(i as int));
        n = n.saturating_add(char_utf8_len(s[i]));
        i = i + 1;
    }
    assert(s@.take(s@.len() as int) == s@);
    n
}

/// Bytes `s` takes in UTF-8.
pub(crate) fn utf8_size_wide(s: &Vec<char>) -> (n: u128)
    ensures
        n == utf8_bytes(s@),
        n <= 4 * s@.len(),
{
    let mut n: u128 = 0;
    let mut i: usize = 0;
    while i < s.len()
        invariant
            i <= s@.len(),
            n == utf8_bytes(s@.take(i as int)),
            n <= 4 * i,
        decreases s@.len() - i,
    {
        assert(s@.take(i + 1).drop_last() == s@.take(i as int));
        n = n + char_utf8_len(s[i]) as u128;
        i = i + 1;
    }
    assert(s@.take(s@.len() as int) == s@);
    n
}

/// Whether `s` holds a control character.
fn has_control(s: &Vec<char>) -> (b: bool)
    ensures
        b == exists|i: int| 0 <= i < s@.len() && char_is_control(s@[i]),
{
    let mut i: usize = 0;
    while i < s.len()
        invariant
            i <= s@.len(),
            forall|k: int| 0 <= k < i ==> !char_is_control(s@[k]),
        decreases s@.len() - i,
    {
        if is_control(s[i]) {
            return true;
        }
        i = i + 1;
    }
    false
}

/// Whether the modifiers are none, or Shift alone.
pub open spec fn plain_or_shifted(m: Modifiers) -> bool {
    !m.control && !m.alt && !m.super_key
}

/// The text a surface input event types: the text of a text event, or the
/// character of a character key pressed alone or with Shift; nothing
/// otherwise.
pub open spec fn typed_text(input: InputEvent) -> Seq<char> {
    match input {
        InputEvent::Text(t) => t@,
        InputEvent::Key(key) => match key.code {
            KeyCode::Char(c) => if plain_or_shifted(key.modifiers) {
                seq![c]
            } else {
                Seq::empty()
            },
            _ => Seq::empty(),
        },
        _ => Seq::empty(),
    }
}

/// The characters an input event types into a surface.
fn typed_chars(input: &InputEvent) -> (t: Vec<char>)
    ensures
        t@ == typed_text(*input),
{
    match input {
        InputEvent::Text(text) => chars_of(text.as_str()),
        InputEvent::Key(key) => {
            let mut t: Vec<char> = Vec::new();
            if let KeyCode::Char(c) = key.code {
                if !key.modifiers.control && !key.modifiers.alt && !key.modifiers.super_key {
                    t.push(c);
                }
            }
            t
        },
        _ => Vec::new(),
    }
}

/// A key that cancels a surface: Escape, or exactly Control-c.
pub open spec fn surface_cancel(key: KeyStroke) -> bool {
    key.code == KeyCode::Escape || (key.code == KeyCode::Char('c') && key.modifiers == Modifiers {
        shift: false,
        control: true,
        alt: false,
        super_key: false,
    })
}

fn is_surface_cancel(key: &KeyStroke) -> (b: bool)
    ensures
        b == surface_cancel(*key),
{
    match key.code {
        KeyCode::Escape => true,
        KeyCode::Char(c) => c == 'c' && key.modifiers.control && !key.modifiers.shift
            && !key.modifiers.alt && !key.modifiers.super_key,
        _ => false,
    }
}

/// The submission a closing surface sends: its values, each with its
/// field's id, only when accepted; sensitive when a secret was accepted.
pub open spec fn submission_matches(sub: Submission, s: Surface, accepted: bool) -> bool {
    &&& sub.surface@ == s.handle@
    &&& sub.accepted == accepted
    &&& sub.sensitive == (accepted && exists|i: int|
        0 <= i < s.fields@.len() && s.fields@[i].kind == FieldKind::Secret)
    &&& accepted ==> sub.values@.len() == (if s.fields@.len() < s.values@.len() {
        s.fields@.len()
    } else {
        s.values@.len()
    })
    &&& accepted ==> forall|i: int|
        0 <= i < sub.values@.len() ==> (#[trigger] sub.values@[i]).0@ == s.fields@[i].id@
            && same_value(sub.values@[i].1, s.values@[i])
    &&& !accepted ==> sub.values@.len() == 0
}

/// `input` with no validation request queued and no submission waiting.
pub open spec fn without_intent(input: Option<Surface>) -> Option<Surface> {
    match input {
        Some(s) => Some(
            Surface { validation: ValidationState { queued: None, submit: None, ..s.validation }, ..s },
        ),
        None => None,
    }
}

/// What keeping the open surface consistent leaves of the editor: a
/// surface that lost its place is queued unanswered, and nothing outside
/// the plugin state changes.
pub open spec fn sync_effects(before: App, after: App) -> bool {
    &&& match before.plugins.input {
        Some(s) => if before.surface_stale(s.context) {
            &&& after.plugins.input_finished@.len() == before.plugins.input_finished@.len() + 1
            &&& after.plugins.input_finished@.drop_last() == before.plugins.input_finished@
            &&& after.plugins.input_finished@.last().owner == s.owner
            &&& !after.plugins.input_finished@.last().submission.accepted
        } else {
            after.plugins.input_finished == before.plugins.input_finished
        },
        None => after.plugins.input_finished == before.plugins.input_finished,
    }
    &&& after.plugins.foreground_generation == before.plugins.foreground_generation
    &&& after.plugins.frontend_attached == before.plugins.frontend_attached
    &&& after.plugins.attachment_generation == before.plugins.attachment_generation
    &&& after == (App { plugins: after.plugins, ..before })
}

impl App {
    /// Drops a validation request not yet sent, and any submission waiting
    /// on validation.
    pub fn cancel_plugin_validation_intent(&mut self)
        ensures
            final(self).plugins.input == without_intent(old(self).plugins.input),
            final(self).plugins.presentation_dirty == (old(self).plugins.presentation_dirty || (old(self).plugins.input matches Some(s) && s.validation.queued is Some)),
            final(self).plugins.providers == old(self).plugins.providers,
            final(self).plugins.filesystem == old(self).plugins.filesystem,
            final(self).plugins.input_finished == old(self).plugins.input_finished,
            final(self).plugins.foreground_generation == old(self).plugins.foreground_generation,
            final(self).plugins.frontend_attached == old(self).plugins.frontend_attached,
            final(self).plugins.attachment_generation == old(self).plugins.attachment_generation,
            *final(self) == (App { plugins: final(self).plugins, ..*old(self) }),
    {
        if let Some(surface) = &mut self.plugins.input {
            if surface.validation.queued.is_some() {
                surface.validation.queued = None;
                self.plugins.presentation_dirty = true;
            }
            surface.validation.submit = None;
        }
    }

    /// Closes the open surface, if there is one, and queues its submission:
    /// its values when `accepted`, in the foreground generation now current
    /// and under the action being handled.
    pub fn finish_plugin_input(&mut self, accepted: bool)
        ensures
            final(self).plugins.input is None,
            match old(self).plugins.input {
                None => final(self).plugins.input_finished == old(self).plugins.input_finished
                    && final(self).plugins.presentation_dirty == old(self).plugins.presentation_dirty,
                Some(s) => {
                    &&& final(self).plugins.input_finished@.len() == old(self).plugins.input_finished@.len() + 1
                    &&& final(self).plugins.input_finished@.drop_last() == old(self).plugins.input_finished@
                    &&& final(self).plugins.input_finished@.last().owner == s.owner
                    &&& final(self).plugins.input_finished@.last().context == (CapturedContext {
                        foreground_allowed: accepted,
                        foreground: old(self).plugins.foreground_generation,
                        action: old(self).active_action_id,
                        ..s.context
                    })
                    &&& submission_matches(
                        final(self).plugins.input_finished@.last().submission,
                        s,
                        accepted,
                    )
                    &&& final(self).plugins.presentation_dirty
                },
            },
            final(self).plugins.foreground_generation == old(self).plugins.foreground_generation,
            final(self).plugins.frontend_attached == old(self).plugins.frontend_attached,
            final(self).plugins.attachment_generation == old(self).plugins.attachment_generation,
            *final(self) == (App { plugins: final(self).plugins, ..*old(self) }),
    {
        let Some(surface) = self.plugins.input.take() else {
            return;
        };
        let mut context = surface.context;
        context.foreground_allowed = accepted;
        context.foreground = self.plugins.foreground_generation;
        context.action = self.active_action_id;
        let mut secret = false;
        let mut i: usize = 0;
        while i < surface.fields.len()
            invariant
                i <= surface.fields@.len(),
                secret == exists|k: int| 0 <= k < i && surface.fields@[k].kind == FieldKind::Secret,
            decreases surface.fields@.len() - i,
        {
            if surface.fields[i].kind == FieldKind::Secret {
                secret = true;
            }
            i = i + 1;
        }
        let mut values: Vec<(String, Value)> = Vec::new();
        if accepted {
            let n = if surface.fields.len() < surface.values.len() {
                surface.fields.len()
            } else {
                surface.values.len()
            };
            let mut j: usize = 0;
            while j < n
                invariant
                    n <= surface.fields@.len(),
                    n <= surface.values@.len(),
                    j <= n,
                    values@.len() == j,
                    forall|k: int|
                        0 <= k < j ==> (#[trigger] values@[k]).0@ == surface.fields@[k].id@
                            && same_value(values@[k].1, surface.values@[k]),
                decreases n - j,
            {
                values.push((surface.fields[j].id.clone(), copy_value(&surface.values[j])));
                j = j + 1;
            }
        }
        let submission = Submission {
            surface: surface.handle,
            accepted,
            sensitive: accepted && secret,
            values,
        };
        self.plugins.input_finished.push(FinishedInput { owner: surface.owner, context, submission });
        self.plugins.presentation_dirty = true;
    }

    /// Closes, unanswered, the surface `owner` opened, when the handle
    /// matches or none is given.
    pub fn cancel_plugin_input(&mut self, owner: usize, handle: Option<&String>)
        ensures
            (old(self).plugins.input matches Some(s) && s.owner == owner && match handle {
                Some(h) => h@ == s.handle@,
                None => true,
            }) ==> final(self).plugins.input is None && final(self).plugins.input_finished@.len()
                == old(self).plugins.input_finished@.len() + 1 && !final(self).plugins.input_finished@.last().submission.accepted,
            !(old(self).plugins.input matches Some(s) && s.owner == owner && match handle {
                Some(h) => h@ == s.handle@,
                None => true,
            }) ==> final(self).plugins.input == old(self).plugins.input && final(self).plugins.input_finished == old(self).plugins.input_finished,
    {
        let matches = match &self.plugins.input {
            Some(s) => s.owner == owner && match handle {
                Some(h) => *h == s.handle,
                None => true,
            },
            None => false,
        };
        if matches {
            self.finish_plugin_input(false);
        }
    }
}

/// What a key did to a surface's choice list.
pub enum PickerStep {
    /// The list stays open.
    Stay,
    /// The surface closes unanswered.
    Cancel,
    /// The surface closes with the row's label as its value.
    Choose(String),
}

/// A key that moves a surface list's selection: the arrows, Back-Tab, and
/// exactly Control with `n` or `p`.
pub open spec fn picker_move(key: KeyStroke) -> bool {
    key.code == KeyCode::Up || key.code == KeyCode::Down || key.code == KeyCode::BackTab || (
    key.modifiers == Modifiers { shift: false, control: true, alt: false, super_key: false } && (
    key.code == KeyCode::Char('n') || key.code == KeyCode::Char('p')))
}

/// Exactly Control.
fn only_control(m: Modifiers) -> (b: bool)
    ensures
        b == (m == Modifiers { shift: false, control: true, alt: false, super_key: false }),
{
    m.control && !m.shift && !m.alt && !m.super_key
}

/// The most bytes a surface list's filter may hold.
pub open spec fn picker_filter_limit() -> nat {
    4096
}

/// What key or text `input` does to the list `before`, giving `after` and
/// `step`: see `SurfacePicker::handle`.
pub open spec fn picker_took(before: SurfacePicker, after: SurfacePicker, input: InputEvent, step: PickerStep) -> bool {
    match input {
        InputEvent::Key(key) => if surface_cancel(key) {
            step is Cancel && after == before
        } else if key.code == KeyCode::Enter && key.modifiers.spec_is_empty() {
            after == before && if before.selected < before.visible@.len() {
                step matches PickerStep::Choose(label) && label@ == before.visible@[before.selected as int]@
            } else {
                step is Stay
            }
        } else if picker_move(key) {
            let n = before.visible@.len() as int;
            let up = key.code == KeyCode::Up || key.code == KeyCode::BackTab || key.code
                == KeyCode::Char('p');
            &&& step is Stay
            &&& after.filter == before.filter
            &&& after.visible == before.visible
            &&& after.selected == if up {
                if before.selected > 0 {
                    before.selected - 1
                } else {
                    0
                }
            } else {
                let last = if n > 0 {
                    n - 1
                } else {
                    0
                };
                if before.selected + 1 < last {
                    before.selected + 1
                } else {
                    last
                }
            }
        } else if key.code == KeyCode::Backspace {
            step is Stay && after.selected == 0 && after.filter@ == (if before.filter@.len() > 0 {
                before.filter@.drop_last()
            } else {
                before.filter@
            })
        } else {
            before.typed_into(&after, typed_text(input)) && step is Stay
        },
        _ => before.typed_into(&after, typed_text(input)) && step is Stay,
    }
}

impl SurfacePicker {
    /// `after` is this list once `t` has been typed into it: the filter
    /// takes non-empty text without control characters that keeps it
    /// within its byte limit, and the selection returns to the first row;
    /// other text changes nothing.
    pub open spec fn typed_into(&self, after: &SurfacePicker, t: Seq<char>) -> bool {
        if t.len() > 0 && utf8_bytes(self.filter@) + utf8_bytes(t) <= picker_filter_limit() && !(
        exists|i: int| 0 <= i < t.len() && char_is_control(t[i])) {
            after.filter@ == self.filter@ + t && after.selected == 0
        } else {
            after.filter@ == self.filter@ && after.selected == self.selected
        }
    }

    /// A key or text for a surface's choice list. Escape and exactly
    /// Control-c cancel; Enter alone chooses the selected row, if any; the
    /// moving keys move the selection within the rows; Backspace drops the
    /// filter's last character; typed text without control characters joins
    /// the filter, as long as the filter stays within its byte limit. The
    /// selection returns to the first row whenever the filter changes.
    pub fn handle(&mut self, input: &InputEvent) -> (step: PickerStep)
        ensures
            picker_took(*old(self), *final(self), *input, step),
    {
        if let InputEvent::Key(key) = input {
            if is_surface_cancel(key) {
                return PickerStep::Cancel;
            }
            if key.code == KeyCode::Enter && key.modifiers.is_empty() {
                if self.selected < self.visible.len() {
                    return PickerStep::Choose(self.visible[self.selected].clone());
                }
                return PickerStep::Stay;
            }
            let control = only_control(key.modifiers);
            let moves = key.code == KeyCode::Up || key.code == KeyCode::Down || key.code
                == KeyCode::BackTab || (control && (key.code == KeyCode::Char('n') || key.code
                == KeyCode::Char('p')));
            if moves {
                let n = self.visible.len();
                let up = key.code == KeyCode::Up || key.code == KeyCode::BackTab || key.code
                    == KeyCode::Char('p');
                self.selected = if up {
                    self.selected.saturating_sub(1)
                } else {
                    let last = n.saturating_sub(1);
                    if self.selected < last {
                        self.selected + 1
                    } else {
                        last
                    }
                };
                return PickerStep::Stay;
            }
            if key.code == KeyCode::Backspace {
                self.filter.pop();
                self.selected = 0;
                return PickerStep::Stay;
            }
        }
        let text = typed_chars(input);
        if text.len() > 0 {
            let have = utf8_size(&self.filter);
            let add = utf8_size(&text);
            if have <= 4096 && add <= 4096 - have && !has_control(&text) {
                let mut i: usize = 0;
                let ghost start = self.filter@;
                while i < text.len()
                    invariant
                        i <= text@.len(),
                        self.filter@ == start + text@.take(i as int),
                    decreases text@.len() - i,
                {
                    self.filter.push(text[i]);
                    assert(text@.take(i + 1) == text@.take(i as int).push(text@[i as int]));
                    i = i + 1;
                }
                assert(text@.take(text@.len() as int) == text@);
                self.selected = 0;
            }
        }
        PickerStep::Stay
    }
}

/// Where a surface form goes after a key.
#[derive(Clone, Copy, Debug, PartialEq, Eq, Structural)]
pub enum FormStep {
    /// The form stays open.
    Stay,
    /// The form closes, answered or not.
    Finish(bool),
}

/// The first field whose value is not accepted, if any.
pub open spec fn first_refused(acceptance: Seq<bool>) -> Option<int> {
    if exists|i: int| 0 <= i < acceptance.len() && !acceptance[i] {
        Some(
            choose|i: int|
                0 <= i < acceptance.len() && !acceptance[i] && forall|k: int|
                    0 <= k < i ==> acceptance[k],
        )
    } else {
        None
    }
}

/// The caret for a field's value: after its text, or zero for a boolean.
pub open spec fn value_end(v: Value) -> int {
    match v {
        Value::Text(t) => t@.len() as int,
        Value::Boolean(_) => 0,
    }
}

/// A key that moves between a form's fields: Tab, Back-Tab, Up and Down.
pub open spec fn field_move(key: KeyStroke) -> bool {
    key.code == KeyCode::Tab || key.code == KeyCode::BackTab || key.code == KeyCode::Up
        || key.code == KeyCode::Down
}

/// A key that steps a boolean or a choice: Left, Right or Space, alone.
pub open spec fn choice_step_key(key: KeyStroke) -> bool {
    key.modifiers.spec_is_empty() && (key.code == KeyCode::Left || key.code == KeyCode::Right
        || key.code == KeyCode::Char(' '))
}

/// A surface form holds one value per field, a selected field, choices for
/// every choice field (holding text), and a caret within the selected text.
pub open spec fn form_wf(s: &Surface) -> bool {
    &&& s.fields@.len() == s.values@.len()
    &&& s.fields@.len() > 0
    &&& s.selected < s.fields@.len()
    &&& forall|i: int|
        0 <= i < s.fields@.len() && ((#[trigger] s.fields@[i]).kind == FieldKind::Choice || (
        s.fields@[i].kind == FieldKind::Boolean && s.values@[i] is Text)) ==> s.fields@[i].choices@.len() > 0
    &&& forall|i: int, j: int|
        0 <= i < s.fields@.len() && 0 <= j < s.fields@[i].choices@.len() ==> (
        #[trigger] s.fields@[i].choices@[j])@.len() < usize::MAX / 2
    &&& s.values@[s.selected as int] matches Value::Text(t) ==> s.cursor <= t@.len()
    &&& forall|i: int|
        0 <= i < s.values@.len() ==> ((#[trigger] s.values@[i]) matches Value::Text(t) ==> t@.len()
            < usize::MAX / 2)
}

/// A text field's value, caret and error flag after `input`, with at most
/// `max_bytes` bytes and `max_chars` characters allowed: typed text is
/// inserted at the caret when it fits and holds no control character, and
/// otherwise only flags the error; Backspace, Delete and the caret keys
/// edit as in a prompt. The error flag is `None` where it does not change.
pub open spec fn spec_text_edit(
    value: Seq<char>,
    cursor: int,
    input: InputEvent,
    max_bytes: int,
    max_chars: int,
) -> (Seq<char>, int, Option<bool>) {
    let typed = match input {
        InputEvent::Text(_) => true,
        InputEvent::Key(key) => key.code is Char && plain_or_shifted(key.modifiers),
        _ => false,
    };
    if typed {
        let t = typed_text(input);
        if utf8_bytes(value) + utf8_bytes(t) <= max_bytes && value.len() + t.len() <= max_chars
            && !(exists|k: int| 0 <= k < t.len() && char_is_control(t[k])) {
            (value.subrange(0, cursor) + t + value.subrange(cursor, value.len() as int), cursor
                + t.len(), Some(false))
        } else {
            (value, cursor, Some(true))
        }
    } else {
        match input {
            InputEvent::Key(key) => match key.code {
                KeyCode::Backspace => if cursor > 0 {
                    (value.remove(cursor - 1), cursor - 1, None)
                } else {
                    (value, cursor, None)
                },
                KeyCode::Delete => if cursor < value.len() {
                    (value.remove(cursor), cursor, None)
                } else {
                    (value, cursor, None)
                },
                KeyCode::Left => (value, if cursor > 0 {
                    cursor - 1
                } else {
                    0
                }, None),
                KeyCode::Right => (value, if cursor < value.len() {
                    cursor + 1
                } else {
                    value.len() as int
                }, None),
                KeyCode::Home => (value, 0, None),
                KeyCode::End => (value, value.len() as int, None),
                _ => (value, cursor, None),
            },
            _ => (value, cursor, None),
        }
    }
}

/// A boolean or choice value stepped by `key`: a boolean flips; a choice
/// moves to the previous choice on Left and the next otherwise, round the
/// list.
pub open spec fn stepped_value(v: Value, choices: Seq<String>, key: KeyStroke) -> Seq<char> {
    let n = choices.len() as int;
    let i = match v {
        Value::Text(t) => choice_index(choices, t@),
        _ => 0,
    };
    choices[(i + if key.code == KeyCode::Left {
        n - 1
    } else {
        1
    }) % n]@
}

/// The index of the first choice equal to `v`, or zero.
pub open spec fn choice_index(choices: Seq<String>, v: Seq<char>) -> int {
    if exists|i: int| 0 <= i < choices.len() && choices[i]@ == v {
        choose|i: int|
            0 <= i < choices.len() && choices[i]@ == v && forall|k: int|
                0 <= k < i ==> choices[k]@ != v
    } else {
        0
    }
}

/// What key or text `input` does to form `before`, giving `after` and
/// `step`, with `acceptance` flagging each field's value as acceptable:
/// see `Surface::form_input`.
pub open spec fn form_took(
    before: Surface,
    after: Surface,
    input: InputEvent,
    acceptance: Seq<bool>,
    foreground: u64,
    step: FormStep,
) -> bool {
    match input {
        InputEvent::Key(key) => if surface_cancel(key) {
            step == FormStep::Finish(false) && after == before
        } else if key.code == KeyCode::Enter && key.modifiers.spec_is_empty() {
            match first_refused(acceptance) {
                Some(k) => step == FormStep::Stay && after == (Surface {
                    selected: k as usize,
                    error: true,
                    cursor: value_end(before.values@[k]) as usize,
                    ..before
                }),
                None => if exists|i: int| 0 <= i < before.fields@.len() && before.fields@[i].validate {
                    &&& step == FormStep::Stay
                    &&& after.validation.submit == Some((before.validation.revision, foreground))
                    &&& after.validation.queued matches Some(q) && q.foreground == foreground && q.owner
                        == before.owner
                    &&& after.validation.results@.len() == 0
                    &&& after == (Surface {
                        validation: ValidationState {
                            submit: after.validation.submit,
                            queued: after.validation.queued,
                            results: after.validation.results,
                            unavailable: false,
                            ..before.validation
                        },
                        ..before
                    })
                } else {
                    step == FormStep::Finish(true) && after == before
                },
            }
        } else if field_move(key) {
            let n = before.fields@.len() as int;
            let back = key.code == KeyCode::BackTab || key.code == KeyCode::Up;
            let next = (before.selected + if back {
                n - 1
            } else {
                1
            }) % n;
            &&& step == FormStep::Stay
            &&& after == (Surface {
                selected: next as usize,
                cursor: value_end(before.values@[next]) as usize,
                error: false,
                ..before
            })
        } else {
            step == FormStep::Stay && field_edited(before, after, input)
        },
        _ => step == FormStep::Stay && field_edited(before, after, input),
    }
}

/// What any other key or text does to the selected field of form `before`,
/// giving `after`: a Boolean or choice field steps its value on Left, Right
/// or Space; a text field takes the edit `spec_text_edit` describes, its
/// caret and error flag following; nothing else changes.
pub open spec fn field_edited(before: Surface, after: Surface, input: InputEvent) -> bool {
    &&& after == (Surface { values: after.values, cursor: after.cursor, error: after.error, ..before })
    &&& after.values@.len() == before.values@.len()
    &&& forall|j: int|
        0 <= j < before.values@.len() && j != before.selected ==> #[trigger] after.values@[j] == before.values@[j]
    &&& {
        let i = before.selected as int;
        let field = before.fields@[i];
        if field.kind == FieldKind::Boolean || field.kind == FieldKind::Choice {
            match input {
                InputEvent::Key(key) => if choice_step_key(key) {
                    (match before.values@[i] {
                        Value::Boolean(b) => same_value(
                            after.values@[i],
                            Value::Boolean(!b),
                        ),
                        Value::Text(_) => (after.values@[i] matches Value::Text(t)
                            && t@ == stepped_value(
                            before.values@[i],
                            field.choices@,
                            key,
                        )),
                    }) && after.error == before.error
                } else {
                    same_value(after.values@[i], before.values@[i])
                        && after.error == before.error
                },
                _ => same_value(after.values@[i], before.values@[i])
                    && after.error == before.error,
            }
        } else {
            match before.values@[i] {
                Value::Text(v) => {
                    let e = spec_text_edit(
                        v@,
                        before.cursor as int,
                        input,
                        before.max_value_bytes as int,
                        field.maximum_length as int,
                    );
                    e.0.len() < usize::MAX / 2 ==> {
                        &&& (after.values@[i] matches Value::Text(t) && t@ == e.0)
                        &&& after.cursor == e.1
                        &&& after.error == match e.2 {
                            Some(b) => b,
                            None => before.error,
                        }
                    }
                },
                Value::Boolean(_) => same_value(after.values@[i], before.values@[i])
                    && after.error == before.error,
            }
        }
    }
}

impl Surface {
    /// A key or text for a surface form, once validation intents are
    /// cancelled. Escape and exactly Control-c close it unanswered. Enter
    /// alone points at the first field whose value is refused (as
    /// `acceptance` says, one flag per field), or queues validation when a
    /// field asks for it, or closes it answered. Tab, Back-Tab and the
    /// arrows move between fields round the form. A boolean flips and a
    /// choice steps round its choices on Left, Right or Space; a text field
    /// edits its text, refusing text that would pass its limits or holds a
    /// control character.
    pub fn form_input(&mut self, input: &InputEvent, acceptance: &Vec<bool>, foreground: u64) -> (step: FormStep)
        requires
            form_wf(old(self)),
            acceptance@.len() == old(self).fields@.len(),
        ensures
            form_wf(final(self)),
            form_took(*old(self), *final(self), *input, acceptance@, foreground, step),
    {
        let i = self.selected;
        if let InputEvent::Key(key) = input {
            if is_surface_cancel(key) {
                return FormStep::Finish(false);
            }
            if key.code == KeyCode::Enter && key.modifiers.is_empty() {
                return self.submit_form(acceptance, foreground);
            }
            let back = key.code == KeyCode::BackTab || key.code == KeyCode::Up;
            if back || key.code == KeyCode::Tab || key.code == KeyCode::Down {
                let n = self.fields.len();
                let next = if back {
                    if i == 0 {
                        n - 1
                    } else {
                        i - 1
                    }
                } else if i + 1 == n {
                    0
                } else {
                    i + 1
                };
                proof {
                    let m = n as int;
                    if back {
                        if i == 0 {
                            vstd::arithmetic::div_mod::lemma_small_mod((m - 1) as nat, m as nat);
                        } else {
                            vstd::arithmetic::div_mod::lemma_mod_add_multiples_vanish(i - 1, m);
                            vstd::arithmetic::div_mod::lemma_small_mod((i - 1) as nat, m as nat);
                        }
                    } else if i + 1 == n {
                        vstd::arithmetic::div_mod::lemma_mod_self_0(m);
                    } else {
                        vstd::arithmetic::div_mod::lemma_small_mod((i + 1) as nat, m as nat);
                    }
                }
                self.selected = next;
                self.cursor = match &self.values[next] {
                    Value::Text(v) => v.len(),
                    Value::Boolean(_) => 0,
                };
                self.error = false;
                return FormStep::Stay;
            }
        }
        self.edit_field(input);
        FormStep::Stay
    }

    /// Enter on a form: see `form_input`.
    fn submit_form(&mut self, acceptance: &Vec<bool>, foreground: u64) -> (step: FormStep)
        requires
            form_wf(old(self)),
            acceptance@.len() == old(self).fields@.len(),
        ensures
            form_wf(final(self)),
            final(self).fields == old(self).fields,
            final(self).validation.revision == old(self).validation.revision,
            match first_refused(acceptance@) {
                Some(k) => step == FormStep::Stay && *final(self) == (Surface {
                    selected: k as usize,
                    error: true,
                    cursor: value_end(old(self).values@[k]) as usize,
                    ..*old(self)
                }),
                None => if exists|i: int|
                    0 <= i < old(self).fields@.len() && old(self).fields@[i].validate {
                    &&& step == FormStep::Stay
                    &&& final(self).validation.submit == Some(
                        (old(self).validation.revision, foreground),
                    )
                    &&& final(self).validation.queued matches Some(q) && q.foreground == foreground
                        && q.owner == old(self).owner
                    &&& final(self).validation.results@.len() == 0
                    &&& *final(self) == (Surface {
                        validation: ValidationState {
                            submit: final(self).validation.submit,
                            queued: final(self).validation.queued,
                            results: final(self).validation.results,
                            unavailable: false,
                            ..old(self).validation
                        },
                        ..*old(self)
                    })
                } else {
                    step == FormStep::Finish(true) && *final(self) == *old(self)
                },
            },
    {
        let mut k: usize = 0;
        while k < acceptance.len()
            invariant
                k <= acceptance@.len(),
                forall|j: int| 0 <= j < k ==> acceptance@[j],
            ensures
                k <= acceptance@.len(),
                forall|j: int| 0 <= j < k ==> acceptance@[j],
                k < acceptance@.len() ==> !acceptance@[k as int],
            decreases acceptance@.len() - k,
        {
            if !acceptance[k] {
                break;
            }
            k = k + 1;
        }
        if k < acceptance.len() {
            proof {
                let a = acceptance@;
                assert(0 <= k < a.len() && !a[k as int] && forall|j: int| 0 <= j < k ==> a[j]);
                let c = first_refused(a)->0;
                assert(c == k as int) by {
                    if c < k {
                        assert(a[c]);
                    } else if c > k {
                        assert(a[k as int]);
                    }
                }
            }
            self.selected = k;
            self.error = true;
            self.cursor = match &self.values[k] {
                Value::Text(v) => v.len(),
                Value::Boolean(_) => 0,
            };
            return FormStep::Stay;
        }
        let mut validated: Vec<String> = Vec::new();
        let mut sent: Vec<(String, Value)> = Vec::new();
        let mut j: usize = 0;
        while j < self.fields.len()
            invariant
                j <= self.fields@.len() == self.values@.len(),
                (validated@.len() > 0) == exists|m: int| 0 <= m < j && self.fields@[m].validate,
            decreases self.fields@.len() - j,
        {
            let field = &self.fields[j];
            if field.validate {
                validated.push(field.id.clone());
            }
            if field.kind != FieldKind::Secret || field.validate {
                sent.push((field.id.clone(), copy_value(&self.values[j])));
            }
            j = j + 1;
        }
        if validated.len() == 0 {
            return FormStep::Finish(true);
        }
        let mut revision: Vec<char> = Vec::new();
        revision.push('i');
        revision.push(':');
        push_decimal(&mut revision, self.validation.revision);
        self.validation.results = Vec::new();
        self.validation.unavailable = false;
        self.validation.submit = Some((self.validation.revision, foreground));
        self.validation.queued = Some(
            ValidationIntent {
                owner: self.owner,
                surface: self.handle.clone(),
                revision,
                fields: validated,
                values: sent,
                foreground,
            },
        );
        FormStep::Stay
    }

    /// Any other key or text on the selected field: see `form_input`.
    #[verifier::rlimit(80)]
    fn edit_field(&mut self, input: &InputEvent)
        requires
            form_wf(old(self)),
        ensures
            form_wf(final(self)),
            field_edited(*old(self), *final(self), *input),

    {
        let i = self.selected;
        let kind = self.fields[i].kind;
        if kind == FieldKind::Boolean || kind == FieldKind::Choice {
            if let InputEvent::Key(key) = input {
                let step_key = key.modifiers.is_empty() && (key.code == KeyCode::Left || key.code
                    == KeyCode::Right || key.code == KeyCode::Char(' '));
                if step_key {
                    let left = key.code == KeyCode::Left;
                    let stepped = step_value(&self.values[i], &self.fields[i].choices, left);
                    self.set_value(i, stepped);
                }
            }
            return;
        }
        let Value::Text(value) = &self.values[i] else {
            return;
        };
        let mut value = value.clone();
        let mut cursor = self.cursor;
        let typed: Option<Vec<char>> = match input {
            InputEvent::Text(_) => Some(typed_chars(input)),
            InputEvent::Key(key) => match key.code {
                KeyCode::Char(_) => {
                    if !key.modifiers.control && !key.modifiers.alt && !key.modifiers.super_key {
                        Some(typed_chars(input))
                    } else {
                        None
                    }
                },
                KeyCode::Backspace => {
                    crate::prompt::prompt_backspace(&mut value, &mut cursor);
                    None
                },
                KeyCode::Delete => {
                    crate::prompt::prompt_delete(&mut value, cursor);
                    None
                },
                KeyCode::Left => {
                    cursor = cursor.saturating_sub(1);
                    None
                },
                KeyCode::Right => {
                    cursor = if cursor < value.len() {
                        cursor + 1
                    } else {
                        value.len()
                    };
                    None
                },
                KeyCode::Home => {
                    cursor = 0;
                    None
                },
                KeyCode::End => {
                    cursor = value.len();
                    None
                },
                _ => None,
            },
            _ => None,
        };
        if let Some(text) = typed {
            let have = utf8_size_wide(&value);
            let add = utf8_size_wide(&text);
            let value_len = value.len();
            let text_len = text.len();
            assert(have <= 4 * value_len && add <= 4 * text_len);
            let fits_bytes = have + add <= self.max_value_bytes as u128;
            let maximum = self.fields[i].maximum_length;
            let fits_chars = text.len() <= maximum && value.len() <= maximum - text.len();
            if fits_bytes && fits_chars && !has_control(&text) {
                if text.len() < usize::MAX / 2 {
                    crate::prompt::insert_confirmation_text(&mut value, &mut cursor, &text);
                }
                self.error = false;
            } else {
                self.error = true;
            }
        }
        if value.len() < usize::MAX / 2 {
            self.set_value(i, Value::Text(value));
            self.cursor = cursor;
        }
    }

    /// Replaces field `i`'s value, the caret brought within a new text.
    fn set_value(&mut self, i: usize, v: Value)
        requires
            form_wf(old(self)),
            i == old(self).selected,
            v matches Value::Text(t) ==> t@.len() < usize::MAX / 2,
            (v is Text) == (old(self).values@[i as int] is Text),
        ensures
            form_wf(final(self)),
            final(self).fields == old(self).fields,
            final(self).selected == old(self).selected,
            same_value(final(self).values@[i as int], v),
            final(self).values@ == old(self).values@.update(i as int, v),
            final(self).error == old(self).error,
            final(self).validation == old(self).validation,
            final(self).cursor == match v {
                Value::Text(t) => if old(self).cursor > t@.len() {
                    t@.len() as usize
                } else {
                    old(self).cursor
                },
                Value::Boolean(_) => old(self).cursor,
            },
            *final(self) == (Surface { values: final(self).values, cursor: final(self).cursor, ..*old(self) }),
    {
        let ghost expected = v;
        let end = match &v {
            Value::Text(t) => t.len(),
            Value::Boolean(_) => 0,
        };
        self.values.set(i, v);
        if let Value::Text(_) = &self.values[i] {
            if self.cursor > end {
                self.cursor = end;
            }
        }
        proof {
            match expected {
                Value::Text(t) => assert(t@ == t@),
                Value::Boolean(b) => assert(b == b),
            }
        }
    }
}

/// `v` stepped once: a boolean flips; a text moves round `choices`, back
/// when `left`.
fn step_value(v: &Value, choices: &Vec<String>, left: bool) -> (r: Value)
    requires
        *v is Text ==> choices@.len() > 0,
        forall|j: int| 0 <= j < choices@.len() ==> (#[trigger] choices@[j])@.len() < usize::MAX / 2,
    ensures
        match *v {
            Value::Boolean(b) => r == Value::Boolean(!b),
            Value::Text(t) => r matches Value::Text(n) && n@ == choices@[(choice_index(choices@, t@)
                + if left {
                choices@.len() - 1
            } else {
                1
            }) % (choices@.len() as int)]@ && n@.len() < usize::MAX / 2,
        },
{
    match v {
        Value::Boolean(b) => Value::Boolean(!*b),
        Value::Text(t) => {
            let n = choices.len();
            let current = choice_position(choices, t);
            let next = if left {
                if current == 0 {
                    n - 1
                } else {
                    current - 1
                }
            } else if current + 1 == n {
                0
            } else {
                current + 1
            };
            proof {
                let m = n as int;
                if left {
                    if current == 0 {
                        vstd::arithmetic::div_mod::lemma_small_mod((m - 1) as nat, m as nat);
                    } else {
                        vstd::arithmetic::div_mod::lemma_mod_add_multiples_vanish(current - 1, m);
                        vstd::arithmetic::div_mod::lemma_small_mod((current - 1) as nat, m as nat);
                    }
                } else if current + 1 == n {
                    vstd::arithmetic::div_mod::lemma_mod_self_0(m);
                } else {
                    vstd::arithmetic::div_mod::lemma_small_mod((current + 1) as nat, m as nat);
                }
            }
            Value::Text(chars_of(choices[next].as_str()))
        },
    }
}

/// The index of the first choice equal to `v`, or zero.
fn choice_position(choices: &Vec<String>, v: &Vec<char>) -> (i: usize)
    ensures
        i == choice_index(choices@, v@),
        choices@.len() > 0 ==> i < choices@.len(),
{
    let mut i: usize = 0;
    while i < choices.len()
        invariant
            i <= choices@.len(),
            forall|k: int| 0 <= k < i ==> choices@[k]@ != v@,
        decreases choices@.len() - i,
    {
        let c = chars_of(choices[i].as_str());
        if c.len() == v.len() {
            let mut j: usize = 0;
            let mut same = true;
            while j < c.len()
                invariant
                    j <= c@.len() == v@.len(),
                    same == forall|m: int| 0 <= m < j ==> c@[m] == v@[m],
                decreases c@.len() - j,
            {
                if c[j] != v[j] {
                    same = false;
                }
                j = j + 1;
            }
            if same {
                assert(c@ =~= v@);
                proof {
                    let a = choices@;
                    assert(0 <= i < a.len() && a[i as int]@ == v@ && forall|k: int|
                        0 <= k < i ==> a[k]@ != v@);
                    let w = choice_index(a, v@);
                    assert(w == i as int) by {
                        if w < i {
                        } else if w > i {
                            assert(a[i as int]@ != v@);
                        }
                    }
                }
                return i;
            }
            assert(c@ != v@) by {
                let m = choose|m: int| 0 <= m < j && c@[m] != v@[m];
            }
        }
        i = i + 1;
    }
    0
}

/// Whether a surface's kind has what handling an input needs: a first value
/// for a confirmation or a list, a well-formed form with one acceptance
/// flag per field and room in its revision counter.
pub open spec fn surface_ready(s: &Surface, acceptance: Seq<bool>) -> bool {
    if s.confirmation || s.picker is Some {
        s.values@.len() >= 1
    } else {
        form_wf(s) && acceptance.len() == s.fields@.len() && s.validation.revision < u64::MAX
    }
}

/// What key or text `input` does to surface `before`, giving `after` and
/// `close`, whether it closes and answered: see `Surface::take_input`.
#[verifier::opaque]
pub open spec fn takes_input(
    before: Surface,
    after: Surface,
    input: InputEvent,
    acceptance: Seq<bool>,
    foreground: u64,
    close: Option<bool>,
) -> bool {
    if before.confirmation {
        match input {
            InputEvent::Key(key) => if key.code == KeyCode::Enter && key.modifiers.spec_is_empty() {
                &&& close == Some(true)
                &&& after.values@ == before.values@.update(0, Value::Boolean(true))
                &&& after == (Surface { values: after.values, ..before })
            } else if surface_cancel(key) {
                close == Some(false) && after == before
            } else {
                close is None && after == before
            },
            _ => close is None && after == before,
        }
    } else if before.picker is Some {
        &&& after.picker is Some
        &&& exists|step: PickerStep|
            #[trigger] picker_took(before.picker->0, after.picker->0, input, step) && match step {
                PickerStep::Cancel => close == Some(false) && after == (Surface { picker: after.picker, ..before }),
                PickerStep::Stay => close is None && after == (Surface { picker: after.picker, ..before }),
                PickerStep::Choose(label) => {
                    &&& close == Some(true)
                    &&& after == (Surface { picker: after.picker, values: after.values, ..before })
                    &&& after.values@ == before.values@.update(0, after.values@[0])
                    &&& after.values@[0] matches Value::Text(t) && t@ == label@
                },
            }
    } else {
        exists|mid: Surface, step: FormStep|
            #[trigger] form_took(before, mid, input, acceptance, foreground, step) && close == (match step {
                FormStep::Finish(a) => Some(a),
                FormStep::Stay => None,
            }) && if same_value(mid.values@[before.selected as int], before.values@[before.selected as int]) {
                after == mid
            } else {
                &&& after.validation.results@.len() == 0
                &&& after == (Surface {
                    validation: ValidationState {
                        revision: (before.validation.revision + 1) as u64,
                        results: after.validation.results,
                        unavailable: false,
                        ..mid.validation
                    },
                    ..mid
                })
            }
    }
}

impl Surface {
    /// A key or text for this surface, and whether it closes (answered or
    /// not). A confirmation closes answered on Enter alone, its value set
    /// to yes, and unanswered on Escape or exactly Control-c. A list goes
    /// through `SurfacePicker::handle`, closing with the chosen label as its
    /// value. A form goes through `Surface::form_input`; when that changes
    /// the selected field's value, the validation revision moves on and
    /// earlier results are dropped.
    pub fn take_input(&mut self, input: &InputEvent, acceptance: &Vec<bool>, foreground: u64) -> (close: Option<bool>)
        requires
            surface_ready(old(self), acceptance@),
        ensures
            takes_input(*old(self), *final(self), *input, acceptance@, foreground, close),
    {
        reveal(takes_input);
        let ghost before = *self;
        if self.confirmation {
            if let InputEvent::Key(key) = input {
                if key.code == KeyCode::Enter && key.modifiers.is_empty() {
                    self.values.set(0, Value::Boolean(true));
                    return Some(true);
                } else if is_surface_cancel(key) {
                    return Some(false);
                }
            }
            return None;
        }
        if self.picker.is_some() {
            let step = match &mut self.picker {
                Some(picker) => picker.handle(input),
                None => PickerStep::Stay,
            };
            let ghost taken = step;
            assert(picker_took(before.picker->0, self.picker->0, *input, taken));
            return match step {
                PickerStep::Cancel => Some(false),
                PickerStep::Choose(label) => {
                    self.values.set(0, Value::Text(chars_of(label.as_str())));
                    Some(true)
                },
                PickerStep::Stay => None,
            };
        }
        let i = self.selected;
        let before_value = copy_value(&self.values[i]);
        let step = self.form_input(input, acceptance, foreground);
        let ghost mid = *self;
        assert(form_took(before, mid, *input, acceptance@, foreground, step));
        if !values_equal(&self.values[i], &before_value) {
            self.validation.revision = self.validation.revision + 1;
            self.validation.results = Vec::new();
            self.validation.unavailable = false;
        }
        match step {
            FormStep::Finish(accepted) => Some(accepted),
            FormStep::Stay => None,
        }
    }
}

impl App {
    /// The open surface takes `input`: see `Surface::take_input`.
    fn surface_takes(&mut self, input: &InputEvent, acceptance: &Vec<bool>) -> (close: Option<bool>)
        requires
            old(self).plugins.input matches Some(s) && surface_ready(&s, acceptance@),
        ensures
            final(self).plugins.input matches Some(n) && takes_input(
                old(self).plugins.input->0,
                n,
                *input,
                acceptance@,
                old(self).plugins.foreground_generation,
                close,
            ),
            *final(self) == (App {
                plugins: crate::app::Plugins { input: final(self).plugins.input, ..old(self).plugins },
                ..*old(self)
            }),
    {
        let foreground = self.plugins.foreground_generation;
        let Some(mut surface) = self.plugins.input.take() else {
            return None;
        };
        let close = surface.take_input(input, acceptance, foreground);
        self.plugins.input = Some(surface);
        close
    }

    /// Finishes the open surface with its answer when `close` says it
    /// closes; a list or form is redrawn.
    fn conclude_input(&mut self, close: Option<bool>, confirmation: bool)
        requires
            old(self).plugins.input is Some,
        ensures
            final(self).plugins.foreground_generation == old(self).plugins.foreground_generation,
            final(self).plugins.frontend_attached == old(self).plugins.frontend_attached,
            final(self).plugins.attachment_generation == old(self).plugins.attachment_generation,
            *final(self) == (App { plugins: final(self).plugins, ..*old(self) }),
            final(self).plugins.presentation_dirty == (old(self).plugins.presentation_dirty || !confirmation
                || close is Some),
            ({
                let n = old(self).plugins.input->0;
                match close {
                    Some(accepted) => {
                        &&& final(self).plugins.input is None
                        &&& final(self).plugins.input_finished@.len() == old(self).plugins.input_finished@.len() + 1
                        &&& final(self).plugins.input_finished@.drop_last() == old(self).plugins.input_finished@
                        &&& final(self).plugins.input_finished@.last().owner == n.owner
                        &&& final(self).plugins.input_finished@.last().context == (CapturedContext {
                            foreground_allowed: accepted,
                            foreground: old(self).plugins.foreground_generation,
                            action: old(self).active_action_id,
                            ..n.context
                        })
                        &&& submission_matches(final(self).plugins.input_finished@.last().submission, n, accepted)
                    },
                    None => final(self).plugins.input == old(self).plugins.input && final(self).plugins.input_finished
                        == old(self).plugins.input_finished,
                }
            }),
    {
        if let Some(accepted) = close {
            self.finish_plugin_input(accepted);
        }
        if !confirmation {
            self.plugins.presentation_dirty = true;
        }
    }

    /// A key or text while a plugin's input surface owns input: pending
    /// validation is cancelled, the surface takes the input (see
    /// `Surface::take_input`), and a surface that closes is finished with
    /// its answer. Lists and forms are redrawn.
    #[verifier::rlimit(100)]
    #[verifier::spinoff_prover]
    pub fn handle_plugin_input(&mut self, input: &InputEvent, acceptance: &Vec<bool>)
        requires
            old(self).plugins.input matches Some(s) ==> surface_ready(&s, acceptance@),
        ensures
            final(self).plugins.foreground_generation == old(self).plugins.foreground_generation,
            final(self).plugins.frontend_attached == old(self).plugins.frontend_attached,
            final(self).plugins.attachment_generation == old(self).plugins.attachment_generation,
            *final(self) == (App { plugins: final(self).plugins, ..*old(self) }),
            match old(self).plugins.input {
                None => *final(self) == *old(self),
                Some(s) => exists|n: Surface, close: Option<bool>|
                    #[trigger] takes_input(
                        without_intent(Some(s))->0,
                        n,
                        *input,
                        acceptance@,
                        old(self).plugins.foreground_generation,
                        close,
                    ) && final(self).plugins.presentation_dirty == (old(self).plugins.presentation_dirty
                        || s.validation.queued is Some || !s.confirmation || close is Some) && match close {
                        Some(accepted) => {
                            &&& final(self).plugins.input is None
                            &&& final(self).plugins.input_finished@.len() == old(self).plugins.input_finished@.len() + 1
                            &&& final(self).plugins.input_finished@.drop_last() == old(self).plugins.input_finished@
                            &&& final(self).plugins.input_finished@.last().owner == n.owner
                            &&& final(self).plugins.input_finished@.last().context == (CapturedContext {
                                foreground_allowed: accepted,
                                foreground: old(self).plugins.foreground_generation,
                                action: old(self).active_action_id,
                                ..n.context
                            })
                            &&& submission_matches(final(self).plugins.input_finished@.last().submission, n, accepted)
                        },
                        None => final(self).plugins.input == Some(n) && final(self).plugins.input_finished
                            == old(self).plugins.input_finished,
                    },
            },
    {
        let ghost start = *self;
        self.cancel_plugin_validation_intent();
        let confirmation = match &self.plugins.input {
            Some(surface) => surface.confirmation,
            None => return,
        };
        let ghost dropped = self.plugins.input->0;
        assert(dropped == without_intent(start.plugins.input)->0);
        let close = self.surface_takes(input, acceptance);
        let ghost n = self.plugins.input->0;
        assert(takes_input(dropped, n, *input, acceptance@, start.plugins.foreground_generation, close));
        self.conclude_input(close, confirmation);
    }
}

impl App {
    /// Whether the open surface has lost its place: a native overlay or the
    /// prompt owns input, no frontend is attached or a new one is, or the
    /// active pane, buffer or terminal is no longer the one it opened over,
    /// or that buffer has closed.
    pub open spec fn surface_stale(&self, c: CapturedContext) -> bool {
        self.input_overlay || self.mode == crate::keys::Mode::Command
            || !self.plugins.frontend_attached || self.plugins.attachment_generation
            != c.attachment || self.active_pane != c.pane || self.active().buffer != c.buffer
            || self.active().terminal != c.terminal || self.closed_buffers@.contains(c.buffer)
    }

    /// The open surface once kept consistent with the editor: none when it
    /// has lost its place; without its waiting submission and queued
    /// request when the submission waits on another foreground generation.
    pub open spec fn synced_input(&self) -> Option<Surface> {
        match self.plugins.input {
            None => None,
            Some(s) => if self.surface_stale(s.context) {
                None
            } else if s.validation.submit matches Some(p) && p.1 != self.plugins.foreground_generation {
                without_intent(Some(s))
            } else {
                Some(s)
            },
        }
    }

    /// Whether the presentation needs redrawing once the open surface is kept
    /// consistent with the editor: it did, or the surface closes, or a
    /// queued request is dropped with the submission waiting on another
    /// foreground generation.
    pub open spec fn synced_dirty(&self) -> bool {
        self.plugins.presentation_dirty || (self.plugins.input matches Some(s) && (self.surface_stale(
            s.context,
        ) || (s.validation.submit matches Some(p) && p.1 != self.plugins.foreground_generation
            && s.validation.queued is Some)))
    }

    /// Keeps the open surface consistent with the editor: a submission
    /// waiting on validation from another foreground generation is
    /// abandoned, and a surface that has lost its place closes unanswered.
    #[verifier::rlimit(50)]
    pub fn sync_plugin_input(&mut self)
        requires
            old(self).wf(),
        ensures
            final(self).plugins.input == old(self).synced_input(),
            final(self).plugins.presentation_dirty == old(self).synced_dirty(),
            sync_effects(*old(self), *final(self)),
    {
        let ghost before = *self;
        let stale_submit = match &self.plugins.input {
            Some(s) => match s.validation.submit {
                Some((_, foreground)) => foreground != self.plugins.foreground_generation,
                None => false,
            },
            None => false,
        };
        if stale_submit {
            self.cancel_plugin_validation_intent();
        }
        let Some(context) = (match &self.plugins.input {
            Some(s) => Some(s.context),
            None => None,
        }) else {
            return;
        };
        assert(self.active() == before.active());
        assert(self.surface_stale(context) == before.surface_stale(context));
        let active = self.active_pane_snapshot();
        let closed = self.is_closed(context.buffer);
        if self.input_overlay || self.mode == crate::keys::Mode::Command
            || !self.plugins.frontend_attached || self.plugins.attachment_generation
            != context.attachment || self.active_pane != context.pane || active.buffer
            != context.buffer || active.terminal != context.terminal || closed {
            self.finish_plugin_input(false);
        }
    }

    /// The active pane.
    pub(crate) fn active_pane_snapshot(&self) -> (p: crate::app::Pane)
        requires
            self.wf(),
        ensures
            p.buffer == self.active().buffer,
            p.terminal == self.active().terminal,
    {
        let mut i: usize = 0;
        while i < self.panes.len()
            invariant
                self.wf(),
                i <= self.panes@.len(),
                forall|k: int| 0 <= k < i ==> self.panes@[k].id != self.active_pane,
            decreases self.panes@.len() - i,
        {
            if self.panes[i].id == self.active_pane {
                proof {
                    let c = choose|k: int|
                        0 <= k < self.panes@.len() && self.panes@[k].id == self.active_pane;
                    if c < i {
                    } else if c > i {
                        assert(self.panes@[i as int].id != self.panes@[c].id);
                    }
                }
                return self.panes[i];
            }
            i = i + 1;
        }
        proof {
            let c = choose|k: int| 0 <= k < self.panes@.len() && self.panes@[k].id == self.active_pane;
            assert(self.panes@[c].id == self.active_pane);
        }
        self.panes[0]
    }
}

} // verus!
