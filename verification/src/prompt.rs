//! Single-line text editing with a character caret: the command prompt and
//! the typed confirmations share these operations.

use vstd::prelude::*;

use crate::chars::{char_is_whitespace, is_whitespace};
use crate::keys::{KeyCode, KeyStroke};
use crate::movement::{is_word, spec_is_word};

verus! {

/// Inserts `c` before character `cursor`.
pub fn prompt_insert(value: &mut Vec<char>, cursor: usize, c: char)
    requires
        cursor <= old(value)@.len(),
    ensures
        final(value)@ == old(value)@.insert(cursor as int, c),
{
    value.insert(cursor, c);
}

/// Removes the character before the caret and moves the caret back onto
/// its place; nothing happens at the start.
pub fn prompt_backspace(value: &mut Vec<char>, cursor: &mut usize)
    requires
        *old(cursor) <= old(value)@.len(),
    ensures
        *old(cursor) == 0 ==> final(value)@ == old(value)@ && *final(cursor) == 0,
        *old(cursor) > 0 ==> {
            &&& *final(cursor) == *old(cursor) - 1
            &&& final(value)@ == old(value)@.remove(*old(cursor) - 1)
        },
        *final(cursor) <= final(value)@.len(),
{
    if *cursor > 0 {
        *cursor = *cursor - 1;
        value.remove(*cursor);
    }
}

/// Removes the character under the caret, if there is one.
pub fn prompt_delete(value: &mut Vec<char>, cursor: usize)
    ensures
        cursor < old(value)@.len() ==> final(value)@ == old(value)@.remove(cursor as int),
        cursor >= old(value)@.len() ==> final(value)@ == old(value)@,
{
    if cursor < value.len() {
        value.remove(cursor);
    }
}

/// Removes the characters from `from` up to `to`.
pub fn prompt_delete_range(value: &mut Vec<char>, from: usize, to: usize)
    requires
        from <= to <= old(value)@.len(),
    ensures
        final(value)@ == old(value)@.subrange(0, from as int) + old(value)@.subrange(
            to as int,
            old(value)@.len() as int,
        ),
{
    let mut kept: Vec<char> = Vec::new();
    let mut i: usize = 0;
    while i < from
        invariant
            i <= from <= to <= value@.len(),
            kept@ == value@.subrange(0, i as int),
        decreases from - i,
    {
        kept.push(value[i]);
        assert(value@.subrange(0, i + 1) == value@.subrange(0, i as int).push(value@[i as int]));
        i = i + 1;
    }
    let mut j: usize = to;
    while j < value.len()
        invariant
            from <= to <= j <= value@.len(),
            kept@ == value@.subrange(0, from as int) + value@.subrange(to as int, j as int),
        decreases value@.len() - j,
    {
        kept.push(value[j]);
        assert(value@.subrange(to as int, j + 1) == value@.subrange(to as int, j as int).push(
            value@[j as int],
        ));
        j = j + 1;
    }
    *value = kept;
}

/// Whether `c` is a word character for prompt word motions.
pub open spec fn prompt_word_char(c: char) -> bool {
    spec_is_word(c)
}

/// Going back from `k` over whitespace.
pub open spec fn skip_blank_back(value: Seq<char>, k: int) -> int
    decreases k,
{
    if k > 0 && char_is_whitespace(value[k - 1]) {
        skip_blank_back(value, k - 1)
    } else {
        k
    }
}

/// Going back from `k` over characters that are (or are not) word
/// characters, as `word` says.
pub open spec fn skip_kind_back(value: Seq<char>, k: int, word: bool) -> int
    decreases k,
{
    if k > 0 && !char_is_whitespace(value[k - 1]) && prompt_word_char(value[k - 1]) == word {
        skip_kind_back(value, k - 1, word)
    } else {
        k
    }
}

/// Start of the word before `cursor`: back over whitespace, then over the
/// run of word characters, or of other non-blank characters, before it.
pub open spec fn spec_prompt_word_backward(value: Seq<char>, cursor: int) -> int {
    let k = skip_blank_back(value, cursor);
    if k == 0 {
        0
    } else {
        skip_kind_back(value, k, prompt_word_char(value[k - 1]))
    }
}

/// Start of the word before `cursor`.
pub fn prompt_word_backward(value: &Vec<char>, cursor: usize) -> (r: usize)
    requires
        cursor <= value@.len(),
    ensures
        r == spec_prompt_word_backward(value@, cursor as int),
        r <= cursor,
{
    let mut k = cursor;
    while k > 0 && is_whitespace(value[k - 1])
        invariant
            k <= cursor <= value@.len(),
            skip_blank_back(value@, cursor as int) == skip_blank_back(value@, k as int),
        decreases k,
    {
        k = k - 1;
    }
    if k == 0 {
        return 0;
    }
    let word = is_word(value[k - 1]);
    let ghost blank_end = k as int;
    while k > 0 && !is_whitespace(value[k - 1]) && is_word(value[k - 1]) == word
        invariant
            k <= blank_end <= cursor <= value@.len(),
            blank_end == skip_blank_back(value@, cursor as int),
            blank_end > 0,
            word == prompt_word_char(value@[blank_end - 1]),
            skip_kind_back(value@, blank_end, word) == skip_kind_back(value@, k as int, word),
        decreases k,
    {
        k = k - 1;
    }
    k
}

/// Applies one editing key to a typed confirmation's text: the caret is
/// first brought inside the text; then a character typed without Control
/// or Alt is inserted at the caret, Backspace and Delete remove around it,
/// and the arrows, Home and End move it. Any other key changes nothing
/// more.
pub open spec fn spec_edit_confirmation_text(
    input: Seq<char>,
    cursor: int,
    key: KeyStroke,
) -> (Seq<char>, int) {
    let c = if cursor < input.len() {
        cursor
    } else {
        input.len() as int
    };
    match key.code {
        KeyCode::Char(ch) => if !(key.modifiers.control || key.modifiers.alt) {
            (input.insert(c, ch), c + 1)
        } else {
            (input, c)
        },
        KeyCode::Backspace => if c > 0 {
            (input.remove(c - 1), c - 1)
        } else {
            (input, c)
        },
        KeyCode::Delete => if c < input.len() {
            (input.remove(c), c)
        } else {
            (input, c)
        },
        KeyCode::Left => (input, if c > 0 {
            c - 1
        } else {
            0
        }),
        KeyCode::Right => (input, if c + 1 < input.len() {
            c + 1
        } else {
            input.len() as int
        }),
        KeyCode::Home => (input, 0),
        KeyCode::End => (input, input.len() as int),
        _ => (input, c),
    }
}

/// Applies one editing key to a typed confirmation's text and caret.
pub fn edit_confirmation_text(input: &mut Vec<char>, cursor: &mut usize, key: KeyStroke)
    requires
        old(input)@.len() < usize::MAX,
    ensures
        final(input)@ == spec_edit_confirmation_text(old(input)@, *old(cursor) as int, key).0,
        *final(cursor) as int == spec_edit_confirmation_text(
            old(input)@,
            *old(cursor) as int,
            key,
        ).1,
        *final(cursor) <= final(input)@.len(),
{
    let len = input.len();
    let c = if *cursor < len {
        *cursor
    } else {
        len
    };
    *cursor = c;
    match key.code {
        KeyCode::Char(ch) => {
            if !key.modifiers.control_or_alt() {
                input.insert(c, ch);
                *cursor = c + 1;
            }
        },
        KeyCode::Backspace => {
            if c > 0 {
                input.remove(c - 1);
                *cursor = c - 1;
            }
        },
        KeyCode::Delete => {
            if c < len {
                input.remove(c);
                *cursor = c;
            }
        },
        KeyCode::Left => {
            *cursor = if c > 0 {
                c - 1
            } else {
                0
            };
        },
        KeyCode::Right => {
            *cursor = if c + 1 < len {
                c + 1
            } else {
                len
            };
        },
        KeyCode::Home => {
            *cursor = 0;
        },
        KeyCode::End => {
            *cursor = len;
        },
        _ => {},
    }
}

/// Inserts `text` at the caret, the caret first brought inside the input,
/// and leaves the caret after it.
pub fn insert_confirmation_text(input: &mut Vec<char>, cursor: &mut usize, text: &Vec<char>)
    requires
        old(input)@.len() + text@.len() < usize::MAX,
    ensures
        ({
            let c = if *old(cursor) < old(input)@.len() {
                *old(cursor) as int
            } else {
                old(input)@.len() as int
            };
            &&& final(input)@ == old(input)@.subrange(0, c) + text@ + old(input)@.subrange(
                c,
                old(input)@.len() as int,
            )
            &&& *final(cursor) == c + text@.len()
        }),
{
    let len = input.len();
    let c = if *cursor < len {
        *cursor
    } else {
        len
    };
    let ghost before = input@;
    let mut i: usize = 0;
    while i < text.len()
        invariant
            i <= text@.len(),
            c <= before.len(),
            before.len() + text@.len() < usize::MAX,
            input@ == before.subrange(0, c as int) + text@.take(i as int) + before.subrange(
                c as int,
                before.len() as int,
            ),
        decreases text@.len() - i,
    {
        input.insert(c + i, text[i]);
        assert(text@.take(i + 1) == text@.take(i as int).push(text@[i as int]));
        i = i + 1;
    }
    assert(text@.take(text@.len() as int) == text@);
    *cursor = c + text.len();
}

/// Going forward from `k` over whitespace.
pub open spec fn skip_blank_forward(value: Seq<char>, k: int) -> int
    decreases value.len() - k,
{
    if 0 <= k < value.len() && char_is_whitespace(value[k]) {
        skip_blank_forward(value, k + 1)
    } else {
        k
    }
}

/// Going forward from `k` over characters that are (or are not) word
/// characters, as `word` says.
pub open spec fn skip_kind_forward(value: Seq<char>, k: int, word: bool) -> int
    decreases value.len() - k,
{
    if 0 <= k < value.len() && !char_is_whitespace(value[k]) && prompt_word_char(value[k]) == word {
        skip_kind_forward(value, k + 1, word)
    } else {
        k
    }
}

/// End of the word after `cursor`: over whitespace, then over the run of
/// word characters, or of other non-blank characters, after it.
pub open spec fn spec_prompt_word_forward(value: Seq<char>, cursor: int) -> int {
    let k = skip_blank_forward(value, cursor);
    if k >= value.len() {
        value.len() as int
    } else {
        skip_kind_forward(value, k, prompt_word_char(value[k]))
    }
}

/// End of the word after `cursor`.
pub fn prompt_word_forward(value: &Vec<char>, cursor: usize) -> (r: usize)
    requires
        cursor <= value@.len(),
    ensures
        r == spec_prompt_word_forward(value@, cursor as int),
        cursor <= r <= value@.len(),
{
    let mut k = cursor;
    while k < value.len() && is_whitespace(value[k])
        invariant
            cursor <= k <= value@.len(),
            skip_blank_forward(value@, cursor as int) == skip_blank_forward(value@, k as int),
        decreases value@.len() - k,
    {
        k = k + 1;
    }
    if k >= value.len() {
        return value.len();
    }
    let word = is_word(value[k]);
    let ghost blank_end = k as int;
    while k < value.len() && !is_whitespace(value[k]) && is_word(value[k]) == word
        invariant
            cursor <= blank_end <= k <= value@.len(),
            blank_end == skip_blank_forward(value@, cursor as int),
            blank_end < value@.len(),
            word == prompt_word_char(value@[blank_end]),
            skip_kind_forward(value@, blank_end, word) == skip_kind_forward(value@, k as int, word),
        decreases value@.len() - k,
    {
        k = k + 1;
    }
    k
}

} // verus!
