//! Character classification used by motion, prompts and plugin fields.
//!
//! Whitespace and control characters are fixed sets, computed and proved
//! here; the alphanumeric and width tables belong to the standard library
//! and to `unicode-width`, and are named rather than restated.

use vstd::prelude::*;

verus! {

/// Whether `c` has the Unicode `White_Space` property (`char::is_whitespace`):
/// the tab, line feed, vertical tab, form feed and carriage return, the
/// space, NEL, the no-break space, the Ogham space mark, the spaces from the
/// en quad to the hair space, the line and paragraph separators, the narrow
/// no-break space, the medium mathematical space and the ideographic space.
pub open spec fn char_is_whitespace(c: char) -> bool {
    let u = c as u32;
    (0x09 <= u <= 0x0D) || u == 0x20 || u == 0x85 || u == 0xA0 || u == 0x1680 || (0x2000 <= u
        <= 0x200A) || u == 0x2028 || u == 0x2029 || u == 0x202F || u == 0x205F || u == 0x3000
}

/// Whether `c` is alphabetic or numeric (`char::is_alphanumeric`).
pub uninterp spec fn char_is_alphanumeric(c: char) -> bool;

/// Whether `c` has the general category `Cc` (`char::is_control`): the C0
/// controls U+0000 to U+001F, delete, and the C1 controls U+0080 to U+009F.
pub open spec fn char_is_control(c: char) -> bool {
    let u = c as u32;
    u <= 0x1F || (0x7F <= u <= 0x9F)
}

/// The column width `unicode-width` assigns to a character at or above
/// U+00A0, read from its generated East Asian Width tables.
pub uninterp spec fn table_char_width(c: char) -> usize;

/// The width `UnicodeWidthChar::width` reports: `None` for the C0 and C1
/// control ranges, one column for printable ASCII, the table value otherwise.
pub open spec fn char_width(c: char) -> Option<usize> {
    if (c as u32) < 0x20 {
        None
    } else if (c as u32) < 0x7F {
        Some(1)
    } else if (c as u32) < 0xA0 {
        None
    } else {
        Some(table_char_width(c))
    }
}

/// Whether the character has the `White_Space` property, the fixed set
/// `char_is_whitespace` lists (what `char::is_whitespace` answers).
pub fn is_whitespace(c: char) -> (r: bool)
    ensures
        r == char_is_whitespace(c),
{
    let u = c as u32;
    (0x09 <= u && u <= 0x0D) || u == 0x20 || u == 0x85 || u == 0xA0 || u == 0x1680 || (0x2000 <= u
        && u <= 0x200A) || u == 0x2028 || u == 0x2029 || u == 0x202F || u == 0x205F || u == 0x3000
}

/// `char::is_alphanumeric`: the `Alphabetic` or `Numeric` property. ASCII
/// letters and digits have it; the underscore and the ASCII whitespace do not.
#[verifier::external_body]
pub fn is_alphanumeric(c: char) -> (r: bool)
    ensures
        r == char_is_alphanumeric(c),
        ('a' <= c <= 'z' || 'A' <= c <= 'Z' || '0' <= c <= '9') ==> r,
        (c == '_' || c == ' ' || c == '\t' || c == '\n' || c == '\r') ==> !r,
{
    c.is_alphanumeric()
}

/// Whether the character has the general category `Cc`, the ranges
/// `char_is_control` lists (what `char::is_control` answers).
pub fn is_control(c: char) -> (r: bool)
    ensures
        r == char_is_control(c),
{
    let u = c as u32;
    u <= 0x1F || (0x7F <= u && u <= 0x9F)
}

/// `UnicodeWidthChar::width` from `unicode-width`: `None` for control codes,
/// `Some(1)` for printable ASCII, and the table width from U+00A0 upwards.
#[verifier::external_body]
pub fn display_width(c: char) -> (r: Option<usize>)
    ensures
        (c as u32) >= 0xA0 ==> r == Some(table_char_width(c)),
        r == char_width(c),
{
    unicode_width::UnicodeWidthChar::width(c)
}

} // verus!
