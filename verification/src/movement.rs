//! Pure character-offset movement and selection-span calculations.

use vstd::prelude::*;

use crate::chars::{
    char_is_alphanumeric, char_is_whitespace, char_width, display_width, is_alphanumeric,
    is_whitespace,
};
use crate::text::Text;

verus! {

/// A word character: alphanumeric or the underscore.
pub open spec fn spec_is_word(c: char) -> bool {
    char_is_alphanumeric(c) || c == '_'
}

/// Word-motion class of a character: 0 for whitespace, 1 for a word
/// character (every non-whitespace character for a long word), 2 for
/// punctuation.
pub open spec fn spec_word_class(c: char, long: bool) -> u8 {
    if char_is_whitespace(c) {
        0
    } else if long || spec_is_word(c) {
        1
    } else {
        2
    }
}

/// Class of the character at `k`, a line terminator counting as whitespace;
/// positions outside the document count as whitespace too.
pub open spec fn class_of(t: Seq<char>, k: int, long: bool) -> u8 {
    if 0 <= k < t.len() {
        spec_word_class(t[k], long)
    } else {
        0
    }
}

/// `word_class_at`: the class at `k`, or nothing past the end.
pub open spec fn spec_word_class_at(t: Seq<char>, k: int, long: bool) -> Option<u8> {
    if 0 <= k < t.len() {
        Some(spec_word_class(t[k], long))
    } else {
        None
    }
}

/// `class_at`: the class at `k`, or nothing on a line feed or past the end,
/// where a Normal-mode caret cannot rest.
pub open spec fn spec_class_at(t: Seq<char>, k: int, long: bool) -> Option<u8> {
    if 0 <= k < t.len() && t[k] != '\n' {
        Some(spec_word_class(t[k], long))
    } else {
        None
    }
}

/// Whether the caret may rest at `k` during Normal-mode stepping: anywhere
/// except on a line feed.
pub open spec fn restable(t: Seq<char>, k: int) -> bool {
    !(0 <= k < t.len() && t[k] == '\n')
}

/// The nearest offset after `o`, inside the document, that is not a line feed.
pub open spec fn spec_next_offset(t: Seq<char>, o: int) -> Option<int>
    decreases t.len() - o,
{
    if o + 1 >= t.len() {
        None
    } else if t[o + 1] == '\n' {
        spec_next_offset(t, o + 1)
    } else {
        Some(o + 1)
    }
}

/// The nearest offset before `o` that is not a line feed.
pub open spec fn spec_previous_offset(t: Seq<char>, o: int) -> Option<int>
    decreases o,
{
    if o <= 0 {
        None
    } else if !restable(t, o - 1) {
        spec_previous_offset(t, o - 1)
    } else {
        Some(o - 1)
    }
}

/// Offset of the last character of the document for Normal-mode motion.
pub open spec fn spec_document_end(t: &Text) -> int {
    let last = t.rows() - 1;
    if t.row_len(last) == 0 {
        t.row_start(last)
    } else {
        t.row_end(last) - 1
    }
}

/// `k` begins a word: a non-whitespace character whose predecessor has a
/// different class.
pub open spec fn spec_is_word_start(t: Seq<char>, k: int, long: bool) -> bool {
    &&& 0 <= k < t.len()
    &&& class_of(t, k, long) != 0
    &&& (k == 0 || class_of(t, k - 1, long) != class_of(t, k, long))
}

/// Where `w` stops when moving forward from `o`: a word start after `o`.
pub open spec fn forward_stop(t: Seq<char>, o: int, j: int, long: bool) -> bool {
    o < j < t.len() && spec_is_word_start(t, j, long)
}

/// Where `e` stops when moving forward from `o`: the last character of a
/// word, after `o`.
pub open spec fn end_stop(t: Seq<char>, o: int, j: int, long: bool) -> bool {
    &&& o < j < t.len()
    &&& class_of(t, j, long) != 0
    &&& (j + 1 >= t.len() || class_of(t, j + 1, long) != class_of(t, j, long))
}

/// `w`: the first word start after `o`, or the document's last character.
pub open spec fn spec_word_forward(t: &Text, o: int, long: bool) -> int {
    if exists|j: int| forward_stop(t@, o, j, long) {
        choose|j: int|
            forward_stop(t@, o, j, long) && forall|k: int|
                forward_stop(t@, o, k, long) ==> j <= k
    } else {
        spec_document_end(t)
    }
}

/// `b`: the nearest word start before `o`, or zero.
pub open spec fn spec_word_back(t: Seq<char>, o: int, long: bool) -> int {
    if exists|j: int| 0 <= j < o && spec_is_word_start(t, j, long) {
        choose|j: int|
            0 <= j < o && spec_is_word_start(t, j, long) && forall|k: int|
                j < k < o ==> !spec_is_word_start(t, k, long)
    } else {
        0
    }
}

/// `e`: the first word end after `o`, or the document's last character.
pub open spec fn spec_word_end(t: &Text, o: int, long: bool) -> int {
    if exists|j: int| end_stop(t@, o, j, long) {
        choose|j: int|
            end_stop(t@, o, j, long) && forall|k: int| end_stop(t@, o, k, long) ==> j <= k
    } else {
        spec_document_end(t)
    }
}

/// The last position at or before `k` whose class is not `class`, or -1.
pub open spec fn last_not_class(t: Seq<char>, k: int, class: u8, long: bool) -> int
    decreases k + 1,
{
    if k < 0 {
        -1
    } else if class_of(t, k, long) != class {
        k
    } else {
        last_not_class(t, k - 1, class, long)
    }
}

/// `ge`: back over the rest of the word under the caret, then over
/// whitespace, to the end of the previous word; zero when there is none.
pub open spec fn spec_word_end_back(t: Seq<char>, o: int, long: bool) -> int {
    if o <= 0 {
        0
    } else {
        let a = if o < t.len() && class_of(t, o, long) != 0 {
            last_not_class(t, o - 1, class_of(t, o, long), long)
        } else {
            o - 1
        };
        if a < 0 {
            0
        } else {
            let b = last_not_class(t, a, 0, long);
            if b < 0 {
                0
            } else {
                b
            }
        }
    }
}

/// Skipping back from `c` over whitespace, through the previous
/// restable offsets; nothing when the document start is reached first.
pub open spec fn back_skip_blank(t: Seq<char>, c: int) -> Option<int>
    decreases c,
{
    if 0 <= c < t.len() && char_is_whitespace(t[c]) {
        match spec_previous_offset(t, c) {
            Some(p) => {
                proof {
                    lemma_previous_offset_below(t, c);
                }
                back_skip_blank(t, p)
            },
            None => None,
        }
    } else {
        Some(c)
    }
}

/// Extending back from `c` over the restable offsets whose class is `class`.
pub open spec fn back_extend(t: Seq<char>, c: int, class: u8) -> int
    decreases c,
{
    match spec_previous_offset(t, c) {
        Some(p) => {
            if spec_class_at(t, p, false) == Some(class) {
                proof {
                    lemma_previous_offset_below(t, c);
                }
                back_extend(t, p, class)
            } else {
                c
            }
        },
        None => c,
    }
}

/// Skipping forward from `c` over whitespace through the next restable
/// offsets; nothing when the document end is reached first.
pub open spec fn forward_skip_blank(t: Seq<char>, c: int) -> Option<int>
    decreases t.len() - c,
{
    if 0 <= c < t.len() && char_is_whitespace(t[c]) {
        match spec_next_offset(t, c) {
            Some(n) => {
                proof {
                    lemma_next_offset_above(t, c);
                }
                forward_skip_blank(t, n)
            },
            None => None,
        }
    } else {
        Some(c)
    }
}

/// Extending forward from `c` over the restable offsets whose class is
/// `class`.
pub open spec fn forward_extend(t: Seq<char>, c: int, class: u8) -> int
    decreases t.len() - c,
{
    match spec_next_offset(t, c) {
        Some(n) => {
            if spec_class_at(t, n, false) == Some(class) {
                proof {
                    lemma_next_offset_above(t, c);
                }
                forward_extend(t, n, class)
            } else {
                c
            }
        },
        None => c,
    }
}

/// A class, with nothing read as whitespace.
pub open spec fn class_or_zero(class: Option<u8>) -> u8 {
    match class {
        Some(c) => c,
        None => 0u8,
    }
}

/// Insert-mode `Ctrl-w` target: back over whitespace, then to the start of
/// the run of one class before it.
pub open spec fn spec_insert_word_back(t: Seq<char>, o: int) -> int {
    match spec_previous_offset(t, o) {
        None => 0,
        Some(c) => match back_skip_blank(t, c) {
            None => 0,
            Some(c2) => back_extend(t, c2, class_or_zero(spec_class_at(t, c2, false))),
        },
    }
}

/// Insert-mode word-forward target: over whitespace, then past the run of
/// one class after it; the document end when nothing follows.
pub open spec fn spec_insert_word_forward(t: Seq<char>, o: int) -> int {
    if o >= t.len() {
        t.len() as int
    } else {
        match forward_skip_blank(t, o) {
            None => t.len() as int,
            Some(c) => {
                let e = forward_extend(t, c, class_or_zero(spec_class_at(t, c, false))) + 1;
                if e < t.len() {
                    e
                } else {
                    t.len() as int
                }
            },
        }
    }
}

/// Stepping back lands strictly before where it started, on a place a caret
/// may rest.
pub proof fn lemma_previous_offset_below(t: Seq<char>, c: int)
    ensures
        spec_previous_offset(t, c) matches Some(p) ==> 0 <= p < c && restable(t, p),
    decreases c,
{
    if c > 0 && !restable(t, c - 1) {
        lemma_previous_offset_below(t, c - 1);
    }
}

/// Stepping forward lands strictly after where it started, inside the text
/// and never on a line feed.
pub proof fn lemma_next_offset_above(t: Seq<char>, c: int)
    ensures
        spec_next_offset(t, c) matches Some(n) ==> c < n < t.len() && t[n] != '\n',
    decreases t.len() - c,
{
    if c + 1 < t.len() && t[c + 1] == '\n' {
        lemma_next_offset_above(t, c + 1);
    }
}

/// Stepping back from `o` lands on the nearest offset before it that holds
/// no line feed, passing only line feeds; with nothing there, everything
/// before `o` is a line feed.
proof fn lemma_previous_offset_passes_line_feeds(t: Seq<char>, o: int)
    requires
        0 <= o <= t.len(),
    ensures
        spec_previous_offset(t, o) matches Some(p) ==> {
            &&& 0 <= p < o
            &&& t[p] != '\n'
            &&& forall|k: int| p < k < o ==> t[k] == '\n'
        },
        spec_previous_offset(t, o) is None ==> forall|k: int| 0 <= k < o ==> t[k] == '\n',
    decreases o,
{
    if o > 0 && !restable(t, o - 1) {
        lemma_previous_offset_passes_line_feeds(t, o - 1);
    }
}

/// Skipping back over whitespace from a character `c` stops on a
/// non-whitespace character with only whitespace after it up to `c`; with
/// nothing there, everything up to `c` is whitespace.
proof fn lemma_back_skip_blank_passes_whitespace(t: Seq<char>, c: int)
    requires
        0 <= c < t.len(),
    ensures
        back_skip_blank(t, c) matches Some(c2) ==> {
            &&& 0 <= c2 <= c
            &&& !char_is_whitespace(t[c2])
            &&& forall|k: int| c2 < k <= c ==> char_is_whitespace(t[k])
        },
        back_skip_blank(t, c) is None ==> forall|k: int| 0 <= k <= c ==> char_is_whitespace(t[k]),
    decreases c,
{
    assert(char_is_whitespace('\n'));
    if char_is_whitespace(t[c]) {
        lemma_previous_offset_passes_line_feeds(t, c);
        if let Some(p) = spec_previous_offset(t, c) {
            lemma_back_skip_blank_passes_whitespace(t, p);
        }
    }
}

/// Extending back from a non-whitespace character `c` over its class passes
/// only characters of that class and line feeds, and stops where the
/// nearest character before it that is not a line feed has another class.
proof fn lemma_back_extend_keeps_class(t: Seq<char>, c: int)
    requires
        0 <= c < t.len(),
        !char_is_whitespace(t[c]),
    ensures
        ({
            let class = spec_word_class(t[c], false);
            let e = back_extend(t, c, class);
            &&& 0 <= e <= c
            &&& !char_is_whitespace(t[e])
            &&& spec_word_class(t[e], false) == class
            &&& forall|k: int|
                e <= k <= c ==> t[k] == '\n' || (!char_is_whitespace(t[k]) && spec_word_class(
                    t[k],
                    false,
                ) == class)
            &&& forall|p: int|
                0 <= p < e && t[p] != '\n' && (forall|k: int| p < k < e ==> t[k] == '\n')
                    ==> spec_word_class(t[p], false) != class
        }),
    decreases c,
{
    assert(char_is_whitespace('\n'));
    let class = spec_word_class(t[c], false);
    lemma_previous_offset_passes_line_feeds(t, c);
    match spec_previous_offset(t, c) {
        Some(q) => {
            if spec_class_at(t, q, false) == Some(class) {
                assert(spec_word_class(t[q], false) == class);
                assert(!char_is_whitespace(t[q]));
                lemma_back_extend_keeps_class(t, q);
            } else {
                assert forall|p: int|
                    0 <= p < c && t[p] != '\n' && (forall|k: int| p < k < c ==> t[k] == '\n')
                        implies spec_word_class(t[p], false) != class by {
                    if p < q {
                        assert(t[q] == '\n');
                    } else if p > q {
                        assert(t[p] == '\n');
                    }
                }
            }
        },
        None => {},
    }
}

/// Insert-mode `Ctrl-w` from a caret at `o` never crosses a class boundary:
/// it lands at or before the caret; between where it lands and the caret
/// every non-whitespace character has one class, and none of them has
/// whitespace other than line feeds after it before the last of them (the
/// whitespace before the caret is passed first, then a single run); and the
/// run is taken whole: where it lands past the document start, it lands on
/// a character of the run, and the nearest character before it that is not
/// a line feed has another class.
pub proof fn lemma_insert_word_back_stays_in_class(t: Seq<char>, o: int)
    requires
        0 <= o <= t.len(),
    ensures
        ({
            let r = spec_insert_word_back(t, o);
            &&& 0 <= r <= o
            &&& forall|k1: int, k2: int|
                r <= k1 < o && r <= k2 < o && !char_is_whitespace(t[k1]) && !char_is_whitespace(
                    t[k2],
                ) ==> spec_word_class(t[k1], false) == spec_word_class(t[k2], false)
            &&& forall|k1: int, k2: int|
                r <= k1 < k2 < o && !char_is_whitespace(t[k2]) ==> t[k1] == '\n'
                    || !char_is_whitespace(t[k1])
            &&& r > 0 ==> r < o && !char_is_whitespace(t[r])
            &&& forall|p: int|
                0 <= p < r && t[p] != '\n' && (forall|k: int| p < k < r ==> t[k] == '\n')
                    ==> spec_word_class(t[p], false) != spec_word_class(t[r], false)
        }),
{
    assert(char_is_whitespace('\n'));
    lemma_previous_offset_passes_line_feeds(t, o);
    match spec_previous_offset(t, o) {
        None => {},
        Some(c) => {
            lemma_back_skip_blank_passes_whitespace(t, c);
            match back_skip_blank(t, c) {
                None => {},
                Some(c2) => {
                    assert(spec_class_at(t, c2, false) == Some(spec_word_class(t[c2], false)));
                    lemma_back_extend_keeps_class(t, c2);
                },
            }
        },
    }
}

/// Stepping forward from `c` lands on the nearest offset after it that holds
/// no line feed, passing only line feeds; with nothing there, everything
/// after `c` is a line feed.
proof fn lemma_next_offset_passes_line_feeds(t: Seq<char>, c: int)
    requires
        0 <= c < t.len(),
    ensures
        spec_next_offset(t, c) matches Some(n) ==> {
            &&& c < n < t.len()
            &&& t[n] != '\n'
            &&& forall|k: int| c < k < n ==> t[k] == '\n'
        },
        spec_next_offset(t, c) is None ==> forall|k: int| c < k < t.len() ==> t[k] == '\n',
    decreases t.len() - c,
{
    if c + 1 < t.len() && t[c + 1] == '\n' {
        lemma_next_offset_passes_line_feeds(t, c + 1);
    }
}

/// Skipping forward over whitespace from `c` stops on a non-whitespace
/// character with only whitespace from `c` up to it; with nothing there,
/// everything from `c` on is whitespace.
proof fn lemma_forward_skip_blank_passes_whitespace(t: Seq<char>, c: int)
    requires
        0 <= c < t.len(),
    ensures
        forward_skip_blank(t, c) matches Some(c2) ==> {
            &&& c <= c2 < t.len()
            &&& !char_is_whitespace(t[c2])
            &&& forall|k: int| c <= k < c2 ==> char_is_whitespace(t[k])
        },
        forward_skip_blank(t, c) is None ==> forall|k: int|
            c <= k < t.len() ==> char_is_whitespace(t[k]),
    decreases t.len() - c,
{
    assert(char_is_whitespace('\n'));
    if char_is_whitespace(t[c]) {
        lemma_next_offset_passes_line_feeds(t, c);
        if let Some(n) = spec_next_offset(t, c) {
            lemma_forward_skip_blank_passes_whitespace(t, n);
        }
    }
}

/// Extending forward from a non-whitespace character `c` over its class
/// passes only characters of that class and line feeds, and stops where the
/// nearest character after it that is not a line feed has another class.
proof fn lemma_forward_extend_keeps_class(t: Seq<char>, c: int)
    requires
        0 <= c < t.len(),
        !char_is_whitespace(t[c]),
    ensures
        ({
            let class = spec_word_class(t[c], false);
            let e = forward_extend(t, c, class);
            &&& c <= e < t.len()
            &&& !char_is_whitespace(t[e])
            &&& spec_word_class(t[e], false) == class
            &&& forall|k: int|
                c <= k <= e ==> t[k] == '\n' || (!char_is_whitespace(t[k]) && spec_word_class(
                    t[k],
                    false,
                ) == class)
            &&& forall|n: int|
                e < n < t.len() && t[n] != '\n' && (forall|k: int| e < k < n ==> t[k] == '\n')
                    ==> spec_word_class(t[n], false) != class
        }),
    decreases t.len() - c,
{
    assert(char_is_whitespace('\n'));
    let class = spec_word_class(t[c], false);
    lemma_next_offset_passes_line_feeds(t, c);
    match spec_next_offset(t, c) {
        Some(q) => {
            if spec_class_at(t, q, false) == Some(class) {
                assert(spec_word_class(t[q], false) == class);
                assert(!char_is_whitespace(t[q]));
                lemma_forward_extend_keeps_class(t, q);
            } else {
                assert forall|n: int|
                    c < n < t.len() && t[n] != '\n' && (forall|k: int| c < k < n ==> t[k] == '\n')
                        implies spec_word_class(t[n], false) != class by {
                    if n < q {
                        assert(t[n] == '\n');
                    } else if n > q {
                        assert(t[q] == '\n');
                    }
                }
            }
        },
        None => {},
    }
}

/// Insert-mode word-forward from a caret at `o` never crosses a class
/// boundary: inside the document it lands after the caret, and at its end
/// it stays there; between the caret and where it lands every
/// non-whitespace character has one class, with nothing but line feeds
/// between them (the whitespace at the caret is passed first, then a single
/// run); and the run is taken whole: where it lands before the document's
/// end, it lands just past a character of the run, and the nearest
/// character from there on that is not a line feed has another class.
pub proof fn lemma_insert_word_forward_stays_in_class(t: Seq<char>, o: int)
    requires
        0 <= o <= t.len(),
    ensures
        ({
            let r = spec_insert_word_forward(t, o);
            &&& o < t.len() ==> o < r <= t.len()
            &&& o == t.len() ==> r == o
            &&& forall|k1: int, k2: int|
                o <= k1 < r && o <= k2 < r && !char_is_whitespace(t[k1]) && !char_is_whitespace(
                    t[k2],
                ) ==> spec_word_class(t[k1], false) == spec_word_class(t[k2], false)
            &&& forall|k1: int, k2: int|
                o <= k1 < k2 < r && !char_is_whitespace(t[k1]) ==> t[k2] == '\n'
                    || !char_is_whitespace(t[k2])
            &&& o < r < t.len() ==> !char_is_whitespace(t[r - 1])
            &&& forall|n: int|
                o < r <= n < t.len() && #[trigger] t[n] != '\n' && (forall|k: int|
                    r <= k < n ==> t[k] == '\n')
                    ==> spec_word_class(t[n], false) != spec_word_class(t[r - 1], false)
        }),
{
    assert(char_is_whitespace('\n'));
    if o < t.len() {
        lemma_forward_skip_blank_passes_whitespace(t, o);
        match forward_skip_blank(t, o) {
            None => {},
            Some(c) => {
                assert(spec_class_at(t, c, false) == Some(spec_word_class(t[c], false)));
                lemma_forward_extend_keeps_class(t, c);
            },
        }
    }
}

/// Whether `c` is a word character.
pub fn is_word(ch: char) -> (r: bool)
    ensures
        r == spec_is_word(ch),
{
    is_alphanumeric(ch) || ch == '_'
}

/// True when a character occupies exactly one terminal cell.
///
/// A jump label is drawn in place of the character underneath it, so it can
/// only cover characters that are the same width it is.
pub fn is_single_cell(ch: char) -> (r: bool)
    ensures
        r == (char_width(ch) == Some(1usize)),
{
    match display_width(ch) {
        Some(width) => width == 1,
        None => false,
    }
}

/// The word-motion class of `character`.
pub fn word_class(character: char, long: bool) -> (class: u8)
    ensures
        class == spec_word_class(character, long),
{
    if is_whitespace(character) {
        0
    } else if long || is_word(character) {
        1
    } else {
        2
    }
}

/// The next offset a Normal-mode caret can rest on after `offset`.
pub fn next_offset(buffer: &Text, offset: usize) -> (r: Option<usize>)
    ensures
        r is None <==> spec_next_offset(buffer@, offset as int) is None,
        r matches Some(k) ==> spec_next_offset(buffer@, offset as int) == Some(k as int),
        r matches Some(k) ==> offset < k < buffer@.len() && buffer@[k as int] != '\n',
{
    proof {
        lemma_next_offset_above(buffer@, offset as int);
    }
    let len = buffer.len_chars();
    if offset >= len {
        return None;
    }
    let mut candidate = offset;
    while candidate + 1 < len
        invariant
            len == buffer@.len(),
            offset <= candidate < len,
            spec_next_offset(buffer@, offset as int) == spec_next_offset(buffer@, candidate as int),
            forall|k: int| offset < k <= candidate ==> buffer@[k] == '\n',
        decreases len - candidate,
    {
        if buffer.chars[candidate + 1] != '\n' {
            return Some(candidate + 1);
        }
        candidate = candidate + 1;
    }
    None
}

/// The previous offset a Normal-mode caret can rest on before `offset`.
pub fn previous_offset(buffer: &Text, offset: usize) -> (r: Option<usize>)
    ensures
        r is None <==> spec_previous_offset(buffer@, offset as int) is None,
        r matches Some(k) ==> spec_previous_offset(buffer@, offset as int) == Some(k as int),
        r matches Some(k) ==> k < offset && restable(buffer@, k as int),
{
    proof {
        lemma_previous_offset_below(buffer@, offset as int);
    }
    let mut candidate = offset;
    while candidate > 0
        invariant
            candidate <= offset,
            spec_previous_offset(buffer@, offset as int) == spec_previous_offset(
                buffer@,
                candidate as int,
            ),
        decreases candidate,
    {
        if buffer.char_at(candidate - 1) != Some('\n') {
            return Some(candidate - 1);
        }
        candidate = candidate - 1;
    }
    None
}

/// The class at `offset`, hiding line feeds.
pub fn class_at(buffer: &Text, offset: usize, long: bool) -> (r: Option<u8>)
    ensures
        r == spec_class_at(buffer@, offset as int, long),
{
    match buffer.char_at(offset) {
        Some(ch) => {
            if ch != '\n' {
                Some(word_class(ch, long))
            } else {
                None
            }
        },
        None => None,
    }
}

/// Character class for word motion, where a line terminator is whitespace
/// rather than nothing at all.
///
/// `class_at` hides newlines because the Normal-mode cursor cannot rest on
/// one, and the offset walk it pairs with skips them for the same reason.
/// Word motion needs the opposite: a line break has to break a run of word
/// characters, or the last word of a row and the first word of the next row
/// read as one word and `w`, `b`, and `e` all step over the boundary.
pub fn word_class_at(buffer: &Text, offset: usize, long: bool) -> (r: Option<u8>)
    ensures
        r == spec_word_class_at(buffer@, offset as int, long),
        r == (if (offset as int) < buffer@.len() {
            Some(class_of(buffer@, offset as int, long))
        } else {
            None::<u8>
        }),
{
    match buffer.char_at(offset) {
        Some(ch) => Some(word_class(ch, long)),
        None => None,
    }
}

/// Next offset for a word scan, line terminators included.
pub fn word_scan_next(buffer: &Text, offset: usize) -> (r: Option<usize>)
    ensures
        r == (if offset + 1 < buffer@.len() {
            Some((offset + 1) as usize)
        } else {
            None::<usize>
        }),
{
    let len = buffer.len_chars();
    if len > 0 && offset < len - 1 {
        Some(offset + 1)
    } else {
        None
    }
}

/// Previous offset for a word scan, line terminators included.
pub fn word_scan_previous(offset: usize) -> (r: Option<usize>)
    ensures
        r == (if offset > 0 {
            Some((offset - 1) as usize)
        } else {
            None::<usize>
        }),
{
    offset.checked_sub(1)
}

/// Offset of the last character in the document, for Normal-mode motion.
pub fn document_end(buffer: &Text) -> (o: usize)
    requires
        buffer.wf(),
    ensures
        o == spec_document_end(buffer),
        o <= buffer@.len(),
{
    buffer.row_end_offset(buffer.last_row(), false)
}

/// True when `offset` begins a word: it is non-whitespace and the preceding
/// character position has a different class.
pub fn is_word_start(buffer: &Text, offset: usize, long: bool) -> (r: bool)
    ensures
        r == spec_is_word_start(buffer@, offset as int, long),
{
    let Some(class) = word_class_at(buffer, offset, long) else {
        return false;
    };
    if class == 0 {
        return false;
    }
    match word_scan_previous(offset) {
        Some(previous) => word_class_at(buffer, previous, long) != Some(class),
        None => true,
    }
}

/// `w`/`W`: the first word start after `offset`, or the document's last
/// character when no word starts after it.
pub fn word_forward_kind(buffer: &Text, offset: usize, long: bool) -> (r: usize)
    requires
        buffer.wf(),
    ensures
        (exists|j: int| forward_stop(buffer@, offset as int, j, long)) ==> {
            &&& forward_stop(buffer@, offset as int, r as int, long)
            &&& forall|j: int| forward_stop(buffer@, offset as int, j, long) ==> r <= j
        },
        !(exists|j: int| forward_stop(buffer@, offset as int, j, long)) ==> r
            == spec_document_end(buffer),
        r == spec_word_forward(buffer, offset as int, long),
{
    let mut previous_class = word_class_at(buffer, offset, long);
    let mut candidate = offset;
    loop
        invariant
            buffer.wf(),
            offset <= candidate,
            candidate == offset || candidate < buffer@.len(),
            candidate < buffer@.len() ==> previous_class == Some(
                class_of(buffer@, candidate as int, long),
            ),
            forall|j: int|
                offset < j <= candidate ==> !forward_stop(buffer@, offset as int, j, long),
        ensures
            candidate + 1 >= buffer@.len(),
        decreases buffer@.len() - candidate,
    {
        let Some(next) = word_scan_next(buffer, candidate) else {
            break;
        };
        let class = match word_class_at(buffer, next, long) {
            Some(c) => c,
            None => 0,
        };
        if class != 0 && previous_class != Some(class) {
            assert(forward_stop(buffer@, offset as int, next as int, long));
            proof {
                let c = choose|j: int|
                    forward_stop(buffer@, offset as int, j, long) && forall|k: int|
                        forward_stop(buffer@, offset as int, k, long) ==> j <= k;
                assert(c <= next as int && next as int <= c);
            }
            return next;
        }
        previous_class = Some(class);
        candidate = next;
    }
    proof {
        assert forall|j: int| #![auto] forward_stop(buffer@, offset as int, j, long) implies false by {
            assert(j <= candidate);
        }
    }
    document_end(buffer)
}

/// `b`/`B`: the nearest word start before `offset`, or the document start.
pub fn word_back_kind(buffer: &Text, offset: usize, long: bool) -> (r: usize)
    ensures
        (exists|j: int| 0 <= j < offset && spec_is_word_start(buffer@, j, long)) ==> {
            &&& r < offset
            &&& spec_is_word_start(buffer@, r as int, long)
            &&& forall|j: int| r < j < offset ==> !spec_is_word_start(buffer@, j, long)
        },
        !(exists|j: int| 0 <= j < offset && spec_is_word_start(buffer@, j, long)) ==> r == 0,
        r == spec_word_back(buffer@, offset as int, long),
{
    let mut candidate = offset;
    loop
        invariant
            candidate <= offset,
            forall|j: int| candidate <= j < offset ==> !spec_is_word_start(buffer@, j, long),
        ensures
            candidate == 0,
        decreases candidate,
    {
        let Some(previous) = word_scan_previous(candidate) else {
            break;
        };
        if is_word_start(buffer, previous, long) {
            proof {
                let c = choose|j: int|
                    0 <= j < offset && spec_is_word_start(buffer@, j, long) && forall|k: int|
                        j < k < offset ==> !spec_is_word_start(buffer@, k, long);
                if c < previous {
                    assert(!spec_is_word_start(buffer@, previous as int, long));
                }
                if c > previous {
                    assert(!spec_is_word_start(buffer@, c, long));
                }
            }
            return previous;
        }
        candidate = previous;
    }
    0
}

/// `e`/`E`: the first word end after `offset`, or the document's last
/// character when no word ends after it.
pub fn word_end(buffer: &Text, offset: usize, long: bool) -> (r: usize)
    requires
        buffer.wf(),
    ensures
        (exists|j: int| end_stop(buffer@, offset as int, j, long)) ==> {
            &&& end_stop(buffer@, offset as int, r as int, long)
            &&& forall|j: int| end_stop(buffer@, offset as int, j, long) ==> r <= j
        },
        !(exists|j: int| end_stop(buffer@, offset as int, j, long)) ==> r == spec_document_end(
            buffer,
        ),
        r == spec_word_end(buffer, offset as int, long),
{
    let mut candidate = offset;
    loop
        invariant
            buffer.wf(),
            offset <= candidate,
            candidate == offset || candidate < buffer@.len(),
            forall|j: int| offset < j < candidate ==> !end_stop(buffer@, offset as int, j, long),
        decreases buffer@.len() - candidate,
    {
        let class = match word_class_at(buffer, candidate, long) {
            Some(c) => c,
            None => 0,
        };
        if class != 0 && candidate != offset {
            let next_class = match word_scan_next(buffer, candidate) {
                Some(next) => word_class_at(buffer, next, long),
                None => None,
            };
            if next_class != Some(class) {
                assert(end_stop(buffer@, offset as int, candidate as int, long));
                proof {
                    let c = choose|j: int|
                        end_stop(buffer@, offset as int, j, long) && forall|k: int|
                            end_stop(buffer@, offset as int, k, long) ==> j <= k;
                    assert(c <= candidate as int && candidate as int <= c);
                }
                return candidate;
            }
        }
        assert(candidate == offset || !end_stop(buffer@, offset as int, candidate as int, long));
        match word_scan_next(buffer, candidate) {
            Some(next) => candidate = next,
            None => {
                proof {
                    assert forall|j: int| #![auto] end_stop(buffer@, offset as int, j, long) implies false by {
                        assert(j <= candidate);
                    }
                }
                return document_end(buffer);
            },
        }
    }
}

/// A class, with nothing read as whitespace.
fn class_or_blank(class: Option<u8>) -> (c: u8)
    ensures
        c == (match class {
            Some(c) => c,
            None => 0u8,
        }),
{
    match class {
        Some(c) => c,
        None => 0,
    }
}

/// `ge`/`gE`: the end of the previous word.
pub fn word_end_back(buffer: &Text, offset: usize, long: bool) -> (r: usize)
    ensures
        r == spec_word_end_back(buffer@, offset as int, long),
        r <= offset,
{
    let Some(mut candidate) = word_scan_previous(offset) else {
        return 0;
    };
    let ghost t = buffer@;
    let ghost o = offset as int;
    let start_class = word_class_at(buffer, offset, long);
    if let Some(class) = start_class {
        if class != 0 {
            while word_class_at(buffer, candidate, long) == Some(class)
                invariant
                    candidate < offset,
                    (offset as int) < t.len(),
                    t == buffer@,
                    o == offset as int,
                    class == class_of(t, o, long),
                    class != 0,
                    last_not_class(t, o - 1, class, long) == last_not_class(
                        t,
                        candidate as int,
                        class,
                        long,
                    ),
                decreases candidate,
            {
                let Some(previous) = word_scan_previous(candidate) else {
                    assert(last_not_class(t, -1, class, long) == -1);
                    assert(last_not_class(t, 0, class, long) == -1);
                    return 0;
                };
                candidate = previous;
            }
        }
    }
    assert(candidate as int == (if o < t.len() && class_of(t, o, long) != 0 {
        last_not_class(t, o - 1, class_of(t, o, long), long)
    } else {
        o - 1
    }));
    let ghost a = candidate as int;
    assert(spec_word_end_back(t, o, long) == (if last_not_class(t, a, 0, long) < 0 {
        0
    } else {
        last_not_class(t, a, 0, long)
    }));
    while class_or_blank(word_class_at(buffer, candidate, long)) == 0
        invariant
            candidate <= a < offset,
            t == buffer@,
            o == offset as int,
            spec_word_end_back(t, o, long) == (if last_not_class(t, a, 0, long) < 0 {
                0
            } else {
                last_not_class(t, a, 0, long)
            }),
            last_not_class(t, a, 0, long) == last_not_class(t, candidate as int, 0, long),
        decreases candidate,
    {
        let Some(previous) = word_scan_previous(candidate) else {
            assert(last_not_class(t, -1, 0, long) == -1);
            assert(last_not_class(t, 0, 0, long) == -1);
            return 0;
        };
        candidate = previous;
    }
    candidate
}

/// Whether the character at `offset` is whitespace.
fn blank_at(buffer: &Text, offset: usize) -> (b: bool)
    ensures
        b == (offset < buffer@.len() && char_is_whitespace(buffer@[offset as int])),
{
    match buffer.char_at(offset) {
        Some(ch) => is_whitespace(ch),
        None => false,
    }
}

/// Insert-mode word deletion target before `offset`.
pub fn insert_word_back(buffer: &Text, offset: usize) -> (r: usize)
    ensures
        r == spec_insert_word_back(buffer@, offset as int),
{
    let ghost t = buffer@;
    let Some(mut candidate) = previous_offset(buffer, offset) else {
        return 0;
    };
    let ghost first = candidate as int;
    while blank_at(buffer, candidate)
        invariant
            t == buffer@,
            spec_previous_offset(t, offset as int) == Some(first),
            back_skip_blank(t, first) == back_skip_blank(t, candidate as int),
        decreases candidate,
    {
        let Some(previous) = previous_offset(buffer, candidate) else {
            return 0;
        };
        proof {
            lemma_previous_offset_below(t, candidate as int);
        }
        candidate = previous;
    }
    let class = class_or_blank(class_at(buffer, candidate, false));
    let ghost c2 = candidate as int;
    assert(spec_insert_word_back(t, offset as int) == back_extend(t, c2, class));
    loop
        invariant
            t == buffer@,
            spec_insert_word_back(t, offset as int) == back_extend(t, c2, class),
            back_extend(t, c2, class) == back_extend(t, candidate as int, class),
        ensures
            back_extend(t, c2, class) == candidate as int,
        decreases candidate,
    {
        let Some(previous) = previous_offset(buffer, candidate) else {
            break;
        };
        if class_at(buffer, previous, false) != Some(class) {
            break;
        }
        proof {
            lemma_previous_offset_below(t, candidate as int);
        }
        candidate = previous;
    }
    candidate
}

/// Insert-mode word-forward target after `offset`.
pub fn insert_word_forward(buffer: &Text, offset: usize) -> (r: usize)
    ensures
        r == spec_insert_word_forward(buffer@, offset as int),
        r <= buffer@.len(),
{
    let ghost t = buffer@;
    let len = buffer.len_chars();
    if offset >= len {
        return len;
    }
    let mut candidate = offset;
    while blank_at(buffer, candidate)
        invariant
            t == buffer@,
            len == t.len(),
            candidate < len,
            forward_skip_blank(t, offset as int) == forward_skip_blank(t, candidate as int),
        decreases len - candidate,
    {
        let Some(next) = next_offset(buffer, candidate) else {
            return len;
        };
        candidate = next;
    }
    let class = class_or_blank(class_at(buffer, candidate, false));
    let ghost c = candidate as int;
    loop
        invariant
            t == buffer@,
            len == t.len(),
            candidate < len,
            forward_extend(t, c, class) == forward_extend(t, candidate as int, class),
        ensures
            forward_extend(t, c, class) == candidate as int,
            candidate < len,
        decreases len - candidate,
    {
        let Some(next) = next_offset(buffer, candidate) else {
            break;
        };
        if class_at(buffer, next, false) != Some(class) {
            break;
        }
        candidate = next;
    }
    if candidate + 1 < len {
        candidate + 1
    } else {
        len
    }
}

} // verus!
