//! Applying a language server's edits to one document: every edit checked
//! against the text, no two of them touching the same characters, and all
//! of them applied together as one change.

use vstd::prelude::*;

use crate::spans::Change;
use crate::text::Text;

verus! {

/// Why a document's edits were refused.
#[derive(Clone, Copy, Debug, PartialEq, Eq, Structural)]
pub enum EditError {
    /// An edit's range is reversed or runs past the end of the text.
    InvalidRange,
    /// Two edits replace overlapping text, or insert at the same place.
    Overlapping,
    /// The edited text would not fit in memory's address range.
    TooLarge,
}

impl EditError {
    /// The refusal's message for the document at `path`.
    pub fn message(&self, path: &str) -> (s: String)
        ensures
            s@ == path@ + match *self {
                EditError::InvalidRange => " has an invalid language-server edit range"@,
                EditError::Overlapping => " has overlapping language-server edits"@,
                EditError::TooLarge => " would grow too large"@,
            },
    {
        let mut out = crate::strings::chars_of(path);
        match self {
            EditError::InvalidRange => crate::strings::push_str(&mut out, " has an invalid language-server edit range"),
            EditError::Overlapping => crate::strings::push_str(&mut out, " has overlapping language-server edits"),
            EditError::TooLarge => crate::strings::push_str(&mut out, " would grow too large"),
        }
        crate::strings::string_of(&out)
    }
}

/// Whether every edit's range lies within a text of `len` characters.
pub open spec fn ranges_valid(len: int, e: Seq<Change>) -> bool {
    forall|i: int| 0 <= i < e.len() ==> (#[trigger] e[i]).from <= e[i].to <= len
}

/// Whether edits `a` and `b` cannot both apply: their replaced ranges
/// overlap, or both insert at the same place.
pub open spec fn edits_conflict(a: Change, b: Change) -> bool {
    (a.from < b.to && b.from < a.to) || (a.from == a.to && b.from == b.to && a.from == b.from)
}

/// Whether no two edits conflict.
pub open spec fn edits_apart(e: Seq<Change>) -> bool {
    forall|i: int, j: int|
        0 <= i < e.len() && 0 <= j < e.len() && i != j ==> !edits_conflict(#[trigger] e[i], #[trigger] e[j])
}

/// Whether edit `c` inserts at offset `p`.
pub open spec fn inserts_at(c: Change, p: int) -> bool {
    c.from == p && c.to == p
}

/// Whether edit `c` replaces text starting at offset `p`.
pub open spec fn replaces_at(c: Change, p: int) -> bool {
    c.from == p && c.to > p
}

/// Whether edit `c` replaces the character at offset `p`.
pub open spec fn covers(c: Change, p: int) -> bool {
    c.from <= p < c.to
}

/// The text inserted at offset `p`, if an edit inserts there.
pub open spec fn insertion_at(e: Seq<Change>, p: int) -> Seq<char> {
    if exists|i: int| 0 <= i < e.len() && inserts_at(#[trigger] e[i], p) {
        e[choose|i: int| 0 <= i < e.len() && inserts_at(#[trigger] e[i], p)].text@
    } else {
        Seq::empty()
    }
}

/// The text replacing what starts at offset `p`, if an edit replaces there.
pub open spec fn replacement_at(e: Seq<Change>, p: int) -> Seq<char> {
    if exists|i: int| 0 <= i < e.len() && replaces_at(#[trigger] e[i], p) {
        e[choose|i: int| 0 <= i < e.len() && replaces_at(#[trigger] e[i], p)].text@
    } else {
        Seq::empty()
    }
}

/// What the edited text holds for offset `p` of `t`: what is inserted
/// there, then what replaces the text starting there, then the character
/// itself unless an edit replaces it.
pub open spec fn piece(t: Seq<char>, e: Seq<Change>, p: int) -> Seq<char> {
    insertion_at(e, p) + replacement_at(e, p) + if p < t.len() && !(exists|i: int|
        0 <= i < e.len() && covers(#[trigger] e[i], p)) {
        seq![t[p]]
    } else {
        Seq::empty()
    }
}

/// The pieces for the offsets before `n`, in order.
pub open spec fn pieces(t: Seq<char>, e: Seq<Change>, n: int) -> Seq<char>
    decreases n,
{
    if n <= 0 {
        Seq::empty()
    } else {
        pieces(t, e, n - 1) + piece(t, e, n - 1)
    }
}

/// `t` with the edits `e` applied: the pieces of every offset up to and
/// including the end of the text.
pub open spec fn edited(t: Seq<char>, e: Seq<Change>) -> Seq<char> {
    pieces(t, e, t.len() as int + 1)
}

/// An edit that inserts at `p`, if any.
fn find_insertion(e: &Vec<Change>, p: usize) -> (r: Option<usize>)
    ensures
        r matches Some(i) ==> i < e@.len() && inserts_at(e@[i as int], p as int),
        r is None ==> forall|i: int| 0 <= i < e@.len() ==> !inserts_at(#[trigger] e@[i], p as int),
{
    let mut i: usize = 0;
    while i < e.len()
        invariant
            i <= e@.len(),
            forall|k: int| 0 <= k < i ==> !inserts_at(#[trigger] e@[k], p as int),
        decreases e@.len() - i,
    {
        if e[i].from == p && e[i].to == p {
            return Some(i);
        }
        i = i + 1;
    }
    None
}

/// An edit that replaces text starting at `p`, if any.
fn find_replacement(e: &Vec<Change>, p: usize) -> (r: Option<usize>)
    ensures
        r matches Some(i) ==> i < e@.len() && replaces_at(e@[i as int], p as int),
        r is None ==> forall|i: int| 0 <= i < e@.len() ==> !replaces_at(#[trigger] e@[i], p as int),
{
    let mut i: usize = 0;
    while i < e.len()
        invariant
            i <= e@.len(),
            forall|k: int| 0 <= k < i ==> !replaces_at(#[trigger] e@[k], p as int),
        decreases e@.len() - i,
    {
        if e[i].from == p && e[i].to > p {
            return Some(i);
        }
        i = i + 1;
    }
    None
}

/// Whether some edit replaces the character at `p`.
fn is_covered(e: &Vec<Change>, p: usize) -> (b: bool)
    ensures
        b == exists|i: int| 0 <= i < e@.len() && covers(#[trigger] e@[i], p as int),
{
    let mut i: usize = 0;
    while i < e.len()
        invariant
            i <= e@.len(),
            forall|k: int| 0 <= k < i ==> !covers(#[trigger] e@[k], p as int),
        decreases e@.len() - i,
    {
        if e[i].from <= p && p < e[i].to {
            return true;
        }
        i = i + 1;
    }
    false
}

/// Whether every edit's range lies within a text of `len` characters.
fn check_ranges(e: &Vec<Change>, len: usize) -> (b: bool)
    ensures
        b == ranges_valid(len as int, e@),
{
    let mut i: usize = 0;
    while i < e.len()
        invariant
            i <= e@.len(),
            forall|k: int| 0 <= k < i ==> (#[trigger] e@[k]).from <= e@[k].to <= len,
        decreases e@.len() - i,
    {
        if !(e[i].from <= e[i].to && e[i].to <= len) {
            return false;
        }
        i = i + 1;
    }
    true
}

/// Whether edits `a` and `b` cannot both apply.
fn conflict(a: &Change, b: &Change) -> (r: bool)
    ensures
        r == edits_conflict(*a, *b),
{
    (a.from < b.to && b.from < a.to) || (a.from == a.to && b.from == b.to && a.from == b.from)
}

/// Whether no two edits conflict.
fn check_apart(e: &Vec<Change>) -> (b: bool)
    ensures
        b == edits_apart(e@),
{
    let mut i: usize = 0;
    while i < e.len()
        invariant
            i <= e@.len(),
            forall|a: int, c: int|
                0 <= a < i && 0 <= c < e@.len() && a != c ==> !edits_conflict(#[trigger] e@[a], #[trigger] e@[c]),
        decreases e@.len() - i,
    {
        let mut j: usize = 0;
        while j < e.len()
            invariant
                i < e@.len(),
                j <= e@.len(),
                forall|a: int, c: int|
                    0 <= a < i && 0 <= c < e@.len() && a != c ==> !edits_conflict(#[trigger] e@[a], #[trigger] e@[c]),
                forall|c: int| 0 <= c < j && i != c ==> !edits_conflict(e@[i as int], #[trigger] e@[c]),
            decreases e@.len() - j,
        {
            if i != j && conflict(&e[i], &e[j]) {
                assert(!edits_apart(e@)) by {
                    assert(edits_conflict(e@[i as int], e@[j as int]));
                }
                return false;
            }
            j = j + 1;
        }
        i = i + 1;
    }
    true
}

/// With no two edits conflicting, the edit found inserting at `p` is the
/// one `insertion_at` names.
proof fn lemma_insertion_unique(e: Seq<Change>, p: int, i: int)
    requires
        edits_apart(e),
        0 <= i < e.len(),
        inserts_at(e[i], p),
    ensures
        insertion_at(e, p) == e[i].text@,
{
    let k = choose|k: int| 0 <= k < e.len() && inserts_at(#[trigger] e[k], p);
    if k != i {
        assert(edits_conflict(e[k], e[i]));
    }
}

/// With no two edits conflicting, the edit found replacing at `p` is the
/// one `replacement_at` names.
proof fn lemma_replacement_unique(e: Seq<Change>, p: int, i: int)
    requires
        edits_apart(e),
        0 <= i < e.len(),
        replaces_at(e[i], p),
    ensures
        replacement_at(e, p) == e[i].text@,
{
    let k = choose|k: int| 0 <= k < e.len() && replaces_at(#[trigger] e[k], p);
    if k != i {
        assert(edits_conflict(e[k], e[i]));
    }
}

/// Appends `src` to `out`.
fn append(out: &mut Vec<char>, src: &Vec<char>)
    ensures
        final(out)@ == old(out)@ + src@,
{
    let mut k: usize = 0;
    let ghost start = out@;
    while k < src.len()
        invariant
            k <= src@.len(),
            out@ == start + src@.take(k as int),
        decreases src@.len() - k,
    {
        out.push(src[k]);
        assert(src@.take(k + 1) == src@.take(k as int).push(src@[k as int]));
        k = k + 1;
    }
    assert(src@.take(src@.len() as int) == src@);
}

/// Appends the piece of offset `p` to `out`.
fn push_piece(out: &mut Vec<char>, t: &Text, e: &Vec<Change>, p: usize)
    requires
        edits_apart(e@),
        p <= t@.len(),
    ensures
        final(out)@ == old(out)@ + piece(t@, e@, p as int),
{
    let ghost start = out@;
    let ins = find_insertion(e, p);
    if let Some(i) = ins {
        proof {
            lemma_insertion_unique(e@, p as int, i as int);
        }
        append(out, &e[i].text);
    }
    assert(out@ == start + insertion_at(e@, p as int));
    let ghost mid = out@;
    let rep = find_replacement(e, p);
    if let Some(i) = rep {
        proof {
            lemma_replacement_unique(e@, p as int, i as int);
        }
        append(out, &e[i].text);
    }
    assert(out@ == mid + replacement_at(e@, p as int));
    if p < t.len_chars() && !is_covered(e, p) {
        out.push(t.chars[p]);
    }
    assert(out@ == start + piece(t@, e@, p as int));
}

/// Applies a language server's `edits` to `buffer` as one change. Refused,
/// leaving the text as it was, when an edit's range is reversed or runs past
/// the end, when two edits replace overlapping text or insert at the same
/// place, or when the result would not fit; otherwise the text becomes
/// `edited`: each offset's insertion, then its replacement, then its
/// character unless replaced.
pub fn apply_document_edits(buffer: &mut Text, edits: &Vec<Change>) -> (r: Result<(), EditError>)
    requires
        old(buffer).wf(),
    ensures
        !ranges_valid(old(buffer)@.len() as int, edits@) ==> r == Err::<(), EditError>(EditError::InvalidRange)
            && *final(buffer) == *old(buffer),
        ranges_valid(old(buffer)@.len() as int, edits@) && !edits_apart(edits@) ==> r == Err::<
            (),
            EditError,
        >(EditError::Overlapping) && *final(buffer) == *old(buffer),
        ranges_valid(old(buffer)@.len() as int, edits@) && edits_apart(edits@) ==> if edited(
            old(buffer)@,
            edits@,
        ).len() < usize::MAX {
            r is Ok && final(buffer).wf() && final(buffer)@ == edited(old(buffer)@, edits@)
        } else {
            r == Err::<(), EditError>(EditError::TooLarge) && *final(buffer) == *old(buffer)
        },
{
    let n = buffer.len_chars();
    if !check_ranges(edits, n) {
        return Err(EditError::InvalidRange);
    }
    if !check_apart(edits) {
        return Err(EditError::Overlapping);
    }
    let mut out: Vec<char> = Vec::new();
    let mut p: usize = 0;
    while p < n
        invariant
            p <= n == buffer@.len(),
            edits_apart(edits@),
            out@ == pieces(buffer@, edits@, p as int),
        decreases n - p,
    {
        push_piece(&mut out, buffer, edits, p);
        p = p + 1;
    }
    push_piece(&mut out, buffer, edits, n);
    assert(out@ == edited(buffer@, edits@));
    if out.len() == usize::MAX {
        return Err(EditError::TooLarge);
    }
    *buffer = Text::from_chars(out);
    Ok(())
}

/// The pieces of the offsets before `n` for one edit `c`: the text before
/// it, then its new text once `n` passes its start, then the text after its
/// range up to `n`.
proof fn lemma_pieces_single(t: Seq<char>, c: Change, n: int)
    requires
        c.from <= c.to <= t.len(),
        0 <= n <= t.len() + 1,
    ensures
        pieces(t, seq![c], n) == if n <= c.from {
            t.subrange(0, n)
        } else if n <= c.to {
            t.subrange(0, c.from as int) + c.text@
        } else {
            t.subrange(0, c.from as int) + c.text@ + t.subrange(
                c.to as int,
                if n <= t.len() {
                    n
                } else {
                    t.len() as int
                },
            )
        },
    decreases n,
{
    let e = seq![c];
    if n > 0 {
        lemma_pieces_single(t, c, n - 1);
        let p = n - 1;
        assert(e[0] == c);
        if inserts_at(c, p) {
            assert(inserts_at(e[0], p));
            lemma_insertion_unique_single(e, p);
        } else {
            assert(!exists|i: int| 0 <= i < e.len() && inserts_at(#[trigger] e[i], p));
        }
        if replaces_at(c, p) {
            assert(replaces_at(e[0], p));
        } else {
            assert(!exists|i: int| 0 <= i < e.len() && replaces_at(#[trigger] e[i], p));
        }
        if covers(c, p) {
            assert(covers(e[0], p));
        } else {
            assert(!exists|i: int| 0 <= i < e.len() && covers(#[trigger] e[i], p));
        }
        if n <= c.from {
            assert(t.subrange(0, n) == t.subrange(0, p).push(t[p]));
        } else if n <= c.to {
        } else if n <= t.len() {
            assert(t.subrange(c.to as int, n) == t.subrange(c.to as int, p).push(t[p]));
        }
    }
}

proof fn lemma_insertion_unique_single(e: Seq<Change>, p: int)
    requires
        e.len() == 1,
        inserts_at(e[0], p),
    ensures
        insertion_at(e, p) == e[0].text@,
{
}

/// One edit applied alone replaces exactly its range: the text before it,
/// its new text, then the text after it.
pub proof fn lemma_single_edit(t: Seq<char>, c: Change)
    requires
        c.from <= c.to <= t.len(),
    ensures
        edited(t, seq![c]) == t.subrange(0, c.from as int) + c.text@ + t.subrange(c.to as int, t.len() as int),
{
    lemma_pieces_single(t, c, t.len() as int + 1);
    assert(t.subrange(0, t.len() as int) == t);
}

} // verus!
