//! The spans that editing operations act on: the word under a caret, the
//! characters a range covers, whole rows, and the trailing whitespace of rows.

use vstd::prelude::*;
use vstd::relations::{sorted_by, total_ordering};

use crate::movement::{class_at, next_offset, previous_offset, spec_class_at};
use crate::selection::{Range, Selection};
use crate::text::Text;

verus! {

/// Offset `k` holds a character of class `class` on row `row`.
pub open spec fn in_word(t: &Text, k: int, row: int, class: u8) -> bool {
    &&& 0 <= k < t@.len()
    &&& t.is_row_of(k, row)
    &&& spec_class_at(t@, k, false) == Some(class)
}

/// The half-open span an operation on `range` acts on: the range plus the
/// character under its caret, stopping before the row's terminator. An empty
/// range on an empty row takes in the terminator itself, the following one
/// where there is a following row, else the previous row's.
pub open spec fn spec_operative_span(t: &Text, range: Range) -> (int, int) {
    let from = range.spec_from() as int;
    let to = range.spec_to() as int;
    let row = t.row_of(to);
    let row_end = t.row_start(row) + t.row_len(row);
    if range.anchor == range.head && t.row_len(row) == 0 && row + 1 < t.rows() {
        (from, t.row_start(row + 1))
    } else if range.anchor == range.head && t.row_len(row) == 0 && row > 0 {
        (t.row_start(row - 1) + t.row_len(row - 1), from)
    } else {
        let capped = if to + 1 < row_end {
            to + 1
        } else {
            row_end
        };
        (from, if capped > from {
            capped
        } else {
            from
        })
    }
}

/// `from..to` widened to the whole rows it touches: from the start of the
/// row of `from` to the end of the text of the row of its last character,
/// that row's terminator left out.
pub open spec fn spec_whole_line_span(t: &Text, from: int, to: int) -> (int, int) {
    let last = if to > from {
        to - 1
    } else {
        from
    };
    let last_row = t.row_of(last);
    (t.row_start(t.row_of(from)), t.row_start(last_row) + t.row_len(last_row))
}

/// `to`, with a trailing `\n` or `\r\n` inside `from..to` held back.
pub open spec fn spec_without_trailing_line_terminator(t: Seq<char>, from: int, to: int) -> int {
    if to <= from || !(0 <= to - 1 < t.len() && t[to - 1] == '\n') {
        to
    } else if to - 1 > from && t[to - 2] == '\r' {
        to - 2
    } else {
        to - 1
    }
}

/// The bounds of the word under `offset`, confined to one row: the longest
/// run around `offset` of characters of its class on its row, as `start`
/// inclusive and `end` exclusive. Where no class applies (a line feed, or
/// past the end), the empty span at `offset`.
pub fn word_bounds(buffer: &Text, offset: usize) -> (r: (usize, usize))
    requires
        buffer.wf(),
    ensures
        spec_class_at(buffer@, offset as int, false) is None ==> r == (offset, offset),
        spec_class_at(buffer@, offset as int, false) matches Some(class) ==> {
            let row = buffer.row_of(offset as int);
            &&& r.0 <= offset < r.1 <= buffer@.len()
            &&& forall|k: int| r.0 <= k < r.1 ==> in_word(buffer, k, row, class)
            &&& !in_word(buffer, r.0 - 1, row, class)
            &&& !in_word(buffer, r.1 as int, row, class)
        },
{
    let Some(class) = class_at(buffer, offset, false) else {
        return (offset, offset);
    };
    let ghost t = buffer@;
    let row = buffer.offset_to_row(offset);
    proof {
        buffer.lemma_row_of(offset as int);
    }
    let mut start = offset;
    loop
        invariant
            buffer.wf(),
            t == buffer@,
            start <= offset < t.len(),
            row == buffer.row_of(offset as int),
            forall|k: int| start <= k <= offset ==> in_word(buffer, k, row as int, class),
        ensures
            start <= offset,
            forall|k: int| start <= k <= offset ==> in_word(buffer, k, row as int, class),
            !in_word(buffer, start - 1, row as int, class),
        decreases start,
    {
        assert(in_word(buffer, start as int, row as int, class));
        let Some(previous) = previous_offset(buffer, start) else {
            proof {
                if start > 0 {
                    assert(t[start - 1] == '\n');
                }
            }
            break;
        };
        proof {
            buffer.lemma_row_of(previous as int);
        }
        if buffer.offset_to_row(previous) != row || class_at(buffer, previous, false) != Some(class) {
            proof {
                if previous + 1 < start {
                    assert(t[start - 1] == '\n');
                    self::lemma_feed_before_leaves_row(buffer, start as int, row as int);
                } else {
                    assert(previous + 1 == start);
                }
            }
            break;
        }
        proof {
            if previous + 1 < start {
                assert(t[start - 1] == '\n');
                self::lemma_feed_before_leaves_row(buffer, start as int, row as int);
                assert(!buffer.is_row_of(previous as int, row as int));
            }
        }
        start = previous;
    }
    let mut end = offset;
    loop
        invariant
            buffer.wf(),
            t == buffer@,
            start <= offset <= end < t.len(),
            row == buffer.row_of(offset as int),
            forall|k: int| start <= k <= end ==> in_word(buffer, k, row as int, class),
            !in_word(buffer, start - 1, row as int, class),
        ensures
            offset <= end < t.len(),
            forall|k: int| start <= k <= end ==> in_word(buffer, k, row as int, class),
            !in_word(buffer, end + 1, row as int, class),
        decreases t.len() - end,
    {
        assert(in_word(buffer, end as int, row as int, class));
        let Some(next) = next_offset(buffer, end) else {
            proof {
                if end + 1 < t.len() {
                    assert(t[end + 1] == '\n');
                }
            }
            break;
        };
        proof {
            buffer.lemma_row_of(next as int);
        }
        if buffer.offset_to_row(next) != row || class_at(buffer, next, false) != Some(class) {
            proof {
                if next > end + 1 {
                    assert(t[end + 1] == '\n');
                } else {
                    assert(next == end + 1);
                }
            }
            break;
        }
        proof {
            if next > end + 1 {
                assert(t[end + 1] == '\n');
                self::lemma_feed_after_leaves_row(buffer, end as int, row as int, next as int);
            }
        }
        end = next;
    }
    (start, end + 1)
}

/// A line feed just before an offset of row `row` lies before the row.
proof fn lemma_feed_before_leaves_row(t: &Text, start: int, row: int)
    requires
        t.wf(),
        0 < start <= t@.len(),
        t.is_row_of(start, row),
        t.row_len(row) >= 0,
        start <= t.row_end(row),
        t@[start - 1] == '\n',
    ensures
        start == t.row_start(row),
        forall|p: int| p < start - 1 ==> !t.is_row_of(p, row),
{
    if start - 1 >= t.row_start(row) {
        assert(t.starts@[row] <= start - 1 < t.row_end(row));
    }
}

/// A line feed just after an offset of row `row`, skipped over, leaves the
/// row.
proof fn lemma_feed_after_leaves_row(t: &Text, end: int, row: int, next: int)
    requires
        t.wf(),
        0 <= end,
        end + 1 < next <= t@.len(),
        t.is_row_of(end, row),
        t@[end + 1] == '\n',
    ensures
        !t.is_row_of(next, row),
{
    if row + 1 < t.rows() {
        assert(t.starts@[row] <= end + 1);
        if end + 1 < t.row_end(row) {
            assert(t@[end + 1] != '\n');
        }
    } else {
        assert(t.starts@[row] <= end + 1);
        assert(end + 1 < t.row_end(row));
    }
}

/// The half-open span an operation on `range` acts on.
pub fn operative_span(buffer: &Text, range: &Range) -> (r: (usize, usize))
    requires
        buffer.wf(),
        range.spec_to() <= buffer@.len(),
    ensures
        r.0 as int == spec_operative_span(buffer, *range).0,
        r.1 as int == spec_operative_span(buffer, *range).1,
        r.0 <= r.1 <= buffer@.len(),
{
    let from = range.from();
    let to = range.to();
    let row = buffer.offset_to_row(to);
    proof {
        buffer.lemma_row_of(to as int);
        if row > 0 {
            assert(buffer.starts@[row - 1] < buffer.starts@[row as int]);
        }
    }
    if range.is_empty() && buffer.line_len(row) == 0 {
        if row < buffer.last_row() {
            return (from, buffer.line_to_offset(row + 1));
        }
        if row > 0 {
            let previous_end = buffer.line_to_offset(row - 1) + buffer.line_len(row - 1);
            return (previous_end, from);
        }
    }
    let row_end = buffer.line_to_offset(row) + buffer.line_len(row);
    let capped = if to + 1 < row_end {
        to + 1
    } else {
        row_end
    };
    (from, if capped > from {
        capped
    } else {
        from
    })
}

/// `from..to` widened to cover in full every row it touches, and no other.
///
/// The row a span ends *at* is not one it touches: a span stopping at column
/// zero of the following row, which a pointer drag produces, ends on the row
/// before it. Neither is the row after a trailing terminator, which is why the
/// last selected character rather than the span's end decides the final row.
pub fn whole_line_span(buffer: &Text, from: usize, to: usize) -> (r: (usize, usize))
    requires
        buffer.wf(),
        from <= buffer@.len(),
        to <= buffer@.len(),
    ensures
        r.0 as int == spec_whole_line_span(buffer, from as int, to as int).0,
        r.1 as int == spec_whole_line_span(buffer, from as int, to as int).1,
        r.0 <= from,
        r.0 <= r.1 <= buffer@.len(),
        row_bounded(buffer, r),
{
    let last = if to > from {
        to - 1
    } else {
        from
    };
    let first_row = buffer.offset_to_row(from);
    let last_row = buffer.offset_to_row(last);
    proof {
        if first_row > last_row {
            assert(buffer.starts@[last_row + 1] <= buffer.starts@[first_row as int]);
        }
    }
    (buffer.line_to_offset(first_row), buffer.line_to_offset(last_row) + buffer.line_len(last_row))
}

/// `to` with a trailing line terminator held back, keeping it out of a change
/// that would otherwise pull the following row up.
pub fn without_trailing_line_terminator(buffer: &Text, from: usize, to: usize) -> (r: usize)
    ensures
        r == spec_without_trailing_line_terminator(buffer@, from as int, to as int),
        r <= to,
{
    if to <= from || buffer.char_at(to - 1) != Some('\n') {
        return to;
    }
    let to = to - 1;
    if to > from && buffer.char_at(to - 1) == Some('\r') {
        to - 1
    } else {
        to
    }
}

/// Whether a selection represents something the person chose rather than
/// where their cursor happens to sit: several ranges, or a range whose
/// operative span holds two or more characters.
pub fn selection_is_deliberate(buffer: &Text, selection: &Selection) -> (b: bool)
    requires
        buffer.wf(),
        forall|i: int|
            0 <= i < selection.ranges@.len() ==> #[trigger] selection.ranges@[i].spec_to()
                <= buffer@.len(),
    ensures
        b == (selection.ranges@.len() > 1 || exists|i: int|
            0 <= i < selection.ranges@.len() && spec_operative_span(
                buffer,
                #[trigger] selection.ranges@[i],
            ).1 - spec_operative_span(buffer, selection.ranges@[i]).0 >= 2),
{
    if selection.ranges.len() > 1 {
        return true;
    }
    let mut i: usize = 0;
    while i < selection.ranges.len()
        invariant
            buffer.wf(),
            i <= selection.ranges@.len(),
            forall|j: int|
                0 <= j < selection.ranges@.len() ==> #[trigger] selection.ranges@[j].spec_to()
                    <= buffer@.len(),
            forall|j: int|
                0 <= j < i ==> spec_operative_span(buffer, #[trigger] selection.ranges@[j]).1
                    - spec_operative_span(buffer, selection.ranges@[j]).0 < 2,
        decreases selection.ranges@.len() - i,
    {
        let (from, to) = operative_span(buffer, &selection.ranges[i]);
        if to - from >= 2 {
            return true;
        }
        i = i + 1;
    }
    false
}

/// Lexicographic order on spans, as tuples compare.
pub open spec fn span_le(a: (usize, usize), b: (usize, usize)) -> bool {
    a.0 < b.0 || (a.0 == b.0 && a.1 <= b.1)
}

/// Two widened spans belong to one run of rows: they overlap or touch, or
/// nothing but one line terminator (`\n` or `\r\n`) lies between them.
pub open spec fn spans_join(t: Seq<char>, previous_end: int, from: int) -> bool {
    ||| from <= previous_end
    ||| (from == previous_end + 1 && t[previous_end] == '\n')
    ||| (from == previous_end + 2 && t[previous_end] == '\r' && t[previous_end + 1] == '\n')
}

/// Sorted spans folded left to right, each one that joins the last kept span
/// extending it rather than starting another.
pub open spec fn merge_sorted_spans(t: Seq<char>, s: Seq<(usize, usize)>) -> Seq<(usize, usize)>
    decreases s.len(),
{
    if s.len() == 0 {
        Seq::empty()
    } else {
        let m = merge_sorted_spans(t, s.drop_last());
        let (from, to) = s.last();
        if m.len() > 0 && spans_join(t, m.last().1 as int, from as int) {
            let end = if to > m.last().1 {
                to
            } else {
                m.last().1
            };
            m.update(m.len() - 1, (m.last().0, end))
        } else {
            m.push((from, to))
        }
    }
}

/// Every span of `spans` widened to whole rows.
pub open spec fn widened_spans(t: &Text, spans: Seq<(usize, usize)>) -> Seq<(usize, usize)> {
    Seq::new(
        spans.len(),
        |i: int|
            (
                spec_whole_line_span(t, spans[i].0 as int, spans[i].1 as int).0 as usize,
                spec_whole_line_span(t, spans[i].0 as int, spans[i].1 as int).1 as usize,
            ),
    )
}

/// What `merged_line_spans` returns: the widened spans, sorted, then merged.
pub open spec fn spec_merged_line_spans(t: &Text, spans: Seq<(usize, usize)>) -> Seq<
    (usize, usize),
> {
    merge_sorted_spans(t@, widened_spans(t, spans).sort_by(|a: (usize, usize), b: (usize, usize)| span_le(a, b)))
}

/// The span order is a total order.
pub proof fn lemma_span_le_total()
    ensures
        total_ordering(|a: (usize, usize), b: (usize, usize)| span_le(a, b)),
{
}

/// Whether `span` runs from the start of a row to the end of a row's text.
pub open spec fn row_bounded(t: &Text, span: (usize, usize)) -> bool {
    &&& exists|r: int| 0 <= r < t.rows() && span.0 == #[trigger] t.row_start(r)
    &&& exists|r: int| 0 <= r < t.rows() && span.1 == #[trigger] t.row_start(r) + t.row_len(r)
}

/// Merging spans that each run from a row's start to a row's text end gives
/// spans that do too.
pub proof fn lemma_merge_keeps_row_bounds(t: &Text, s: Seq<(usize, usize)>)
    requires
        forall|i: int| 0 <= i < s.len() ==> row_bounded(t, #[trigger] s[i]),
    ensures
        forall|k: int|
            0 <= k < merge_sorted_spans(t@, s).len() ==> row_bounded(t, #[trigger] merge_sorted_spans(t@, s)[k]),
    decreases s.len(),
{
    if s.len() > 0 {
        let d = s.drop_last();
        assert forall|i: int| 0 <= i < d.len() implies row_bounded(t, #[trigger] d[i]) by {
            assert(d[i] == s[i]);
        }
        lemma_merge_keeps_row_bounds(t, d);
        let m = merge_sorted_spans(t@, d);
        assert(row_bounded(t, s[s.len() - 1]));
        let r = merge_sorted_spans(t@, s);
        assert forall|k: int| 0 <= k < r.len() implies row_bounded(t, #[trigger] r[k]) by {
            if k < m.len() && k != m.len() - 1 {
                assert(r[k] == m[k]);
            } else if k < m.len() {
                assert(row_bounded(t, m[k]));
            }
        }
    }
}

/// Whether some span of `m` contains `span`.
pub open spec fn contained_in(m: Seq<(usize, usize)>, span: (usize, usize)) -> bool {
    exists|k: int| 0 <= k < m.len() && (#[trigger] m[k]).0 <= span.0 && span.1 <= m[k].1
}

/// Every span that merging gives starts where one of the merged spans
/// starts.
pub proof fn lemma_merge_starts(t: Seq<char>, s: Seq<(usize, usize)>)
    ensures
        forall|k: int|
            0 <= k < merge_sorted_spans(t, s).len() ==> exists|j: int|
                0 <= j < s.len() && (#[trigger] merge_sorted_spans(t, s)[k]).0 == (#[trigger] s[j]).0,
    decreases s.len(),
{
    if s.len() > 0 {
        let d = s.drop_last();
        lemma_merge_starts(t, d);
        let m = merge_sorted_spans(t, d);
        let r = merge_sorted_spans(t, s);
        assert forall|k: int| 0 <= k < r.len() implies exists|j: int|
            0 <= j < s.len() && (#[trigger] r[k]).0 == (#[trigger] s[j]).0 by {
            if k < m.len() {
                assert(r[k].0 == m[k].0);
                let j = choose|j: int| 0 <= j < d.len() && m[k].0 == (#[trigger] d[j]).0;
                assert(d[j] == s[j]);
            } else {
                assert(r[k] == s[s.len() - 1]);
            }
        }
    }
}

/// Merging sorted spans loses none of them: each lies within one merged
/// span.
#[verifier::rlimit(100)]
pub proof fn lemma_merge_covers(t: Seq<char>, s: Seq<(usize, usize)>)
    requires
        sorted_by(s, |a: (usize, usize), b: (usize, usize)| span_le(a, b)),
    ensures
        forall|i: int| 0 <= i < s.len() ==> contained_in(merge_sorted_spans(t, s), #[trigger] s[i]),
    decreases s.len(),
{
    if s.len() > 0 {
        let leq = |a: (usize, usize), b: (usize, usize)| span_le(a, b);
        let d = s.drop_last();
        assert(sorted_by(d, leq)) by {
            assert forall|i: int, j: int| 0 <= i < j < d.len() implies leq(
                #[trigger] d[i],
                #[trigger] d[j],
            ) by {
                assert(leq(s[i], s[j]));
            }
        }
        lemma_merge_covers(t, d);
        lemma_merge_starts(t, d);
        let m = merge_sorted_spans(t, d);
        let n = s.len() - 1;
        let last = s[n];
        let r = merge_sorted_spans(t, s);
        if m.len() > 0 && spans_join(t, m.last().1 as int, last.0 as int) {
            let q = m.len() - 1;
            let end = if last.1 > m.last().1 { last.1 } else { m.last().1 };
            assert(r == m.update(q, (m[q].0, end)));
            let j0 = choose|j: int| 0 <= j < d.len() && (#[trigger] m[q]).0 == (#[trigger] d[j]).0;
            assert(d[j0] == s[j0]);
            assert(leq(s[j0], s[n]));
            assert forall|i: int| 0 <= i < s.len() implies contained_in(r, #[trigger] s[i]) by {
                if i < n {
                    assert(d[i] == s[i]);
                    assert(contained_in(m, d[i]));
                    let k = choose|k: int| 0 <= k < m.len() && (#[trigger] m[k]).0 <= d[i].0 && d[i].1 <= m[k].1;
                    assert(r[k].0 <= s[i].0 && s[i].1 <= r[k].1);
                } else {
                    assert(r[q].0 <= s[i].0 && s[i].1 <= r[q].1);
                }
            }
        } else {
            assert(r == m.push(last));
            assert forall|i: int| 0 <= i < s.len() implies contained_in(r, #[trigger] s[i]) by {
                if i < n {
                    assert(d[i] == s[i]);
                    assert(contained_in(m, d[i]));
                    let k = choose|k: int| 0 <= k < m.len() && (#[trigger] m[k]).0 <= d[i].0 && d[i].1 <= m[k].1;
                    assert(r[k] == m[k]);
                } else {
                    assert(r[m.len() as int] == s[i]);
                }
            }
        }
    }
}

/// Every span given to `merged_line_spans`, widened to whole rows, lies
/// within one of the spans it returns: no row a span touches is left out.
pub proof fn lemma_merged_line_spans_cover(t: &Text, spans: Seq<(usize, usize)>)
    ensures
        forall|i: int|
            0 <= i < spans.len() ==> contained_in(
                spec_merged_line_spans(t, spans),
                #[trigger] widened_spans(t, spans)[i],
            ),
{
    let leq = |a: (usize, usize), b: (usize, usize)| span_le(a, b);
    let w = widened_spans(t, spans);
    let sorted = w.sort_by(leq);
    lemma_span_le_total();
    w.lemma_sort_by_ensures(leq);
    lemma_merge_covers(t@, sorted);
    assert forall|i: int| 0 <= i < spans.len() implies contained_in(
        spec_merged_line_spans(t, spans),
        #[trigger] w[i],
    ) by {
        assert(w.to_multiset().count(w[i]) > 0) by {
            broadcast use vstd::seq_lib::group_to_multiset_ensures;
        }
        assert(sorted.to_multiset().count(w[i]) > 0);
        broadcast use vstd::seq_lib::group_to_multiset_ensures;
        let j = choose|j: int| 0 <= j < sorted.len() && sorted[j] == w[i];
        assert(contained_in(merge_sorted_spans(t@, sorted), sorted[j]));
    }
}

/// Merging sorted spans leaves spans in order, each ending before the next
/// starts with more than one line terminator between them: no two merged
/// spans overlap, touch, or run on across a single line break.
pub proof fn lemma_merged_spans_separated(t: Seq<char>, s: Seq<(usize, usize)>)
    requires
        sorted_by(s, |a: (usize, usize), b: (usize, usize)| span_le(a, b)),
        forall|i: int| 0 <= i < s.len() ==> (#[trigger] s[i]).0 <= s[i].1,
    ensures
        ({
            let m = merge_sorted_spans(t, s);
            &&& forall|i: int| 0 <= i < m.len() ==> (#[trigger] m[i]).0 <= m[i].1
            &&& forall|i: int|
                0 <= i < m.len() - 1 ==> (#[trigger] m[i]).1 < m[i + 1].0 && !spans_join(
                    t,
                    m[i].1 as int,
                    m[i + 1].0 as int,
                )
            &&& s.len() > 0 ==> m.len() > 0 && m.last().0 <= s.last().0
        }),
    decreases s.len(),
{
    let leq = |a: (usize, usize), b: (usize, usize)| span_le(a, b);
    if s.len() > 0 {
        let rest = s.drop_last();
        assert(sorted_by(rest, leq)) by {
            assert forall|i: int, j: int| 0 <= i < j < rest.len() implies leq(
                #[trigger] rest[i],
                #[trigger] rest[j],
            ) by {
                assert(leq(s[i], s[j]));
            }
        }
        lemma_merged_spans_separated(t, rest);
        let m = merge_sorted_spans(t, rest);
        if rest.len() > 0 {
            assert(span_le(rest.last(), s.last())) by {
                assert(leq(s[rest.len() - 1], s[s.len() - 1]));
            }
        }
    }
}

/// `v` sorted by `span_le`, as a permutation of itself.
fn sort_spans(v: Vec<(usize, usize)>) -> (r: Vec<(usize, usize)>)
    ensures
        r@.to_multiset() == v@.to_multiset(),
        sorted_by(r@, |a: (usize, usize), b: (usize, usize)| span_le(a, b)),
{
    let mut sorted: Vec<(usize, usize)> = Vec::new();
    let mut i: usize = 0;
    assert(sorted@ =~= v@.take(0));
    while i < v.len()
        invariant
            i <= v@.len(),
            sorted@.to_multiset() == v@.take(i as int).to_multiset(),
            forall|a: int, b: int|
                0 <= a < b < sorted@.len() ==> span_le(#[trigger] sorted@[a], #[trigger] sorted@[b]),
        decreases v@.len() - i,
    {
        let x = v[i];
        let mut p: usize = 0;
        while p < sorted.len() && (sorted[p].0 < x.0 || (sorted[p].0 == x.0 && sorted[p].1 <= x.1))
            invariant
                p <= sorted@.len(),
                forall|a: int| 0 <= a < p ==> span_le(#[trigger] sorted@[a], x),
            decreases sorted@.len() - p,
        {
            p = p + 1;
        }
        let ghost before = sorted@;
        sorted.insert(p, x);
        proof {
            assert(v@.take(i + 1) == v@.take(i as int).push(x));
            assert(sorted@ == before.insert(p as int, x));
            vstd::seq_lib::to_multiset_insert(before, p as int, x);
            vstd::seq_lib::to_multiset_build(v@.take(i as int), x);
            assert(v@.take(i as int).push(x).to_multiset() == v@.take(i as int).to_multiset().insert(
                x,
            ));
            assert forall|a: int, b: int|
                0 <= a < b < sorted@.len() implies span_le(#[trigger] sorted@[a], #[trigger] sorted@[b]) by {
                if p < before.len() {
                    assert(!span_le(before[p as int], x));
                }
                if a < p && b > p {
                    assert(span_le(before[a], x));
                    assert(span_le(before[p as int], before[b - 1]));
                } else if a == p && b > p {
                    assert(span_le(before[p as int], before[b - 1]));
                }
            }
        }
        i = i + 1;
    }
    assert(v@.take(v@.len() as int) == v@);
    sorted
}

/// `spans` widened to whole rows, with those that then cover one run of rows
/// folded into a single span.
///
/// Two selections sitting on different columns of one row do not overlap until
/// they are widened, and a change overlapping an earlier one in a transaction
/// is dropped, so leaving them apart would skip rows. Spans divided by nothing
/// but a single line terminator are folded too: their rows are consecutive and
/// every one of them is selected. A wider gap holds a row nobody selected,
/// which keeps the two spans apart.
pub fn merged_line_spans(buffer: &Text, spans: Vec<(usize, usize)>) -> (r: Vec<(usize, usize)>)
    requires
        buffer.wf(),
        forall|i: int|
            0 <= i < spans@.len() ==> (#[trigger] spans@[i]).0 <= buffer@.len() && spans@[i].1
                <= buffer@.len(),
    ensures
        r@ == spec_merged_line_spans(buffer, spans@),
        forall|i: int| 0 <= i < r@.len() ==> (#[trigger] r@[i]).0 <= r@[i].1 <= buffer@.len(),
        forall|i: int| 0 <= i < r@.len() ==> row_bounded(buffer, #[trigger] r@[i]),
        forall|i: int|
            0 <= i < r@.len() - 1 ==> (#[trigger] r@[i]).1 < r@[i + 1].0 && !spans_join(
                buffer@,
                r@[i].1 as int,
                r@[i + 1].0 as int,
            ),
{
    let ghost t = buffer@;
    let ghost leq = |a: (usize, usize), b: (usize, usize)| span_le(a, b);
    let mut widened: Vec<(usize, usize)> = Vec::new();
    let mut i: usize = 0;
    while i < spans.len()
        invariant
            buffer.wf(),
            i <= spans@.len(),
            forall|k: int|
                0 <= k < spans@.len() ==> (#[trigger] spans@[k]).0 <= buffer@.len() && spans@[k].1
                    <= buffer@.len(),
            widened@ == widened_spans(buffer, spans@).take(i as int),
            forall|k: int|
                0 <= k < widened@.len() ==> (#[trigger] widened@[k]).0 <= widened@[k].1
                    <= buffer@.len(),
            forall|k: int| 0 <= k < widened@.len() ==> row_bounded(buffer, #[trigger] widened@[k]),
        decreases spans@.len() - i,
    {
        let (from, to) = spans[i];
        let w = whole_line_span(buffer, from, to);
        widened.push(w);
        i = i + 1;
    }
    assert(widened@ == widened_spans(buffer, spans@));
    let ghost all = widened@;
    let sorted = sort_spans(widened);
    proof {
        lemma_span_le_total();
        all.lemma_sort_by_ensures(leq);
        vstd::seq_lib::lemma_sorted_unique(sorted@, all.sort_by(leq), leq);
        assert forall|k: int| 0 <= k < sorted@.len() implies (#[trigger] sorted@[k]).0
            <= sorted@[k].1 <= t.len() by {
            assert(sorted@.to_multiset().count(sorted@[k]) > 0) by {
                broadcast use vstd::seq_lib::group_to_multiset_ensures;
            }
            assert(all.to_multiset().count(sorted@[k]) > 0);
            broadcast use vstd::seq_lib::group_to_multiset_ensures;
            let j = choose|j: int| 0 <= j < all.len() && all[j] == sorted@[k];
        }
        assert forall|k: int| 0 <= k < sorted@.len() implies row_bounded(buffer, #[trigger] sorted@[k]) by {
            assert(sorted@.to_multiset().count(sorted@[k]) > 0) by {
                broadcast use vstd::seq_lib::group_to_multiset_ensures;
            }
            assert(all.to_multiset().count(sorted@[k]) > 0);
            broadcast use vstd::seq_lib::group_to_multiset_ensures;
            let j = choose|j: int| 0 <= j < all.len() && all[j] == sorted@[k];
            assert(row_bounded(buffer, all[j]));
        }
    }
    let mut merged: Vec<(usize, usize)> = Vec::new();
    let mut j: usize = 0;
    while j < sorted.len()
        invariant
            buffer.wf(),
            t == buffer@,
            j <= sorted@.len(),
            forall|k: int|
                0 <= k < sorted@.len() ==> (#[trigger] sorted@[k]).0 <= sorted@[k].1 <= t.len(),
            merged@ == merge_sorted_spans(t, sorted@.take(j as int)),
            forall|k: int| 0 <= k < merged@.len() ==> (#[trigger] merged@[k]).1 <= t.len(),
        decreases sorted@.len() - j,
    {
        let (from, to) = sorted[j];
        proof {
            assert(sorted@.take(j + 1).drop_last() == sorted@.take(j as int));
        }
        let n = merged.len();
        let mut joined = false;
        if n > 0 {
            let (first, end) = merged[n - 1];
            let touches = if from <= end {
                true
            } else if from == end + 1 {
                buffer.char_at(end) == Some('\n')
            } else if from == end + 2 {
                buffer.char_at(end) == Some('\r') && buffer.char_at(end + 1) == Some('\n')
            } else {
                false
            };
            if touches {
                let new_end = if to > end {
                    to
                } else {
                    end
                };
                merged.set(n - 1, (first, new_end));
                joined = true;
            }
        }
        if !joined {
            merged.push((from, to));
        }
        j = j + 1;
    }
    assert(sorted@.take(sorted@.len() as int) == sorted@);
    proof {
        lemma_merged_spans_separated(t, sorted@);
        lemma_merge_keeps_row_bounds(buffer, sorted@);
    }
    merged
}

/// Length of `line` once trailing spaces and tabs are removed.
pub open spec fn trimmed_len(line: Seq<char>) -> int
    decreases line.len(),
{
    if line.len() > 0 && (line.last() == ' ' || line.last() == '\t') {
        trimmed_len(line.drop_last())
    } else {
        line.len() as int
    }
}

/// A replacement of `from..to` by `text`.
#[derive(Clone, Debug)]
pub struct Change {
    pub from: usize,
    pub to: usize,
    pub text: Vec<char>,
}

/// The spans of trailing spaces and tabs on each of `rows` that has any, in
/// the order of `rows`.
pub open spec fn spec_trailing_whitespace(t: &Text, rows: Seq<usize>) -> Seq<(int, int)>
    decreases rows.len(),
{
    if rows.len() == 0 {
        Seq::empty()
    } else {
        let before = spec_trailing_whitespace(t, rows.drop_last());
        let row = rows.last() as int;
        let line = t@.subrange(t.row_start(row), t.row_end(row));
        if trimmed_len(line) < line.len() {
            before.push((t.row_start(row) + trimmed_len(line), t.row_start(row) + line.len()))
        } else {
            before
        }
    }
}

proof fn lemma_trimmed_len_bounds(line: Seq<char>)
    ensures
        0 <= trimmed_len(line) <= line.len(),
    decreases line.len(),
{
    if line.len() > 0 && (line.last() == ' ' || line.last() == '\t') {
        lemma_trimmed_len_bounds(line.drop_last());
    }
}

/// The length `line` keeps once its trailing spaces and tabs are removed.
fn trim_end_len(line: &Vec<char>) -> (n: usize)
    ensures
        n == trimmed_len(line@),
{
    let mut n: usize = line.len();
    assert(line@.take(n as int) =~= line@);
    loop
        invariant
            n <= line@.len(),
            trimmed_len(line@) == trimmed_len(line@.take(n as int)),
        ensures
            n <= line@.len(),
            trimmed_len(line@) == n,
        decreases n,
    {
        if n == 0 {
            break;
        }
        let c = line[n - 1];
        let ghost prefix = line@.take(n as int);
        assert(prefix.last() == c);
        if c != ' ' && c != '\t' {
            break;
        }
        assert(prefix.drop_last() =~= line@.take(n - 1));
        n = n - 1;
    }
    assert(line@.take(line@.len() as int) == line@);
    n
}

/// Changes that strip trailing spaces and tabs from each of `rows`.
///
/// Shared by the save-time trim and the `_` command so the two cannot disagree
/// about what counts as trailing whitespace. Rows must be unique: two changes
/// covering one line would overlap inside a single transaction.
pub fn trailing_whitespace_changes(buffer: &Text, rows: &Vec<usize>) -> (r: Vec<Change>)
    requires
        buffer.wf(),
        forall|i: int| 0 <= i < rows@.len() ==> #[trigger] rows@[i] < buffer.rows(),
    ensures
        r@.len() == spec_trailing_whitespace(buffer, rows@).len(),
        forall|i: int|
            0 <= i < r@.len() ==> {
                &&& (#[trigger] r@[i]).from == spec_trailing_whitespace(buffer, rows@)[i].0
                &&& r@[i].to == spec_trailing_whitespace(buffer, rows@)[i].1
                &&& r@[i].text@.len() == 0
            },
{
    let mut changes: Vec<Change> = Vec::new();
    let mut i: usize = 0;
    while i < rows.len()
        invariant
            buffer.wf(),
            i <= rows@.len(),
            forall|k: int| 0 <= k < rows@.len() ==> #[trigger] rows@[k] < buffer.rows(),
            changes@.len() == spec_trailing_whitespace(buffer, rows@.take(i as int)).len(),
            forall|k: int|
                0 <= k < changes@.len() ==> {
                    &&& (#[trigger] changes@[k]).from == spec_trailing_whitespace(
                        buffer,
                        rows@.take(i as int),
                    )[k].0
                    &&& changes@[k].to == spec_trailing_whitespace(buffer, rows@.take(i as int))[k].1
                    &&& changes@[k].text@.len() == 0
                },
        decreases rows@.len() - i,
    {
        let row = rows[i];
        proof {
            assert(rows@.take(i + 1).drop_last() == rows@.take(i as int));
        }
        let line = buffer.line_string(row);
        let trimmed = trim_end_len(&line);
        let line_len = line.len();
        proof {
            lemma_trimmed_len_bounds(line@);
        }
        if trimmed < line_len {
            let start = buffer.line_to_offset(row);
            changes.push(Change { from: start + trimmed, to: start + line_len, text: Vec::new() });
        }
        i = i + 1;
    }
    assert(rows@.take(rows@.len() as int) == rows@);
    changes
}

} // verus!
