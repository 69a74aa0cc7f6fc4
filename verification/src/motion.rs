//! Caret motions: where each motion takes a caret at a given offset.

use vstd::prelude::*;

use crate::chars::{char_is_whitespace, is_whitespace};
use crate::movement::{
    document_end, spec_document_end, spec_word_back, spec_word_end, spec_word_end_back,
    spec_word_forward, word_back_kind, word_end, word_end_back, word_forward_kind,
};
use crate::text::{Position, Text};

verus! {

/// A caret motion.
#[derive(Clone, Copy, Debug, PartialEq, Eq, Structural)]
pub enum Motion {
    Left,
    Right,
    Up,
    Down,
    LineStart,
    LineEnd,
    FileStart,
    FileEnd,
    WordForward,
    WordBack,
    WordEnd,
    WordEndBack,
    LongWordForward,
    LongWordBack,
    LongWordEnd,
    LongWordEndBack,
    NextParagraph,
    PreviousParagraph,
    FirstNonWhitespace,
    LastNonWhitespace,
    PageUp,
    PageDown,
    HalfPageUp,
    HalfPageDown,
    WindowTop,
    WindowCenter,
    WindowBottom,
}

/// The first row at or after `r` that is empty (or the row count).
pub open spec fn skip_filled_rows(t: &Text, r: int) -> int
    decreases t.rows() - r,
{
    if 0 <= r < t.rows() && t.row_len(r) > 0 {
        skip_filled_rows(t, r + 1)
    } else {
        r
    }
}

/// The first row at or after `r` that is not empty (or the row count).
pub open spec fn skip_blank_rows(t: &Text, r: int) -> int
    decreases t.rows() - r,
{
    if 0 <= r < t.rows() && t.row_len(r) == 0 {
        skip_blank_rows(t, r + 1)
    } else {
        r
    }
}

/// `}`: the start of the first non-empty row after the next run of empty
/// rows, or the document's last character when there is none.
pub open spec fn spec_next_paragraph(t: &Text, o: int) -> int {
    let r = skip_blank_rows(t, skip_filled_rows(t, t.row_of(o)));
    if r < t.rows() {
        t.row_start(r)
    } else {
        spec_document_end(t)
    }
}

/// Going up from `r` while the row is empty, stopping at row zero.
pub open spec fn back_over_blank_rows(t: &Text, r: int) -> int
    decreases r,
{
    if r > 0 && t.row_len(r) == 0 {
        back_over_blank_rows(t, r - 1)
    } else {
        r
    }
}

/// Going up from `r` while the row above is not empty, stopping at row zero.
pub open spec fn back_over_filled_rows(t: &Text, r: int) -> int
    decreases r,
{
    if r > 0 && t.row_len(r - 1) > 0 {
        back_over_filled_rows(t, r - 1)
    } else {
        r
    }
}

/// `{`: the start of the caret's row when the caret is inside a non-empty
/// row past its first column; otherwise the first row of the previous
/// paragraph.
pub open spec fn spec_previous_paragraph(t: &Text, o: int) -> int {
    let row = t.row_of(o);
    let col = o - t.row_start(row);
    if t.row_len(row) > 0 && col > 0 {
        t.row_start(row)
    } else if row == 0 {
        0
    } else {
        t.row_start(back_over_filled_rows(t, back_over_blank_rows(t, row - 1)))
    }
}

/// Column of the first non-whitespace character of `line` at or after `i`,
/// or zero when there is none.
pub open spec fn first_non_blank_from(line: Seq<char>, i: int) -> int
    decreases line.len() - i,
{
    if i < 0 || i >= line.len() {
        0
    } else if !char_is_whitespace(line[i]) {
        i
    } else {
        first_non_blank_from(line, i + 1)
    }
}

/// Column of the last non-whitespace character among the first `n` of
/// `line`, or zero when there is none.
pub open spec fn last_non_blank_before(line: Seq<char>, n: int) -> int
    decreases n,
{
    if n <= 0 {
        0
    } else if !char_is_whitespace(line[n - 1]) {
        n - 1
    } else {
        last_non_blank_before(line, n - 1)
    }
}

/// The characters of row `r`.
pub open spec fn row_chars(t: &Text, r: int) -> Seq<char> {
    t@.subrange(t.row_start(r), t.row_end(r))
}

/// The caret kept on its column, moved to `row` (capped at the last row),
/// and drawn back onto that row's last character.
pub open spec fn spec_on_row(t: &Text, p: Position, row: int) -> int {
    let r = if row < t.rows() - 1 {
        row
    } else {
        t.rows() - 1
    };
    let col = if (p.col as int) < t.row_len(r) {
        p.col as int
    } else {
        t.row_len(r)
    };
    t.clamped(t.row_start(r) + col, false)
}

/// `a - b`, or zero when `b` is larger.
pub open spec fn saturating_sub(a: int, b: int) -> int {
    if a > b {
        a - b
    } else {
        0
    }
}

/// Half a page: half the viewport, at least one row.
pub open spec fn half_page(viewport_height: int) -> int {
    if viewport_height / 2 > 1 {
        viewport_height / 2
    } else {
        1
    }
}

/// Where `motion` takes a caret at offset `o`, for a viewport of
/// `viewport_height` rows scrolled to `scroll_row`.
pub open spec fn spec_move_offset(
    t: &Text,
    o: int,
    motion: Motion,
    viewport_height: int,
    scroll_row: int,
) -> int {
    let row = t.row_of(o);
    let p = Position { row: row as usize, col: (o - t.row_start(row)) as usize };
    let last = t.rows() - 1;
    match motion {
        Motion::Left => {
            if p.col > 0 {
                o - 1
            } else if row > 0 {
                if t.row_len(row - 1) == 0 {
                    t.row_start(row - 1)
                } else {
                    t.row_end(row - 1) - 1
                }
            } else {
                o
            }
        },
        Motion::Right => {
            if p.col + 1 < t.row_len(row) {
                o + 1
            } else if row < last {
                t.row_start(row + 1)
            } else {
                o
            }
        },
        Motion::Up => spec_on_row(t, p, saturating_sub(row, 1)),
        Motion::Down => spec_on_row(t, p, row + 1),
        Motion::LineStart => t.row_start(row),
        Motion::LineEnd => if t.row_len(row) == 0 {
            t.row_start(row)
        } else {
            t.row_end(row) - 1
        },
        Motion::FileStart => 0,
        Motion::FileEnd => spec_document_end(t),
        Motion::WordForward => spec_word_forward(t, o, false),
        Motion::WordBack => spec_word_back(t@, o, false),
        Motion::WordEnd => spec_word_end(t, o, false),
        Motion::WordEndBack => spec_word_end_back(t@, o, false),
        Motion::LongWordForward => spec_word_forward(t, o, true),
        Motion::LongWordBack => spec_word_back(t@, o, true),
        Motion::LongWordEnd => spec_word_end(t, o, true),
        Motion::LongWordEndBack => spec_word_end_back(t@, o, true),
        Motion::NextParagraph => spec_next_paragraph(t, o),
        Motion::PreviousParagraph => spec_previous_paragraph(t, o),
        Motion::FirstNonWhitespace => t.clamped(
            t.row_start(row) + first_non_blank_from(row_chars(t, row), 0),
            false,
        ),
        Motion::LastNonWhitespace => t.clamped(
            t.row_start(row) + last_non_blank_before(row_chars(t, row), t.row_len(row)),
            false,
        ),
        Motion::PageUp => spec_on_row(t, p, saturating_sub(row, viewport_height)),
        Motion::PageDown => spec_on_row(t, p, row + viewport_height),
        Motion::HalfPageUp => spec_on_row(t, p, saturating_sub(row, half_page(viewport_height))),
        Motion::HalfPageDown => spec_on_row(t, p, row + half_page(viewport_height)),
        Motion::WindowTop => spec_on_row(t, p, scroll_row),
        Motion::WindowCenter => spec_on_row(t, p, scroll_row + viewport_height / 2),
        Motion::WindowBottom => spec_on_row(t, p, scroll_row + saturating_sub(viewport_height, 1)),
    }
}

/// What a motion's row arithmetic needs to stay within `usize`.
pub open spec fn motion_fits(t: &Text, motion: Motion, viewport_height: int, scroll_row: int) -> bool {
    &&& (motion is PageDown || motion is HalfPageDown) ==> t.rows() + viewport_height <= usize::MAX
    &&& (motion is WindowCenter || motion is WindowBottom) ==> scroll_row + viewport_height
        <= usize::MAX
}

/// `}`: forward to the next paragraph.
pub fn next_paragraph(buffer: &Text, offset: usize) -> (r: usize)
    requires
        buffer.wf(),
        offset <= buffer@.len(),
    ensures
        r == spec_next_paragraph(buffer, offset as int),
        r <= buffer@.len(),
{
    let mut row = buffer.offset_to_row(offset);
    let last_row = buffer.last_row();
    proof {
        buffer.lemma_rows_bound();
    }
    let ghost start = row as int;
    while row <= last_row && buffer.line_len(row) > 0
        invariant
            buffer.wf(),
            buffer.rows() <= buffer@.len() + 1,
            last_row == buffer.rows() - 1,
            start <= row <= buffer.rows(),
            skip_filled_rows(buffer, start) == skip_filled_rows(buffer, row as int),
        decreases buffer.rows() - row,
    {
        row = row + 1;
    }
    let ghost middle = row as int;
    while row <= last_row && buffer.line_len(row) == 0
        invariant
            buffer.wf(),
            buffer.rows() <= buffer@.len() + 1,
            last_row == buffer.rows() - 1,
            middle <= row <= buffer.rows(),
            skip_filled_rows(buffer, start) == middle,
            skip_blank_rows(buffer, middle) == skip_blank_rows(buffer, row as int),
        decreases buffer.rows() - row,
    {
        row = row + 1;
    }
    if row <= last_row {
        buffer.line_to_offset(row)
    } else {
        document_end(buffer)
    }
}

/// `{`: back to the previous paragraph.
pub fn previous_paragraph(buffer: &Text, offset: usize) -> (r: usize)
    requires
        buffer.wf(),
        offset <= buffer@.len(),
    ensures
        r == spec_previous_paragraph(buffer, offset as int),
        r <= buffer@.len(),
{
    let position = buffer.position_of(offset);
    if buffer.line_len(position.row) > 0 && position.col > 0 {
        return buffer.line_to_offset(position.row);
    }
    let mut row = position.row;
    if row == 0 {
        return 0;
    }
    row = row - 1;
    let ghost first = row as int;
    while row > 0 && buffer.line_len(row) == 0
        invariant
            buffer.wf(),
            row <= first < buffer.rows(),
            back_over_blank_rows(buffer, first) == back_over_blank_rows(buffer, row as int),
        decreases row,
    {
        row = row - 1;
    }
    let ghost second = row as int;
    while row > 0 && buffer.line_len(row - 1) > 0
        invariant
            buffer.wf(),
            row <= second < buffer.rows(),
            back_over_blank_rows(buffer, first) == second,
            back_over_filled_rows(buffer, second) == back_over_filled_rows(buffer, row as int),
        decreases row,
    {
        row = row - 1;
    }
    buffer.line_to_offset(row)
}

/// The caret of `position` moved to `row`, keeping its column where the row
/// is long enough.
fn on_row(buffer: &Text, position: Position, row: usize) -> (o: usize)
    requires
        buffer.wf(),
    ensures
        o == spec_on_row(buffer, position, row as int),
        o <= buffer@.len(),
{
    let last_row = buffer.last_row();
    let row = if row < last_row {
        row
    } else {
        last_row
    };
    let len = buffer.line_len(row);
    let col = if position.col < len {
        position.col
    } else {
        len
    };
    buffer.clamp_offset(buffer.line_to_offset(row) + col, false)
}

/// Column of the first non-whitespace character of `line`, or zero.
fn first_non_blank(line: &Vec<char>) -> (c: usize)
    ensures
        c == first_non_blank_from(line@, 0),
        c <= line@.len(),
{
    let mut i: usize = 0;
    while i < line.len()
        invariant
            i <= line@.len(),
            first_non_blank_from(line@, 0) == first_non_blank_from(line@, i as int),
        decreases line@.len() - i,
    {
        if !is_whitespace(line[i]) {
            return i;
        }
        i = i + 1;
    }
    0
}

/// Column of the last non-whitespace character of `line`, or zero.
fn last_non_blank(line: &Vec<char>) -> (c: usize)
    ensures
        c == last_non_blank_before(line@, line@.len() as int),
        c <= line@.len(),
{
    let mut n: usize = line.len();
    while n > 0
        invariant
            n <= line@.len(),
            last_non_blank_before(line@, line@.len() as int) == last_non_blank_before(
                line@,
                n as int,
            ),
        decreases n,
    {
        if !is_whitespace(line[n - 1]) {
            return n - 1;
        }
        n = n - 1;
    }
    0
}

/// Where `motion` takes a caret at `offset`, for a viewport of
/// `viewport_height` rows scrolled to `scroll_row`.
#[verifier::rlimit(40)]
pub fn move_offset(
    buffer: &Text,
    offset: usize,
    motion: Motion,
    viewport_height: usize,
    scroll_row: usize,
) -> (r: usize)
    requires
        buffer.wf(),
        offset <= buffer@.len(),
        motion_fits(buffer, motion, viewport_height as int, scroll_row as int),
    ensures
        r == spec_move_offset(
            buffer,
            offset as int,
            motion,
            viewport_height as int,
            scroll_row as int,
        ),
        r <= buffer@.len(),
{
    let position = buffer.position_of(offset);
    let last_row = buffer.last_row();
    proof {
        buffer.lemma_rows_bound();
    }
    let half = if viewport_height / 2 > 1 {
        viewport_height / 2
    } else {
        1
    };
    match motion {
        Motion::Left => {
            if position.col > 0 {
                offset - 1
            } else if position.row > 0 {
                buffer.row_end_offset(position.row - 1, false)
            } else {
                offset
            }
        },
        Motion::Right => {
            if position.col + 1 < buffer.line_len(position.row) {
                offset + 1
            } else if position.row < last_row {
                buffer.line_to_offset(position.row + 1)
            } else {
                offset
            }
        },
        Motion::Up => on_row(buffer, position, position.row.saturating_sub(1)),
        Motion::Down => on_row(buffer, position, position.row + 1),
        Motion::LineStart => buffer.line_to_offset(position.row),
        Motion::LineEnd => buffer.row_end_offset(position.row, false),
        Motion::FileStart => 0,
        Motion::FileEnd => document_end(buffer),
        Motion::WordForward => word_forward_kind(buffer, offset, false),
        Motion::WordBack => word_back_kind(buffer, offset, false),
        Motion::WordEnd => word_end(buffer, offset, false),
        Motion::WordEndBack => word_end_back(buffer, offset, false),
        Motion::LongWordForward => word_forward_kind(buffer, offset, true),
        Motion::LongWordBack => word_back_kind(buffer, offset, true),
        Motion::LongWordEnd => word_end(buffer, offset, true),
        Motion::LongWordEndBack => word_end_back(buffer, offset, true),
        Motion::NextParagraph => next_paragraph(buffer, offset),
        Motion::PreviousParagraph => previous_paragraph(buffer, offset),
        Motion::FirstNonWhitespace => {
            let line = buffer.line_string(position.row);
            let column = first_non_blank(&line);
            buffer.clamp_offset(buffer.line_to_offset(position.row) + column, false)
        },
        Motion::LastNonWhitespace => {
            let line = buffer.line_string(position.row);
            let column = last_non_blank(&line);
            buffer.clamp_offset(buffer.line_to_offset(position.row) + column, false)
        },
        Motion::PageUp => on_row(buffer, position, position.row.saturating_sub(viewport_height)),
        Motion::PageDown => on_row(buffer, position, position.row + viewport_height),
        Motion::HalfPageUp => on_row(buffer, position, position.row.saturating_sub(half)),
        Motion::HalfPageDown => on_row(buffer, position, position.row + half),
        Motion::WindowTop => on_row(buffer, position, scroll_row),
        Motion::WindowCenter => on_row(buffer, position, scroll_row + viewport_height / 2),
        Motion::WindowBottom => on_row(
            buffer,
            position,
            scroll_row + viewport_height.saturating_sub(1),
        ),
    }
}

/// A caret kept on column `col` and put on row `target` lands on that row,
/// at that column, or on the row's last character when the row is shorter.
proof fn lemma_lands_on_row(t: &Text, p: Position, target: int)
    requires
        t.wf(),
        0 <= target < t.rows(),
    ensures
        t.row_of(spec_on_row(t, p, target)) == target,
        spec_on_row(t, p, target) == t.row_start(target) + (if (p.col as int) < t.row_len(
            target,
        ) {
            p.col as int
        } else if t.row_len(target) > 0 {
            t.row_len(target) - 1
        } else {
            0
        }),
{
    let len = t.row_len(target);
    if target + 1 < t.rows() {
        assert(t.starts@[target] < t.starts@[target + 1]);
        assert(t.starts@[target + 1] <= t@.len());
    }
    assert(t.starts@[target] <= t@.len());
    let col = if (p.col as int) < len {
        p.col as int
    } else {
        len
    };
    let c = t.row_start(target) + col;
    assert(t.is_row_of(c, target));
    t.lemma_row_of(c);
    let r = spec_on_row(t, p, target);
    assert(t.row_start(target) <= r <= t.row_end(target));
    assert(t.is_row_of(r, target));
    t.lemma_row_of(r);
}

/// `r` lies on row `target`, on the column the caret at `o` has where that
/// row is long enough, and on the row's last character otherwise.
pub open spec fn moved_to_row(t: &Text, o: int, target: int, r: int) -> bool {
    let col = o - t.row_start(t.row_of(o));
    let len = t.row_len(target);
    &&& t.row_of(r) == target
    &&& r == t.row_start(target) + (if col < len {
        col
    } else if len > 0 {
        len - 1
    } else {
        0
    })
}

/// Row `row` moved up by `step` rows, stopping at the first row.
pub open spec fn row_up(row: int, step: int) -> int {
    if row > step {
        row - step
    } else {
        0
    }
}

/// Row `row` moved down by `step` rows, stopping at the last row.
pub open spec fn row_down(t: &Text, row: int, step: int) -> int {
    if row + step < t.rows() {
        row + step
    } else {
        t.rows() - 1
    }
}

proof fn lemma_moved_to_row(t: &Text, o: int, target: int)
    requires
        t.wf(),
        0 <= o <= t@.len(),
        0 <= target < t.rows(),
    ensures
        ({
            let row = t.row_of(o);
            let p = Position { row: row as usize, col: (o - t.row_start(row)) as usize };
            moved_to_row(t, o, target, spec_on_row(t, p, target))
        }),
{
    t.lemma_row_of(o);
    let row = t.row_of(o);
    let p = Position { row: row as usize, col: (o - t.row_start(row)) as usize };
    lemma_lands_on_row(t, p, target);
}

/// Up moves the caret one row up, onto the same column where that row is
/// long enough and onto its last character otherwise; on the first row it
/// stays on the first row.
pub proof fn lemma_up_moves_one_row(t: &Text, o: int, viewport_height: int, scroll_row: int)
    requires
        t.wf(),
        0 <= o <= t@.len(),
    ensures
        moved_to_row(
            t,
            o,
            row_up(t.row_of(o), 1),
            spec_move_offset(t, o, Motion::Up, viewport_height, scroll_row),
        ),
{
    t.lemma_row_of(o);
    lemma_moved_to_row(t, o, row_up(t.row_of(o), 1));
}

/// Down moves the caret one row down, onto the same column where that row is
/// long enough and onto its last character otherwise; on the last row it
/// stays on the last row.
pub proof fn lemma_down_moves_one_row(t: &Text, o: int, viewport_height: int, scroll_row: int)
    requires
        t.wf(),
        0 <= o <= t@.len(),
    ensures
        moved_to_row(
            t,
            o,
            row_down(t, t.row_of(o), 1),
            spec_move_offset(t, o, Motion::Down, viewport_height, scroll_row),
        ),
{
    t.lemma_row_of(o);
    let row = t.row_of(o);
    let p = Position { row: row as usize, col: (o - t.row_start(row)) as usize };
    lemma_moved_to_row(t, o, row_down(t, row, 1));
    assert(spec_on_row(t, p, row + 1) == spec_on_row(t, p, row_down(t, row, 1)));
}

/// Skipping filled rows from `r` passes only non-empty rows and stops on an
/// empty one or at the row count.
proof fn lemma_skip_filled_rows(t: &Text, r: int)
    requires
        t.wf(),
        0 <= r <= t.rows(),
    ensures
        r <= skip_filled_rows(t, r) <= t.rows(),
        forall|j: int| r <= j < skip_filled_rows(t, r) ==> t.row_len(j) > 0,
        skip_filled_rows(t, r) < t.rows() ==> t.row_len(skip_filled_rows(t, r)) == 0,
    decreases t.rows() - r,
{
    if r < t.rows() {
        assert(t.starts@[r] <= t@.len());
        if r + 1 < t.rows() {
            assert(t.starts@[r] < t.starts@[r + 1]);
        }
    }
    if r < t.rows() && t.row_len(r) > 0 {
        lemma_skip_filled_rows(t, r + 1);
    }
}

/// Skipping blank rows from `r` passes only empty rows and stops on a
/// non-empty one or at the row count.
proof fn lemma_skip_blank_rows(t: &Text, r: int)
    requires
        t.wf(),
        0 <= r <= t.rows(),
    ensures
        r <= skip_blank_rows(t, r) <= t.rows(),
        forall|j: int| r <= j < skip_blank_rows(t, r) ==> t.row_len(j) == 0,
        skip_blank_rows(t, r) < t.rows() ==> t.row_len(skip_blank_rows(t, r)) > 0,
    decreases t.rows() - r,
{
    if r < t.rows() {
        assert(t.starts@[r] <= t@.len());
        if r + 1 < t.rows() {
            assert(t.starts@[r] < t.starts@[r + 1]);
        }
    }
    if r < t.rows() && t.row_len(r) == 0 {
        lemma_skip_blank_rows(t, r + 1);
    }
}

/// Rows `row..m` are non-empty and row `m` (when there is one) is empty;
/// rows `m..q` are empty and row `q` (when there is one) is not; `r` is the
/// start of row `q`, or the document's end when `q` is the row count.
pub open spec fn lands_past_blank_rows(t: &Text, row: int, m: int, q: int, r: int) -> bool {
    &&& row <= m <= q <= t.rows()
    &&& forall|j: int| row <= j < m ==> t.row_len(j) > 0
    &&& m < t.rows() ==> t.row_len(m) == 0
    &&& forall|j: int| m <= j < q ==> t.row_len(j) == 0
    &&& q < t.rows() ==> t.row_len(q) > 0 && r == t.row_start(q)
    &&& q == t.rows() ==> r == spec_document_end(t)
}

/// `}` goes past the rest of the caret's paragraph (rows `row..m`, all
/// non-empty), then past the run of empty rows after it (rows `m..q`), and
/// lands on the start of the first non-empty row `q` after them; only when no
/// such row is left does it go to the document's end. It never stops on an
/// empty row.
pub proof fn lemma_next_paragraph_skips_blank_rows(t: &Text, o: int)
    requires
        t.wf(),
        0 <= o <= t@.len(),
    ensures
        exists|m: int, q: int|
            #[trigger] lands_past_blank_rows(t, t.row_of(o), m, q, spec_next_paragraph(t, o)),
{
    t.lemma_row_of(o);
    let row = t.row_of(o);
    let m = skip_filled_rows(t, row);
    lemma_skip_filled_rows(t, row);
    let q = skip_blank_rows(t, m);
    lemma_skip_blank_rows(t, m);
    assert(lands_past_blank_rows(t, row, m, q, spec_next_paragraph(t, o)));
}

/// Going up over empty rows from `r` passes only empty rows and stops on a
/// non-empty row or on row zero.
proof fn lemma_back_over_blank_rows(t: &Text, r: int)
    requires
        t.wf(),
        0 <= r < t.rows(),
    ensures
        0 <= back_over_blank_rows(t, r) <= r,
        forall|j: int| back_over_blank_rows(t, r) < j <= r ==> t.row_len(j) == 0,
        back_over_blank_rows(t, r) > 0 ==> t.row_len(back_over_blank_rows(t, r)) > 0,
    decreases r,
{
    assert(t.starts@[r] <= t@.len());
    if r + 1 < t.rows() {
        assert(t.starts@[r] < t.starts@[r + 1]);
    }
    if r > 0 && t.row_len(r) == 0 {
        lemma_back_over_blank_rows(t, r - 1);
    }
}

/// Going up from `r` while the row above is non-empty passes only non-empty
/// rows and stops under an empty row or on row zero.
proof fn lemma_back_over_filled_rows(t: &Text, r: int)
    requires
        t.wf(),
        0 <= r < t.rows(),
    ensures
        0 <= back_over_filled_rows(t, r) <= r,
        forall|j: int| back_over_filled_rows(t, r) <= j < r ==> t.row_len(j) > 0,
        back_over_filled_rows(t, r) > 0 ==> t.row_len(back_over_filled_rows(t, r) - 1) == 0,
    decreases r,
{
    if r > 0 {
        assert(t.starts@[r - 1] < t.starts@[r]);
    }
    if r > 0 && t.row_len(r - 1) > 0 {
        lemma_back_over_filled_rows(t, r - 1);
    }
}

/// Rows `m + 1..row` are empty and row `m` is not (unless it is row zero);
/// rows `x..m` are non-empty and the row above `x` (when there is one) is
/// empty; `r` is the start of row `x`.
pub open spec fn lands_on_paragraph_start(t: &Text, row: int, m: int, x: int, r: int) -> bool {
    &&& 0 <= x <= m < row
    &&& forall|j: int| m < j < row ==> t.row_len(j) == 0
    &&& m > 0 ==> t.row_len(m) > 0
    &&& forall|j: int| x <= j < m ==> t.row_len(j) > 0
    &&& x > 0 ==> t.row_len(x - 1) == 0
    &&& r == t.row_start(x)
}

/// `{` from inside a non-empty row, past its first column, goes to that
/// row's start. Otherwise it goes up past the empty rows above the caret's
/// row to the nearest non-empty row `m`, and on to the first row `x` of the
/// paragraph `m` belongs to, whose start it lands on; from row zero it goes
/// to the document start.
pub proof fn lemma_previous_paragraph_skips_blank_rows(t: &Text, o: int)
    requires
        t.wf(),
        0 <= o <= t@.len(),
    ensures
        ({
            let row = t.row_of(o);
            let col = o - t.row_start(row);
            let r = spec_previous_paragraph(t, o);
            if t.row_len(row) > 0 && col > 0 {
                r == t.row_start(row)
            } else if row == 0 {
                r == 0
            } else {
                exists|m: int, x: int| #[trigger] lands_on_paragraph_start(t, row, m, x, r)
            }
        }),
{
    t.lemma_row_of(o);
    let row = t.row_of(o);
    let col = o - t.row_start(row);
    if !(t.row_len(row) > 0 && col > 0) && row > 0 {
        let m = back_over_blank_rows(t, row - 1);
        lemma_back_over_blank_rows(t, row - 1);
        let x = back_over_filled_rows(t, m);
        lemma_back_over_filled_rows(t, m);
        assert(lands_on_paragraph_start(t, row, m, x, spec_previous_paragraph(t, o)));
    }
}

/// Page up moves the caret a viewport of rows up, as far as the first row,
/// keeping its column where that row is long enough.
pub proof fn lemma_page_up_moves_rows(t: &Text, o: int, viewport_height: int, scroll_row: int)
    requires
        t.wf(),
        0 <= o <= t@.len(),
        viewport_height >= 0,
    ensures
        moved_to_row(
            t,
            o,
            row_up(t.row_of(o), viewport_height),
            spec_move_offset(t, o, Motion::PageUp, viewport_height, scroll_row),
        ),
{
    t.lemma_row_of(o);
    lemma_moved_to_row(t, o, row_up(t.row_of(o), viewport_height));
}

/// Page down moves the caret a viewport of rows down, as far as the last
/// row, keeping its column where that row is long enough.
pub proof fn lemma_page_down_moves_rows(t: &Text, o: int, viewport_height: int, scroll_row: int)
    requires
        t.wf(),
        0 <= o <= t@.len(),
        viewport_height >= 0,
    ensures
        moved_to_row(
            t,
            o,
            row_down(t, t.row_of(o), viewport_height),
            spec_move_offset(t, o, Motion::PageDown, viewport_height, scroll_row),
        ),
{
    t.lemma_row_of(o);
    let row = t.row_of(o);
    let p = Position { row: row as usize, col: (o - t.row_start(row)) as usize };
    lemma_moved_to_row(t, o, row_down(t, row, viewport_height));
    assert(spec_on_row(t, p, row + viewport_height) == spec_on_row(
        t,
        p,
        row_down(t, row, viewport_height),
    ));
}

/// Half page up moves the caret half a viewport (at least one row) up, as
/// far as the first row, keeping its column where that row is long enough.
pub proof fn lemma_half_page_up_moves_rows(
    t: &Text,
    o: int,
    viewport_height: int,
    scroll_row: int,
)
    requires
        t.wf(),
        0 <= o <= t@.len(),
        viewport_height >= 0,
    ensures
        moved_to_row(
            t,
            o,
            row_up(t.row_of(o), half_page(viewport_height)),
            spec_move_offset(t, o, Motion::HalfPageUp, viewport_height, scroll_row),
        ),
{
    t.lemma_row_of(o);
    lemma_moved_to_row(t, o, row_up(t.row_of(o), half_page(viewport_height)));
}

/// Half page down moves the caret half a viewport (at least one row) down,
/// as far as the last row, keeping its column where that row is long enough.
pub proof fn lemma_half_page_down_moves_rows(
    t: &Text,
    o: int,
    viewport_height: int,
    scroll_row: int,
)
    requires
        t.wf(),
        0 <= o <= t@.len(),
        viewport_height >= 0,
    ensures
        moved_to_row(
            t,
            o,
            row_down(t, t.row_of(o), half_page(viewport_height)),
            spec_move_offset(t, o, Motion::HalfPageDown, viewport_height, scroll_row),
        ),
{
    t.lemma_row_of(o);
    let row = t.row_of(o);
    let p = Position { row: row as usize, col: (o - t.row_start(row)) as usize };
    let step = half_page(viewport_height);
    lemma_moved_to_row(t, o, row_down(t, row, step));
    assert(spec_on_row(t, p, row + step) == spec_on_row(t, p, row_down(t, row, step)));
}

} // verus!
