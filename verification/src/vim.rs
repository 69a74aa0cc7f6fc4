//! Conversions between the Vim grammar's selection models.
//!
//! Vim's Normal-mode caret and its Visual selections cover the character
//! under the head (inclusive); its operators act on half-open spans. Rows
//! selected linewise run from a row's start to the start of the row after
//! the last one.

use vstd::prelude::*;

use crate::keys::{GrammarKind, Mode};
use crate::motion::Motion;
use crate::selection::{Range, Selection, SelectionSemantics};
use crate::spans::{spec_without_trailing_line_terminator, without_trailing_line_terminator, Change};
use crate::text::Text;

verus! {

/// One range of `vim_inclusive_to_half_open`: a caret becomes the one
/// character under it (none at a row's end) when `inclusive`; otherwise the
/// end the head sits on is pushed one character on, within the document.
pub open spec fn inclusive_to_half_open_range(t: &Text, r: Range, inclusive: bool) -> Range {
    let end = t@.len() as int;
    let step: int = if inclusive {
        1
    } else {
        0
    };
    if r.anchor == r.head {
        if inclusive {
            let row = t.row_of(r.head as int);
            let row_end = t.row_start(row) + t.row_len(row);
            Range {
                anchor: r.head,
                head: (if r.head + 1 < row_end {
                    r.head + 1
                } else {
                    row_end
                }) as usize,
            }
        } else {
            r
        }
    } else if r.anchor <= r.head {
        Range {
            anchor: r.anchor,
            head: (if r.head + step < end {
                r.head + step
            } else {
                end
            }) as usize,
        }
    } else {
        Range {
            anchor: (if r.anchor + step < end {
                r.anchor + step
            } else {
                end
            }) as usize,
            head: r.head,
        }
    }
}

/// One range of `vim_half_open_to_inclusive`: the end past the covered
/// characters is drawn back onto the last of them.
pub open spec fn half_open_to_inclusive_range(r: Range) -> Range {
    if r.anchor == r.head {
        r
    } else if r.anchor < r.head {
        Range { anchor: r.anchor, head: (r.head - 1) as usize }
    } else {
        Range { anchor: (r.anchor - 1) as usize, head: r.head }
    }
}

/// Every range end lies inside the document.
pub open spec fn ranges_in(t: &Text, s: &Selection) -> bool {
    forall|i: int|
        0 <= i < s.ranges@.len() ==> (#[trigger] s.ranges@[i]).anchor <= t@.len()
            && s.ranges@[i].head <= t@.len()
}

/// An inclusive selection as the half-open one Vim's operators act on.
pub fn vim_inclusive_to_half_open(buffer: &Text, selection: &Selection, inclusive: bool) -> (s:
    Selection)
    requires
        buffer.wf(),
        selection.wf(),
        ranges_in(buffer, selection),
    ensures
        s.wf(),
        s.primary == selection.primary,
        s.ranges@.len() == selection.ranges@.len(),
        forall|i: int|
            0 <= i < s.ranges@.len() ==> #[trigger] s.ranges@[i] == inclusive_to_half_open_range(
                buffer,
                selection.ranges@[i],
                inclusive,
            ),
{
    let end = buffer.len_chars();
    let mut ranges: Vec<Range> = Vec::new();
    let mut i: usize = 0;
    while i < selection.ranges.len()
        invariant
            buffer.wf(),
            end == buffer@.len(),
            ranges_in(buffer, selection),
            i <= selection.ranges@.len(),
            ranges@.len() == i,
            forall|k: int|
                0 <= k < i ==> #[trigger] ranges@[k] == inclusive_to_half_open_range(
                    buffer,
                    selection.ranges@[k],
                    inclusive,
                ),
        decreases selection.ranges@.len() - i,
    {
        let range = selection.ranges[i];
        let step: usize = if inclusive {
            1
        } else {
            0
        };
        let converted = if range.anchor == range.head {
            if inclusive {
                let row = buffer.offset_to_row(range.head);
                let row_end = buffer.line_to_offset(row) + buffer.line_len(row);
                Range::new(
                    range.head,
                    if range.head + 1 < row_end {
                        range.head + 1
                    } else {
                        row_end
                    },
                )
            } else {
                range
            }
        } else if range.anchor <= range.head {
            Range::new(
                range.anchor,
                if range.head + step < end {
                    range.head + step
                } else {
                    end
                },
            )
        } else {
            Range::new(
                if range.anchor + step < end {
                    range.anchor + step
                } else {
                    end
                },
                range.head,
            )
        };
        ranges.push(converted);
        i = i + 1;
    }
    Selection { ranges, primary: selection.primary }
}

/// A half-open selection as the inclusive one Vim shows.
pub fn vim_half_open_to_inclusive(selection: &Selection) -> (s: Selection)
    requires
        selection.wf(),
    ensures
        s.wf(),
        s.primary == selection.primary,
        s.ranges@.len() == selection.ranges@.len(),
        forall|i: int|
            0 <= i < s.ranges@.len() ==> #[trigger] s.ranges@[i] == half_open_to_inclusive_range(
                selection.ranges@[i],
            ),
{
    let mut ranges: Vec<Range> = Vec::new();
    let mut i: usize = 0;
    while i < selection.ranges.len()
        invariant
            i <= selection.ranges@.len(),
            ranges@.len() == i,
            forall|k: int|
                0 <= k < i ==> #[trigger] ranges@[k] == half_open_to_inclusive_range(
                    selection.ranges@[k],
                ),
        decreases selection.ranges@.len() - i,
    {
        let range = selection.ranges[i];
        let converted = if range.anchor == range.head {
            range
        } else if range.anchor < range.head {
            Range::new(range.anchor, range.head - 1)
        } else {
            Range::new(range.anchor - 1, range.head)
        };
        ranges.push(converted);
        i = i + 1;
    }
    Selection { ranges, primary: selection.primary }
}

/// Turning a non-empty inclusive range into its half-open span and back
/// gives the range again, wherever its far end leaves room for one more
/// character inside the document.
pub proof fn lemma_inclusive_round_trip(t: &Text, r: Range)
    requires
        t.wf(),
        r.anchor != r.head,
        r.anchor < t@.len(),
        r.head < t@.len(),
    ensures
        half_open_to_inclusive_range(inclusive_to_half_open_range(t, r, true)) == r,
{
}

/// Where the linewise selection of rows `anchor_row` to `head_row` starts
/// and ends, in the direction the head lies.
pub open spec fn spec_vim_linewise_range(t: &Text, anchor_row: int, head_row: int) -> Range {
    let row_end = |row: int|
        if row < t.rows() - 1 {
            t.row_start(row + 1)
        } else {
            t@.len() as int
        };
    if head_row >= anchor_row {
        Range { anchor: t.row_start(anchor_row) as usize, head: row_end(head_row) as usize }
    } else {
        Range { anchor: row_end(anchor_row) as usize, head: t.row_start(head_row) as usize }
    }
}

/// The range covering rows `anchor_row` through `head_row` whole.
pub fn vim_linewise_range(buffer: &Text, anchor_row: usize, head_row: usize) -> (r: Range)
    requires
        buffer.wf(),
        anchor_row < buffer.rows(),
        head_row < buffer.rows(),
    ensures
        r == spec_vim_linewise_range(buffer, anchor_row as int, head_row as int),
{
    let last = buffer.last_row();
    let anchor_end = if anchor_row < last {
        buffer.line_to_offset(anchor_row + 1)
    } else {
        buffer.len_chars()
    };
    let head_end = if head_row < last {
        buffer.line_to_offset(head_row + 1)
    } else {
        buffer.len_chars()
    };
    if head_row >= anchor_row {
        Range::new(buffer.line_to_offset(anchor_row), head_end)
    } else {
        Range::new(anchor_end, buffer.line_to_offset(head_row))
    }
}

/// The rows a linewise range covers, anchor row first: the row of its
/// start, and the row of the last character before its end.
pub open spec fn spec_vim_linewise_rows(t: &Text, r: Range) -> (int, int) {
    let len = t@.len() as int;
    if r.anchor <= r.head {
        let head = if r.head > 0 {
            r.head - 1
        } else {
            0
        };
        (t.row_of(r.anchor as int), t.row_of(if head < len {
            head
        } else {
            len
        }))
    } else {
        let anchor = if r.anchor > 0 {
            r.anchor - 1
        } else {
            0
        };
        (t.row_of(if anchor < len {
            anchor
        } else {
            len
        }), t.row_of(r.head as int))
    }
}

/// The anchor and head rows of a linewise range.
pub fn vim_linewise_rows(buffer: &Text, range: Range) -> (rows: (usize, usize))
    requires
        buffer.wf(),
        range.anchor <= range.head ==> range.anchor <= buffer@.len(),
        range.anchor > range.head ==> range.head <= buffer@.len(),
    ensures
        rows.0 as int == spec_vim_linewise_rows(buffer, range).0,
        rows.1 as int == spec_vim_linewise_rows(buffer, range).1,
        rows.0 < buffer.rows(),
        rows.1 < buffer.rows(),
{
    let len = buffer.len_chars();
    if range.anchor <= range.head {
        let anchor_row = buffer.offset_to_row(range.anchor);
        let head = range.head.saturating_sub(1);
        let head = if head < len {
            head
        } else {
            len
        };
        (anchor_row, buffer.offset_to_row(head))
    } else {
        let anchor = range.anchor.saturating_sub(1);
        let anchor = if anchor < len {
            anchor
        } else {
            len
        };
        (buffer.offset_to_row(anchor), buffer.offset_to_row(range.head))
    }
}

/// The direction a linewise count extends.
#[derive(Clone, Copy, Debug, PartialEq, Eq, Structural)]
pub enum LineDirection {
    Up,
    Down,
}

/// One range of `select_vim_lines`: whole rows from the head's row through
/// `count - 1` more in `direction`, within the document.
pub open spec fn select_lines_range(t: &Text, r: Range, direction: LineDirection, count: int) -> Range {
    let row = t.row_of(r.head as int);
    let extra = if count > 1 {
        count - 1
    } else {
        0
    };
    let last_row = t.rows() - 1;
    let other = match direction {
        LineDirection::Down => if row + extra < last_row {
            row + extra
        } else {
            last_row
        },
        LineDirection::Up => if row > extra {
            row - extra
        } else {
            0
        },
    };
    let first = if row < other {
        row
    } else {
        other
    };
    let last = if row < other {
        other
    } else {
        row
    };
    Range {
        anchor: t.row_start(first) as usize,
        head: (if last < last_row {
            t.row_start(last + 1)
        } else {
            t@.len() as int
        }) as usize,
    }
}

/// Selecting lines with a count `n` (at least one row) covers `n` whole rows
/// that end at the head's row going up and start there going down, fewer only
/// where the document's first or last row stops them: the range starts at the
/// start of the first of those rows and ends past the last one's line feed,
/// or at the document's end.
pub proof fn lemma_select_lines_covers_count(
    t: &Text,
    r: Range,
    direction: LineDirection,
    count: int,
)
    requires
        t.wf(),
        r.head <= t@.len(),
    ensures
        ({
            let row = t.row_of(r.head as int);
            let n = if count > 1 {
                count
            } else {
                1
            };
            let first = match direction {
                LineDirection::Up => if row >= n - 1 {
                    row - (n - 1)
                } else {
                    0
                },
                LineDirection::Down => row,
            };
            let last = match direction {
                LineDirection::Up => row,
                LineDirection::Down => if row + (n - 1) < t.rows() {
                    row + (n - 1)
                } else {
                    t.rows() - 1
                },
            };
            let s = select_lines_range(t, r, direction, count);
            &&& s.anchor == t.row_start(first)
            &&& s.head == (if last + 1 < t.rows() {
                t.row_start(last + 1)
            } else {
                t@.len() as int
            })
        }),
{
    t.lemma_row_of(r.head as int);
    let row = t.row_of(r.head as int);
    assert(0 <= row < t.rows());
    assert forall|i: int| 0 <= i < t.rows() implies 0 <= #[trigger] t.row_start(i) <= t@.len() by {
        assert(t.starts@[i] <= t@.len());
    }
}

/// Every range selects whole rows: `V` with a count.
pub fn select_vim_lines(
    buffer: &Text,
    selection: &Selection,
    direction: LineDirection,
    count: usize,
) -> (s: Selection)
    requires
        buffer.wf(),
        selection.wf(),
        ranges_in(buffer, selection),
    ensures
        s.wf(),
        s.primary == selection.primary,
        s.ranges@.len() == selection.ranges@.len(),
        forall|i: int|
            0 <= i < s.ranges@.len() ==> #[trigger] s.ranges@[i] == select_lines_range(
                buffer,
                selection.ranges@[i],
                direction,
                count as int,
            ),
{
    let last_row = buffer.last_row();
    let extra = count.saturating_sub(1);
    let mut ranges: Vec<Range> = Vec::new();
    let mut i: usize = 0;
    while i < selection.ranges.len()
        invariant
            buffer.wf(),
            last_row == buffer.rows() - 1,
            extra == (if count > 1 {
                count - 1
            } else {
                0
            }),
            ranges_in(buffer, selection),
            i <= selection.ranges@.len(),
            ranges@.len() == i,
            forall|k: int|
                0 <= k < i ==> #[trigger] ranges@[k] == select_lines_range(
                    buffer,
                    selection.ranges@[k],
                    direction,
                    count as int,
                ),
        decreases selection.ranges@.len() - i,
    {
        let range = selection.ranges[i];
        let row = buffer.offset_to_row(range.head);
        let other = match direction {
            LineDirection::Down => {
                let r = row.saturating_add(extra);
                if r < last_row {
                    r
                } else {
                    last_row
                }
            },
            LineDirection::Up => row.saturating_sub(extra),
        };
        let first = if row < other {
            row
        } else {
            other
        };
        let last = if row < other {
            other
        } else {
            row
        };
        let from = buffer.line_to_offset(first);
        let to = if last < last_row {
            buffer.line_to_offset(last + 1)
        } else {
            buffer.len_chars()
        };
        ranges.push(Range::new(from, to));
        i = i + 1;
    }
    Selection { ranges, primary: selection.primary }
}

/// One range of `normal_mode_selection` leaving Insert or Replace: a caret
/// at the head, stepped back one character in Vim unless it is at its row's
/// start, then drawn onto a character.
pub open spec fn leave_insert_range(t: &Text, r: Range, vim: bool) -> Range {
    let head = if vim && r.head > t.row_start(t.row_of(r.head as int)) {
        r.head - 1
    } else {
        r.head as int
    };
    let c = t.clamped(head, false) as usize;
    Range { anchor: c, head: c }
}

/// The selection the Normal mode keeps when `mode` is left: carets drawn
/// back from Insert or Replace, a Vim half-open Visual selection turned
/// inclusive and collapsed, anything else collapsed to its heads.
pub fn normal_mode_selection(
    buffer: &Text,
    selection: &Selection,
    semantics: SelectionSemantics,
    mode: Mode,
    vim: bool,
) -> (s: Selection)
    requires
        buffer.wf(),
        selection.wf(),
        vim ==> ranges_in(buffer, selection),
    ensures
        s.wf(),
        s.primary == selection.primary,
        s.ranges@.len() == selection.ranges@.len(),
        forall|i: int|
            0 <= i < s.ranges@.len() ==> #[trigger] s.ranges@[i] == (if mode == Mode::Insert
                || mode == Mode::Replace {
                leave_insert_range(buffer, selection.ranges@[i], vim)
            } else if vim && mode == Mode::Select && (semantics == SelectionSemantics::HalfOpen
                || semantics == SelectionSemantics::VimLinewise) {
                Range {
                    anchor: half_open_to_inclusive_range(selection.ranges@[i]).head,
                    head: half_open_to_inclusive_range(selection.ranges@[i]).head,
                }
            } else {
                Range { anchor: selection.ranges@[i].head, head: selection.ranges@[i].head }
            }),
{
    if mode == Mode::Insert || mode == Mode::Replace {
        let mut ranges: Vec<Range> = Vec::new();
        let mut i: usize = 0;
        while i < selection.ranges.len()
            invariant
                buffer.wf(),
                vim ==> ranges_in(buffer, selection),
                i <= selection.ranges@.len(),
                ranges@.len() == i,
                forall|k: int|
                    0 <= k < i ==> #[trigger] ranges@[k] == leave_insert_range(
                        buffer,
                        selection.ranges@[k],
                        vim,
                    ),
            decreases selection.ranges@.len() - i,
        {
            let mut head = selection.ranges[i].head;
            if vim {
                let row = buffer.offset_to_row(head);
                let start = buffer.line_to_offset(row);
                if head > start {
                    head = head - 1;
                }
            }
            ranges.push(Range::point(buffer.clamp_offset(head, false)));
            i = i + 1;
        }
        Selection { ranges, primary: selection.primary }
    } else if vim && mode == Mode::Select && (semantics == SelectionSemantics::HalfOpen
        || semantics == SelectionSemantics::VimLinewise) {
        vim_half_open_to_inclusive(selection).collapse()
    } else {
        selection.collapse()
    }
}

/// A motion of the Vim grammar.
#[derive(Clone, Copy, Debug, PartialEq, Eq, Structural)]
pub enum VimMotion {
    Left,
    Right,
    Up,
    Down,
    WordForward,
    WordBackward,
    WordEnd,
    WordEndBackward,
    LongWordForward,
    LongWordBackward,
    LongWordEnd,
    LongWordEndBackward,
    LineStart,
    FirstNonWhitespace,
    LastNonWhitespace,
    LineEnd,
    FileStart,
    FileEnd,
    PageUp,
    PageDown,
    HalfPageUp,
    HalfPageDown,
    WindowTop,
    WindowCenter,
    WindowBottom,
    FindNext(char),
    FindPrevious(char),
    TillNext(char),
    TillPrevious(char),
    MatchBracket,
}

/// The editor motion a Vim motion is, where it is one: finding and matching
/// characters are Vim's own.
pub open spec fn spec_vim_motion_kind(motion: VimMotion) -> Option<Motion> {
    match motion {
        VimMotion::Left => Some(Motion::Left),
        VimMotion::Right => Some(Motion::Right),
        VimMotion::Up => Some(Motion::Up),
        VimMotion::Down => Some(Motion::Down),
        VimMotion::WordForward => Some(Motion::WordForward),
        VimMotion::WordBackward => Some(Motion::WordBack),
        VimMotion::WordEnd => Some(Motion::WordEnd),
        VimMotion::WordEndBackward => Some(Motion::WordEndBack),
        VimMotion::LongWordForward => Some(Motion::LongWordForward),
        VimMotion::LongWordBackward => Some(Motion::LongWordBack),
        VimMotion::LongWordEnd => Some(Motion::LongWordEnd),
        VimMotion::LongWordEndBackward => Some(Motion::LongWordEndBack),
        VimMotion::LineStart => Some(Motion::LineStart),
        VimMotion::FirstNonWhitespace => Some(Motion::FirstNonWhitespace),
        VimMotion::LastNonWhitespace => Some(Motion::LastNonWhitespace),
        VimMotion::LineEnd => Some(Motion::LineEnd),
        VimMotion::FileStart => Some(Motion::FileStart),
        VimMotion::FileEnd => Some(Motion::FileEnd),
        VimMotion::PageUp => Some(Motion::PageUp),
        VimMotion::PageDown => Some(Motion::PageDown),
        VimMotion::HalfPageUp => Some(Motion::HalfPageUp),
        VimMotion::HalfPageDown => Some(Motion::HalfPageDown),
        VimMotion::WindowTop => Some(Motion::WindowTop),
        VimMotion::WindowCenter => Some(Motion::WindowCenter),
        VimMotion::WindowBottom => Some(Motion::WindowBottom),
        _ => None,
    }
}

/// The editor motion a Vim motion is, where it is one.
pub fn vim_motion_kind(motion: VimMotion) -> (m: Option<Motion>)
    ensures
        m == spec_vim_motion_kind(motion),
{
    match motion {
        VimMotion::Left => Some(Motion::Left),
        VimMotion::Right => Some(Motion::Right),
        VimMotion::Up => Some(Motion::Up),
        VimMotion::Down => Some(Motion::Down),
        VimMotion::WordForward => Some(Motion::WordForward),
        VimMotion::WordBackward => Some(Motion::WordBack),
        VimMotion::WordEnd => Some(Motion::WordEnd),
        VimMotion::WordEndBackward => Some(Motion::WordEndBack),
        VimMotion::LongWordForward => Some(Motion::LongWordForward),
        VimMotion::LongWordBackward => Some(Motion::LongWordBack),
        VimMotion::LongWordEnd => Some(Motion::LongWordEnd),
        VimMotion::LongWordEndBackward => Some(Motion::LongWordEndBack),
        VimMotion::LineStart => Some(Motion::LineStart),
        VimMotion::FirstNonWhitespace => Some(Motion::FirstNonWhitespace),
        VimMotion::LastNonWhitespace => Some(Motion::LastNonWhitespace),
        VimMotion::LineEnd => Some(Motion::LineEnd),
        VimMotion::FileStart => Some(Motion::FileStart),
        VimMotion::FileEnd => Some(Motion::FileEnd),
        VimMotion::PageUp => Some(Motion::PageUp),
        VimMotion::PageDown => Some(Motion::PageDown),
        VimMotion::HalfPageUp => Some(Motion::HalfPageUp),
        VimMotion::HalfPageDown => Some(Motion::HalfPageDown),
        VimMotion::WindowTop => Some(Motion::WindowTop),
        VimMotion::WindowCenter => Some(Motion::WindowCenter),
        VimMotion::WindowBottom => Some(Motion::WindowBottom),
        VimMotion::FindNext(_) | VimMotion::FindPrevious(_) | VimMotion::TillNext(_)
        | VimMotion::TillPrevious(_) | VimMotion::MatchBracket => None,
    }
}

/// Whether some range of `s` covers at least one character.
pub open spec fn spec_any_nonempty(s: &Selection) -> bool {
    exists|i: int| 0 <= i < s.ranges@.len() && (#[trigger] s.ranges@[i]).anchor != s.ranges@[i].head
}

/// Whether some range of `selection` covers at least one character.
fn any_nonempty(selection: &Selection) -> (b: bool)
    ensures
        b == spec_any_nonempty(selection),
{
    let mut i: usize = 0;
    while i < selection.ranges.len()
        invariant
            i <= selection.ranges@.len(),
            forall|k: int| 0 <= k < i ==> (#[trigger] selection.ranges@[k]).anchor == selection.ranges@[k].head,
        decreases selection.ranges@.len() - i,
    {
        if !selection.ranges[i].is_empty() {
            return true;
        }
        i = i + 1;
    }
    false
}

/// The Normal-mode selection when a motion starts without extending: where
/// some range covers characters, every range becomes a caret on its head,
/// the half-open end first drawn back onto its last character when the
/// selection is half-open or linewise; otherwise the selection stays. The
/// selection is half-open afterwards.
pub fn collapse_vim_normal_selection(selection: &Selection, semantics: SelectionSemantics) -> (s:
    Selection)
    requires
        selection.wf(),
    ensures
        s.wf(),
        s.primary == selection.primary,
        s.ranges@.len() == selection.ranges@.len(),
        !spec_any_nonempty(selection) ==> s.ranges@ == selection.ranges@,
        spec_any_nonempty(selection) ==> forall|i: int|
            0 <= i < s.ranges@.len() ==> {
                let r = if semantics == SelectionSemantics::HalfOpen || semantics
                    == SelectionSemantics::VimLinewise {
                    half_open_to_inclusive_range(selection.ranges@[i])
                } else {
                    selection.ranges@[i]
                };
                #[trigger] s.ranges@[i] == (Range { anchor: r.head, head: r.head })
            },
{
    if !any_nonempty(selection) {
        return Selection { ranges: selection.ranges.clone(), primary: selection.primary };
    }
    if semantics == SelectionSemantics::HalfOpen || semantics == SelectionSemantics::VimLinewise {
        vim_half_open_to_inclusive(selection).collapse()
    } else {
        selection.collapse()
    }
}

/// One range of `enter_vim_visual_line`: the rows from the anchor's row to
/// the head's row moved `count - 1` rows further in the head's direction,
/// within the document, selected whole.
pub open spec fn visual_line_range(t: &Text, r: Range, count: int) -> Range {
    let anchor_row = t.row_of(r.anchor as int);
    let head_row = t.row_of(r.head as int);
    let extra = if count > 1 {
        count - 1
    } else {
        0
    };
    let last_row = t.rows() - 1;
    let to_row = if r.anchor <= r.head {
        if head_row + extra < last_row {
            head_row + extra
        } else {
            last_row
        }
    } else if head_row > extra {
        head_row - extra
    } else {
        0
    };
    spec_vim_linewise_range(t, anchor_row, to_row)
}

/// `V` in Vim: every range becomes the whole rows it touches, its head
/// `count - 1` rows further on; a half-open Visual selection is first made
/// inclusive. Hands back the selection, marked linewise, and the Select mode.
pub fn enter_vim_visual_line(
    buffer: &Text,
    selection: &Selection,
    semantics: SelectionSemantics,
    mode: Mode,
    count: usize,
) -> (r: (Selection, SelectionSemantics, Mode))
    requires
        buffer.wf(),
        selection.wf(),
        ranges_in(buffer, selection),
    ensures
        r.0.wf(),
        r.0.primary == selection.primary,
        r.0.ranges@.len() == selection.ranges@.len(),
        r.1 == SelectionSemantics::VimLinewise,
        r.2 == Mode::Select,
        forall|i: int|
            0 <= i < r.0.ranges@.len() ==> #[trigger] r.0.ranges@[i] == visual_line_range(
                buffer,
                if mode == Mode::Select && semantics == SelectionSemantics::HalfOpen {
                    half_open_to_inclusive_range(selection.ranges@[i])
                } else {
                    selection.ranges@[i]
                },
                count as int,
            ),
{
    let source = if mode == Mode::Select && semantics == SelectionSemantics::HalfOpen {
        vim_half_open_to_inclusive(selection)
    } else {
        Selection { ranges: selection.ranges.clone(), primary: selection.primary }
    };
    let ghost convert = mode == Mode::Select && semantics == SelectionSemantics::HalfOpen;
    let last_row = buffer.last_row();
    let extra = count.saturating_sub(1);
    let mut ranges: Vec<Range> = Vec::new();
    let mut i: usize = 0;
    while i < source.ranges.len()
        invariant
            buffer.wf(),
            source.ranges@.len() == selection.ranges@.len(),
            forall|k: int|
                0 <= k < source.ranges@.len() ==> #[trigger] source.ranges@[k] == (if convert {
                    half_open_to_inclusive_range(selection.ranges@[k])
                } else {
                    selection.ranges@[k]
                }),
            ranges_in(buffer, selection),
            last_row == buffer.rows() - 1,
            extra == (if count > 1 {
                count - 1
            } else {
                0
            }),
            i <= source.ranges@.len(),
            ranges@.len() == i,
            forall|k: int|
                0 <= k < i ==> #[trigger] ranges@[k] == visual_line_range(
                    buffer,
                    source.ranges@[k],
                    count as int,
                ),
        decreases source.ranges@.len() - i,
    {
        let range = source.ranges[i];
        assert(range.anchor <= buffer@.len() && range.head <= buffer@.len()) by {
            assert(selection.ranges@[i as int].anchor <= buffer@.len());
            assert(selection.ranges@[i as int].head <= buffer@.len());
        }
        let anchor_row = buffer.offset_to_row(range.anchor);
        let head_row = buffer.offset_to_row(range.head);
        proof {
            buffer.lemma_row_of(range.anchor as int);
            buffer.lemma_row_of(range.head as int);
        }
        let to_row = if range.anchor <= range.head {
            let r = head_row.saturating_add(extra);
            if r < last_row {
                r
            } else {
                last_row
            }
        } else {
            head_row.saturating_sub(extra)
        };
        ranges.push(vim_linewise_range(buffer, anchor_row, to_row));
        i = i + 1;
    }
    (Selection { ranges, primary: selection.primary }, SelectionSemantics::VimLinewise, Mode::Select)
}

/// The deletions `c` on whole lines makes: each span with its trailing line
/// terminator held back, where anything is left of it.
pub open spec fn spec_line_deletions(t: Seq<char>, spans: Seq<(usize, usize)>) -> Seq<(int, int)>
    decreases spans.len(),
{
    if spans.len() == 0 {
        Seq::empty()
    } else {
        let rest = spec_line_deletions(t, spans.drop_last());
        let from = spans.last().0 as int;
        let end = spec_without_trailing_line_terminator(t, from, spans.last().1 as int);
        if from < end {
            rest.push((from, end))
        } else {
            rest
        }
    }
}

/// `c` on a linewise selection: the changes that empty each of `spans`
/// while keeping its line terminator, the carets at the spans' starts (the
/// primary clamped to the last of them), and the Insert mode they type in.
pub fn change_vim_lines(buffer: &Text, spans: &Vec<(usize, usize)>, primary: usize) -> (r: (
    Vec<Change>,
    Selection,
    Mode,
))
    requires
        spans@.len() >= 1,
    ensures
        r.0@.len() == spec_line_deletions(buffer@, spans@).len(),
        forall|k: int|
            0 <= k < r.0@.len() ==> {
                &&& (#[trigger] r.0@[k]).from == spec_line_deletions(buffer@, spans@)[k].0
                &&& r.0@[k].to == spec_line_deletions(buffer@, spans@)[k].1
                &&& r.0@[k].text@.len() == 0
            },
        r.1.wf(),
        r.1.ranges@.len() == spans@.len(),
        forall|k: int|
            0 <= k < spans@.len() ==> #[trigger] r.1.ranges@[k] == (Range {
                anchor: spans@[k].0,
                head: spans@[k].0,
            }),
        r.1.primary == (if primary < spans@.len() {
            primary as int
        } else {
            spans@.len() - 1
        }),
        r.2 == Mode::Insert,
{
    let mut changes: Vec<Change> = Vec::new();
    let mut points: Vec<Range> = Vec::new();
    let mut i: usize = 0;
    while i < spans.len()
        invariant
            i <= spans@.len(),
            points@.len() == i,
            forall|k: int|
                0 <= k < i ==> #[trigger] points@[k] == (Range {
                    anchor: spans@[k].0,
                    head: spans@[k].0,
                }),
            changes@.len() == spec_line_deletions(buffer@, spans@.take(i as int)).len(),
            forall|k: int|
                0 <= k < changes@.len() ==> {
                    &&& (#[trigger] changes@[k]).from == spec_line_deletions(
                        buffer@,
                        spans@.take(i as int),
                    )[k].0
                    &&& changes@[k].to == spec_line_deletions(buffer@, spans@.take(i as int))[k].1
                    &&& changes@[k].text@.len() == 0
                },
        decreases spans@.len() - i,
    {
        let (from, to) = spans[i];
        proof {
            assert(spans@.take(i + 1).drop_last() =~= spans@.take(i as int));
            assert(spans@.take(i + 1).last() == spans@[i as int]);
        }
        let end = without_trailing_line_terminator(buffer, from, to);
        if from < end {
            changes.push(Change { from, to: end, text: Vec::new() });
        }
        points.push(Range::point(from));
        i = i + 1;
    }
    assert(spans@.take(spans@.len() as int) =~= spans@);
    (changes, Selection::new(points, primary), Mode::Insert)
}

/// Where a caret at `head` goes for the Vim motions computed here, where
/// `motion` is one: a counted `gg` or `G` jumps to row `count` (within the
/// document); `h` and `l` step `count` characters within the row, `l`
/// stopping on its last character; a counted `$` goes to the last
/// character of the row `count - 1` further down.
pub open spec fn vim_own_target(t: &Text, head: int, motion: VimMotion, count: int, explicit_count: bool) -> Option<int> {
    let row = t.row_of(head);
    let col = head - t.row_start(row);
    let last_row = t.rows() - 1;
    let steps = |room: int|
        if count < room {
            count
        } else {
            room
        };
    match motion {
        VimMotion::FileStart | VimMotion::FileEnd => if explicit_count {
            let r = if count < 1 {
                0
            } else if count - 1 < last_row {
                count - 1
            } else {
                last_row
            };
            Some(t.clamped(t.row_start(r), false))
        } else {
            None
        },
        VimMotion::Left => Some(head - steps(col)),
        VimMotion::Right => Some(head + steps(if t.row_len(row) - 1 - col > 0 {
            t.row_len(row) - 1 - col
        } else {
            0
        })),
        VimMotion::LineEnd => if count > 1 {
            let r = if row + count - 1 < last_row {
                row + count - 1
            } else {
                last_row
            };
            Some(t.clamped(t.row_start(r) + t.row_len(r), false))
        } else {
            None
        },
        _ => None,
    }
}

/// Whether `vim_own_target` computes `motion` (with that count), rather
/// than the shared motions or the character searches.
pub open spec fn is_vim_own_motion(motion: VimMotion, count: int, explicit_count: bool) -> bool {
    match motion {
        VimMotion::FileStart | VimMotion::FileEnd => explicit_count,
        VimMotion::Left | VimMotion::Right => true,
        VimMotion::LineEnd => count > 1,
        _ => false,
    }
}

/// The offset a counted `gg` or `G` goes to: the row `count` names,
/// within the document, drawn onto a character.
fn row_jump_target(buffer: &Text, count: usize) -> (o: usize)
    requires
        buffer.wf(),
    ensures
        o as int == buffer.clamped(
            buffer.row_start(
                if count < 1 {
                    0
                } else if count - 1 < buffer.rows() - 1 {
                    count - 1
                } else {
                    buffer.rows() - 1
                },
            ),
            false,
        ),
        o <= buffer@.len(),
{
    let last_row = buffer.last_row();
    let r = count.saturating_sub(1);
    let r = if r < last_row {
        r
    } else {
        last_row
    };
    buffer.clamp_offset(buffer.line_to_offset(r), false)
}

/// The offset a counted `$` goes to from row `row`.
fn line_end_target(buffer: &Text, row: usize, count: usize) -> (o: usize)
    requires
        buffer.wf(),
        row < buffer.rows(),
        count > 1,
    ensures
        ({
            let r = if row + count - 1 < buffer.rows() - 1 {
                row + count - 1
            } else {
                buffer.rows() - 1
            };
            o as int == buffer.clamped(buffer.row_start(r) + buffer.row_len(r), false)
        }),
        o <= buffer@.len(),
{
    let last_row = buffer.last_row();
    let r = row.saturating_add(count - 1);
    let r = if r < last_row {
        r
    } else {
        last_row
    };
    let start = buffer.line_to_offset(r);
    let len = buffer.line_len(r);
    buffer.clamp_offset(start + len, false)
}

/// Where the caret of `head` goes for a motion computed here.
fn vim_target(buffer: &Text, head: usize, motion: VimMotion, count: usize, explicit_count: bool) -> (o: usize)
    requires
        buffer.wf(),
        head <= buffer@.len(),
        is_vim_own_motion(motion, count as int, explicit_count),
    ensures
        vim_own_target(buffer, head as int, motion, count as int, explicit_count) == Some(o as int),
        o <= buffer@.len(),
{
    match motion {
        VimMotion::Left => {
            let p = buffer.position_of(head);
            let steps = if count < p.col {
                count
            } else {
                p.col
            };
            head - steps
        },
        VimMotion::Right => {
            let p = buffer.position_of(head);
            let len = buffer.line_len(p.row);
            let room = if len > p.col + 1 {
                len - 1 - p.col
            } else {
                0
            };
            let steps = if count < room {
                count
            } else {
                room
            };
            head + steps
        },
        VimMotion::LineEnd => {
            let p = buffer.position_of(head);
            line_end_target(buffer, p.row, count)
        },
        _ => row_jump_target(buffer, count),
    }
}

/// One range moved by a Vim motion computed here, before any conversion
/// back to half-open: the caret moves to the motion's target, the anchor
/// staying when extending.
pub open spec fn vim_moved_range(t: &Text, r: Range, motion: VimMotion, count: int, explicit_count: bool, extend: bool) -> Range {
    let target = vim_own_target(t, r.head as int, motion, count, explicit_count)->0 as usize;
    Range {
        anchor: if extend {
            r.anchor
        } else {
            target
        },
        head: target,
    }
}

/// The range a motion starts from: a half-open selection being extended is
/// first made inclusive.
pub open spec fn vim_motion_start(r: Range, semantics: SelectionSemantics, extend: bool) -> Range {
    if extend && semantics == SelectionSemantics::HalfOpen {
        half_open_to_inclusive_range(r)
    } else {
        r
    }
}

/// The Vim motions computed over the document itself: counted `gg` and
/// `G`, `h`, `l` and counted `$`. A half-open selection being extended is
/// made inclusive first, every caret moves (a jump to a row without
/// extending leaves one caret there), and an extended selection is made
/// half-open again, `inclusive` saying whether the head's character is
/// covered. Other motions are the host's, through the shared motions and
/// character searches: for them nothing is computed here.
pub fn move_vim_selection(
    buffer: &Text,
    selection: &Selection,
    semantics: SelectionSemantics,
    motion: VimMotion,
    count: usize,
    explicit_count: bool,
    extend: bool,
    inclusive: bool,
) -> (r: Option<Selection>)
    requires
        buffer.wf(),
        selection.wf(),
        ranges_in(buffer, selection),
    ensures
        !is_vim_own_motion(motion, count as int, explicit_count) ==> r is None,
        is_vim_own_motion(motion, count as int, explicit_count) ==> (r matches Some(s) && s.wf() && {
            let jump = (motion == VimMotion::FileStart || motion == VimMotion::FileEnd) && !extend;
            if jump {
                let target = vim_own_target(buffer, 0, motion, count as int, explicit_count)->0 as usize;
                s.primary == 0 && s.ranges@ == seq![Range { anchor: target, head: target }]
            } else {
                &&& s.primary == selection.primary
                &&& s.ranges@.len() == selection.ranges@.len()
                &&& forall|i: int|
                    0 <= i < s.ranges@.len() ==> {
                        let m = vim_moved_range(
                            buffer,
                            vim_motion_start(selection.ranges@[i], semantics, extend),
                            motion,
                            count as int,
                            explicit_count,
                            extend,
                        );
                        #[trigger] s.ranges@[i] == if extend {
                            inclusive_to_half_open_range(buffer, m, inclusive)
                        } else {
                            m
                        }
                    }
            }
        }),
{
    let own = match motion {
        VimMotion::FileStart | VimMotion::FileEnd => explicit_count,
        VimMotion::Left | VimMotion::Right => true,
        VimMotion::LineEnd => count > 1,
        _ => false,
    };
    if !own {
        return None;
    }
    let jump = (motion == VimMotion::FileStart || motion == VimMotion::FileEnd) && !extend;
    if jump {
        let target = vim_target(buffer, 0, motion, count, explicit_count);
        return Some(Selection::point(target));
    }
    let mut ranges: Vec<Range> = Vec::new();
    let mut i: usize = 0;
    while i < selection.ranges.len()
        invariant
            buffer.wf(),
            selection.wf(),
            ranges_in(buffer, selection),
            is_vim_own_motion(motion, count as int, explicit_count),
            i <= selection.ranges@.len(),
            ranges@.len() == i,
            forall|k: int|
                0 <= k < i ==> #[trigger] ranges@[k] == vim_moved_range(
                    buffer,
                    vim_motion_start(selection.ranges@[k], semantics, extend),
                    motion,
                    count as int,
                    explicit_count,
                    extend,
                ),
            forall|k: int|
                0 <= k < i ==> (#[trigger] ranges@[k]).anchor <= buffer@.len() && ranges@[k].head
                    <= buffer@.len(),
        decreases selection.ranges@.len() - i,
    {
        let current = selection.ranges[i];
        assert(current.anchor <= buffer@.len() && current.head <= buffer@.len());
        let start = if extend && semantics == SelectionSemantics::HalfOpen {
            if current.anchor == current.head {
                current
            } else if current.anchor < current.head {
                Range::new(current.anchor, current.head - 1)
            } else {
                Range::new(current.anchor - 1, current.head)
            }
        } else {
            current
        };
        let target = vim_target(buffer, start.head, motion, count, explicit_count);
        let moved = if extend {
            start.extend_to(target)
        } else {
            Range::point(target)
        };
        ranges.push(moved);
        i = i + 1;
    }
    let moved = Selection { ranges, primary: selection.primary };
    if extend {
        Some(vim_inclusive_to_half_open(buffer, &moved, inclusive))
    } else {
        Some(moved)
    }
}

/// Leaving for Normal mode from `mode`: the selection `normal_mode_selection`
/// keeps, the semantics of the active grammar (Runyte's own, or Vim's
/// half-open one) and the Normal mode.
pub fn enter_normal_mode(
    buffer: &Text,
    selection: &Selection,
    semantics: SelectionSemantics,
    mode: Mode,
    grammar: GrammarKind,
) -> (r: (Selection, SelectionSemantics, Mode))
    requires
        buffer.wf(),
        selection.wf(),
        ranges_in(buffer, selection),
    ensures
        r.0.wf(),
        r.0.primary == selection.primary,
        r.0.ranges@.len() == selection.ranges@.len(),
        forall|i: int|
            0 <= i < r.0.ranges@.len() ==> #[trigger] r.0.ranges@[i] == (if mode == Mode::Insert
                || mode == Mode::Replace {
                leave_insert_range(buffer, selection.ranges@[i], grammar == GrammarKind::Vim)
            } else if grammar == GrammarKind::Vim && mode == Mode::Select && (semantics
                == SelectionSemantics::HalfOpen || semantics == SelectionSemantics::VimLinewise) {
                Range {
                    anchor: half_open_to_inclusive_range(selection.ranges@[i]).head,
                    head: half_open_to_inclusive_range(selection.ranges@[i]).head,
                }
            } else {
                Range { anchor: selection.ranges@[i].head, head: selection.ranges@[i].head }
            }),
        r.1 == (if grammar == GrammarKind::Vim {
            SelectionSemantics::HalfOpen
        } else {
            SelectionSemantics::Runyte
        }),
        r.2 == Mode::Normal,
{
    let vim = grammar == GrammarKind::Vim;
    let s = normal_mode_selection(buffer, selection, semantics, mode, vim);
    let semantics = if vim {
        SelectionSemantics::HalfOpen
    } else {
        SelectionSemantics::Runyte
    };
    (s, semantics, Mode::Normal)
}

/// One range of `enter_insert`: a caret before the range, or, `after` it,
/// one character past its end, within the end's row.
pub open spec fn insert_caret(t: &Text, r: Range, after: bool) -> int {
    if after {
        let row = t.row_of(r.spec_to() as int);
        let row_end = t.row_start(row) + t.row_len(row);
        if r.spec_to() + 1 < row_end {
            r.spec_to() + 1
        } else {
            row_end
        }
    } else {
        r.spec_from() as int
    }
}

/// `i` and `a`: every range becomes a caret before it, or after it, and
/// the mode becomes Insert.
pub fn enter_insert(buffer: &Text, selection: &Selection, after: bool) -> (r: (Selection, Mode))
    requires
        buffer.wf(),
        selection.wf(),
        ranges_in(buffer, selection),
    ensures
        r.0.wf(),
        r.0.primary == selection.primary,
        r.0.ranges@.len() == selection.ranges@.len(),
        forall|i: int|
            0 <= i < r.0.ranges@.len() ==> {
                let c = insert_caret(buffer, selection.ranges@[i], after) as usize;
                #[trigger] r.0.ranges@[i] == (Range { anchor: c, head: c })
            },
        r.1 == Mode::Insert,
{
    let mut ranges: Vec<Range> = Vec::new();
    let mut i: usize = 0;
    while i < selection.ranges.len()
        invariant
            buffer.wf(),
            ranges_in(buffer, selection),
            i <= selection.ranges@.len(),
            ranges@.len() == i,
            forall|k: int|
                0 <= k < i ==> {
                    let c = insert_caret(buffer, selection.ranges@[k], after) as usize;
                    #[trigger] ranges@[k] == (Range { anchor: c, head: c })
                },
        decreases selection.ranges@.len() - i,
    {
        let range = selection.ranges[i];
        assert(range.anchor <= buffer@.len() && range.head <= buffer@.len());
        let c = if after {
            let to = range.to();
            let row = buffer.offset_to_row(to);
            let row_end = buffer.line_to_offset(row) + buffer.line_len(row);
            if to + 1 < row_end {
                to + 1
            } else {
                row_end
            }
        } else {
            range.from()
        };
        ranges.push(Range::point(c));
        i = i + 1;
    }
    (Selection { ranges, primary: selection.primary }, Mode::Insert)
}

/// Where a linewise range's head row goes for a Vim motion computed here:
/// the motion runs from the start of that row (a row jump goes to its row
/// wherever it starts).
pub open spec fn linewise_target(t: &Text, r: Range, motion: VimMotion, count: int, explicit_count: bool) -> int {
    let head_row = spec_vim_linewise_rows(t, r).1;
    vim_own_target(t, t.row_start(head_row), motion, count, explicit_count)->0
}

/// A linewise selection extended by a Vim motion computed here: each head
/// row moves as a caret at its start would, and the rows from the anchor's
/// row to the new head row are selected whole. A row jump leaves the first
/// range only, as it leaves one caret. Other motions are the host's.
pub fn move_vim_linewise_selection(
    buffer: &Text,
    selection: &Selection,
    motion: VimMotion,
    count: usize,
    explicit_count: bool,
) -> (r: Option<Selection>)
    requires
        buffer.wf(),
        selection.wf(),
        ranges_in(buffer, selection),
    ensures
        !is_vim_own_motion(motion, count as int, explicit_count) ==> r is None,
        is_vim_own_motion(motion, count as int, explicit_count) ==> (r matches Some(s) && s.wf() && {
            let jump = motion == VimMotion::FileStart || motion == VimMotion::FileEnd;
            &&& s.ranges@.len() == (if jump {
                1
            } else {
                selection.ranges@.len() as int
            })
            &&& s.primary == (if jump {
                0
            } else {
                selection.primary as int
            })
            &&& forall|i: int|
                0 <= i < s.ranges@.len() ==> #[trigger] s.ranges@[i] == spec_vim_linewise_range(
                    buffer,
                    spec_vim_linewise_rows(buffer, selection.ranges@[i]).0,
                    buffer.row_of(linewise_target(buffer, selection.ranges@[i], motion, count as int, explicit_count)),
                )
        }),
{
    let own = match motion {
        VimMotion::FileStart | VimMotion::FileEnd => explicit_count,
        VimMotion::Left | VimMotion::Right => true,
        VimMotion::LineEnd => count > 1,
        _ => false,
    };
    if !own {
        return None;
    }
    let jump = motion == VimMotion::FileStart || motion == VimMotion::FileEnd;
    let n = if jump {
        1
    } else {
        selection.ranges.len()
    };
    let mut ranges: Vec<Range> = Vec::new();
    let mut i: usize = 0;
    while i < n
        invariant
            buffer.wf(),
            selection.wf(),
            ranges_in(buffer, selection),
            is_vim_own_motion(motion, count as int, explicit_count),
            n == (if jump {
                1
            } else {
                selection.ranges@.len() as int
            }),
            i <= n,
            ranges@.len() == i,
            forall|k: int|
                0 <= k < i ==> #[trigger] ranges@[k] == spec_vim_linewise_range(
                    buffer,
                    spec_vim_linewise_rows(buffer, selection.ranges@[k]).0,
                    buffer.row_of(linewise_target(buffer, selection.ranges@[k], motion, count as int, explicit_count)),
                ),
        decreases n - i,
    {
        let range = selection.ranges[i];
        assert(range.anchor <= buffer@.len() && range.head <= buffer@.len());
        let (anchor_row, head_row) = vim_linewise_rows(buffer, range);
        let start = buffer.line_to_offset(head_row);
        let target = vim_target(buffer, start, motion, count, explicit_count);
        let target_row = buffer.offset_to_row(target);
        proof {
            buffer.lemma_row_of(target as int);
        }
        ranges.push(vim_linewise_range(buffer, anchor_row, target_row));
        i = i + 1;
    }
    Some(
        Selection {
            ranges,
            primary: if jump {
                0
            } else {
                selection.primary
            },
        },
    )
}

/// A Vim operator.
#[derive(Clone, Copy, Debug, PartialEq, Eq, Structural)]
pub enum VimOperator {
    Delete,
    Change,
    Yank,
    Indent,
    Unindent,
}

/// Whether an operator over `motion` covers the character the motion ends
/// on: the word ends, `$`, `g_`, the character searches and `%`.
pub open spec fn spec_vim_motion_inclusive(motion: VimMotion) -> bool {
    match motion {
        VimMotion::WordEnd | VimMotion::WordEndBackward | VimMotion::LongWordEnd
        | VimMotion::LongWordEndBackward | VimMotion::LineEnd | VimMotion::LastNonWhitespace
        | VimMotion::FindNext(_) | VimMotion::FindPrevious(_) | VimMotion::TillNext(_)
        | VimMotion::TillPrevious(_) | VimMotion::MatchBracket => true,
        _ => false,
    }
}

/// Whether an operator over `motion` covers the character it ends on.
pub fn vim_motion_inclusive(motion: VimMotion) -> (b: bool)
    ensures
        b == spec_vim_motion_inclusive(motion),
{
    match motion {
        VimMotion::WordEnd | VimMotion::WordEndBackward | VimMotion::LongWordEnd
        | VimMotion::LongWordEndBackward | VimMotion::LineEnd | VimMotion::LastNonWhitespace
        | VimMotion::FindNext(_) | VimMotion::FindPrevious(_) | VimMotion::TillNext(_)
        | VimMotion::TillPrevious(_) | VimMotion::MatchBracket => true,
        _ => false,
    }
}

/// The motion an operator runs: `cw` on a non-blank character changes to
/// the end of the word, as `ce` does.
pub fn vim_operator_motion(operator: VimOperator, motion: VimMotion, on_blank: bool) -> (m: VimMotion)
    ensures
        m == (if operator == VimOperator::Change && motion == VimMotion::WordForward && !on_blank {
            VimMotion::WordEnd
        } else {
            motion
        }),
{
    if operator == VimOperator::Change && motion == VimMotion::WordForward && !on_blank {
        VimMotion::WordEnd
    } else {
        motion
    }
}

/// The rows an operator over `gg` or `G` covers, from the caret's row
/// `current`: to row `count` when a count above one is given, else to the
/// first or the last row; as the direction and the number of rows.
pub fn vim_file_lines(current: usize, count: usize, motion: VimMotion, last_row: usize) -> (r: (
    LineDirection,
    usize,
))
    requires
        current <= last_row < usize::MAX,
    ensures
        ({
            let target = if count > 1 {
                if count - 1 < last_row {
                    count - 1
                } else {
                    last_row as int
                }
            } else if motion == VimMotion::FileStart {
                0
            } else {
                last_row as int
            };
            &&& r.0 == (if target < current {
                LineDirection::Up
            } else {
                LineDirection::Down
            })
            &&& r.1 == (if target < current {
                current - target
            } else {
                target - current
            }) + 1
        }),
{
    let target = if count > 1 {
        let t = count - 1;
        if t < last_row {
            t
        } else {
            last_row
        }
    } else if motion == VimMotion::FileStart {
        0
    } else {
        last_row
    };
    if target < current {
        (LineDirection::Up, current - target + 1)
    } else {
        (LineDirection::Down, target - current + 1)
    }
}

/// One range of `select_vim_characters`: from the caret, `count`
/// characters on, within its row.
pub open spec fn characters_range(t: &Text, head: int, count: int) -> Range {
    let row = t.row_of(head);
    let row_end = t.row_start(row) + t.row_len(row);
    Range {
        anchor: head as usize,
        head: (if head + count < row_end {
            head + count
        } else {
            row_end
        }) as usize,
    }
}

/// `count` characters from each caret, within its row, as an operator
/// covers them (`x`, `dl`): the selection first collapses as a Normal-mode
/// motion collapses it, and the result is half-open.
pub fn select_vim_characters(buffer: &Text, selection: &Selection, semantics: SelectionSemantics, count: usize) -> (s:
    Selection)
    requires
        buffer.wf(),
        selection.wf(),
        ranges_in(buffer, selection),
    ensures
        s.wf(),
        s.primary == selection.primary,
        s.ranges@.len() == selection.ranges@.len(),
        forall|i: int|
            0 <= i < s.ranges@.len() ==> #[trigger] s.ranges@[i] == characters_range(
                buffer,
                collapsed_head(selection, semantics, i),
                count as int,
            ),
{
    let collapsed = collapse_vim_normal_selection(selection, semantics);
    let mut ranges: Vec<Range> = Vec::new();
    let mut i: usize = 0;
    while i < collapsed.ranges.len()
        invariant
            buffer.wf(),
            ranges_in(buffer, selection),
            collapsed.ranges@.len() == selection.ranges@.len(),
            !spec_any_nonempty(selection) ==> collapsed.ranges@ == selection.ranges@,
            spec_any_nonempty(selection) ==> forall|k: int|
                0 <= k < collapsed.ranges@.len() ==> {
                    let r = if semantics == SelectionSemantics::HalfOpen || semantics
                        == SelectionSemantics::VimLinewise {
                        half_open_to_inclusive_range(selection.ranges@[k])
                    } else {
                        selection.ranges@[k]
                    };
                    #[trigger] collapsed.ranges@[k] == (Range { anchor: r.head, head: r.head })
                },
            i <= collapsed.ranges@.len(),
            ranges@.len() == i,
            forall|k: int|
                0 <= k < i ==> #[trigger] ranges@[k] == characters_range(
                    buffer,
                    collapsed_head(selection, semantics, k),
                    count as int,
                ),
        decreases collapsed.ranges@.len() - i,
    {
        let head = collapsed.ranges[i].head;
        assert(head as int == collapsed_head(selection, semantics, i as int));
        assert(selection.ranges@[i as int].head <= buffer@.len());
        let row = buffer.offset_to_row(head);
        let row_end = buffer.line_to_offset(row) + buffer.line_len(row);
        let end = head.saturating_add(count);
        ranges.push(Range::new(head, if end < row_end {
            end
        } else {
            row_end
        }));
        i = i + 1;
    }
    Selection { ranges, primary: selection.primary }
}

/// Where caret `i` of `selection` sits once collapsed for a Normal-mode
/// motion.
pub open spec fn collapsed_head(selection: &Selection, semantics: SelectionSemantics, i: int) -> int {
    if !spec_any_nonempty(selection) {
        selection.ranges@[i].head as int
    } else if semantics == SelectionSemantics::HalfOpen || semantics == SelectionSemantics::VimLinewise {
        half_open_to_inclusive_range(selection.ranges@[i]).head as int
    } else {
        selection.ranges@[i].head as int
    }
}

/// The selection a Visual-mode operator acts on: carets first cover the
/// character under them (within their row); a Runyte selection becomes
/// half-open over what it covers; a linewise one stays linewise, and any
/// other becomes half-open.
pub fn vim_visual_operator_selection(buffer: &Text, selection: &Selection, semantics: SelectionSemantics) -> (r: (
    Selection,
    SelectionSemantics,
))
    requires
        buffer.wf(),
        selection.wf(),
        ranges_in(buffer, selection),
    ensures
        r.0.wf(),
        r.0.primary == selection.primary,
        r.0.ranges@.len() == selection.ranges@.len(),
        r.1 == (if semantics == SelectionSemantics::VimLinewise {
            SelectionSemantics::VimLinewise
        } else {
            SelectionSemantics::HalfOpen
        }),
        forall|i: int|
            0 <= i < r.0.ranges@.len() ==> {
                let covered = if spec_any_nonempty(selection) {
                    selection.ranges@[i]
                } else {
                    characters_range(buffer, selection.ranges@[i].head as int, 1)
                };
                #[trigger] r.0.ranges@[i] == (if semantics == SelectionSemantics::Runyte {
                    inclusive_to_half_open_range(buffer, covered, true)
                } else {
                    covered
                })
            },
{
    let covered = if any_nonempty(selection) {
        Selection { ranges: selection.ranges.clone(), primary: selection.primary }
    } else {
        let mut ranges: Vec<Range> = Vec::new();
        let mut i: usize = 0;
        while i < selection.ranges.len()
            invariant
                buffer.wf(),
                ranges_in(buffer, selection),
                i <= selection.ranges@.len(),
                ranges@.len() == i,
                forall|k: int|
                    0 <= k < i ==> #[trigger] ranges@[k] == characters_range(
                        buffer,
                        selection.ranges@[k].head as int,
                        1,
                    ),
                forall|k: int|
                    0 <= k < i ==> (#[trigger] ranges@[k]).anchor <= buffer@.len() && ranges@[k].head
                        <= buffer@.len(),
            decreases selection.ranges@.len() - i,
        {
            let head = selection.ranges[i].head;
            assert(head <= buffer@.len());
            let row = buffer.offset_to_row(head);
            let row_end = buffer.line_to_offset(row) + buffer.line_len(row);
            proof {
                buffer.lemma_row_of(head as int);
            }
            ranges.push(Range::new(head, if head + 1 < row_end {
                head + 1
            } else {
                row_end
            }));
            i = i + 1;
        }
        Selection { ranges, primary: selection.primary }
    };
    if semantics == SelectionSemantics::VimLinewise {
        (covered, SelectionSemantics::VimLinewise)
    } else if semantics == SelectionSemantics::Runyte {
        (vim_inclusive_to_half_open(buffer, &covered, true), SelectionSemantics::HalfOpen)
    } else {
        (covered, SelectionSemantics::HalfOpen)
    }
}

/// `h` and `l` keep the caret on its row: with any count it ends between
/// the row's start and its end.
pub proof fn lemma_vim_horizontal_stays_on_row(t: &Text, head: int, motion: VimMotion, count: int)
    requires
        t.wf(),
        0 <= head <= t@.len(),
        motion == VimMotion::Left || motion == VimMotion::Right,
        count >= 0,
    ensures
        vim_own_target(t, head, motion, count, false) matches Some(o) && t.row_start(t.row_of(head))
            <= o <= t.row_start(t.row_of(head)) + t.row_len(t.row_of(head)),
{
    t.lemma_row_of(head);
    let row = t.row_of(head);
    if row + 1 < t.rows() {
        assert(t.starts@[row] < t.starts@[row + 1]);
    }
}

} // verus!
