//! Ranges and multi-range selections.
//!
//! A range runs from its anchor to its head in either direction. How many
//! characters it covers depends on the selection's semantics (see
//! `SelectionSemantics`), which the range itself does not record.

use vstd::prelude::*;

verus! {

/// One range of a selection.
#[derive(Clone, Copy, Debug, PartialEq, Eq, Structural)]
pub struct Range {
    pub anchor: usize,
    pub head: usize,
}

/// How a selection's ranges cover characters.
#[derive(Clone, Copy, Debug, PartialEq, Eq, Structural)]
pub enum SelectionSemantics {
    /// Runyte's own model: a range covers both of its ends.
    Runyte,
    /// Vim's characterwise model: a range covers `from..to`.
    HalfOpen,
    /// Vim's linewise model: half-open, over whole rows.
    VimLinewise,
}

impl Range {
    pub open spec fn spec_from(&self) -> usize {
        if self.anchor <= self.head {
            self.anchor
        } else {
            self.head
        }
    }

    pub open spec fn spec_to(&self) -> usize {
        if self.anchor <= self.head {
            self.head
        } else {
            self.anchor
        }
    }

    /// A range from `anchor` to `head`.
    pub fn new(anchor: usize, head: usize) -> (r: Range)
        ensures
            r.anchor == anchor,
            r.head == head,
    {
        Range { anchor, head }
    }

    /// An empty range at `offset`.
    pub fn point(offset: usize) -> (r: Range)
        ensures
            r.anchor == offset,
            r.head == offset,
    {
        Range { anchor: offset, head: offset }
    }

    /// The smaller end.
    #[verifier::when_used_as_spec(spec_from)]
    pub fn from(&self) -> (o: usize)
        ensures
            o == self.spec_from(),
    {
        if self.anchor <= self.head {
            self.anchor
        } else {
            self.head
        }
    }

    /// The larger end.
    #[verifier::when_used_as_spec(spec_to)]
    pub fn to(&self) -> (o: usize)
        ensures
            o == self.spec_to(),
    {
        if self.anchor <= self.head {
            self.head
        } else {
            self.anchor
        }
    }

    /// Whether the anchor and head coincide.
    pub fn is_empty(&self) -> (b: bool)
        ensures
            b == (self.anchor == self.head),
    {
        self.anchor == self.head
    }

    /// The same anchor with the head moved to `head`.
    pub fn extend_to(&self, head: usize) -> (r: Range)
        ensures
            r.anchor == self.anchor,
            r.head == head,
    {
        Range { anchor: self.anchor, head }
    }
}

/// A non-empty list of ranges, one of them primary.
#[derive(Clone, Debug)]
pub struct Selection {
    pub ranges: Vec<Range>,
    pub primary: usize,
}

impl Selection {
    /// At least one range, and the primary index names one of them.
    pub open spec fn wf(&self) -> bool {
        self.ranges@.len() >= 1 && self.primary < self.ranges@.len()
    }

    /// A selection of `ranges` whose primary is `primary`, clamped to the
    /// last range.
    pub fn new(ranges: Vec<Range>, primary: usize) -> (s: Selection)
        requires
            ranges@.len() >= 1,
        ensures
            s.wf(),
            s.ranges@ == ranges@,
            s.primary == (if primary < ranges@.len() {
                primary as int
            } else {
                ranges@.len() - 1
            }),
    {
        let last = ranges.len() - 1;
        let primary = if primary < ranges.len() {
            primary
        } else {
            last
        };
        Selection { ranges, primary }
    }

    /// A single range.
    pub fn single(range: Range) -> (s: Selection)
        ensures
            s.wf(),
            s.ranges@ == seq![range],
            s.primary == 0,
    {
        let mut ranges: Vec<Range> = Vec::new();
        ranges.push(range);
        Selection { ranges, primary: 0 }
    }

    /// A single caret at `offset`.
    pub fn point(offset: usize) -> (s: Selection)
        ensures
            s.wf(),
            s.ranges@ == seq![Range { anchor: offset, head: offset }],
            s.primary == 0,
    {
        Selection::single(Range::point(offset))
    }

    /// The primary range.
    pub fn primary(&self) -> (r: Range)
        requires
            self.wf(),
        ensures
            r == self.ranges@[self.primary as int],
    {
        self.ranges[self.primary]
    }

    /// Number of ranges.
    pub fn len(&self) -> (n: usize)
        ensures
            n == self.ranges@.len(),
    {
        self.ranges.len()
    }

    /// Every range reduced to a caret at its head.
    pub fn collapse(&self) -> (s: Selection)
        requires
            self.wf(),
        ensures
            s.wf(),
            s.primary == self.primary,
            s.ranges@.len() == self.ranges@.len(),
            forall|i: int|
                0 <= i < s.ranges@.len() ==> #[trigger] s.ranges@[i] == (Range {
                    anchor: self.ranges@[i].head,
                    head: self.ranges@[i].head,
                }),
    {
        let mut ranges: Vec<Range> = Vec::new();
        let mut i: usize = 0;
        while i < self.ranges.len()
            invariant
                i <= self.ranges@.len(),
                ranges@.len() == i,
                forall|k: int|
                    0 <= k < i ==> #[trigger] ranges@[k] == (Range {
                        anchor: self.ranges@[k].head,
                        head: self.ranges@[k].head,
                    }),
            decreases self.ranges@.len() - i,
        {
            ranges.push(Range::point(self.ranges[i].head));
            i = i + 1;
        }
        Selection { ranges, primary: self.primary }
    }
}

} // verus!
