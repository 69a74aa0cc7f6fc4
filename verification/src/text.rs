//! A document's characters and the rows they split into.
//!
//! Offsets count characters. A row ends at a line feed, which belongs to the
//! row it ends; the last row has no terminator, so a document of `n` line
//! feeds has `n + 1` rows.

use vstd::prelude::*;

verus! {

/// A caret position: zero-based row, and column in characters within it.
#[derive(Clone, Copy, Debug, PartialEq, Eq, Structural)]
pub struct Position {
    pub row: usize,
    pub col: usize,
}

/// The characters of a document together with the offset each row starts at.
///
/// `starts` is derived from `chars`; `wf` states the derivation, and every
/// constructor establishes it.
pub struct Text {
    pub chars: Vec<char>,
    pub starts: Vec<usize>,
}

impl View for Text {
    type V = Seq<char>;

    open spec fn view(&self) -> Seq<char> {
        self.chars@
    }
}

impl Text {
    /// Number of rows.
    pub open spec fn rows(&self) -> int {
        self.starts@.len() as int
    }

    /// Offset of the first character of row `r`.
    pub open spec fn row_start(&self, r: int) -> int {
        self.starts@[r] as int
    }

    /// Offset just past the last character of row `r`, its terminator
    /// excluded.
    pub open spec fn row_end(&self, r: int) -> int {
        if r + 1 < self.rows() {
            self.row_start(r + 1) - 1
        } else {
            self.chars@.len() as int
        }
    }

    /// Characters in row `r`, its terminator excluded.
    pub open spec fn row_len(&self, r: int) -> int {
        self.row_end(r) - self.row_start(r)
    }

    /// `r` is the row that offset `o` lies in. The offset just past a row's
    /// last character, where its line feed sits, still belongs to it.
    pub open spec fn is_row_of(&self, o: int, r: int) -> bool {
        &&& 0 <= r < self.rows()
        &&& self.row_start(r) <= o
        &&& (r + 1 == self.rows() || o < self.row_start(r + 1))
    }

    /// The row an in-bounds offset lies in.
    pub open spec fn row_of(&self, o: int) -> int {
        choose|r: int| self.is_row_of(o, r)
    }

    /// Where `clamp_offset` puts `offset`: inside the document, and, unless
    /// `insert`, onto a character of its row rather than past the last one.
    pub open spec fn clamped(&self, offset: int, insert: bool) -> int {
        let c = if offset <= self@.len() {
            offset
        } else {
            self@.len() as int
        };
        let r = self.row_of(c);
        if insert {
            c
        } else if self.row_len(r) == 0 {
            self.row_start(r)
        } else if c < self.row_end(r) {
            c
        } else {
            self.row_end(r) - 1
        }
    }

    /// Row starts begin at zero, increase strictly, and each later one follows
    /// a line feed; no row holds a line feed before its end.
    pub open spec fn wf(&self) -> bool {
        &&& self.starts@.len() >= 1
        &&& self.starts@[0] == 0
        &&& self.chars@.len() < usize::MAX
        &&& forall|i: int| 0 <= i < self.rows() ==> #[trigger] self.starts@[i] <= self.chars@.len()
        &&& forall|i: int, j: int|
            0 <= i < j < self.rows() ==> #[trigger] self.starts@[i] < #[trigger] self.starts@[j]
        &&& forall|i: int| 1 <= i < self.rows() ==> self.chars@[#[trigger] self.starts@[i] - 1] == '\n'
        &&& forall|r: int, k: int|
            #![trigger self.starts@[r], self.chars@[k]]
            0 <= r < self.rows() && self.row_start(r) <= k < self.row_end(r) ==> self.chars@[k]
                != '\n'
    }

    /// Every in-bounds offset has exactly one row.
    pub proof fn lemma_row_of(&self, o: int)
        requires
            self.wf(),
            0 <= o <= self@.len(),
        ensures
            self.is_row_of(o, self.row_of(o)),
            forall|r: int| #[trigger] self.is_row_of(o, r) ==> r == self.row_of(o),
    {
        self.lemma_row_exists_from(o, 0);
        let w = self.row_of(o);
        assert forall|q: int| #[trigger] self.is_row_of(o, q) implies q == w by {
            if q < w {
                assert(self.starts@[q + 1] <= self.starts@[w]);
            } else if q > w {
                assert(self.starts@[w + 1] <= self.starts@[q]);
            }
        }
    }

    proof fn lemma_row_exists_from(&self, o: int, r: int)
        requires
            self.wf(),
            0 <= r < self.rows(),
            self.starts@[r] <= o,
        ensures
            exists|q: int| self.is_row_of(o, q),
        decreases self.rows() - r,
    {
        if r + 1 < self.rows() && self.starts@[r + 1] <= o {
            self.lemma_row_exists_from(o, r + 1);
        } else {
            assert(self.is_row_of(o, r));
        }
    }

    /// There are at most one more rows than characters.
    pub proof fn lemma_rows_bound(&self)
        requires
            self.wf(),
        ensures
            self.rows() <= self@.len() + 1,
    {
        self.lemma_start_at_least(self.rows() - 1);
    }

    proof fn lemma_start_at_least(&self, i: int)
        requires
            self.wf(),
            0 <= i < self.rows(),
        ensures
            self.starts@[i] >= i,
        decreases i,
    {
        if i > 0 {
            self.lemma_start_at_least(i - 1);
            assert(self.starts@[i - 1] < self.starts@[i]);
        }
    }

    /// Clamping is idempotent: a clamped offset stays where it is.
    pub proof fn lemma_clamped_idempotent(&self, offset: int, insert: bool)
        requires
            self.wf(),
            0 <= offset,
        ensures
            0 <= self.clamped(offset, insert) <= self@.len(),
            self.clamped(self.clamped(offset, insert), insert) == self.clamped(offset, insert),
    {
        let c = if offset <= self@.len() {
            offset
        } else {
            self@.len() as int
        };
        self.lemma_row_of(c);
        let r = self.row_of(c);
        let o = self.clamped(offset, insert);
        if !insert {
            if r + 1 < self.rows() {
                assert(self.starts@[r] < self.starts@[r + 1]);
                assert(self.starts@[r + 1] <= self@.len());
            }
            assert(self.row_start(r) <= o <= self.row_end(r));
            self.lemma_row_of(o);
            assert(self.is_row_of(o, r));
        }
    }

    /// Builds the row table for `chars`.
    pub fn from_chars(chars: Vec<char>) -> (t: Text)
        requires
            chars.len() < usize::MAX,
        ensures
            t.wf(),
            t@ == chars@,
    {
        let mut starts: Vec<usize> = Vec::new();
        starts.push(0);
        let mut k: usize = 0;
        while k < chars.len()
            invariant
                k <= chars.len() < usize::MAX,
                starts@.len() >= 1,
                starts@[0] == 0,
                forall|i: int| 0 <= i < starts@.len() ==> #[trigger] starts@[i] <= k,
                forall|i: int, j: int|
                    0 <= i < j < starts@.len() ==> #[trigger] starts@[i] < #[trigger] starts@[j],
                forall|i: int| 1 <= i < starts@.len() ==> chars@[#[trigger] starts@[i] - 1] == '\n',
                forall|r: int, q: int|
                    #![trigger starts@[r], chars@[q]]
                    0 <= r < starts@.len() && starts@[r] <= q && (if r + 1 < starts@.len() {
                        q < starts@[r + 1] - 1
                    } else {
                        q < k
                    }) ==> chars@[q] != '\n',
            decreases chars.len() - k,
        {
            if chars[k] == '\n' {
                let ghost old_starts = starts@;
                starts.push(k + 1);
                assert forall|r: int, q: int|
                    #![trigger starts@[r], chars@[q]]
                    0 <= r < starts@.len() && starts@[r] <= q && (if r + 1 < starts@.len() {
                        q < starts@[r + 1] - 1
                    } else {
                        q < k + 1
                    }) implies chars@[q] != '\n' by {
                    if r + 1 < old_starts.len() {
                        assert(old_starts[r] == starts@[r]);
                        assert(old_starts[r + 1] == starts@[r + 1]);
                    } else if r + 1 == old_starts.len() {
                        assert(old_starts[r] == starts@[r]);
                    }
                }
            }
            k = k + 1;
        }
        let t = Text { chars, starts };
        assert forall|r: int, q: int|
            #![trigger t.starts@[r], t.chars@[q]]
            0 <= r < t.rows() && t.row_start(r) <= q < t.row_end(r) implies t.chars@[q]
                != '\n' by {
            if r + 1 < t.rows() {
                assert(t.starts@[r + 1] <= chars@.len());
            }
        }
        t
    }

    /// Number of characters.
    pub fn len_chars(&self) -> (n: usize)
        ensures
            n == self@.len(),
    {
        self.chars.len()
    }

    /// The character at `offset`, if there is one.
    pub fn char_at(&self, offset: usize) -> (c: Option<char>)
        ensures
            c == (if offset < self@.len() {
                Some(self@[offset as int])
            } else {
                None::<char>
            }),
    {
        if offset < self.chars.len() {
            Some(self.chars[offset])
        } else {
            None
        }
    }

    /// Number of rows.
    pub fn len_lines(&self) -> (n: usize)
        ensures
            n == self.rows(),
    {
        self.starts.len()
    }

    /// Index of the last row.
    pub fn last_row(&self) -> (r: usize)
        requires
            self.wf(),
        ensures
            r == self.rows() - 1,
    {
        self.starts.len() - 1
    }

    /// Offset of the first character of `row`.
    pub fn line_to_offset(&self, row: usize) -> (o: usize)
        requires
            self.wf(),
            row < self.rows(),
        ensures
            o == self.row_start(row as int),
            o <= self@.len(),
    {
        self.starts[row]
    }

    /// Characters in `row`, its terminator excluded.
    pub fn line_len(&self, row: usize) -> (n: usize)
        requires
            self.wf(),
            row < self.rows(),
        ensures
            n == self.row_len(row as int),
            self.row_start(row as int) + n <= self@.len(),
    {
        if row < self.starts.len() - 1 {
            assert(self.starts@[row as int] < self.starts@[row + 1]);
            self.starts[row + 1] - 1 - self.starts[row]
        } else {
            self.chars.len() - self.starts[row]
        }
    }

    /// The row `offset` lies in.
    pub fn offset_to_row(&self, offset: usize) -> (r: usize)
        requires
            self.wf(),
            offset <= self@.len(),
        ensures
            self.is_row_of(offset as int, r as int),
            r == self.row_of(offset as int),
    {
        proof {
            self.lemma_row_of(offset as int);
        }
        let mut r: usize = 0;
        while r < self.starts.len() - 1 && self.starts[r + 1] <= offset
            invariant
                self.wf(),
                r < self.rows(),
                self.starts@[r as int] <= offset,
            decreases self.rows() - r,
        {
            r = r + 1;
        }
        r
    }

    /// Row and column of `offset`.
    pub fn position_of(&self, offset: usize) -> (p: Position)
        requires
            self.wf(),
            offset <= self@.len(),
        ensures
            self.is_row_of(offset as int, p.row as int),
            p.row == self.row_of(offset as int),
            p.col == offset - self.row_start(p.row as int),
            p.col <= self.row_len(p.row as int),
    {
        let row = self.offset_to_row(offset);
        proof {
            if row + 1 < self.rows() {
                assert(self.chars@[self.starts@[row + 1] - 1] == '\n');
            }
        }
        Position { row, col: offset - self.starts[row] }
    }

    /// The offset that ends `row`: with `include_terminator`, the start of the
    /// next row (the document's end on the last); otherwise the last
    /// character a Normal-mode caret can rest on, which is the row's start
    /// when the row is empty.
    pub fn row_end_offset(&self, row: usize, include_terminator: bool) -> (o: usize)
        requires
            self.wf(),
            row < self.rows(),
        ensures
            o == (if include_terminator {
                if row + 1 < self.rows() {
                    self.row_start(row + 1)
                } else {
                    self@.len() as int
                }
            } else if self.row_len(row as int) == 0 {
                self.row_start(row as int)
            } else {
                self.row_end(row as int) - 1
            }),
            o <= self@.len(),
    {
        if include_terminator {
            if row < self.starts.len() - 1 {
                self.starts[row + 1]
            } else {
                self.chars.len()
            }
        } else {
            let start = self.starts[row];
            let len = self.line_len(row);
            if len == 0 {
                start
            } else {
                start + len - 1
            }
        }
    }

    /// `offset` brought inside the document. An Insert caret may sit past a
    /// row's last character; any other caret is drawn back onto it.
    pub fn clamp_offset(&self, offset: usize, insert: bool) -> (o: usize)
        requires
            self.wf(),
        ensures
            o <= self@.len(),
            o == self.clamped(offset as int, insert),
    {
        let c = if offset <= self.chars.len() {
            offset
        } else {
            self.chars.len()
        };
        if insert {
            return c;
        }
        let row = self.offset_to_row(c);
        let start = self.starts[row];
        let len = self.line_len(row);
        if len == 0 {
            start
        } else if c < start + len {
            c
        } else {
            start + len - 1
        }
    }

    /// The characters of `row`, its terminator excluded.
    pub fn line_string(&self, row: usize) -> (line: Vec<char>)
        requires
            self.wf(),
            row < self.rows(),
        ensures
            line@ == self@.subrange(self.row_start(row as int), self.row_end(row as int)),
    {
        let start = self.starts[row];
        let end = start + self.line_len(row);
        self.slice(start, end)
    }

    /// The characters from `from` up to `to`.
    pub fn slice(&self, from: usize, to: usize) -> (part: Vec<char>)
        requires
            from <= to <= self@.len(),
        ensures
            part@ == self@.subrange(from as int, to as int),
    {
        let mut part: Vec<char> = Vec::new();
        let mut k = from;
        while k < to
            invariant
                from <= k <= to <= self@.len(),
                part@ == self@.subrange(from as int, k as int),
            decreases to - k,
        {
            part.push(self.chars[k]);
            k = k + 1;
        }
        part
    }
}

} // verus!
