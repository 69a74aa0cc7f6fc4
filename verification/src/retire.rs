//! Which buffer a pane falls back to when the buffer it shows is closed.

use vstd::prelude::*;

verus! {

/// Whether a pane may fall back to buffer `c` when `buffer` closes: another
/// buffer, in range and still open.
pub open spec fn usable_fallback(c: usize, buffer: usize, count: usize, closed: Seq<usize>) -> bool {
    c != buffer && c < count && !closed.contains(c)
}

/// The index of the last usable entry of `history`, if any.
pub open spec fn last_usable(history: Seq<usize>, buffer: usize, count: usize, closed: Seq<usize>) -> Option<int>
    decreases history.len(),
{
    if history.len() == 0 {
        None
    } else if usable_fallback(history.last(), buffer, count, closed) {
        Some(history.len() - 1)
    } else {
        last_usable(history.drop_last(), buffer, count, closed)
    }
}

/// The buffer `d` places after `buffer`, counting round `count` buffers.
pub open spec fn round_after(buffer: usize, d: int, count: usize) -> usize {
    ((buffer + d) % (count as int)) as usize
}

/// Whether the buffer `d` places after `buffer` is usable.
pub open spec fn usable_after(buffer: usize, d: int, count: usize, closed: Seq<usize>) -> bool {
    usable_fallback(round_after(buffer, d, count), buffer, count, closed)
}

/// The first open buffer after `buffer`, counting round, if any.
pub open spec fn next_open(buffer: usize, count: usize, closed: Seq<usize>) -> Option<usize> {
    if exists|d: int| 1 <= d < count && #[trigger] usable_after(buffer, d, count, closed) {
        let d = choose|d: int| 1 <= d < count && #[trigger] usable_after(buffer, d, count, closed)
            && forall|e: int| 1 <= e < d ==> !#[trigger] usable_after(buffer, e, count, closed);
        Some(round_after(buffer, d, count))
    } else {
        None
    }
}

/// Whether `closed` holds `c`.
fn contains(closed: &Vec<usize>, c: usize) -> (b: bool)
    ensures
        b == closed@.contains(c),
{
    let mut i: usize = 0;
    while i < closed.len()
        invariant
            i <= closed@.len(),
            forall|k: int| 0 <= k < i ==> closed@[k] != c,
        decreases closed@.len() - i,
    {
        if closed[i] == c {
            assert(closed@[i as int] == c);
            return true;
        }
        i = i + 1;
    }
    false
}

/// The buffer a pane showing `buffer` falls back to when it closes, among
/// `count` buffers of which `closed` are closed: the most recent usable
/// buffer of the pane's `history`, which is popped down to it; else, with
/// the history used up, the next open buffer counting round from `buffer`;
/// else none, and the host opens a scratch buffer.
pub fn closed_buffer_fallback(history: &mut Vec<usize>, buffer: usize, count: usize, closed: &Vec<usize>) -> (r:
    Option<usize>)
    ensures
        match last_usable(old(history)@, buffer, count, closed@) {
            Some(j) => r == Some(old(history)@[j]) && final(history)@ == old(history)@.take(j),
            None => r == next_open(buffer, count, closed@) && final(history)@.len() == 0,
        },
{
    while history.len() > 0
        invariant
            last_usable(old(history)@, buffer, count, closed@) == last_usable(history@, buffer, count, closed@),
            old(history)@.take(history@.len() as int) == history@,
            history@.len() <= old(history)@.len(),
        decreases history@.len(),
    {
        let ghost before = history@;
        let candidate = history.pop().unwrap();
        proof {
            assert(before.drop_last() =~= history@);
            assert(old(history)@.take(history@.len() as int) =~= before.take(history@.len() as int));
        }
        if candidate != buffer && candidate < count && !contains(closed, candidate) {
            return Some(candidate);
        }
    }
    let mut d: usize = 1;
    while d < count
        invariant
            1 <= d,
            count > 0 ==> d <= count,
            last_usable(old(history)@, buffer, count, closed@) is None,
            history@.len() == 0,
            forall|e: int| 1 <= e < d ==> !#[trigger] usable_after(buffer, e, count, closed@),
        decreases count - d,
    {
        let candidate = ((buffer as u128 + d as u128) % count as u128) as usize;
        assert(candidate as int == (buffer + d) % (count as int));
        if candidate != buffer && !contains(closed, candidate) {
            proof {
                assert(candidate < count) by {
                    vstd::arithmetic::div_mod::lemma_mod_bound((buffer + d) as int, count as int);
                }
                assert(usable_after(buffer, d as int, count, closed@));
                let w = choose|w: int| 1 <= w < count && #[trigger] usable_after(buffer, w, count, closed@)
                    && forall|e: int| 1 <= e < w ==> !#[trigger] usable_after(buffer, e, count, closed@);
                assert(w == d as int) by {
                    if w < d {
                        assert(!usable_after(buffer, w, count, closed@));
                    } else if w > d {
                        assert(!usable_after(buffer, d as int, count, closed@));
                    }
                }
            }
            return Some(candidate);
        }
        proof {
            vstd::arithmetic::div_mod::lemma_mod_bound((buffer + d) as int, count as int);
        }
        d = d + 1;
    }
    None
}

} // verus!
