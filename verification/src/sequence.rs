//! Monotonic sequence-number generation for one producer session.

use vstd::prelude::*;

verus! {

/// A per-session counter that numbers outgoing messages.
///
/// A fresh generator starts at 0, and every draw returns the current value
/// and advances the counter by one, so the values handed out over a
/// session's lifetime are exactly 0, 1, 2, ... in order: pairwise distinct
/// and strictly increasing. The counter never resets.
#[derive(Debug, PartialEq, Eq)]
pub struct SerialId {
    pub next: u64,
}

impl SerialId {
    /// A fresh generator, starting at 0.
    pub fn new() -> (s: SerialId)
        ensures
            s.next == 0,
    {
        SerialId { next: 0 }
    }

    /// Returns the current value, then advances the counter by one.
    pub fn get(&mut self) -> (r: u64)
        requires
            old(self).next < u64::MAX,
        ensures
            r == old(self).next,
            final(self).next == old(self).next + 1,
    {
        let r = self.next;
        self.next = self.next + 1;
        r
    }
}

/// Law: drawing from a fresh generator N times in order yields the values
/// 0, 1, ..., N-1 — N pairwise distinct values, strictly increasing,
/// starting at 0.
///
/// `states` is the trajectory of the counter (`states[i]` before the i-th
/// draw) and `vals` the values drawn; the hypotheses are exactly what
/// [`SerialId::new`] and [`SerialId::get`] ensure of each step.
pub proof fn lemma_serial_draws_count_up(states: Seq<u64>, vals: Seq<u64>)
    requires
        states.len() == vals.len() + 1,
        states[0] == 0,
        forall|i: int|
            0 <= i < vals.len() ==> vals[i] == states[i] && states[i + 1] == states[i] + 1,
    ensures
        forall|i: int| 0 <= i < vals.len() ==> vals[i] == i,
        forall|i: int, j: int| 0 <= i < j < vals.len() ==> vals[i] < vals[j],
    decreases vals.len(),
{
    if vals.len() > 0 {
        let n = vals.len() - 1;
        lemma_serial_draws_count_up(states.take(n as int + 1), vals.take(n as int));
        assert(forall|i: int| 0 <= i < n ==> vals.take(n as int)[i] == vals[i]);
        assert(vals[n as int] == states[n as int]);
        assert(states[n as int] == n) by {
            assert(states.take(n as int + 1)[n as int] == states[n as int]);
            if n > 0 {
                assert(vals.take(n as int)[n as int - 1] == n - 1);
            }
        }
    }
}

} // verus!
