//! The bounded in-memory ring of recent child log lines.
//!
//! Every line drained from the child's stdout or stderr is appended here;
//! when the ring is over capacity the oldest line is evicted. The ring is
//! cleared whenever the child is stopped, and log-tail queries obtain a
//! point-in-time snapshot.

use std::collections::VecDeque;
use vstd::prelude::*;

verus! {

/// Capacity bound of the log ring.
pub const LOGS_QUEUE_LEN: usize = 100;

/// A bounded ordered sequence of log lines. Appending keeps source order and
/// evicts the oldest entry once the capacity is exceeded.
pub struct LogRing {
    entries: VecDeque<String>,
}

impl View for LogRing {
    type V = Seq<Seq<char>>;

    closed spec fn view(&self) -> Seq<Seq<char>> {
        self.entries@.map_values(|s: String| s@)
    }
}

/// What one append does to the ring's contents: the line goes to the back,
/// and the oldest entry leaves if the ring is then over capacity.
pub open spec fn spec_ring_append(ring: Seq<Seq<char>>, line: Seq<char>) -> Seq<Seq<char>> {
    let pushed = ring.push(line);
    if pushed.len() > LOGS_QUEUE_LEN {
        pushed.drop_first()
    } else {
        pushed
    }
}

impl LogRing {
    /// The ring never holds more than its capacity bound.
    pub open spec fn wf(&self) -> bool {
        self@.len() <= LOGS_QUEUE_LEN
    }

    pub fn new() -> (r: LogRing)
        ensures
            r@ == Seq::<Seq<char>>::empty(),
            r.wf(),
    {
        let r = LogRing { entries: VecDeque::new() };
        proof {
            assert(r@ =~= Seq::<Seq<char>>::empty());
        }
        r
    }

    pub fn len(&self) -> (n: usize)
        ensures
            n == self@.len(),
    {
        self.entries.len()
    }

    /// Append one line, evicting the oldest entry if the ring is then over
    /// capacity.
    pub fn append_log(&mut self, line: String)
        requires
            old(self).wf(),
        ensures
            final(self)@ == spec_ring_append(old(self)@, line@),
            final(self).wf(),
    {
        let ghost pre = self.entries@;
        self.entries.push_back(line);
        proof {
            assert(self.entries@.map_values(|s: String| s@) =~= pre.map_values(|s: String| s@).push(
                line@,
            ));
        }
        if self.entries.len() > LOGS_QUEUE_LEN {
            let ghost mid = self.entries@;
            let _ = self.entries.pop_front();
            proof {
                assert(self.entries@ =~= mid.drop_first());
                assert(self.entries@.map_values(|s: String| s@) =~= mid.map_values(
                    |s: String| s@,
                ).drop_first());
            }
        }
    }

    /// Drop every entry.
    pub fn clear_logs(&mut self)
        ensures
            final(self)@ == Seq::<Seq<char>>::empty(),
            final(self).wf(),
    {
        self.entries.clear();
        proof {
            assert(self@ =~= Seq::<Seq<char>>::empty());
        }
    }

    /// A point-in-time snapshot: the entries in order, oldest first.
    pub fn get_logs(&self) -> (r: Vec<String>)
        ensures
            r@.len() == self@.len(),
            forall|i: int| 0 <= i < r@.len() ==> r@[i]@ == self@[i],
    {
        let mut out: Vec<String> = Vec::new();
        let n = self.entries.len();
        for i in 0..n
            invariant
                n == self.entries@.len(),
                out@.len() == i,
                forall|j: int| 0 <= j < i ==> out@[j]@ == self@[j],
        {
            out.push(self.entries[i].clone());
        }
        out
    }
}

/// The ring bound is an invariant: it holds of a fresh ring, every append
/// preserves it, and clearing restores the empty ring.
pub proof fn lemma_ring_bound_preserved(ring: Seq<Seq<char>>, line: Seq<char>)
    requires
        ring.len() <= LOGS_QUEUE_LEN,
    ensures
        spec_ring_append(ring, line).len() <= LOGS_QUEUE_LEN,
{
}

/// Appending keeps source order: the new line stands last, and what precedes
/// it is the old contents — less the oldest entry when the ring was full.
pub proof fn lemma_ring_append_order(ring: Seq<Seq<char>>, line: Seq<char>)
    requires
        ring.len() <= LOGS_QUEUE_LEN,
    ensures
        spec_ring_append(ring, line).last() == line,
        ring.len() < LOGS_QUEUE_LEN ==> spec_ring_append(ring, line).drop_last() =~= ring,
        ring.len() == LOGS_QUEUE_LEN ==> spec_ring_append(ring, line).drop_last()
            =~= ring.drop_first(),
{
}

} // verus!
