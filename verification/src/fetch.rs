//! The bounded-window, order-preserving fetcher.
//!
//! The fetcher consumes an ordered key sequence and hands out one lookup per
//! key. Up to `capacity` lookups are open at once; each open lookup owns a
//! slot of the reorder buffer, tagged by its position in the key sequence.
//! Completions may arrive in any order and wait in their slot; outcomes
//! leave strictly in key order, one slot at a time from the front. Once the
//! consumer stops the fetcher, no further lookup is handed out, while open
//! lookups may still complete and drain.
//!
//! The driver owns the actual lookups: it asks `issue` for the next key,
//! reports each arrival through `complete`, and drains ordered outcomes
//! with `pop_ready`.

use vstd::prelude::*;
use crate::item::FetchOutcome;

verus! {

/// How many slots of the reorder buffer still await their completion.
pub open spec fn pending_count(s: Seq<Option<FetchOutcome>>) -> nat
    decreases s.len(),
{
    if s.len() == 0 {
        0
    } else {
        (if s[0] is None {
            1nat
        } else {
            0
        }) + pending_count(s.drop_first())
    }
}

/// No more slots can await completion than there are slots.
pub proof fn lemma_pending_le_len(s: Seq<Option<FetchOutcome>>)
    ensures
        pending_count(s) <= s.len(),
    decreases s.len(),
{
    if s.len() > 0 {
        lemma_pending_le_len(s.drop_first());
    }
}

/// The fetch window over an ordered key sequence.
///
/// Key `ids[i]` has sequence index `i`. Indices below `emitted_count` have
/// left in order; indices from `emitted_count` up to `issued_count` occupy
/// the reorder buffer, slot `j` holding index `emitted_count + j`.
pub struct Fetcher {
    /// The ordered key sequence, newest first.
    pub ids: Vec<u32>,
    /// The concurrency budget: how many lookups may be open at once.
    pub capacity: usize,
    /// How many outcomes have been emitted, in key order.
    pub emitted_count: usize,
    /// How many lookups have been handed out.
    pub issued_count: usize,
    /// The reorder buffer: one slot per open lookup, `None` while its
    /// completion is outstanding.
    pub buf: Vec<Option<FetchOutcome>>,
    /// Whether the consumer wants no more items: nothing further is issued.
    pub stopped: bool,
    /// The outcome each completed sequence index was reported with.
    pub completions: Ghost<Map<int, FetchOutcome>>,
    /// Every outcome emitted so far, in order.
    pub emitted: Ghost<Seq<FetchOutcome>>,
}

impl Fetcher {
    /// The window invariant: the buffer holds exactly the open sequence
    /// indices and never outgrows the budget, buffered completions agree
    /// with what was reported, and the emitted prefix is the recorded
    /// completions of indices `0 .. emitted_count` in order.
    pub open spec fn wf(self) -> bool {
        &&& 1 <= self.capacity
        &&& self.emitted_count + self.buf@.len() == self.issued_count
        &&& self.issued_count <= self.ids@.len()
        &&& self.buf@.len() <= self.capacity
        &&& self.emitted@.len() == self.emitted_count
        &&& forall|i: int| 0 <= i < self.emitted_count ==> #[trigger] self.completions@.contains_key(
            i,
        )
        &&& forall|i: int|
            #![trigger self.emitted@[i]]
            0 <= i < self.emitted_count ==> self.emitted@[i] == self.completions@[i]
        &&& forall|j: int|
            #![trigger self.buf@[j]]
            0 <= j < self.buf@.len() ==> (self.buf@[j] is Some
                ==> self.completions@.contains_key(self.emitted_count + j))
        &&& forall|j: int|
            #![trigger self.buf@[j]]
            0 <= j < self.buf@.len() ==> (self.buf@[j] is Some ==> self.buf@[j]->0
                == self.completions@[self.emitted_count + j])
    }

    /// How many issued lookups have not completed yet.
    pub open spec fn outstanding(self) -> nat {
        pending_count(self.buf@)
    }

    /// Whether another lookup may be handed out: the consumer still wants
    /// items, keys remain, and the window has a free slot.
    pub open spec fn can_issue_spec(self) -> bool {
        &&& !self.stopped
        &&& self.issued_count < self.ids@.len()
        &&& self.buf@.len() < self.capacity
    }

    /// A fresh window over `ids` with the given concurrency budget.
    pub fn new(ids: Vec<u32>, capacity: usize) -> (f: Fetcher)
        requires
            capacity >= 1,
        ensures
            f.wf(),
            f.ids@ == ids@,
            f.capacity == capacity,
            f.emitted_count == 0,
            f.issued_count == 0,
            f.buf@ == Seq::<Option<FetchOutcome>>::empty(),
            !f.stopped,
            f.completions@ == Map::<int, FetchOutcome>::empty(),
            f.emitted@ == Seq::<FetchOutcome>::empty(),
    {
        Fetcher {
            ids,
            capacity,
            emitted_count: 0,
            issued_count: 0,
            buf: Vec::new(),
            stopped: false,
            completions: Ghost(Map::empty()),
            emitted: Ghost(Seq::empty()),
        }
    }

    /// Whether another lookup may be handed out.
    pub fn can_issue(&self) -> (r: bool)
        ensures
            r == self.can_issue_spec(),
    {
        !self.stopped && self.issued_count < self.ids.len() && self.buf.len() < self.capacity
    }

    /// Hand out the next lookup: its sequence index and its key. The new
    /// lookup opens a fresh slot at the back of the window.
    pub fn issue(&mut self) -> (r: (usize, u32))
        requires
            old(self).wf(),
            old(self).can_issue_spec(),
        ensures
            final(self).wf(),
            r.0 == old(self).issued_count,
            r.1 == old(self).ids@[r.0 as int],
            final(self).issued_count == old(self).issued_count + 1,
            final(self).buf@ == old(self).buf@.push(None::<FetchOutcome>),
            final(self).ids == old(self).ids,
            final(self).capacity == old(self).capacity,
            final(self).emitted_count == old(self).emitted_count,
            final(self).stopped == old(self).stopped,
            final(self).completions == old(self).completions,
            final(self).emitted == old(self).emitted,
    {
        let total = self.ids.len();
        let index = self.issued_count;
        let key = self.ids[index];
        self.buf.push(None);
        proof {
            assert(self.issued_count < total);
        }
        self.issued_count = self.issued_count + 1;
        (index, key)
    }

    /// Report the completion of the lookup with sequence index `index`.
    /// Arrival order is unconstrained; the outcome waits in its slot.
    pub fn complete(&mut self, index: usize, outcome: FetchOutcome)
        requires
            old(self).wf(),
            old(self).emitted_count <= index < old(self).issued_count,
            old(self).buf@[index - old(self).emitted_count] is None,
        ensures
            final(self).wf(),
            final(self).completions@ == old(self).completions@.insert(index as int, outcome),
            final(self).buf@ == old(self).buf@.update(
                index - old(self).emitted_count,
                Some(outcome),
            ),
            final(self).ids == old(self).ids,
            final(self).capacity == old(self).capacity,
            final(self).emitted_count == old(self).emitted_count,
            final(self).issued_count == old(self).issued_count,
            final(self).stopped == old(self).stopped,
            final(self).emitted == old(self).emitted,
    {
        let slot = index - self.emitted_count;
        self.completions = Ghost(self.completions@.insert(index as int, outcome));
        self.buf[slot] = Some(outcome);
    }

    /// Emit the next outcome in key order, if its lookup has completed.
    /// The front slot leaves the window, freeing room for one more lookup.
    pub fn pop_ready(&mut self) -> (r: Option<FetchOutcome>)
        requires
            old(self).wf(),
        ensures
            final(self).wf(),
            old(self).buf@.len() > 0 && old(self).buf@[0] is Some ==> {
                &&& r == old(self).buf@[0]
                &&& final(self).emitted@ == old(self).emitted@.push(old(self).buf@[0]->0)
                &&& final(self).emitted_count == old(self).emitted_count + 1
                &&& final(self).buf@ == old(self).buf@.drop_first()
            },
            !(old(self).buf@.len() > 0 && old(self).buf@[0] is Some) ==> {
                &&& r is None
                &&& final(self).emitted == old(self).emitted
                &&& final(self).emitted_count == old(self).emitted_count
                &&& final(self).buf@ == old(self).buf@
            },
            final(self).ids == old(self).ids,
            final(self).capacity == old(self).capacity,
            final(self).issued_count == old(self).issued_count,
            final(self).stopped == old(self).stopped,
            final(self).completions == old(self).completions,
    {
        if self.buf.len() > 0 && self.buf[0].is_some() {
            let front = self.buf.remove(0);
            match front {
                Some(outcome) => {
                    proof {
                        assert(old(self).buf@.drop_first() =~= old(self).buf@.remove(0));
                    }
                    self.emitted = Ghost(self.emitted@.push(outcome));
                    self.emitted_count = self.emitted_count + 1;
                    proof {
                        assert(old(self).buf@[0] is Some);
                        assert forall|j: int|
                            #![trigger self.buf@[j]]
                            0 <= j < self.buf@.len() implies self.buf@[j] == old(self).buf@[j
                            + 1] by {
                        }
                    }
                    Some(outcome)
                },
                None => {
                    proof {
                        assert(false);
                    }
                    None
                },
            }
        } else {
            None
        }
    }

    /// The consumer wants no more items: no further lookup is handed out,
    /// while open lookups may still complete and drain.
    pub fn stop(&mut self)
        requires
            old(self).wf(),
        ensures
            final(self).wf(),
            final(self).stopped,
            final(self).ids == old(self).ids,
            final(self).capacity == old(self).capacity,
            final(self).emitted_count == old(self).emitted_count,
            final(self).issued_count == old(self).issued_count,
            final(self).buf@ == old(self).buf@,
            final(self).completions == old(self).completions,
            final(self).emitted == old(self).emitted,
    {
        self.stopped = true;
    }
}

/// Order preservation: however completions interleaved, the `i`-th emitted
/// outcome is the completion reported for the `i`-th key of the input
/// sequence.
pub proof fn lemma_order_preservation(f: Fetcher, i: int)
    requires
        f.wf(),
        0 <= i < f.emitted@.len(),
    ensures
        f.completions@.contains_key(i),
        f.emitted@[i] == f.completions@[i],
{
}

/// Concurrency bound: the lookups still outstanding never exceed the open
/// window, and the window never exceeds the concurrency budget.
pub proof fn lemma_concurrency_bound(f: Fetcher)
    requires
        f.wf(),
    ensures
        f.outstanding() <= f.buf@.len() <= f.capacity,
{
    lemma_pending_le_len(f.buf@);
}

} // verus!
