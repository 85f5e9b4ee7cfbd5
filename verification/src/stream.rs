//! The ordered outcome stream's downstream stages: the failure counter, the
//! one-way skip-until and take-while time window, and the row limiter.
//!
//! The stages consume the fetcher's outcomes newest first. A failed lookup
//! is counted and dropped. A configured upper time bound drops records until
//! the first one at or below it; a configured lower bound terminates the
//! stream at the first record below it. The limiter terminates the stream
//! once it has passed its quota. Termination is one-way: the driver offers
//! no further outcomes afterwards, and in-flight lookups are discarded.

use vstd::prelude::*;
use crate::item::{FetchError, FetchOutcome, Item};

verus! {

/// The records of the successful outcomes, in stream order.
pub open spec fn successes(s: Seq<FetchOutcome>) -> Seq<Item>
    decreases s.len(),
{
    if s.len() == 0 {
        Seq::empty()
    } else {
        match s[0] {
            FetchOutcome::Success(it) => seq![it] + successes(s.drop_first()),
            FetchOutcome::Failure(_) => successes(s.drop_first()),
        }
    }
}

/// How many outcomes of the stream are failures.
pub open spec fn failure_count(s: Seq<FetchOutcome>) -> nat
    decreases s.len(),
{
    if s.len() == 0 {
        0
    } else {
        (if s[0] is Failure {
            1nat
        } else {
            0
        }) + failure_count(s.drop_first())
    }
}

/// Drop records from the front while they are newer than `end`; the first
/// record at or below `end` releases the rest unconditionally.
pub open spec fn drop_newer(items: Seq<Item>, end: i64) -> Seq<Item>
    decreases items.len(),
{
    if items.len() == 0 {
        Seq::empty()
    } else if items[0].spec_time() > end {
        drop_newer(items.drop_first(), end)
    } else {
        items
    }
}

/// Keep records from the front while they are at or above `bound`; the
/// first older record ends the stream.
pub open spec fn take_recent(items: Seq<Item>, bound: i64) -> Seq<Item>
    decreases items.len(),
{
    if items.len() == 0 {
        Seq::empty()
    } else if items[0].spec_time() >= bound {
        seq![items[0]] + take_recent(items.drop_first(), bound)
    } else {
        Seq::empty()
    }
}

/// The skip-until stage: a no-op when no upper bound is configured.
pub open spec fn after_skip(items: Seq<Item>, end: Option<i64>) -> Seq<Item> {
    match end {
        Some(e) => drop_newer(items, e),
        None => items,
    }
}

/// The take-while stage: a no-op when no lower bound is configured.
pub open spec fn after_take(items: Seq<Item>, bound: Option<i64>) -> Seq<Item> {
    match bound {
        Some(b) => take_recent(items, b),
        None => items,
    }
}

/// At most the first `limit` records.
pub open spec fn take_at_most(items: Seq<Item>, limit: nat) -> Seq<Item> {
    if items.len() <= limit {
        items
    } else {
        items.take(limit as int)
    }
}

/// What the downstream stages emit for a whole outcome stream: the failed
/// lookups removed, the time window applied, and the row limit enforced,
/// in that order.
pub open spec fn window_output(
    s: Seq<FetchOutcome>,
    end: Option<i64>,
    bound: Option<i64>,
    limit: nat,
) -> Seq<Item> {
    take_at_most(after_take(after_skip(successes(s), end), bound), limit)
}

/// Appending one outcome appends its record to the success stream, or
/// raises the failure count by one.
pub proof fn lemma_outcome_push(s: Seq<FetchOutcome>, o: FetchOutcome)
    ensures
        successes(s.push(o)) == successes(s) + (match o {
            FetchOutcome::Success(it) => seq![it],
            FetchOutcome::Failure(_) => Seq::<Item>::empty(),
        }),
        failure_count(s.push(o)) == failure_count(s) + (if o is Failure {
            1nat
        } else {
            0
        }),
    decreases s.len(),
{
    if s.len() == 0 {
        assert(s.push(o)[0] == o);
        assert(s.push(o).drop_first() =~= s);
        match o {
            FetchOutcome::Success(it) => {
                assert(seq![it] + successes(s) =~= successes(s) + seq![it]);
            },
            FetchOutcome::Failure(_) => {
                assert(successes(s) + Seq::<Item>::empty() =~= successes(s));
            },
        }
    } else {
        assert(s.push(o)[0] == s[0]);
        assert(s.push(o).drop_first() =~= s.drop_first().push(o));
        lemma_outcome_push(s.drop_first(), o);
        match s[0] {
            FetchOutcome::Success(h) => {
                match o {
                    FetchOutcome::Success(it) => {
                        assert(seq![h] + (successes(s.drop_first()) + seq![it]) =~= (seq![h]
                            + successes(s.drop_first())) + seq![it]);
                    },
                    FetchOutcome::Failure(_) => {
                        assert(successes(s) + Seq::<Item>::empty() =~= successes(s));
                    },
                }
            },
            FetchOutcome::Failure(_) => {
                match o {
                    FetchOutcome::Failure(_) => {
                        assert(successes(s) + Seq::<Item>::empty() =~= successes(s));
                    },
                    FetchOutcome::Success(_) => {},
                }
            },
        }
    }
}

/// The failure count never exceeds the stream's length.
pub proof fn lemma_failure_count_le_len(s: Seq<FetchOutcome>)
    ensures
        failure_count(s) <= s.len(),
    decreases s.len(),
{
    if s.len() > 0 {
        lemma_failure_count_le_len(s.drop_first());
    }
}

/// Appending a record to a fully-skipped stream skips it too when it is
/// newer than `end`, and otherwise releases it; appending to a released
/// stream appends.
pub proof fn lemma_drop_newer_push(items: Seq<Item>, x: Item, end: i64)
    ensures
        drop_newer(items.push(x), end) == (if drop_newer(items, end).len() == 0 {
            if x.spec_time() > end {
                Seq::<Item>::empty()
            } else {
                seq![x]
            }
        } else {
            drop_newer(items, end).push(x)
        }),
    decreases items.len(),
{
    if items.len() == 0 {
        assert(items.push(x)[0] == x);
        assert(items.push(x).drop_first() =~= items);
        if x.spec_time() <= end {
            assert(items.push(x) =~= seq![x]);
        }
    } else {
        assert(items.push(x)[0] == items[0]);
        assert(items.push(x).drop_first() =~= items.drop_first().push(x));
        if items[0].spec_time() > end {
            lemma_drop_newer_push(items.drop_first(), x, end);
        } else {
            assert(drop_newer(items, end) == items);
            assert(drop_newer(items.push(x), end) == items.push(x));
        }
    }
}

/// While no record has fallen below `bound`, appending keeps the stage
/// transparent: a record at or above `bound` is appended, an older one is
/// cut.
pub proof fn lemma_take_recent_push_all(items: Seq<Item>, x: Item, bound: i64)
    requires
        take_recent(items, bound) == items,
    ensures
        take_recent(items.push(x), bound) == (if x.spec_time() >= bound {
            items.push(x)
        } else {
            items
        }),
    decreases items.len(),
{
    if items.len() == 0 {
        assert(items.push(x)[0] == x);
        assert(items.push(x).drop_first() =~= Seq::<Item>::empty());
        if x.spec_time() >= bound {
            assert(seq![x] + take_recent(Seq::<Item>::empty(), bound) =~= items.push(x));
        } else {
            assert(take_recent(items.push(x), bound) =~= items);
        }
    } else {
        if items[0].spec_time() < bound {
            assert(take_recent(items, bound).len() == 0);
            assert(false);
        }
        assert(items.drop_first() =~= (seq![items[0]] + take_recent(items.drop_first(),
            bound)).drop_first());
        assert(take_recent(items.drop_first(), bound) =~= items.drop_first());
        assert(items.push(x)[0] == items[0]);
        assert(items.push(x).drop_first() =~= items.drop_first().push(x));
        lemma_take_recent_push_all(items.drop_first(), x, bound);
        if x.spec_time() >= bound {
            assert(seq![items[0]] + items.drop_first().push(x) =~= items.push(x));
        } else {
            assert(seq![items[0]] + items.drop_first() =~= items);
        }
    }
}

/// Splitting an outcome stream splits its success stream and its failure
/// count.
pub proof fn lemma_successes_add(a: Seq<FetchOutcome>, b: Seq<FetchOutcome>)
    ensures
        successes(a + b) == successes(a) + successes(b),
        failure_count(a + b) == failure_count(a) + failure_count(b),
    decreases a.len(),
{
    if a.len() == 0 {
        assert(a + b =~= b);
        assert(successes(a) =~= Seq::<Item>::empty());
        assert(successes(a) + successes(b) =~= successes(b));
    } else {
        assert((a + b)[0] == a[0]);
        assert((a + b).drop_first() =~= a.drop_first() + b);
        lemma_successes_add(a.drop_first(), b);
        match a[0] {
            FetchOutcome::Success(it) => {
                assert(seq![it] + (successes(a.drop_first()) + successes(b)) =~= (seq![it]
                    + successes(a.drop_first())) + successes(b));
            },
            FetchOutcome::Failure(_) => {},
        }
    }
}

/// Error isolation: turning the outcome at one position of the stream into
/// a failure raises the failure count by exactly one and removes exactly
/// that record from the ordered success stream, leaving every other record
/// as it was.
pub proof fn lemma_error_isolation(s: Seq<FetchOutcome>, i: int, e: FetchError)
    requires
        0 <= i < s.len(),
        s[i] is Success,
    ensures
        failure_count(s.update(i, FetchOutcome::Failure(e))) == failure_count(s) + 1,
        successes(s) == successes(s.take(i)) + seq![s[i]->Success_0] + successes(s.skip(i + 1)),
        successes(s.update(i, FetchOutcome::Failure(e))) == successes(s.take(i)) + successes(
            s.skip(i + 1),
        ),
{
    let s2 = s.update(i, FetchOutcome::Failure(e));
    let left = s.take(i);
    let mid = seq![s[i]];
    let mid2 = seq![FetchOutcome::Failure(e)];
    let right = s.skip(i + 1);
    assert(s =~= (left + mid) + right);
    assert(s2 =~= (left + mid2) + right);
    lemma_successes_add(left + mid, right);
    lemma_successes_add(left, mid);
    lemma_successes_add(left + mid2, right);
    lemma_successes_add(left, mid2);
    assert(successes(Seq::<FetchOutcome>::empty()) =~= Seq::<Item>::empty());
    assert(failure_count(Seq::<FetchOutcome>::empty()) == 0);
    assert(mid.drop_first() =~= Seq::<FetchOutcome>::empty());
    assert(mid2.drop_first() =~= Seq::<FetchOutcome>::empty());
    assert(successes(mid) =~= seq![s[i]->Success_0]);
    assert(successes(mid2) =~= Seq::<Item>::empty());
    assert(successes(s2) =~= successes(left) + successes(right));
    assert(successes(s) =~= (successes(left) + seq![s[i]->Success_0]) + successes(right));
}

/// What a record offered to the stages does, given the stages' state: it is
/// silently skipped, it terminates the stream, or it passes.
#[derive(Debug)]
pub enum Step {
    /// The record passed every stage and is to be emitted.
    Passed(Item),
    /// The outcome was consumed without effect on the output: a counted
    /// failure or a record skipped as too new.
    Dropped,
    /// The record fell below the lower time bound: the stream is over and
    /// the record is not emitted.
    Finished,
}

/// The stream stages' state. `history` carries every outcome offered so
/// far; the exec fields are characterized against it by `wf`.
pub struct StreamFilter {
    /// Records strictly newer than this are dropped until one at or below
    /// it is seen.
    pub end_date: Option<i64>,
    /// The first record strictly older than this terminates the stream.
    pub start_bound: Option<i64>,
    /// How many records may pass in total.
    pub limit: usize,
    /// Whether the skip-until stage is still dropping.
    pub skipping: bool,
    /// How many records have passed.
    pub passed_count: usize,
    /// Whether the stream is over: the lower time bound was crossed or the
    /// limit was reached.
    pub terminated: bool,
    /// How many offered outcomes were failures.
    pub errors: usize,
    /// Every outcome offered so far, in order.
    pub history: Ghost<Seq<FetchOutcome>>,
    /// Every record passed so far, in order.
    pub passed: Ghost<Seq<Item>>,
}

impl StreamFilter {
    /// The records passed so far are exactly the stages' output for the
    /// offered outcomes, the failure tally counts exactly the failed ones,
    /// and the one-way stage flags agree with the history.
    pub open spec fn wf(self) -> bool {
        &&& self.passed@ == window_output(
            self.history@,
            self.end_date,
            self.start_bound,
            self.limit as nat,
        )
        &&& self.errors == failure_count(self.history@)
        &&& self.passed_count == self.passed@.len()
        &&& self.passed@.len() <= self.limit
        &&& self.skipping == (self.end_date is Some && after_skip(
            successes(self.history@),
            self.end_date,
        ).len() == 0)
        &&& !self.terminated ==> {
            &&& self.passed@.len() < self.limit
            &&& after_take(
                after_skip(successes(self.history@), self.end_date),
                self.start_bound,
            ) == after_skip(successes(self.history@), self.end_date)
            &&& self.passed@ == after_skip(successes(self.history@), self.end_date)
        }
    }

    /// Fresh stages: nothing offered, nothing passed; with a zero limit the
    /// stream is over before it starts.
    pub fn new(end_date: Option<i64>, start_bound: Option<i64>, limit: usize) -> (r: StreamFilter)
        ensures
            r.wf(),
            r.end_date == end_date,
            r.start_bound == start_bound,
            r.limit == limit,
            r.history@ == Seq::<FetchOutcome>::empty(),
            r.passed@ == Seq::<Item>::empty(),
            r.errors == 0,
            r.terminated == (limit == 0),
    {
        let r = StreamFilter {
            end_date,
            start_bound,
            limit,
            skipping: end_date.is_some(),
            passed_count: 0,
            terminated: limit == 0,
            errors: 0,
            history: Ghost(Seq::empty()),
            passed: Ghost(Seq::empty()),
        };
        proof {
            assert(successes(r.history@) =~= Seq::<Item>::empty());
            assert(after_skip(successes(r.history@), end_date) =~= Seq::<Item>::empty());
            assert(after_take(Seq::<Item>::empty(), start_bound) =~= Seq::<Item>::empty());
        }
        r
    }

    /// Offer the next ordered outcome to the stages. A failure is counted
    /// and dropped; a record is skipped while too new, terminates the
    /// stream when too old, and passes otherwise, terminating the stream
    /// when it fills the limit.
    pub fn offer(&mut self, outcome: FetchOutcome) -> (r: Step)
        requires
            old(self).wf(),
            !old(self).terminated,
            old(self).history@.len() < usize::MAX,
        ensures
            final(self).wf(),
            final(self).history@ == old(self).history@.push(outcome),
            final(self).end_date == old(self).end_date,
            final(self).start_bound == old(self).start_bound,
            final(self).limit == old(self).limit,
            outcome matches FetchOutcome::Failure(_) ==> {
                &&& r is Dropped
                &&& final(self).errors == old(self).errors + 1
                &&& final(self).passed@ == old(self).passed@
                &&& !final(self).terminated
            },
            outcome matches FetchOutcome::Success(it) ==> {
                &&& final(self).errors == old(self).errors
                &&& if old(self).skipping && it.spec_time() > old(self).end_date->0 {
                    &&& r is Dropped
                    &&& final(self).passed@ == old(self).passed@
                    &&& !final(self).terminated
                } else if old(self).start_bound is Some && it.spec_time() < old(
                    self,
                ).start_bound->0 {
                    &&& r is Finished
                    &&& final(self).passed@ == old(self).passed@
                    &&& final(self).terminated
                } else {
                    &&& r == Step::Passed(it)
                    &&& final(self).passed@ == old(self).passed@.push(it)
                    &&& final(self).terminated == (old(self).passed@.len() + 1 == old(self).limit)
                }
            },
    {
        let ghost h_old = self.history@;
        proof {
            lemma_outcome_push(h_old, outcome);
            lemma_failure_count_le_len(h_old);
        }
        self.history = Ghost(h_old.push(outcome));
        match outcome {
            FetchOutcome::Failure(_) => {
                self.errors = self.errors + 1;
                proof {
                    assert(successes(self.history@) =~= successes(h_old));
                }
                Step::Dropped
            },
            FetchOutcome::Success(it) => {
                let t: i64 = it.time();
                let ghost succ_old = successes(h_old);
                let ghost succ_new = successes(self.history@);
                proof {
                    assert(succ_new =~= succ_old.push(it));
                }
                let skip_drop: bool = self.skipping && match self.end_date {
                    Some(e) => t > e,
                    None => false,
                };
                if skip_drop {
                    proof {
                        lemma_drop_newer_push(succ_old, it, self.end_date->0);
                        assert(after_skip(succ_old, self.end_date) =~= Seq::<Item>::empty());
                        assert(after_skip(succ_new, self.end_date) =~= Seq::<Item>::empty());
                        assert(after_take(Seq::<Item>::empty(), self.start_bound)
                            =~= Seq::<Item>::empty());
                    }
                    return Step::Dropped;
                }
                proof {
                    if self.end_date is Some {
                        lemma_drop_newer_push(succ_old, it, self.end_date->0);
                    }
                }
                let ghost dn_old = after_skip(succ_old, self.end_date);
                let ghost dn_new = after_skip(succ_new, self.end_date);
                proof {
                    if self.skipping {
                        assert(dn_new =~= Seq::<Item>::empty().push(it));
                        assert(old(self).passed@ =~= Seq::<Item>::empty());
                    }
                    assert(dn_new =~= old(self).passed@.push(it));
                    if self.start_bound is Some {
                        lemma_take_recent_push_all(dn_old, it, self.start_bound->0);
                    }
                }
                self.skipping = false;
                let stop: bool = match self.start_bound {
                    Some(b) => t < b,
                    None => false,
                };
                if stop {
                    self.terminated = true;
                    return Step::Finished;
                }
                self.passed_count = self.passed_count + 1;
                self.passed = Ghost(self.passed@.push(it));
                if self.passed_count == self.limit {
                    self.terminated = true;
                }
                Step::Passed(it)
            },
        }
    }

    /// How many offered outcomes were failures.
    pub fn error_tally(&self) -> (r: usize)
        ensures
            r == self.errors,
            self.wf() ==> r == failure_count(self.history@),
    {
        self.errors
    }

    /// Whether the stream is over: no further outcome may be offered.
    pub fn is_terminated(&self) -> (r: bool)
        ensures
            r == self.terminated,
    {
        self.terminated
    }
}

} // verus!
