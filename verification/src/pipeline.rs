//! The whole pipeline: the bounded ordered fetcher feeding the failure
//! counter, the time window and the row limiter.
//!
//! A driver loop owns the actual lookups. It asks `issue` for keys while
//! `can_issue` allows, reports every arrival through `complete`, and calls
//! `pump` to move one ordered outcome at a time through the downstream
//! stages. Once the stages terminate the stream, the fetcher is stopped:
//! nothing further is issued, and what is still in flight drains into the
//! reorder buffer and stays there, discarded.

use vstd::prelude::*;
use crate::fetch::Fetcher;
use crate::item::FetchOutcome;
use crate::stream::{window_output, Step, StreamFilter};

verus! {

/// The fetch window and the downstream stages, glued by one invariant:
/// the stages have consumed exactly the outcomes the fetcher emitted, in
/// order, and a terminated stream has stopped the fetcher.
pub struct Pipeline {
    pub fetcher: Fetcher,
    pub filter: StreamFilter,
}

impl Pipeline {
    /// Both halves are well-formed, the stages' history is exactly the
    /// fetcher's ordered emissions, and termination has propagated.
    pub open spec fn wf(self) -> bool {
        &&& self.fetcher.wf()
        &&& self.filter.wf()
        &&& self.filter.history@ == self.fetcher.emitted@
        &&& self.filter.terminated ==> self.fetcher.stopped
    }

    /// The records passed downstream so far.
    pub open spec fn emitted_records(self) -> Seq<crate::item::Item> {
        self.filter.passed@
    }

    /// A fresh pipeline over the descending `ids` with concurrency budget
    /// `concurrency`, the two optional time bounds, and the row limit.
    pub fn new(
        ids: Vec<u32>,
        concurrency: usize,
        end_date: Option<i64>,
        start_bound: Option<i64>,
        limit: usize,
    ) -> (r: Pipeline)
        requires
            concurrency >= 1,
        ensures
            r.wf(),
            r.fetcher.ids@ == ids@,
            r.fetcher.capacity == concurrency,
            r.fetcher.emitted@ == Seq::<FetchOutcome>::empty(),
            r.fetcher.issued_count == 0,
            r.filter.end_date == end_date,
            r.filter.start_bound == start_bound,
            r.filter.limit == limit,
            r.filter.passed@ == Seq::<crate::item::Item>::empty(),
            r.filter.errors == 0,
    {
        let mut fetcher = Fetcher::new(ids, concurrency);
        let filter = StreamFilter::new(end_date, start_bound, limit);
        if filter.is_terminated() {
            fetcher.stop();
        }
        Pipeline { fetcher, filter }
    }

    /// Whether the driver may open one more lookup.
    pub fn can_issue(&self) -> (r: bool)
        ensures
            r == self.fetcher.can_issue_spec(),
    {
        self.fetcher.can_issue()
    }

    /// Hand out the next lookup: its sequence index and its key.
    pub fn issue(&mut self) -> (r: (usize, u32))
        requires
            old(self).wf(),
            old(self).fetcher.can_issue_spec(),
        ensures
            final(self).wf(),
            r.0 == old(self).fetcher.issued_count,
            r.1 == old(self).fetcher.ids@[r.0 as int],
            final(self).fetcher.issued_count == old(self).fetcher.issued_count + 1,
            final(self).fetcher.ids == old(self).fetcher.ids,
            final(self).fetcher.capacity == old(self).fetcher.capacity,
            final(self).fetcher.emitted@ == old(self).fetcher.emitted@,
            final(self).filter == old(self).filter,
    {
        self.fetcher.issue()
    }

    /// Report the completion of the lookup with sequence index `index`.
    pub fn complete(&mut self, index: usize, outcome: FetchOutcome)
        requires
            old(self).wf(),
            old(self).fetcher.emitted_count <= index < old(self).fetcher.issued_count,
            old(self).fetcher.buf@[index - old(self).fetcher.emitted_count] is None,
        ensures
            final(self).wf(),
            final(self).fetcher.completions@ == old(self).fetcher.completions@.insert(
                index as int,
                outcome,
            ),
            final(self).fetcher.emitted@ == old(self).fetcher.emitted@,
            final(self).fetcher.issued_count == old(self).fetcher.issued_count,
            final(self).fetcher.ids == old(self).fetcher.ids,
            final(self).fetcher.capacity == old(self).fetcher.capacity,
            final(self).filter == old(self).filter,
    {
        self.fetcher.complete(index, outcome)
    }

    /// Move one outcome through the stages, if the stream is still open
    /// and the next outcome in key order has arrived. A terminated stream
    /// consumes nothing: what drains later stays in the buffer, discarded.
    pub fn pump(&mut self) -> (r: Option<Step>)
        requires
            old(self).wf(),
        ensures
            final(self).wf(),
            final(self).fetcher.ids == old(self).fetcher.ids,
            final(self).fetcher.capacity == old(self).fetcher.capacity,
            final(self).fetcher.issued_count == old(self).fetcher.issued_count,
            final(self).filter.end_date == old(self).filter.end_date,
            final(self).filter.start_bound == old(self).filter.start_bound,
            final(self).filter.limit == old(self).filter.limit,
            !old(self).filter.terminated && old(self).fetcher.buf@.len() > 0 && old(
                self,
            ).fetcher.buf@[0] is Some ==> r is Some,
            r is None ==> {
                &&& final(self).fetcher.emitted@ == old(self).fetcher.emitted@
                &&& final(self).filter.passed@ == old(self).filter.passed@
                &&& final(self).filter.errors == old(self).filter.errors
                &&& final(self).filter.terminated == old(self).filter.terminated
            },
            r matches Some(step) ==> ({
                let o = old(self).fetcher.buf@[0]->0;
                let pre = old(self).filter;
                let post = final(self).filter;
                &&& !pre.terminated
                &&& old(self).fetcher.buf@.len() > 0 && old(self).fetcher.buf@[0] is Some
                &&& final(self).fetcher.emitted@ == old(self).fetcher.emitted@.push(o)
                &&& post.history@ == pre.history@.push(o)
                &&& (o matches FetchOutcome::Failure(_) ==> step is Dropped && post.errors
                    == pre.errors + 1 && post.passed@ == pre.passed@)
                &&& (o matches FetchOutcome::Success(it) ==> post.errors == pre.errors && (
                if pre.skipping && it.spec_time() > pre.end_date->0 {
                    step is Dropped && post.passed@ == pre.passed@ && !post.terminated
                } else if pre.start_bound is Some && it.spec_time() < pre.start_bound->0 {
                    step is Finished && post.passed@ == pre.passed@ && post.terminated
                        && final(self).fetcher.stopped
                } else {
                    step == Step::Passed(it) && post.passed@ == pre.passed@.push(it)
                        && post.terminated == (pre.passed@.len() + 1 == pre.limit) && (
                    post.terminated ==> final(self).fetcher.stopped)
                }))
            }),
    {
        if self.filter.is_terminated() {
            return None;
        }
        let next = self.fetcher.pop_ready();
        match next {
            None => None,
            Some(outcome) => {
                let step = self.filter.offer(outcome);
                if self.filter.is_terminated() {
                    self.fetcher.stop();
                }
                Some(step)
            },
        }
    }

    /// How many lookups failed so far.
    pub fn error_tally(&self) -> (r: usize)
        ensures
            r == self.filter.errors,
    {
        self.filter.error_tally()
    }

    /// Whether the stream is over: the lower time bound was crossed or the
    /// row limit was reached.
    pub fn is_done(&self) -> (r: bool)
        ensures
            r == self.filter.terminated,
    {
        self.filter.is_terminated()
    }
}

/// The records the pipeline has passed downstream are exactly the stages'
/// output for the fetcher's ordered emissions.
pub proof fn lemma_pipeline_output(p: Pipeline)
    requires
        p.wf(),
    ensures
        p.filter.passed@ == window_output(
            p.fetcher.emitted@,
            p.filter.end_date,
            p.filter.start_bound,
            p.filter.limit as nat,
        ),
{
}

/// Limit precedence: once the limiter has passed its whole quota, the
/// stream is terminated, the fetcher is stopped, and no further lookup can
/// be issued.
pub proof fn lemma_limit_stops_dispatch(p: Pipeline)
    requires
        p.wf(),
        p.filter.passed@.len() == p.filter.limit,
    ensures
        !p.fetcher.can_issue_spec(),
{
}

} // verus!
