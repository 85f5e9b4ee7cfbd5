//! Resolution of the closed-open ID interval to visit, and the descending
//! ID sequence that the fetch window consumes.

use vstd::prelude::*;

verus! {

/// Optional lower and upper bounds on the numeric IDs to visit.
pub struct IDRangeFilter {
    /// Fetch records with IDs at least this high.
    pub start_id: Option<u32>,
    /// Fetch records with IDs below this.
    pub stop_id: Option<u32>,
}

/// The closed-open interval `[start, stop)` that a filter and a discovered
/// maximum ID resolve to.
pub open spec fn resolved_interval(filter: IDRangeFilter, max_id: u32) -> (u32, u32) {
    match (filter.start_id, filter.stop_id) {
        (Some(start), Some(stop)) => (start, stop),
        (Some(start), None) => (start, max_id),
        (None, Some(stop)) => (0u32, stop),
        (None, None) => (0u32, max_id),
    }
}

/// The IDs of `[start, stop)` newest first: `stop - 1, stop - 2, ..., start`.
pub open spec fn descending_ids(start: int, stop: int) -> Seq<u32> {
    if start <= stop {
        Seq::new((stop - start) as nat, |i: int| (stop - 1 - i) as u32)
    } else {
        Seq::empty()
    }
}

impl IDRangeFilter {
    /// Resolve the interval of IDs to visit: explicit bounds win, a missing
    /// lower bound is zero, a missing upper bound is the discovered maximum.
    pub fn resolve(&self, max_id: u32) -> (r: (u32, u32))
        ensures
            r == resolved_interval(*self, max_id),
    {
        match (self.start_id, self.stop_id) {
            (Some(start), Some(stop)) => (start, stop),
            (Some(start), None) => (start, max_id),
            (None, Some(stop)) => (0, stop),
            (None, None) => (0, max_id),
        }
    }
}

/// Materialize the IDs of `[start, stop)` newest first.
pub fn build_ids(start: u32, stop: u32) -> (ids: Vec<u32>)
    ensures
        ids@ == descending_ids(start as int, stop as int),
{
    let mut ids: Vec<u32> = Vec::new();
    let mut cur: u32 = if stop > start { stop } else { start };
    while cur > start
        invariant
            start <= cur <= stop || (cur == start && stop <= start),
            ids@.len() == stop - cur || (ids@.len() == 0 && stop <= start),
            forall|i: int| 0 <= i < ids@.len() ==> ids@[i] == stop - 1 - i,
        decreases cur,
    {
        cur = cur - 1;
        ids.push(cur);
    }
    proof {
        assert(ids@ =~= descending_ids(start as int, stop as int));
    }
    ids
}

} // verus!
