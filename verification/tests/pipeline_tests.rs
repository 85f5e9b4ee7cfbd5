use hncat::fetch::Fetcher;
use hncat::item::{FetchError, FetchOutcome, Item, ItemVariant};
use hncat::pipeline::Pipeline;
use hncat::stream::{Step, StreamFilter};

fn record(id: u32, time: i64) -> Item {
    Item::LiveItem {
        by: "author".to_string(),
        dead: false,
        id,
        time,
        variant: ItemVariant::Comment { kids: vec![], parent: 1, text: "text".to_string() },
    }
}

fn success(id: u32, time: i64) -> FetchOutcome {
    FetchOutcome::Success(record(id, time))
}

fn time_of(step: &Step) -> i64 {
    match step {
        Step::Passed(item) => item.time(),
        other => panic!("expected a passed record, got {:?}", other),
    }
}

#[test]
fn emission_follows_key_order_not_completion_order() {
    let mut fetcher = Fetcher::new(vec![9, 8, 7], 3);
    let (i0, k0) = fetcher.issue();
    let (i1, k1) = fetcher.issue();
    let (i2, k2) = fetcher.issue();
    assert_eq!((i0, k0), (0, 9));
    assert_eq!((i1, k1), (1, 8));
    assert_eq!((i2, k2), (2, 7));
    // Completions arrive backwards.
    fetcher.complete(i2, success(7, 30));
    assert!(fetcher.pop_ready().is_none());
    fetcher.complete(i1, success(8, 31));
    assert!(fetcher.pop_ready().is_none());
    fetcher.complete(i0, success(9, 32));
    // Outcomes still leave in key order.
    let first = fetcher.pop_ready().unwrap();
    let second = fetcher.pop_ready().unwrap();
    let third = fetcher.pop_ready().unwrap();
    for (outcome, want) in [(first, 32), (second, 31), (third, 30)] {
        match outcome {
            FetchOutcome::Success(item) => assert_eq!(item.time(), want),
            other => panic!("expected a record, got {:?}", other),
        }
    }
    assert!(fetcher.pop_ready().is_none());
}

#[test]
fn window_never_exceeds_the_budget() {
    let mut fetcher = Fetcher::new(vec![5, 4, 3, 2, 1], 2);
    assert!(fetcher.can_issue());
    let (i0, _) = fetcher.issue();
    assert!(fetcher.can_issue());
    let (i1, _) = fetcher.issue();
    // Two lookups are open: the window is full.
    assert!(!fetcher.can_issue());
    fetcher.complete(i1, success(4, 20));
    // Completion alone frees nothing: the slot leaves only on emission.
    assert!(!fetcher.can_issue());
    fetcher.complete(i0, success(5, 21));
    let _ = fetcher.pop_ready().unwrap();
    assert!(fetcher.can_issue());
}

#[test]
fn stopping_blocks_further_dispatch() {
    let mut fetcher = Fetcher::new(vec![5, 4, 3], 2);
    let (i0, _) = fetcher.issue();
    fetcher.stop();
    assert!(!fetcher.can_issue());
    // The open lookup still drains.
    fetcher.complete(i0, success(5, 10));
    assert!(fetcher.pop_ready().is_some());
    assert!(!fetcher.can_issue());
}

#[test]
fn failures_are_counted_and_dropped() {
    let mut filter = StreamFilter::new(None, None, 10);
    assert!(matches!(filter.offer(success(3, 30)), Step::Passed(_)));
    assert!(matches!(
        filter.offer(FetchOutcome::Failure(FetchError::Transient)),
        Step::Dropped
    ));
    assert!(matches!(
        filter.offer(FetchOutcome::Failure(FetchError::SchemaMismatch)),
        Step::Dropped
    ));
    assert!(matches!(filter.offer(success(1, 10)), Step::Passed(_)));
    assert_eq!(filter.error_tally(), 2);
    assert!(!filter.is_terminated());
}

#[test]
fn injected_failure_removes_exactly_its_own_record() {
    // The same stream twice, once with the middle lookup failing: exactly
    // that record is missing, the tally rises by one, the rest is intact.
    let mut clean = StreamFilter::new(None, None, 10);
    let mut clean_times: Vec<i64> = Vec::new();
    for (id, time) in [(5u32, 50i64), (4, 40), (3, 30)] {
        if let Step::Passed(item) = clean.offer(success(id, time)) {
            clean_times.push(item.time());
        }
    }
    let mut hit = StreamFilter::new(None, None, 10);
    let mut hit_times: Vec<i64> = Vec::new();
    for (id, time) in [(5u32, 50i64), (4, 40), (3, 30)] {
        let outcome = if id == 4 {
            FetchOutcome::Failure(FetchError::Transient)
        } else {
            success(id, time)
        };
        if let Step::Passed(item) = hit.offer(outcome) {
            hit_times.push(item.time());
        }
    }
    assert_eq!(clean_times, vec![50, 40, 30]);
    assert_eq!(hit_times, vec![50, 30]);
    assert_eq!(clean.error_tally(), 0);
    assert_eq!(hit.error_tally(), 1);
}

#[test]
fn skip_and_take_bounds_window_the_stream() {
    // Descending times 50,40,30,20,10 with end_date 35 and start_date 15
    // pass exactly 30 and 20.
    let mut filter = StreamFilter::new(Some(35), Some(15), 100);
    assert!(matches!(filter.offer(success(5, 50)), Step::Dropped));
    assert!(matches!(filter.offer(success(4, 40)), Step::Dropped));
    let a = filter.offer(success(3, 30));
    assert_eq!(time_of(&a), 30);
    let b = filter.offer(success(2, 20));
    assert_eq!(time_of(&b), 20);
    assert!(!filter.is_terminated());
    assert!(matches!(filter.offer(success(1, 10)), Step::Finished));
    assert!(filter.is_terminated());
    assert_eq!(filter.error_tally(), 0);
}

#[test]
fn skip_release_is_one_way() {
    // Once a record at or below end_date is seen, newer ones pass again.
    let mut filter = StreamFilter::new(Some(35), None, 100);
    assert!(matches!(filter.offer(success(9, 90)), Step::Dropped));
    assert!(matches!(filter.offer(success(3, 30)), Step::Passed(_)));
    assert!(matches!(filter.offer(success(2, 60)), Step::Passed(_)));
}

#[test]
fn limit_cuts_the_stream_and_stops_dispatch() {
    // Five keys, budget 2, limit 2: after the second passed record the
    // pipeline is done and refuses to open further lookups; only the
    // lookups the window needed were ever opened.
    let mut pipeline = Pipeline::new(vec![5, 4, 3, 2, 1], 2, None, None, 2);
    let mut passed: Vec<i64> = Vec::new();
    let mut issued: Vec<(usize, u32)> = Vec::new();
    let mut next_complete = 0;
    while !pipeline.is_done() {
        while pipeline.can_issue() {
            issued.push(pipeline.issue());
        }
        let (index, key) = issued[next_complete];
        next_complete += 1;
        pipeline.complete(index, success(key, 100 - index as i64));
        while let Some(step) = pipeline.pump() {
            if let Step::Passed(item) = step {
                passed.push(item.time());
            }
        }
    }
    assert_eq!(passed, vec![100, 99]);
    assert!(!pipeline.can_issue());
    assert_eq!(pipeline.error_tally(), 0);
    assert!(issued.len() <= 3);
}

#[test]
fn pipeline_windows_the_stream_and_counts_errors() {
    // Times 50,40,30,20,10 against end_date 35 and start_date 15, with the
    // second lookup failing: 30 and 20 come out, one error is counted, and
    // the record at 10 ends the stream.
    let mut pipeline = Pipeline::new(vec![5, 4, 3, 2, 1], 5, Some(35), Some(15), 100);
    let mut passed: Vec<i64> = Vec::new();
    let mut handles: Vec<(usize, u32)> = Vec::new();
    while pipeline.can_issue() {
        handles.push(pipeline.issue());
    }
    assert_eq!(handles.len(), 5);
    for (index, key) in handles {
        let outcome = if index == 1 {
            FetchOutcome::Failure(FetchError::Transient)
        } else {
            success(key, key as i64 * 10)
        };
        pipeline.complete(index, outcome);
        while let Some(step) = pipeline.pump() {
            if let Step::Passed(item) = step {
                passed.push(item.time());
            }
        }
    }
    assert_eq!(passed, vec![30, 20]);
    assert_eq!(pipeline.error_tally(), 1);
    assert!(pipeline.is_done());
}

#[test]
fn pipeline_preserves_order_under_completion_jitter() {
    let mut pipeline = Pipeline::new(vec![9, 8, 7], 3, None, None, 3);
    let mut handles: Vec<(usize, u32)> = Vec::new();
    while pipeline.can_issue() {
        handles.push(pipeline.issue());
    }
    let mut passed: Vec<i64> = Vec::new();
    for pick in [2usize, 0, 1] {
        let (index, key) = handles[pick];
        pipeline.complete(index, success(key, key as i64));
        while let Some(step) = pipeline.pump() {
            if let Step::Passed(item) = step {
                passed.push(item.time());
            }
        }
    }
    // Input order 9, 8, 7, however the completions interleaved.
    assert_eq!(passed, vec![9, 8, 7]);
    assert!(pipeline.is_done());
}

#[test]
fn zero_limit_finishes_before_any_dispatch() {
    let pipeline = Pipeline::new(vec![5, 4, 3], 2, None, None, 0);
    assert!(pipeline.is_done());
    assert!(!pipeline.can_issue());
}
