use halreslib::fetch_pool::{FetchPool, PoolStep};
use halreslib::pipeline::FetchOutcome;

fn body_of(o: &FetchOutcome) -> String {
    match o {
        FetchOutcome::Received { body, .. } => body.clone(),
        _ => String::new(),
    }
}

#[test]
fn zero_cap_is_refused() {
    assert!(FetchPool::new(3, 0).is_none());
}

#[test]
fn never_more_than_cap_in_flight() {
    let mut pool = FetchPool::new(100, 16).unwrap();
    let mut in_flight: Vec<usize> = Vec::new();
    let mut most = 0;
    let mut turn = 0usize;
    loop {
        match pool.next_step() {
            PoolStep::Launch(i) => {
                in_flight.push(i);
                most = most.max(in_flight.len());
                assert!(pool.in_flight() <= 16);
            }
            PoolStep::Wait => {
                // complete an arbitrary in-flight fetch, not the oldest
                turn += 7;
                let k = turn % in_flight.len();
                let i = in_flight.remove(k);
                let o = FetchOutcome::Received { status: 200, body: format!("{}", i) };
                assert!(pool.complete(i, o));
            }
            PoolStep::Done => break,
        }
    }
    assert_eq!(most, 16);
    let outcomes = pool.into_outcomes().unwrap();
    assert_eq!(outcomes.len(), 100);
    for (i, o) in outcomes.iter().enumerate() {
        assert_eq!(body_of(o), format!("{}", i));
    }
}

#[test]
fn completion_of_unstarted_or_finished_fetch_is_refused() {
    let mut pool = FetchPool::new(2, 1).unwrap();
    assert!(!pool.complete(0, FetchOutcome::Unreachable));
    assert!(matches!(pool.next_step(), PoolStep::Launch(0)));
    assert!(matches!(pool.next_step(), PoolStep::Wait));
    assert!(pool.complete(0, FetchOutcome::Unreachable));
    assert!(!pool.complete(0, FetchOutcome::Unreachable));
    assert!(!pool.complete(5, FetchOutcome::Unreachable));
    assert!(matches!(pool.next_step(), PoolStep::Launch(1)));
    assert!(pool.complete(1, FetchOutcome::Unreadable));
    assert!(matches!(pool.next_step(), PoolStep::Done));
}

#[test]
fn outcomes_unavailable_before_done() {
    let mut pool = FetchPool::new(2, 2).unwrap();
    assert!(matches!(pool.next_step(), PoolStep::Launch(0)));
    assert!(pool.complete(0, FetchOutcome::Unreachable));
    assert!(pool.into_outcomes().is_none());
}

#[test]
fn empty_batch_is_done_at_once() {
    let mut pool = FetchPool::new(0, 16).unwrap();
    assert_eq!(pool.total(), 0);
    assert_eq!(pool.cap(), 16);
    assert!(matches!(pool.next_step(), PoolStep::Done));
    assert_eq!(pool.into_outcomes().map(|v| v.len()), Some(0));
}
