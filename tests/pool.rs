use consum::errors::DbError;
use consum::pool::{AcquireStep, PoolState, ReleaseOutcome, SlotState};

/// Runs an acquire to its end, answering probes with `healthy` and dials with success.
fn acquire(p: &mut PoolState, healthy: bool) -> AcquireStep {
    let mut step = p.begin_acquire(false);
    loop {
        step = match step {
            AcquireStep::Probe(id) => p.probe_finished(id, healthy),
            AcquireStep::Dial => p.dial_finished(Ok(())),
            other => return other,
        };
    }
}

#[test]
fn never_more_than_capacity_checked_out() {
    for n in 1..5usize {
        let mut p = PoolState::new(n);
        for k in 0..n {
            assert_eq!(acquire(&mut p, true), AcquireStep::Ready(k as u64));
        }
        assert_eq!(p.live_count(), n);
        assert_eq!(p.begin_acquire(false), AcquireStep::Wait);
        assert_eq!(p.begin_acquire(true), AcquireStep::Fail(DbError::PoolExhausted));
        assert_eq!(p.live_count(), n);
    }
}

#[test]
fn released_connection_is_reused_after_probe() {
    let mut p = PoolState::new(2);
    assert_eq!(acquire(&mut p, true), AcquireStep::Ready(0));
    assert_eq!(p.release(0, false), ReleaseOutcome::Returned);
    assert_eq!(p.idle_count(), 1);
    assert_eq!(p.begin_acquire(false), AcquireStep::Probe(0));
    assert_eq!(p.state_of(0), Some(SlotState::Probing));
    assert_eq!(p.probe_finished(0, true), AcquireStep::Ready(0));
    assert_eq!(p.idle_count(), 0);
}

#[test]
fn second_release_is_a_no_op() {
    let mut p = PoolState::new(1);
    assert_eq!(acquire(&mut p, true), AcquireStep::Ready(0));
    assert_eq!(p.release(0, false), ReleaseOutcome::Returned);
    assert_eq!(p.state_of(0), Some(SlotState::Idle));
    assert_eq!(p.release(0, false), ReleaseOutcome::NotCheckedOut);
    assert_eq!(p.idle_count(), 1);
    assert_eq!(p.live_count(), 1);
    assert_eq!(p.release(77, true), ReleaseOutcome::NotCheckedOut);
    assert_eq!(p.live_count(), 1);
}

#[test]
fn unhealthy_connection_is_replaced_in_the_same_acquire() {
    let mut p = PoolState::new(1);
    assert_eq!(acquire(&mut p, true), AcquireStep::Ready(0));
    p.release(0, false);
    assert_eq!(p.begin_acquire(false), AcquireStep::Probe(0));
    assert_eq!(p.probe_finished(0, false), AcquireStep::Dial);
    assert_eq!(p.state_of(0), None);
    assert_eq!(p.dial_finished(Ok(())), AcquireStep::Ready(1));
    assert_eq!(p.live_count(), 1);
}

#[test]
fn failed_dial_fails_the_acquire_and_frees_the_place() {
    let mut p = PoolState::new(1);
    assert_eq!(p.begin_acquire(false), AcquireStep::Dial);
    let e = DbError::Connect("refused".to_string());
    assert_eq!(p.dial_finished(Err(e.clone())), AcquireStep::Fail(e));
    assert_eq!(p.live_count(), 0);
    assert_eq!(p.begin_acquire(false), AcquireStep::Dial);
}

#[test]
fn cancelled_holder_releases_or_discards() {
    let mut p = PoolState::new(2);
    assert_eq!(acquire(&mut p, true), AcquireStep::Ready(0));
    assert_eq!(acquire(&mut p, true), AcquireStep::Ready(1));
    assert_eq!(p.release(0, false), ReleaseOutcome::Returned);
    assert_eq!(p.release(1, true), ReleaseOutcome::Discarded);
    assert_eq!(p.idle_count(), 1);
    assert_eq!(p.live_count(), 1);
    assert_eq!(p.state_of(1), None);
}

#[test]
fn cancelled_acquire_gives_its_place_back() {
    let mut p = PoolState::new(1);
    assert_eq!(p.begin_acquire(false), AcquireStep::Dial);
    p.abandon_dial();
    assert_eq!(p.live_count(), 0);
    assert_eq!(acquire(&mut p, true), AcquireStep::Ready(0));
    p.release(0, false);
    assert_eq!(p.begin_acquire(false), AcquireStep::Probe(0));
    p.abandon_probe(0);
    assert_eq!(p.live_count(), 0);
    assert_eq!(p.capacity(), 1);
    assert!(p.can_issue_id());
}
