//! Dispatch epoch tracking.

use zunesha::epoch::GpuEpochTracker;

#[test]
fn new_tracker_is_quiescent() {
    let tracker = GpuEpochTracker::new();
    assert_eq!(tracker.in_flight(), 0);
    assert!(tracker.is_quiescent());
}

#[test]
fn begin_dispatch_increments_counter() {
    let mut tracker = GpuEpochTracker::new();
    tracker.begin_dispatch();
    assert_eq!(tracker.in_flight(), 1);
    assert!(!tracker.is_quiescent());
}

#[test]
fn end_dispatch_decrements_counter() {
    let mut tracker = GpuEpochTracker::new();
    tracker.begin_dispatch();
    tracker.end_dispatch();
    assert_eq!(tracker.in_flight(), 0);
    assert!(tracker.is_quiescent());
}

#[test]
fn multiple_concurrent_dispatches_track_correctly() {
    let mut tracker = GpuEpochTracker::new();
    tracker.begin_dispatch();
    tracker.begin_dispatch();
    tracker.begin_dispatch();
    assert_eq!(tracker.in_flight(), 3);

    tracker.end_dispatch();
    assert_eq!(tracker.in_flight(), 2);
    assert!(!tracker.is_quiescent());

    tracker.end_dispatch();
    tracker.end_dispatch();
    assert_eq!(tracker.in_flight(), 0);
    assert!(tracker.is_quiescent());
}

#[test]
fn interleaved_begin_end_tracks_correctly() {
    let mut tracker = GpuEpochTracker::new();

    tracker.begin_dispatch();
    assert_eq!(tracker.in_flight(), 1);

    tracker.begin_dispatch();
    assert_eq!(tracker.in_flight(), 2);

    tracker.end_dispatch();
    assert_eq!(tracker.in_flight(), 1);

    tracker.end_dispatch();
    assert!(tracker.is_quiescent());
}

#[test]
fn default_trait_impl_matches_new() {
    let default = GpuEpochTracker::default();
    assert_eq!(default.in_flight(), 0);
    assert!(default.is_quiescent());
}

#[test]
fn count_is_begun_minus_ended() {
    let mut tracker = GpuEpochTracker::new();
    let mut begun = 0u64;
    let mut ended = 0u64;
    for round in 0..50u64 {
        if round % 3 == 2 {
            tracker.end_dispatch();
            ended += 1;
        } else {
            tracker.begin_dispatch();
            begun += 1;
        }
        assert_eq!(tracker.in_flight(), begun - ended);
        assert_eq!(tracker.is_quiescent(), begun == ended);
    }
}

#[test]
fn a_shared_tracker_sees_both_parties() {
    let mut tracker = GpuEpochTracker::new();
    // Compute begins, graphics begins, compute ends: graphics still runs.
    tracker.begin_dispatch();
    tracker.begin_dispatch();
    tracker.end_dispatch();
    assert!(!tracker.is_quiescent());
    tracker.end_dispatch();
    assert!(tracker.is_quiescent());
}

#[test]
fn several_completions_count_at_once() {
    let mut tracker = GpuEpochTracker::new();
    for _ in 0..5 {
        tracker.begin_dispatch();
    }
    tracker.end_dispatches(3);
    assert_eq!(tracker.in_flight(), 2);
    tracker.end_dispatches(0);
    assert_eq!(tracker.in_flight(), 2);
    tracker.end_dispatches(2);
    assert!(tracker.is_quiescent());
}
