use moonshine::video::pacer::{
    batch_schedule, configure_pacing, wire_rate_with_headroom, Pacing, TARGET_BURST_NANOS,
};

#[test]
fn derives_rate_from_client_bitrate_with_headroom() {
    assert_eq!(wire_rate_with_headroom(60_000_000, 200), 120_000_000);
    assert_eq!(wire_rate_with_headroom(60_000_000, 0), 0);
}

#[test]
fn schedules_small_gso_bursts_at_derived_rate() {
    let schedule = batch_schedule(1392, 100, 46, 120_000_000, 13_000_000, 0);
    assert_eq!(schedule.segments_per_send, 5);
    assert!(!schedule.deadline_clamped);
    assert_eq!(schedule.pacing_interval, 487_334);
}

#[test]
fn accelerates_large_frames_to_meet_budget() {
    let schedule = batch_schedule(1392, 500, 46, 120_000_000, 13_000_000, 0);
    assert_eq!(schedule.segments_per_send, 19);
    assert!(schedule.deadline_clamped);
    assert!(schedule.pacing_interval as u128 <= TARGET_BURST_NANOS);
}

#[test]
fn respects_gso_segment_limit() {
    let schedule = batch_schedule(1392, 100, 3, 120_000_000, 13_000_000, 0);
    assert_eq!(schedule.segments_per_send, 3);
}

#[test]
fn pacing_needs_bitrate_frame_rate_and_headroom() {
    let paced = |percent| Pacing { target_wire_rate_bps: 120_000_000, frame_budget_percent: percent };
    assert_eq!(configure_pacing(60_000_000, 60, 200, 80), Some(paced(80)));
    assert_eq!(configure_pacing(60_000_000, 60, 200, 0), Some(paced(1)));
    assert_eq!(configure_pacing(60_000_000, 60, 200, 101), Some(paced(100)));
    assert_eq!(configure_pacing(0, 60, 200, 80), None);
    assert_eq!(configure_pacing(60_000_000, 0, 200, 80), None);
    assert_eq!(configure_pacing(60_000_000, 60, 0, 80), None);
    assert_eq!(wire_rate_with_headroom(usize::MAX, 200), u64::MAX);
    assert_eq!(wire_rate_with_headroom(1, 1), 1);
}

#[test]
fn bursts_move_the_schedule_on() {
    let mut schedule = batch_schedule(1392, 100, 46, 120_000_000, 13_000_000, 1_000);
    schedule.advance(5);
    assert_eq!(schedule.next_send, 1_000 + 487_334);
    schedule.advance(0);
    assert_eq!(schedule.next_send, 1_000 + 487_334);
}

#[test]
fn a_frame_is_through_within_its_budget() {
    let mut raised = batch_schedule(1000, 100, 46, 1, 8_000_000, 1_000);
    assert!(raised.deadline_clamped);
    assert_eq!(raised.wire_rate_bps, 107_000_000);
    raised.advance(100);
    assert_eq!(raised.next_send, 1_000 + 8_000_000);

    let mut fast = batch_schedule(1000, 100, 46, 856_000_000, 8_000_000, 1_000);
    assert!(!fast.deadline_clamped);
    fast.advance(100);
    assert_eq!(fast.next_send, 1_000 + 1_000_000);

    let mut none = batch_schedule(1000, 100, 46, 1, 0, 1_000);
    none.advance(100);
    assert_eq!(none.next_send, 1_001);
}
