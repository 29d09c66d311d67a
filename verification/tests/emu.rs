use slot::emu::{
    blend, clamp_fast_steps, started, drain_transport, flush_outbound, clamp_volume, last_frame, plan, snapshot_due, CoreState, Plan, Speed,
    FAST_BUDGET_NS, FAST_STEPS, FAST_STEPS_MAX, MAX_LINK_PACKETS_PER_PRESENT,
};

#[test]
fn speeds_and_states_read_back_through_their_codes() {
    for s in [Speed::Paused, Speed::Normal, Speed::Fast] {
        assert_eq!(Speed::from_u8(s.code()), s);
    }
    for s in [CoreState::Loading, CoreState::Ready, CoreState::Failed] {
        assert_eq!(CoreState::from_u8(s.code()), s);
    }
}

#[test]
fn a_present_plans_its_frames() {
    assert_eq!(
        plan(Speed::Paused, true, 4, true),
        Plan { muted: false, idle: true, rewinding: false, ceiling: 0, audible: true }
    );
    assert_eq!(
        plan(Speed::Normal, false, 4, false),
        Plan { muted: false, idle: false, rewinding: false, ceiling: 1, audible: true }
    );
    assert_eq!(
        plan(Speed::Fast, true, 6, false),
        Plan { muted: true, idle: false, rewinding: true, ceiling: 6, audible: false }
    );
}

#[test]
fn the_fast_forward_row_is_held_to_its_range() {
    assert_eq!(clamp_fast_steps(0), 1);
    assert_eq!(clamp_fast_steps(FAST_STEPS), 4);
    assert_eq!(clamp_fast_steps(99), FAST_STEPS_MAX);
    assert_eq!(clamp_volume(250), 100);
    assert_eq!(clamp_volume(37), 37);
}

#[test]
fn the_last_frame_is_the_ceiling_or_the_budget() {
    assert!(last_frame(4, 4, 0, 0));
    assert!(!last_frame(1, 4, 1_000_000, 1_000_000));
    assert!(last_frame(1, 4, FAST_BUDGET_NS - 1, 1));
    assert!(!last_frame(1, 4, FAST_BUDGET_NS - 2, 1));
    assert!(last_frame(1, 4, u64::MAX, u64::MAX));
}

#[test]
fn a_measurement_replaces_a_quarter_of_the_estimate() {
    assert_eq!(blend(4_000_000, 8_000_000), 5_000_000);
    assert_eq!(blend(u64::MAX, u64::MAX), u64::MAX);
    assert_eq!(blend(0, 3), 0);
}

#[test]
fn every_other_present_snapshots() {
    assert_eq!(snapshot_due(0), (false, 1));
    assert_eq!(snapshot_due(1), (true, 0));
    assert_eq!(MAX_LINK_PACKETS_PER_PRESENT, 256);
}

#[test]
fn drain_transport_stops_at_the_cap_and_leaves_the_rest_queued() {
    let mut transport: std::collections::VecDeque<Vec<u8>> = (0..10u8).map(|i| vec![i]).collect();
    let mut inbound = std::collections::VecDeque::new();

    drain_transport(&mut transport, &mut inbound, 4);

    let got: Vec<u8> = inbound.iter().map(|p| p[0]).collect();
    assert_eq!(got, vec![0, 1, 2, 3], "the cap must stop the drain, not just slow it");
    assert_eq!(
        transport.pop_front(),
        Some(vec![4]),
        "packets past the cap must stay queued in the transport, not be dropped"
    );
}

#[test]
fn drain_transport_moves_everything_under_the_cap() {
    let mut transport: std::collections::VecDeque<Vec<u8>> =
        vec![b"one".to_vec(), b"two".to_vec()].into_iter().collect();
    let mut inbound = std::collections::VecDeque::new();

    drain_transport(&mut transport, &mut inbound, MAX_LINK_PACKETS_PER_PRESENT);

    assert_eq!(inbound.pop_front().as_deref(), Some(&b"one"[..]));
    assert_eq!(inbound.pop_front().as_deref(), Some(&b"two"[..]));
    assert_eq!(inbound.pop_front(), None);
}

#[test]
fn flush_outbound_sends_everything_in_order_when_there_is_a_transport() {
    let mut outbound: std::collections::VecDeque<Vec<u8>> =
        vec![vec![1u8], vec![2u8]].into_iter().collect();
    let mut none: Option<Vec<Vec<u8>>> = None;
    flush_outbound(&mut none, &mut outbound);
    assert_eq!(outbound.len(), 2);
    let mut sent = Some(vec![vec![0u8]]);
    flush_outbound(&mut sent, &mut outbound);
    assert_eq!(sent, Some(vec![vec![0u8], vec![1u8], vec![2u8]]));
    assert!(outbound.is_empty());
}

#[test]
fn a_refused_region_is_not_trusted_but_the_start_goes_on() {
    let s = started(true, Some(false), None);
    assert_eq!(s.state, CoreState::Ready);
    assert!(!s.save_ram_trusted);
    assert!(s.resume_trusted);
    let s = started(true, Some(true), Some(false));
    assert!(s.save_ram_trusted && !s.resume_trusted);
    assert_eq!(started(false, Some(true), Some(true)).state, CoreState::Failed);
}
