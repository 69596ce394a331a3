use motion_extract::coordinator::coordinator_step;
use motion_extract::coordinator::stage_step;
use motion_extract::coordinator::PipelineEvent;
use motion_extract::coordinator::PipelineState;
use motion_extract::coordinator::StageEvent;
use motion_extract::coordinator::StageStatus;
use motion_extract::display::DisplayMode;
use motion_extract::display::FULLSCREEN_HEIGHT;
use motion_extract::display::FULLSCREEN_WIDTH;
use motion_extract::queue::BoundedQueue;
use motion_extract::ring::HistoryRing;
use motion_extract::QUEUE_CAPACITY;

#[test]
fn ring_length_is_min_of_pushes_and_capacity() {
    let capacity = 6;
    let mut ring = HistoryRing::new(capacity);
    for m in 1..=20 {
        ring.push(vec![m as u32]);
        assert_eq!(ring.len(), m.min(capacity));
        // Lag 0 is always the frame pushed last.
        assert_eq!(ring.at_lag(0).as_slice(), &[m as u32]);
    }
}

#[test]
fn ring_lag_clamps_to_oldest_frame() {
    // One all-zero frame in a ring of capacity 9: every lag, however
    // large, clamps to that frame.
    let zero = vec![0u32; 4];
    let mut ring = HistoryRing::new(9);
    ring.push(zero.clone());
    assert_eq!(ring.len(), 1);
    assert_eq!(ring.at_lag(5).as_slice(), zero.as_slice());
    assert_eq!(ring.at_lag(8).as_slice(), zero.as_slice());
    assert_eq!(ring.at_lag(50).as_slice(), zero.as_slice());
}

#[test]
fn ring_evicts_oldest_when_full() {
    let mut ring = HistoryRing::new(3);
    for v in 1..=5u32 {
        ring.push(vec![v]);
    }
    assert_eq!(ring.len(), 3);
    // Oldest retained is 3, newest is 5.
    assert_eq!(ring.at_lag(2).as_slice(), &[3u32]);
    assert_eq!(ring.at_lag(1).as_slice(), &[4u32]);
    assert_eq!(ring.at_lag(0).as_slice(), &[5u32]);
}

#[test]
fn full_queues_refuse_further_sends() {
    // Both hand-off queues at capacity with the consumer paused: the next
    // send is refused and hands the item back; nothing is dropped and
    // nothing grows.
    let mut capture_q: BoundedQueue<Vec<u8>> = BoundedQueue::new(QUEUE_CAPACITY);
    let mut decode_q: BoundedQueue<Vec<u32>> = BoundedQueue::new(QUEUE_CAPACITY);
    for i in 0..QUEUE_CAPACITY {
        assert!(capture_q.try_send(vec![i as u8]).is_ok());
        assert!(decode_q.try_send(vec![i as u32]).is_ok());
    }
    assert_eq!(capture_q.len(), QUEUE_CAPACITY);
    assert_eq!(decode_q.len(), QUEUE_CAPACITY);
    match capture_q.try_send(vec![99]) {
        Ok(()) => panic!("send on a full queue must be refused"),
        Err(item) => assert_eq!(item, vec![99]),
    }
    match decode_q.try_send(vec![77]) {
        Ok(()) => panic!("send on a full queue must be refused"),
        Err(item) => assert_eq!(item, vec![77]),
    }
    assert_eq!(capture_q.len(), QUEUE_CAPACITY);
    assert_eq!(decode_q.len(), QUEUE_CAPACITY);
}

#[test]
fn queue_hands_items_out_in_arrival_order() {
    let mut q: BoundedQueue<u32> = BoundedQueue::new(3);
    assert_eq!(q.try_recv(), None);
    q.try_send(1).unwrap();
    q.try_send(2).unwrap();
    q.try_send(3).unwrap();
    assert_eq!(q.try_recv(), Some(1));
    assert_eq!(q.try_recv(), Some(2));
    q.try_send(4).unwrap();
    assert_eq!(q.try_recv(), Some(3));
    assert_eq!(q.try_recv(), Some(4));
    assert_eq!(q.try_recv(), None);
}

#[test]
fn cancellation_stops_a_stage_on_its_next_check() {
    // A stage blocked in a device call keeps running until the call
    // yields; whatever it yielded, the next poll of the cancellation
    // signal stops the stage.
    assert_eq!(stage_step(StageStatus::Active, StageEvent::CancelSignaled), StageStatus::Stopped);
    assert_eq!(stage_step(StageStatus::Active, StageEvent::Delivered), StageStatus::Active);
    // A stopped stage stays stopped, whatever arrives afterwards.
    for ev in [
        StageEvent::CancelSignaled,
        StageEvent::UpstreamClosed,
        StageEvent::WorkFailed,
        StageEvent::DownstreamClosed,
        StageEvent::Delivered,
    ] {
        assert_eq!(stage_step(StageStatus::Stopped, ev), StageStatus::Stopped);
    }
}

#[test]
fn fail_stop_events_stop_an_active_stage() {
    for ev in [StageEvent::UpstreamClosed, StageEvent::WorkFailed, StageEvent::DownstreamClosed] {
        assert_eq!(stage_step(StageStatus::Active, ev), StageStatus::Stopped);
    }
}

#[test]
fn coordinator_runs_drains_then_joins() {
    let mut state = PipelineState::Running;
    state = coordinator_step(state, PipelineEvent::CloseRequested);
    assert_eq!(state, PipelineState::Draining);
    // Draining holds until both stages have returned.
    state = coordinator_step(state, PipelineEvent::DisplayFailed);
    assert_eq!(state, PipelineState::Draining);
    state = coordinator_step(state, PipelineEvent::StagesJoined);
    assert_eq!(state, PipelineState::Joined);
    // Joined is terminal.
    state = coordinator_step(state, PipelineEvent::CloseRequested);
    assert_eq!(state, PipelineState::Joined);
}

#[test]
fn every_failure_path_begins_draining() {
    for ev in [
        PipelineEvent::CloseRequested,
        PipelineEvent::FrameChannelClosed,
        PipelineEvent::DisplayFailed,
    ] {
        assert_eq!(coordinator_step(PipelineState::Running, ev), PipelineState::Draining);
    }
}

#[test]
fn fullscreen_toggle_saves_and_restores_geometry() {
    let mut mode = DisplayMode::initial(1280, 720);
    assert!(!mode.fullscreen);

    let req = mode.toggle(1024, 600, 100, 200);
    assert!(mode.fullscreen);
    assert_eq!(req.width, FULLSCREEN_WIDTH);
    assert_eq!(req.height, FULLSCREEN_HEIGHT);
    assert!(req.borderless && req.topmost && req.hide_cursor);
    assert!(!req.resize && !req.restore_position);

    let back = mode.toggle(1920, 1080, 0, 0);
    assert!(!mode.fullscreen);
    assert_eq!(back.width, 1024);
    assert_eq!(back.height, 600);
    assert!(back.resize && !back.borderless && !back.topmost);
    assert!(back.restore_position);
    assert_eq!(back.position_x, 100 - 4);
    assert_eq!(back.position_y, 200 - 46);
}
