use eq_bridge::error::BridgeError;
use eq_bridge::poller::Phase;
use eq_bridge::poller::Poller;
use eq_bridge::poller::Tick;
use eq_bridge::poller::WorkerStep;
use eq_bridge::poller::POLL_INTERVAL_MS;

#[test]
fn polls_are_a_tenth_of_a_second_apart() {
    assert_eq!(POLL_INTERVAL_MS, 100);
}

#[test]
fn new_poller_is_idle_and_shows_the_initial_frame() {
    let poller = Poller::new(vec![0.0f32; 128]);
    assert_eq!(poller.phase(), Phase::Idle);
    assert_eq!(poller.frame(), &vec![0.0f32; 128]);
    assert_eq!(poller.next_step(), WorkerStep::Exit);
}

#[test]
fn life_cycle_goes_from_idle_through_running_and_stopping_back_to_idle() {
    let mut poller: Poller<f32> = Poller::new(Vec::new());
    assert!(poller.start());
    assert_eq!(poller.phase(), Phase::Running);
    assert!(poller.request_stop());
    assert_eq!(poller.phase(), Phase::Stopping);
    poller.finish_stop();
    assert_eq!(poller.phase(), Phase::Idle);
    assert!(poller.start());
    assert_eq!(poller.phase(), Phase::Running);
}

#[test]
fn start_asks_for_one_task_only() {
    let mut poller: Poller<f32> = Poller::new(Vec::new());
    assert!(poller.start());
    assert!(!poller.start());
    assert_eq!(poller.phase(), Phase::Running);
    poller.request_stop();
    assert!(!poller.start());
    assert_eq!(poller.phase(), Phase::Stopping);
}

#[test]
fn task_polls_while_running_and_leaves_once_told_to_stop() {
    let mut poller: Poller<f32> = Poller::new(Vec::new());
    poller.start();
    assert_eq!(poller.next_step(), WorkerStep::Poll);
    assert_eq!(poller.next_step(), WorkerStep::Poll);
    poller.request_stop();
    assert_eq!(poller.next_step(), WorkerStep::Exit);
    poller.finish_stop();
    assert_eq!(poller.next_step(), WorkerStep::Exit);
}

#[test]
fn deliver_publishes_the_newest_frame_in_poll_order() {
    let mut poller = Poller::new(vec![0.0f32; 4]);
    poller.start();
    let first = poller.deliver(Ok(vec![0.25, 0.5]));
    assert_eq!(first, Tick { published: true, sleep_ms: 100 });
    assert_eq!(poller.frame(), &vec![0.25f32, 0.5]);
    let second = poller.deliver(Ok(vec![1.0, 2.0, 3.0]));
    assert!(second.published);
    assert_eq!(poller.frame(), &vec![1.0f32, 2.0, 3.0]);
}

#[test]
fn deliver_publishes_an_empty_frame() {
    let mut poller = Poller::new(vec![0.5f32; 3]);
    poller.start();
    assert!(poller.deliver(Ok(Vec::new())).published);
    assert!(poller.frame().is_empty());
}

#[test]
fn failed_poll_keeps_the_previous_frame_and_pauses_all_the_same() {
    let mut poller = Poller::new(vec![0.0f32; 2]);
    poller.start();
    poller.deliver(Ok(vec![0.75, 0.125]));
    for failure in [
        BridgeError::HandleAbsent,
        BridgeError::ForeignCallFailed(String::from("engine busy")),
        BridgeError::MarshalFailed,
    ] {
        let tick = poller.deliver(Err(failure));
        assert_eq!(tick, Tick { published: false, sleep_ms: 100 });
        assert_eq!(poller.frame(), &vec![0.75f32, 0.125]);
        assert_eq!(poller.next_step(), WorkerStep::Poll);
    }
}

#[test]
fn stop_right_after_start_lets_no_late_frame_through() {
    let mut poller = Poller::new(vec![0.0f32; 128]);
    assert!(poller.start());
    assert!(poller.request_stop());
    poller.finish_stop();
    let late = poller.deliver(Ok(vec![9.0; 16]));
    assert_eq!(late, Tick { published: false, sleep_ms: 100 });
    assert_eq!(poller.frame(), &vec![0.0f32; 128]);
    assert_eq!(poller.phase(), Phase::Idle);
}

#[test]
fn nothing_is_published_after_teardown_of_a_poller_that_had_frames() {
    let mut poller = Poller::new(Vec::new());
    poller.start();
    poller.deliver(Ok(vec![1u16, 2, 3]));
    poller.request_stop();
    poller.finish_stop();
    assert!(!poller.deliver(Ok(vec![4, 5, 6])).published);
    assert!(!poller.deliver(Err(BridgeError::MarshalFailed)).published);
    assert_eq!(poller.frame(), &vec![1u16, 2, 3]);
}

#[test]
fn poll_in_flight_during_teardown_is_published_until_the_task_has_ended() {
    let mut poller = Poller::new(Vec::new());
    poller.start();
    poller.request_stop();
    assert!(poller.deliver(Ok(vec![7u8])).published);
    assert_eq!(poller.frame(), &vec![7u8]);
    poller.finish_stop();
    assert!(!poller.deliver(Ok(vec![8u8])).published);
    assert_eq!(poller.frame(), &vec![7u8]);
}

#[test]
fn idle_poller_drops_whatever_is_delivered() {
    let mut poller = Poller::new(vec![3i32]);
    assert!(!poller.deliver(Ok(vec![4])).published);
    assert_eq!(poller.frame(), &vec![3]);
}

#[test]
fn request_stop_on_an_idle_poller_has_no_task_to_wait_for() {
    let mut poller: Poller<f32> = Poller::new(Vec::new());
    assert!(!poller.request_stop());
    assert_eq!(poller.phase(), Phase::Idle);
    poller.finish_stop();
    assert_eq!(poller.phase(), Phase::Idle);
}

#[test]
fn request_stop_twice_waits_once() {
    let mut poller: Poller<f32> = Poller::new(Vec::new());
    poller.start();
    assert!(poller.request_stop());
    assert!(!poller.request_stop());
    assert_eq!(poller.phase(), Phase::Stopping);
}

#[test]
fn finish_stop_does_not_end_a_running_poller() {
    let mut poller: Poller<f32> = Poller::new(Vec::new());
    poller.start();
    poller.finish_stop();
    assert_eq!(poller.phase(), Phase::Running);
}
