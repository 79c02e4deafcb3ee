use kinesix::poller::{poll_signals_ready, poller_should_exit, POLLIN};
use kinesix::{
    EventPollerThread, GestureDelegate, GestureEvent, GestureType, KinesixBackend, PinchType,
    SwipeDirection,
};

struct Recorder {
    swipes: Vec<(SwipeDirection, i32)>,
    pinches: Vec<(PinchType, i32)>,
}

impl Recorder {
    fn new() -> Recorder {
        Recorder { swipes: Vec::new(), pinches: Vec::new() }
    }
}

impl GestureDelegate for Recorder {
    fn on_swipe(&mut self, direction: SwipeDirection, finger_count: i32) {
        self.swipes.push((direction, finger_count));
    }

    fn on_pinch(&mut self, pinch_type: PinchType, finger_count: i32) {
        self.pinches.push((pinch_type, finger_count));
    }
}

#[test]
fn stop_polling_twice_joins_only_once() {
    let mut b = KinesixBackend::new(Recorder::new());
    b.start_polling();
    assert!(b.stop_polling());
    // The second stop owes no join and leaves the record as it is.
    assert!(!b.stop_polling());
    let t = b.event_poller_thread.unwrap();
    assert!(t.cancelation_requested);
    assert!(!t.handle_present);
}

#[test]
fn stop_polling_without_a_poller_is_harmless() {
    let mut b = KinesixBackend::new(Recorder::new());
    assert!(!b.stop_polling());
    assert_eq!(b.event_poller_thread, None);
}

#[test]
fn start_polling_records_a_fresh_poller() {
    let mut b = KinesixBackend::new(Recorder::new());
    b.start_polling();
    assert_eq!(
        b.event_poller_thread,
        Some(EventPollerThread { cancelation_requested: false, handle_present: true })
    );
}

#[test]
fn join_reports_the_obligation_at_most_once() {
    let mut t = EventPollerThread::spawned();
    assert!(t.join());
    assert!(!t.join());
}

#[test]
fn poller_exits_only_on_a_true_cancellation_token() {
    assert!(poller_should_exit(Some(true)));
    assert!(!poller_should_exit(Some(false)));
    assert!(!poller_should_exit(None));
}

#[test]
fn only_the_readiness_bit_signals_the_bridge() {
    assert!(poll_signals_ready(POLLIN));
    assert!(!poll_signals_ready(0));
    // Hang-up or error bits are spurious wakes.
    assert!(!poll_signals_ready(0x10));
    assert!(!poll_signals_ready(0x8));
}

#[test]
fn bridge_idles_without_a_poller() {
    let mut b = KinesixBackend::new(Recorder::new());
    let events = vec![GestureEvent::SwipeBegin { finger_count: 3 }];
    assert!(b.on_event_ready(true, &events));
    // Without a poller nothing is drained.
    assert_eq!(b.gesture_in_progress, false);
}

#[test]
fn bridge_stops_after_cancellation() {
    let mut b = KinesixBackend::new(Recorder::new());
    b.start_polling();
    b.stop_polling();
    let events: Vec<GestureEvent> = Vec::new();
    assert!(!b.on_event_ready(true, &events));
}

#[test]
fn bridge_waits_for_the_readiness_signal() {
    let mut b = KinesixBackend::new(Recorder::new());
    b.start_polling();
    let events = vec![GestureEvent::SwipeBegin { finger_count: 3 }];
    assert!(b.on_event_ready(false, &events));
    assert_eq!(b.gesture_in_progress, false);
}

#[test]
fn bridge_drains_a_whole_batch_in_order() {
    let mut b = KinesixBackend::new(Recorder::new());
    b.start_polling();
    let events = vec![
        GestureEvent::SwipeBegin { finger_count: 3 },
        GestureEvent::SwipeUpdate { finger_count: 3, dx_mil: -2000, dy_mil: -15000 },
        GestureEvent::SwipeUpdate { finger_count: 3, dx_mil: -1000, dy_mil: -20000 },
        GestureEvent::SwipeEnd { finger_count: 3, cancelled: false },
        GestureEvent::PinchBegin { finger_count: 2 },
        GestureEvent::PinchUpdate { finger_count: 2, scale_mil: 1400 },
        GestureEvent::PinchEnd { finger_count: 2, cancelled: false },
    ];
    assert!(b.on_event_ready(true, &events));
    assert_eq!(b.delegate.swipes, vec![(SwipeDirection::SwipeUp, 3)]);
    assert_eq!(b.delegate.pinches, vec![(PinchType::PinchOut, 2)]);
    assert_eq!(b.ongoing_gesture_type, GestureType::Unknown);
}
