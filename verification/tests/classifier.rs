use kinesix::{
    GestureDelegate, GestureEvent, GestureEventState, GestureType, KinesixBackend, PinchType,
    SwipeDirection,
};

struct Recorder {
    swipes: Vec<(SwipeDirection, i32)>,
    pinches: Vec<(PinchType, i32)>,
}

impl Recorder {
    fn new() -> Recorder {
        Recorder { swipes: Vec::new(), pinches: Vec::new() }
    }
}

impl GestureDelegate for Recorder {
    fn on_swipe(&mut self, direction: SwipeDirection, finger_count: i32) {
        self.swipes.push((direction, finger_count));
    }

    fn on_pinch(&mut self, pinch_type: PinchType, finger_count: i32) {
        self.pinches.push((pinch_type, finger_count));
    }
}

fn backend() -> KinesixBackend<Recorder> {
    KinesixBackend::new(Recorder::new())
}

#[test]
fn swipe_up_three_fingers() {
    let mut b = backend();
    b.handle_gesture(&GestureEvent::SwipeBegin { finger_count: 3 });
    b.handle_gesture(&GestureEvent::SwipeUpdate { finger_count: 3, dx_mil: -2000, dy_mil: -15000 });
    b.handle_gesture(&GestureEvent::SwipeUpdate { finger_count: 3, dx_mil: -1000, dy_mil: -20000 });
    let dispatched =
        b.handle_gesture(&GestureEvent::SwipeEnd { finger_count: 3, cancelled: false });
    assert_eq!(dispatched, Some((GestureType::Swipe(SwipeDirection::SwipeUp), 3)));
    assert_eq!(b.delegate.swipes, vec![(SwipeDirection::SwipeUp, 3)]);
    assert!(b.delegate.pinches.is_empty());
    assert_eq!(b.ongoing_gesture_type, GestureType::Unknown);
    assert_eq!(b.input.swipe_x_max, 0);
    assert_eq!(b.input.swipe_y_max, 0);
}

#[test]
fn cancelled_swipe_dispatches_nothing_and_resets() {
    let mut b = backend();
    b.handle_gesture(&GestureEvent::SwipeBegin { finger_count: 2 });
    b.handle_gesture(&GestureEvent::SwipeUpdate { finger_count: 2, dx_mil: 12000, dy_mil: 3000 });
    assert_eq!(b.ongoing_gesture_type, GestureType::Swipe(SwipeDirection::SwipeRight));
    let dispatched = b.handle_gesture(&GestureEvent::SwipeEnd { finger_count: 2, cancelled: true });
    assert_eq!(dispatched, None);
    assert!(b.delegate.swipes.is_empty());
    assert!(b.delegate.pinches.is_empty());
    assert_eq!(b.ongoing_gesture_type, GestureType::Unknown);
    assert_eq!(b.input.swipe_x_max, 0);
    assert_eq!(b.input.swipe_y_max, 0);
    assert!(!b.gesture_in_progress);
}

#[test]
fn pinch_last_write_wins() {
    let mut b = backend();
    b.handle_gesture(&GestureEvent::PinchBegin { finger_count: 2 });
    b.handle_gesture(&GestureEvent::PinchUpdate { finger_count: 2, scale_mil: 1400 });
    assert_eq!(b.ongoing_gesture_type, GestureType::Pinch(PinchType::PinchOut));
    b.handle_gesture(&GestureEvent::PinchUpdate { finger_count: 2, scale_mil: 900 });
    let dispatched =
        b.handle_gesture(&GestureEvent::PinchEnd { finger_count: 2, cancelled: false });
    assert_eq!(dispatched, Some((GestureType::Pinch(PinchType::PinchIn), 2)));
    assert_eq!(b.delegate.pinches, vec![(PinchType::PinchIn, 2)]);
    assert!(b.delegate.swipes.is_empty());
}

#[test]
fn pinch_scale_of_one_keeps_prior_classification() {
    let mut b = backend();
    b.handle_gesture(&GestureEvent::PinchBegin { finger_count: 2 });
    b.handle_gesture(&GestureEvent::PinchUpdate { finger_count: 2, scale_mil: 1400 });
    b.handle_gesture(&GestureEvent::PinchUpdate { finger_count: 2, scale_mil: 1000 });
    assert_eq!(b.ongoing_gesture_type, GestureType::Pinch(PinchType::PinchOut));
}

#[test]
fn update_without_begin_is_ignored() {
    let mut b = backend();
    b.handle_gesture(&GestureEvent::SwipeUpdate { finger_count: 3, dx_mil: 50000, dy_mil: 0 });
    assert_eq!(b.ongoing_gesture_type, GestureType::Unknown);
    assert_eq!(b.input.swipe_x_max, 0);
    let dispatched =
        b.handle_gesture(&GestureEvent::SwipeEnd { finger_count: 3, cancelled: false });
    assert_eq!(dispatched, None);
    assert!(b.delegate.swipes.is_empty());
}

#[test]
fn threshold_is_strict_on_dominant_axis() {
    let mut b = backend();
    b.handle_gesture(&GestureEvent::SwipeBegin { finger_count: 3 });
    // Exactly the threshold: dominant axis but not past the bound.
    b.handle_gesture(&GestureEvent::SwipeUpdate { finger_count: 3, dx_mil: 0, dy_mil: 10000 });
    assert_eq!(b.ongoing_gesture_type, GestureType::Unknown);
    // One thousandth past it.
    b.handle_gesture(&GestureEvent::SwipeUpdate { finger_count: 3, dx_mil: 0, dy_mil: 10001 });
    assert_eq!(b.ongoing_gesture_type, GestureType::Swipe(SwipeDirection::SwipeDown));
}

#[test]
fn axis_tie_leaves_classification_unchanged() {
    let mut b = backend();
    b.handle_gesture(&GestureEvent::SwipeBegin { finger_count: 3 });
    b.handle_gesture(&GestureEvent::SwipeUpdate { finger_count: 3, dx_mil: 20000, dy_mil: 20000 });
    assert_eq!(b.ongoing_gesture_type, GestureType::Unknown);
}

#[test]
fn smaller_sample_does_not_clear_direction() {
    let mut b = backend();
    b.handle_gesture(&GestureEvent::SwipeBegin { finger_count: 4 });
    b.handle_gesture(&GestureEvent::SwipeUpdate { finger_count: 4, dx_mil: -16000, dy_mil: 1000 });
    assert_eq!(b.ongoing_gesture_type, GestureType::Swipe(SwipeDirection::SwipeLeft));
    // A weaker sample on the same axis: the peak and the direction stay.
    b.handle_gesture(&GestureEvent::SwipeUpdate { finger_count: 4, dx_mil: -2000, dy_mil: 500 });
    assert_eq!(b.input.swipe_x_max, -16000);
    assert_eq!(b.ongoing_gesture_type, GestureType::Swipe(SwipeDirection::SwipeLeft));
    let dispatched =
        b.handle_gesture(&GestureEvent::SwipeEnd { finger_count: 4, cancelled: false });
    assert_eq!(dispatched, Some((GestureType::Swipe(SwipeDirection::SwipeLeft), 4)));
}

#[test]
fn peak_tracks_largest_magnitude_not_sum() {
    let mut b = backend();
    b.handle_gesture(&GestureEvent::SwipeBegin { finger_count: 3 });
    b.handle_gesture(&GestureEvent::SwipeUpdate { finger_count: 3, dx_mil: 6000, dy_mil: 0 });
    b.handle_gesture(&GestureEvent::SwipeUpdate { finger_count: 3, dx_mil: 6000, dy_mil: 0 });
    // Two samples of six units each never cross the ten-unit threshold.
    assert_eq!(b.input.swipe_x_max, 6000);
    assert_eq!(b.ongoing_gesture_type, GestureType::Unknown);
}

#[test]
fn unknown_classification_at_end_emits_nothing() {
    let mut b = backend();
    b.handle_gesture(&GestureEvent::SwipeBegin { finger_count: 3 });
    b.handle_gesture(&GestureEvent::SwipeUpdate { finger_count: 3, dx_mil: 1000, dy_mil: 2000 });
    let dispatched =
        b.handle_gesture(&GestureEvent::SwipeEnd { finger_count: 3, cancelled: false });
    assert_eq!(dispatched, None);
    assert!(b.delegate.swipes.is_empty());
}

#[test]
fn begin_resets_stale_accumulator() {
    let mut b = backend();
    b.handle_gesture(&GestureEvent::SwipeBegin { finger_count: 3 });
    b.handle_gesture(&GestureEvent::SwipeUpdate { finger_count: 3, dx_mil: 30000, dy_mil: 0 });
    assert_eq!(b.ongoing_gesture_type, GestureType::Swipe(SwipeDirection::SwipeRight));
    // A second Begin without an intervening End restarts accumulation.
    b.handle_gesture(&GestureEvent::SwipeBegin { finger_count: 3 });
    assert_eq!(b.input.swipe_x_max, 0);
    assert_eq!(b.ongoing_gesture_type, GestureType::Unknown);
}

#[test]
fn phases_are_reported_per_event() {
    let mut b = backend();
    let r = b.handle_swipe_gesture(&GestureEvent::SwipeBegin { finger_count: 3 });
    assert_eq!(r, (GestureEventState::Started, 3));
    let r = b.handle_swipe_gesture(&GestureEvent::SwipeUpdate {
        finger_count: 3,
        dx_mil: 0,
        dy_mil: 0,
    });
    assert_eq!(r, (GestureEventState::Ongoing, 3));
    let r = b.handle_swipe_gesture(&GestureEvent::SwipeEnd { finger_count: 3, cancelled: false });
    assert_eq!(r, (GestureEventState::Finished, 3));
    let r = b.handle_pinch_gesture(&GestureEvent::PinchBegin { finger_count: 2 });
    assert_eq!(r, (GestureEventState::Started, 2));
    let r = b.handle_pinch_gesture(&GestureEvent::PinchEnd { finger_count: 2, cancelled: true });
    assert_eq!(r, (GestureEventState::Finished, 2));
}

#[test]
fn two_gestures_in_a_row_are_independent() {
    let mut b = backend();
    b.handle_gesture(&GestureEvent::SwipeBegin { finger_count: 3 });
    b.handle_gesture(&GestureEvent::SwipeUpdate { finger_count: 3, dx_mil: 0, dy_mil: 12000 });
    let first = b.handle_gesture(&GestureEvent::SwipeEnd { finger_count: 3, cancelled: false });
    assert_eq!(first, Some((GestureType::Swipe(SwipeDirection::SwipeDown), 3)));
    b.handle_gesture(&GestureEvent::PinchBegin { finger_count: 2 });
    b.handle_gesture(&GestureEvent::PinchUpdate { finger_count: 2, scale_mil: 700 });
    let second = b.handle_gesture(&GestureEvent::PinchEnd { finger_count: 2, cancelled: false });
    assert_eq!(second, Some((GestureType::Pinch(PinchType::PinchIn), 2)));
    assert_eq!(b.delegate.swipes, vec![(SwipeDirection::SwipeDown, 3)]);
    assert_eq!(b.delegate.pinches, vec![(PinchType::PinchIn, 2)]);
}
