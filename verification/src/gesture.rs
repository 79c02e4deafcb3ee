use vstd::prelude::*;

verus! {

/// Direction that a finished swipe is reported with.
#[derive(Debug, PartialEq, Eq, Structural, Clone, Copy)]
pub enum SwipeDirection {
    SwipeUp,
    SwipeDown,
    SwipeLeft,
    SwipeRight,
    NoDirection,
}

/// Kind that a finished pinch is reported with.
#[derive(Debug, PartialEq, Eq, Structural, Clone, Copy)]
pub enum PinchType {
    PinchIn,
    PinchOut,
    NoPinch,
}

/// Lifecycle phase that a single raw event reports.
#[derive(Debug, PartialEq, Eq, Structural, Clone, Copy)]
pub enum GestureEventState {
    Started,
    Ongoing,
    Finished,
    Unknown,
}

/// Provisional classification of the gesture currently being tracked.
#[derive(Debug, PartialEq, Eq, Structural, Clone, Copy)]
pub enum GestureType {
    Swipe(SwipeDirection),
    Pinch(PinchType),
    Unknown,
}

/// Raw event types delivered by the platform input library.
#[derive(Debug, PartialEq, Eq, Structural, Clone, Copy)]
pub enum EventType {
    NoEvent,
    DeviceAdded,
    DeviceRemoved,
    KeyboardKey,
    PointerMotion,
    PointerMotionAbsolute,
    PointerButton,
    PointerAxis,
    TouchDown,
    TouchUp,
    TouchMotion,
    TouchCancel,
    TouchFrame,
    TabletToolAxis,
    TabletToolProximity,
    TabletToolTip,
    TabletToolButton,
    TabletPadButton,
    TabletPadRing,
    TabletPadStrip,
    GestureSwipeBegin,
    GestureSwipeUpdate,
    GestureSwipeEnd,
    GesturePinchBegin,
    GesturePinchUpdate,
    GesturePinchEnd,
    SwitchToggle,
}

impl EventType {
    /// Whether this raw event type belongs to the gesture family and is
    /// therefore fed to the classifier.
    pub fn is_gesture(self) -> (r: bool)
        ensures
            r == (self is GestureSwipeBegin || self is GestureSwipeUpdate || self is GestureSwipeEnd
                || self is GesturePinchBegin || self is GesturePinchUpdate
                || self is GesturePinchEnd),
    {
        match self {
            EventType::GestureSwipeBegin => true,
            EventType::GestureSwipeUpdate => true,
            EventType::GestureSwipeEnd => true,
            EventType::GesturePinchBegin => true,
            EventType::GesturePinchUpdate => true,
            EventType::GesturePinchEnd => true,
            _ => false,
        }
    }
}

/// One phase-tagged gesture event.
///
/// Motion quantities are fixed-point values in thousandths of the device
/// unit: `dx_mil == 1500` stands for a delta of one and a half units, and a
/// pinch scale of one (no zoom) is `scale_mil == 1000`.
#[derive(Debug, PartialEq, Eq, Structural, Clone, Copy)]
pub enum GestureEvent {
    SwipeBegin { finger_count: i32 },
    SwipeUpdate { finger_count: i32, dx_mil: i64, dy_mil: i64 },
    SwipeEnd { finger_count: i32, cancelled: bool },
    PinchBegin { finger_count: i32 },
    PinchUpdate { finger_count: i32, scale_mil: i64 },
    PinchEnd { finger_count: i32, cancelled: bool },
}

/// Swipe deltas at or below this magnitude (in thousandths of a device
/// unit) leave the classification unchanged.
pub const GESTURE_DELTA_MIL: i64 = 10000;

/// The fixed-point representation of a pinch scale factor of exactly one.
pub const SCALE_ONE_MIL: i64 = 1000;

/// Magnitude of a fixed-point sample.
pub open spec fn abs_val(x: int) -> int {
    if x < 0 {
        -x
    } else {
        x
    }
}

/// Executable counterpart of `abs_val` for `i64` samples.
pub fn abs_i64(x: i64) -> (r: i64)
    requires
        x != i64::MIN,
    ensures
        r == abs_val(x as int),
{
    if x < 0 {
        -x
    } else {
        x
    }
}

impl GestureEvent {
    /// Motion samples stay away from the one `i64` value whose magnitude
    /// has no `i64` counterpart.
    pub open spec fn wf(self) -> bool {
        match self {
            GestureEvent::SwipeUpdate { dx_mil, dy_mil, .. } => {
                dx_mil != i64::MIN && dy_mil != i64::MIN
            },
            _ => true,
        }
    }

    /// The finger count carried by the event.
    pub open spec fn spec_finger_count(self) -> i32 {
        match self {
            GestureEvent::SwipeBegin { finger_count } => finger_count,
            GestureEvent::SwipeUpdate { finger_count, .. } => finger_count,
            GestureEvent::SwipeEnd { finger_count, .. } => finger_count,
            GestureEvent::PinchBegin { finger_count } => finger_count,
            GestureEvent::PinchUpdate { finger_count, .. } => finger_count,
            GestureEvent::PinchEnd { finger_count, .. } => finger_count,
        }
    }

    /// The lifecycle phase the event reports.
    pub open spec fn spec_phase(self) -> GestureEventState {
        match self {
            GestureEvent::SwipeBegin { .. } => GestureEventState::Started,
            GestureEvent::SwipeUpdate { .. } => GestureEventState::Ongoing,
            GestureEvent::SwipeEnd { .. } => GestureEventState::Finished,
            GestureEvent::PinchBegin { .. } => GestureEventState::Started,
            GestureEvent::PinchUpdate { .. } => GestureEventState::Ongoing,
            GestureEvent::PinchEnd { .. } => GestureEventState::Finished,
        }
    }

    /// Whether the event belongs to the swipe family.
    pub open spec fn is_swipe(self) -> bool {
        self is SwipeBegin || self is SwipeUpdate || self is SwipeEnd
    }

    /// Whether the event ends a gesture with its cancelled flag set.
    pub open spec fn is_cancelled_end(self) -> bool {
        match self {
            GestureEvent::SwipeEnd { cancelled, .. } => cancelled,
            GestureEvent::PinchEnd { cancelled, .. } => cancelled,
            _ => false,
        }
    }
}

/// The classifier state: the provisional classification, the peak
/// unaccelerated swipe deltas seen so far, and whether a gesture is
/// currently between its Begin and its End.
pub struct GestureModel {
    pub ongoing: GestureType,
    pub x_max: int,
    pub y_max: int,
    pub in_gesture: bool,
}

/// The state the classifier starts in and returns to after every
/// finished or cancelled gesture.
pub open spec fn initial_model() -> GestureModel {
    GestureModel { ongoing: GestureType::Unknown, x_max: 0, y_max: 0, in_gesture: false }
}

/// Peak tracking: a new sample replaces the stored one only when its
/// magnitude is strictly larger.
pub open spec fn peak(prev: int, cur: int) -> int {
    if abs_val(prev) < abs_val(cur) {
        cur
    } else {
        prev
    }
}

/// The swipe direction rule. The dominant axis decides; a peak within the
/// threshold on the dominant axis, or a tie between the axes, leaves the
/// prior classification in place.
pub open spec fn swipe_classification(x: int, y: int, prior: GestureType) -> GestureType {
    if abs_val(y) > abs_val(x) {
        if y < -(GESTURE_DELTA_MIL as int) {
            GestureType::Swipe(SwipeDirection::SwipeUp)
        } else if y > GESTURE_DELTA_MIL as int {
            GestureType::Swipe(SwipeDirection::SwipeDown)
        } else {
            prior
        }
    } else if abs_val(x) > abs_val(y) {
        if x < -(GESTURE_DELTA_MIL as int) {
            GestureType::Swipe(SwipeDirection::SwipeLeft)
        } else if x > GESTURE_DELTA_MIL as int {
            GestureType::Swipe(SwipeDirection::SwipeRight)
        } else {
            prior
        }
    } else {
        prior
    }
}

/// The pinch rule: every update away from a scale of one overwrites the
/// classification; a scale of exactly one leaves it in place.
pub open spec fn pinch_classification(scale: int, prior: GestureType) -> GestureType {
    if scale > SCALE_ONE_MIL as int {
        GestureType::Pinch(PinchType::PinchOut)
    } else if scale < SCALE_ONE_MIL as int {
        GestureType::Pinch(PinchType::PinchIn)
    } else {
        prior
    }
}

/// One step of the classifier. A Begin restarts accumulation, an Update
/// outside a gesture is ignored, and every End discards the state.
pub open spec fn gesture_step(m: GestureModel, ev: GestureEvent) -> GestureModel {
    match ev {
        GestureEvent::SwipeBegin { .. } => GestureModel {
            ongoing: GestureType::Unknown,
            x_max: 0,
            y_max: 0,
            in_gesture: true,
        },
        GestureEvent::PinchBegin { .. } => GestureModel {
            ongoing: GestureType::Unknown,
            x_max: 0,
            y_max: 0,
            in_gesture: true,
        },
        GestureEvent::SwipeUpdate { dx_mil, dy_mil, .. } => {
            if !m.in_gesture {
                m
            } else {
                let x = peak(m.x_max, dx_mil as int);
                let y = peak(m.y_max, dy_mil as int);
                GestureModel {
                    ongoing: swipe_classification(x, y, m.ongoing),
                    x_max: x,
                    y_max: y,
                    in_gesture: true,
                }
            }
        },
        GestureEvent::PinchUpdate { scale_mil, .. } => {
            if !m.in_gesture {
                m
            } else {
                GestureModel {
                    ongoing: pinch_classification(scale_mil as int, m.ongoing),
                    x_max: m.x_max,
                    y_max: m.y_max,
                    in_gesture: true,
                }
            }
        },
        GestureEvent::SwipeEnd { .. } => initial_model(),
        GestureEvent::PinchEnd { .. } => initial_model(),
    }
}

/// What an event makes the classifier report: a finished, uncancelled
/// gesture with a known classification, and nothing otherwise.
pub open spec fn gesture_emit(m: GestureModel, ev: GestureEvent) -> Option<(GestureType, i32)> {
    match ev {
        GestureEvent::SwipeEnd { finger_count, cancelled } => {
            if !cancelled && !(m.ongoing is Unknown) {
                Some((m.ongoing, finger_count))
            } else {
                None
            }
        },
        GestureEvent::PinchEnd { finger_count, cancelled } => {
            if !cancelled && !(m.ongoing is Unknown) {
                Some((m.ongoing, finger_count))
            } else {
                None
            }
        },
        _ => None,
    }
}

/// The classifier run over a whole event sequence, first event first.
pub open spec fn gesture_run(m: GestureModel, evs: Seq<GestureEvent>) -> GestureModel
    decreases evs.len(),
{
    if evs.len() == 0 {
        m
    } else {
        gesture_run(gesture_step(m, evs.first()), evs.drop_first())
    }
}

/// Outside a gesture the classifier holds no leftover state.
pub open spec fn model_wf(m: GestureModel) -> bool {
    !m.in_gesture ==> m == initial_model()
}

/// A step of the classifier preserves well-formedness.
pub proof fn lemma_step_preserves_wf(m: GestureModel, ev: GestureEvent)
    requires
        model_wf(m),
    ensures
        model_wf(gesture_step(m, ev)),
{
}

/// Within a swipe, one more Update never shrinks the peak magnitudes.
pub proof fn lemma_accumulator_step_monotonic(m: GestureModel, ev: GestureEvent)
    requires
        ev is SwipeUpdate,
    ensures
        abs_val(gesture_step(m, ev).x_max) >= abs_val(m.x_max),
        abs_val(gesture_step(m, ev).y_max) >= abs_val(m.y_max),
{
}

/// Accumulator monotonicity: over a sequence of swipe Updates with no
/// Begin or End among them, the peak magnitudes on both axes are
/// non-decreasing from prefix to prefix.
pub proof fn lemma_accumulator_monotonic(m: GestureModel, evs: Seq<GestureEvent>, i: int, j: int)
    requires
        forall|k: int| 0 <= k < evs.len() ==> evs[k] is SwipeUpdate,
        0 <= i <= j <= evs.len(),
    ensures
        abs_val(gesture_run(m, evs.take(i)).x_max) <= abs_val(gesture_run(m, evs.take(j)).x_max),
        abs_val(gesture_run(m, evs.take(i)).y_max) <= abs_val(gesture_run(m, evs.take(j)).y_max),
    decreases j - i,
{
    if i < j {
        lemma_accumulator_monotonic(m, evs, i, j - 1);
        assert(evs.take(j) =~= evs.take(j - 1).push(evs[j - 1]));
        lemma_run_snoc(m, evs.take(j - 1), evs[j - 1]);
        lemma_accumulator_step_monotonic(gesture_run(m, evs.take(j - 1)), evs[j - 1]);
    }
}

/// Sticky classification: once a direction or a pinch kind is set, no
/// later Update clears it back to Unknown.
pub proof fn lemma_sticky_classification(m: GestureModel, ev: GestureEvent)
    requires
        ev is SwipeUpdate || ev is PinchUpdate,
        !(m.ongoing is Unknown),
    ensures
        !(gesture_step(m, ev).ongoing is Unknown),
{
}

/// A swipe sample that leaves the dominant-axis peak within the threshold
/// leaves the classification exactly as it was.
pub proof fn lemma_threshold_sticky(m: GestureModel, ev: GestureEvent)
    requires
        ev matches GestureEvent::SwipeUpdate { dx_mil, dy_mil, .. } && ({
            let x = peak(m.x_max, dx_mil as int);
            let y = peak(m.y_max, dy_mil as int);
            &&& (abs_val(y) > abs_val(x) ==> -(GESTURE_DELTA_MIL as int) <= y
                <= GESTURE_DELTA_MIL as int)
            &&& (abs_val(x) > abs_val(y) ==> -(GESTURE_DELTA_MIL as int) <= x
                <= GESTURE_DELTA_MIL as int)
        }),
    ensures
        gesture_step(m, ev).ongoing == m.ongoing,
{
}

/// Cancellation discards: a gesture sequence whose last event ends it with
/// the cancelled flag reports nothing for that End and leaves the
/// classifier in its initial state.
pub proof fn lemma_cancellation_discards(m: GestureModel, evs: Seq<GestureEvent>)
    requires
        evs.len() > 0,
        evs.last().is_cancelled_end(),
    ensures
        gesture_run(m, evs) == initial_model(),
        gesture_emit(gesture_run(m, evs.drop_last()), evs.last()) is None,
{
    assert(evs =~= evs.drop_last().push(evs.last()));
    lemma_run_snoc(m, evs.drop_last(), evs.last());
}

/// Running the classifier over a sequence with one more event at the back
/// is one more step after running it over the front.
pub proof fn lemma_run_snoc(m: GestureModel, evs: Seq<GestureEvent>, ev: GestureEvent)
    ensures
        gesture_run(m, evs.push(ev)) == gesture_step(gesture_run(m, evs), ev),
    decreases evs.len(),
{
    if evs.len() == 0 {
        assert(evs.push(ev).first() == ev);
        assert(evs.push(ev).drop_first() =~= Seq::<GestureEvent>::empty());
        assert(gesture_run(gesture_step(m, ev), Seq::<GestureEvent>::empty())
            == gesture_step(m, ev));
    } else {
        assert(evs.push(ev).first() == evs.first());
        assert(evs.push(ev).drop_first() =~= evs.drop_first().push(ev));
        lemma_run_snoc(gesture_step(m, evs.first()), evs.drop_first(), ev);
    }
}

} // verus!

