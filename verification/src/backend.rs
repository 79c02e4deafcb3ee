use vstd::prelude::*;

use crate::device::{
    accepted_count, accepted_devices, build_valid_device_list, copy_device_list,
    find_device_by_path, sorted_by_path, Device, DeviceCandidate,
};
use crate::gesture::{
    gesture_emit, gesture_run, gesture_step, initial_model, model_wf, GestureEvent,
    GestureEventState, GestureModel, GestureType, PinchType, SwipeDirection, GESTURE_DELTA_MIL,
    SCALE_ONE_MIL,
};
use crate::gesture::{abs_i64, lemma_run_snoc};
use crate::poller::{poller_after_stop, poller_stop_must_join, EventPollerThread};

verus! {

/// The callbacks a backend reports finished gestures to. The host
/// implements this; the callbacks run synchronously on the bridge's
/// context and must not block.
pub trait GestureDelegate {
    fn on_swipe(&mut self, direction: SwipeDirection, finger_count: i32);

    fn on_pinch(&mut self, pinch_type: PinchType, finger_count: i32);
}

/// The backend's record of the event source: whether a device handle is
/// currently bound to it, and the peak unaccelerated deltas of the swipe
/// being tracked. The open platform connection itself lives with the host.
#[derive(Debug, PartialEq, Eq, Structural, Clone, Copy)]
pub struct Input {
    pub active_device_bound: bool,
    pub swipe_x_max: i64,
    pub swipe_y_max: i64,
}

impl Input {
    /// A fresh event-source record: nothing bound, accumulator at rest.
    pub fn new() -> (r: Input)
        ensures
            r == (Input { active_device_bound: false, swipe_x_max: 0i64, swipe_y_max: 0i64 }),
    {
        Input { active_device_bound: false, swipe_x_max: 0, swipe_y_max: 0 }
    }
}

/// An activation decision: which valid-list entry to bind, and whether a
/// previously bound handle has to be released first.
#[derive(Debug, PartialEq, Eq, Structural, Clone, Copy)]
pub struct RebindRequest {
    pub unbind_previous: bool,
    pub device_index: usize,
}

/// The gesture backend: the cached valid device list, the single active
/// binding, the gesture classifier, and the polling-thread record.
pub struct KinesixBackend<D: GestureDelegate> {
    pub valid_device_list: Vec<Device>,
    pub active_device: Option<usize>,
    pub next_device_id: u32,
    pub delegate: D,
    pub ongoing_gesture_type: GestureType,
    pub gesture_in_progress: bool,
    pub input: Input,
    pub event_poller_thread: Option<EventPollerThread>,
}

impl<D: GestureDelegate> KinesixBackend<D> {
    /// The classifier state held by this backend.
    pub open spec fn gesture_model(&self) -> GestureModel {
        GestureModel {
            ongoing: self.ongoing_gesture_type,
            x_max: self.input.swipe_x_max as int,
            y_max: self.input.swipe_y_max as int,
            in_gesture: self.gesture_in_progress,
        }
    }

    /// The backend invariant: the accumulator stays representable, the
    /// classifier holds no state outside a gesture, the device list is
    /// sorted by path, and the active index denotes a list entry exactly
    /// when a handle is bound - so at most one binding ever exists.
    pub open spec fn wf(&self) -> bool {
        &&& self.input.swipe_x_max != i64::MIN
        &&& self.input.swipe_y_max != i64::MIN
        &&& model_wf(self.gesture_model())
        &&& sorted_by_path(self.valid_device_list@)
        &&& (self.active_device matches Some(i) ==> i < self.valid_device_list@.len())
        &&& (self.active_device is Some <==> self.input.active_device_bound)
    }

    /// The device-side state: everything the classifier does not touch.
    pub open spec fn same_device_state(a: &Self, b: &Self) -> bool {
        &&& a.valid_device_list@ == b.valid_device_list@
        &&& a.active_device == b.active_device
        &&& a.next_device_id == b.next_device_id
        &&& a.input.active_device_bound == b.input.active_device_bound
        &&& a.event_poller_thread == b.event_poller_thread
    }

    /// The classifier-side state: everything the device bookkeeping does
    /// not touch.
    pub open spec fn same_gesture_state(a: &Self, b: &Self) -> bool {
        &&& a.gesture_model() == b.gesture_model()
        &&& a.delegate == b.delegate
    }

    /// A fresh backend around the host's delegate.
    pub fn new(delegate: D) -> (r: KinesixBackend<D>)
        ensures
            r.wf(),
            r.valid_device_list@.len() == 0,
            r.active_device is None,
            r.next_device_id == 1,
            r.gesture_model() == initial_model(),
            r.event_poller_thread is None,
            r.delegate == delegate,
    {
        KinesixBackend {
            valid_device_list: Vec::new(),
            active_device: None,
            next_device_id: 1,
            delegate,
            ongoing_gesture_type: GestureType::Unknown,
            gesture_in_progress: false,
            input: Input::new(),
            event_poller_thread: None,
        }
    }

    /// Returns the valid device list. On first use it is computed from the
    /// registry's candidates - accepted ones become devices, sorted by
    /// path, with sequential identifiers - and cached; as long as the
    /// cache is non-empty, later calls return it unchanged and the
    /// candidates are not consulted.
    pub fn get_valid_device_list(&mut self, candidates: &Vec<DeviceCandidate>) -> (r: Vec<Device>)
        requires
            old(self).wf(),
            old(self).next_device_id + candidates@.len() <= u32::MAX,
        ensures
            final(self).wf(),
            r@ == final(self).valid_device_list@,
            sorted_by_path(final(self).valid_device_list@),
            old(self).valid_device_list@.len() > 0 ==> final(self).valid_device_list@ == old(self).valid_device_list@
                && final(self).next_device_id == old(self).next_device_id,
            old(self).valid_device_list@.len() == 0 ==> final(self).valid_device_list@.to_multiset()
                == accepted_devices(candidates@, old(self).next_device_id as int).to_multiset()
                && final(self).next_device_id == old(self).next_device_id + accepted_count(
                candidates@,
            ),
            final(self).active_device == old(self).active_device,
            final(self).input.active_device_bound == old(self).input.active_device_bound,
            final(self).event_poller_thread == old(self).event_poller_thread,
            Self::same_gesture_state(old(self), final(self)),
    {
        if self.valid_device_list.is_empty() {
            let (list, next_id) = build_valid_device_list(candidates, self.next_device_id);
            self.valid_device_list = list;
            self.next_device_id = next_id;
            proof {
                assert(old(self).active_device is Some ==> false);
            }
        }
        copy_device_list(&self.valid_device_list)
    }

    /// Whether `path` names the device that is currently active.
    pub open spec fn is_active_path(&self, path: Seq<char>) -> bool {
        match self.active_device {
            Some(a) => self.valid_device_list@[a as int].path@ == path,
            None => false,
        }
    }

    /// Whether some entry of the valid list has this path.
    pub open spec fn has_device_with_path(&self, path: Seq<char>) -> bool {
        exists|j: int|
            0 <= j < self.valid_device_list@.len() && self.valid_device_list@[j].path@ == path
    }

    /// Decides an activation request. A request for the device that is
    /// already active, or for one that is not in the valid list, changes
    /// nothing and returns no work. Otherwise the previous binding is let
    /// go and the host is told which entry to bind; the new binding is
    /// recorded by `confirm_active_device`.
    pub fn set_active_device(&mut self, device: &Device) -> (r: Option<RebindRequest>)
        requires
            old(self).wf(),
        ensures
            final(self).wf(),
            old(self).is_active_path(device.path@) ==> r is None && *final(self) == *old(self),
            r matches Some(req) ==> {
                &&& req.device_index < old(self).valid_device_list@.len()
                &&& old(self).valid_device_list@[req.device_index as int].path@ == device.path@
                &&& req.unbind_previous == old(self).input.active_device_bound
                &&& final(self).active_device is None
                &&& !final(self).input.active_device_bound
            },
            r is None ==> *final(self) == *old(self),
            !old(self).has_device_with_path(device.path@) ==> r is None,
            !old(self).is_active_path(device.path@) && old(self).has_device_with_path(device.path@)
                ==> r is Some,
            final(self).valid_device_list@ == old(self).valid_device_list@,
            final(self).next_device_id == old(self).next_device_id,
            final(self).event_poller_thread == old(self).event_poller_thread,
            Self::same_gesture_state(old(self), final(self)),
    {
        match self.active_device {
            Some(a) => {
                if self.valid_device_list[a].path == device.path {
                    return None;
                }
            },
            None => {},
        }
        let found = find_device_by_path(&self.valid_device_list, &device.path);
        match found {
            None => None,
            Some(index) => {
                let unbind_previous = self.input.active_device_bound;
                self.active_device = None;
                self.input.active_device_bound = false;
                Some(RebindRequest { unbind_previous, device_index: index })
            },
        }
    }

    /// Records the outcome of the bind that a `RebindRequest` asked the
    /// host for: on success the entry becomes the single active device; on
    /// failure the backend stays unbound.
    pub fn confirm_active_device(&mut self, device_index: usize, bound: bool)
        requires
            old(self).wf(),
            old(self).active_device is None,
            !old(self).input.active_device_bound,
            device_index < old(self).valid_device_list@.len(),
        ensures
            final(self).wf(),
            bound ==> final(self).active_device == Some(device_index)
                && final(self).input.active_device_bound,
            !bound ==> *final(self) == *old(self),
            final(self).valid_device_list@ == old(self).valid_device_list@,
            final(self).next_device_id == old(self).next_device_id,
            final(self).event_poller_thread == old(self).event_poller_thread,
            Self::same_gesture_state(old(self), final(self)),
    {
        if bound {
            self.active_device = Some(device_index);
            self.input.active_device_bound = true;
        }
    }

    /// Handles one swipe-family event: a Begin restarts the accumulator
    /// and the classification, an Update inside a gesture feeds the peak
    /// accumulator and recomputes the direction, an End only reports the
    /// phase - `handle_gesture` finishes it.
    pub fn handle_swipe_gesture(&mut self, event: &GestureEvent) -> (r: (GestureEventState, i32))
        requires
            old(self).wf(),
            event.wf(),
            event.is_swipe(),
        ensures
            final(self).wf(),
            r.0 == event.spec_phase(),
            r.1 == event.spec_finger_count(),
            final(self).gesture_model() == (if event is SwipeEnd {
                old(self).gesture_model()
            } else {
                gesture_step(old(self).gesture_model(), *event)
            }),
            Self::same_device_state(old(self), final(self)),
            final(self).delegate == old(self).delegate,
    {
        match event {
            GestureEvent::SwipeBegin { finger_count } => {
                self.input.swipe_x_max = 0;
                self.input.swipe_y_max = 0;
                self.ongoing_gesture_type = GestureType::Unknown;
                self.gesture_in_progress = true;
                (GestureEventState::Started, *finger_count)
            },
            GestureEvent::SwipeUpdate { finger_count, dx_mil, dy_mil } => {
                if self.gesture_in_progress {
                    let mut x_max = self.input.swipe_x_max;
                    let mut y_max = self.input.swipe_y_max;
                    let x_current = *dx_mil;
                    let y_current = *dy_mil;
                    if abs_i64(x_max) < abs_i64(x_current) {
                        x_max = x_current;
                    }
                    if abs_i64(y_max) < abs_i64(y_current) {
                        y_max = y_current;
                    }
                    if abs_i64(y_max) > abs_i64(x_max) {
                        if y_max < -GESTURE_DELTA_MIL {
                            self.ongoing_gesture_type = GestureType::Swipe(
                                SwipeDirection::SwipeUp,
                            );
                        } else if y_max > GESTURE_DELTA_MIL {
                            self.ongoing_gesture_type = GestureType::Swipe(
                                SwipeDirection::SwipeDown,
                            );
                        }
                    } else if abs_i64(x_max) > abs_i64(y_max) {
                        if x_max < -GESTURE_DELTA_MIL {
                            self.ongoing_gesture_type = GestureType::Swipe(
                                SwipeDirection::SwipeLeft,
                            );
                        } else if x_max > GESTURE_DELTA_MIL {
                            self.ongoing_gesture_type = GestureType::Swipe(
                                SwipeDirection::SwipeRight,
                            );
                        }
                    }
                    self.input.swipe_x_max = x_max;
                    self.input.swipe_y_max = y_max;
                }
                (GestureEventState::Ongoing, *finger_count)
            },
            GestureEvent::SwipeEnd { finger_count, .. } => {
                (GestureEventState::Finished, *finger_count)
            },
            _ => {
                proof {
                    assert(false);
                }
                (GestureEventState::Unknown, 0)
            },
        }
    }

    /// Handles one pinch-family event: an Update inside a gesture
    /// re-evaluates the scale against one on every sample, an End only
    /// reports the phase - `handle_gesture` finishes it.
    pub fn handle_pinch_gesture(&mut self, event: &GestureEvent) -> (r: (GestureEventState, i32))
        requires
            old(self).wf(),
            event.wf(),
            !event.is_swipe(),
        ensures
            final(self).wf(),
            r.0 == event.spec_phase(),
            r.1 == event.spec_finger_count(),
            final(self).gesture_model() == (if event is PinchEnd {
                old(self).gesture_model()
            } else {
                gesture_step(old(self).gesture_model(), *event)
            }),
            Self::same_device_state(old(self), final(self)),
            final(self).delegate == old(self).delegate,
    {
        match event {
            GestureEvent::PinchBegin { finger_count } => {
                self.input.swipe_x_max = 0;
                self.input.swipe_y_max = 0;
                self.ongoing_gesture_type = GestureType::Unknown;
                self.gesture_in_progress = true;
                (GestureEventState::Started, *finger_count)
            },
            GestureEvent::PinchUpdate { finger_count, scale_mil } => {
                if self.gesture_in_progress {
                    if *scale_mil > SCALE_ONE_MIL {
                        self.ongoing_gesture_type = GestureType::Pinch(PinchType::PinchOut);
                    }
                    if *scale_mil < SCALE_ONE_MIL {
                        self.ongoing_gesture_type = GestureType::Pinch(PinchType::PinchIn);
                    }
                }
                (GestureEventState::Ongoing, *finger_count)
            },
            GestureEvent::PinchEnd { finger_count, .. } => {
                (GestureEventState::Finished, *finger_count)
            },
            _ => {
                proof {
                    assert(false);
                }
                (GestureEventState::Unknown, 0)
            },
        }
    }

    /// Feeds one event to the classifier and, when it finishes a gesture
    /// that was not cancelled and got a classification, reports the
    /// decision to the delegate. Both a finished and a cancelled gesture
    /// leave the classifier back in its initial state.
    pub fn handle_gesture(&mut self, event: &GestureEvent) -> (dispatched: Option<
        (GestureType, i32),
    >)
        requires
            old(self).wf(),
            event.wf(),
        ensures
            final(self).wf(),
            final(self).gesture_model() == gesture_step(old(self).gesture_model(), *event),
            dispatched == gesture_emit(old(self).gesture_model(), *event),
            Self::same_device_state(old(self), final(self)),
    {
        let phase_and_fingers = match event {
            GestureEvent::SwipeBegin { .. } => self.handle_swipe_gesture(event),
            GestureEvent::SwipeUpdate { .. } => self.handle_swipe_gesture(event),
            GestureEvent::SwipeEnd { .. } => self.handle_swipe_gesture(event),
            GestureEvent::PinchBegin { .. } => self.handle_pinch_gesture(event),
            GestureEvent::PinchUpdate { .. } => self.handle_pinch_gesture(event),
            GestureEvent::PinchEnd { .. } => self.handle_pinch_gesture(event),
        };
        let gesture_state = phase_and_fingers.0;
        let finger_count = phase_and_fingers.1;
        let mut dispatched: Option<(GestureType, i32)> = None;
        if gesture_state == GestureEventState::Finished {
            let cancelled = match event {
                GestureEvent::SwipeEnd { cancelled, .. } => *cancelled,
                GestureEvent::PinchEnd { cancelled, .. } => *cancelled,
                _ => false,
            };
            if !cancelled {
                match self.ongoing_gesture_type {
                    GestureType::Swipe(direction) => {
                        self.delegate.on_swipe(direction, finger_count);
                        dispatched = Some((GestureType::Swipe(direction), finger_count));
                    },
                    GestureType::Pinch(pinch_type) => {
                        self.delegate.on_pinch(pinch_type, finger_count);
                        dispatched = Some((GestureType::Pinch(pinch_type), finger_count));
                    },
                    GestureType::Unknown => {},
                }
            }
            self.ongoing_gesture_type = GestureType::Unknown;
            self.input.swipe_x_max = 0;
            self.input.swipe_y_max = 0;
            self.gesture_in_progress = false;
        }
        dispatched
    }

    /// The bridge tick. With no poller it idles and keeps the periodic
    /// callback alive; once cancellation was requested it asks the host to
    /// stop the callback; otherwise, when the poller has signalled
    /// readiness, it drains the whole batch through the classifier in
    /// arrival order.
    pub fn on_event_ready(&mut self, signal_pending: bool, events: &Vec<GestureEvent>) -> (keep_alive:
        bool)
        requires
            old(self).wf(),
            forall|i: int| 0 <= i < events@.len() ==> #[trigger] events@[i].wf(),
        ensures
            final(self).wf(),
            Self::same_device_state(old(self), final(self)),
            match old(self).event_poller_thread {
                None => keep_alive && final(self).gesture_model() == old(self).gesture_model(),
                Some(t) => {
                    if t.cancelation_requested {
                        !keep_alive && final(self).gesture_model() == old(self).gesture_model()
                    } else if signal_pending {
                        keep_alive && final(self).gesture_model() == gesture_run(
                            old(self).gesture_model(),
                            events@,
                        )
                    } else {
                        keep_alive && final(self).gesture_model() == old(self).gesture_model()
                    }
                },
            },
    {
        let poller = self.event_poller_thread;
        match poller {
            None => true,
            Some(t) => {
                if t.cancelation_requested {
                    return false;
                }
                if signal_pending {
                    let mut i: usize = 0;
                    proof {
                        assert(events@.take(0) =~= Seq::<GestureEvent>::empty());
                    }
                    while i < events.len()
                        invariant
                            i <= events@.len(),
                            self.wf(),
                            forall|k: int| 0 <= k < events@.len() ==> #[trigger] events@[k].wf(),
                            self.gesture_model() == gesture_run(
                                old(self).gesture_model(),
                                events@.take(i as int),
                            ),
                            Self::same_device_state(old(self), self),
                        decreases events@.len() - i,
                    {
                        proof {
                            assert(events@.take(i as int + 1) =~= events@.take(i as int).push(
                                events@[i as int],
                            ));
                            lemma_run_snoc(
                                old(self).gesture_model(),
                                events@.take(i as int),
                                events@[i as int],
                            );
                        }
                        let _ = self.handle_gesture(&events[i]);
                        i = i + 1;
                    }
                    proof {
                        assert(events@.take(events@.len() as int) =~= events@);
                    }
                }
                true
            },
        }
    }

    /// Spawning the poller: the backend records a fresh, joinable,
    /// uncancelled polling thread; the host owns the thread itself.
    pub fn start_polling(&mut self)
        requires
            old(self).wf(),
        ensures
            final(self).wf(),
            final(self).event_poller_thread == (Some(
                EventPollerThread { cancelation_requested: false, handle_present: true },
            )),
            final(self).valid_device_list@ == old(self).valid_device_list@,
            final(self).active_device == old(self).active_device,
            final(self).next_device_id == old(self).next_device_id,
            final(self).input == old(self).input,
            Self::same_gesture_state(old(self), final(self)),
    {
        self.event_poller_thread = Some(EventPollerThread::spawned());
    }

    /// Requests cancellation and reports whether the host still has to
    /// join the thread. Safe to call again: the second call owes no join.
    pub fn stop_polling(&mut self) -> (must_join: bool)
        requires
            old(self).wf(),
        ensures
            final(self).wf(),
            final(self).event_poller_thread == poller_after_stop(old(self).event_poller_thread),
            must_join == poller_stop_must_join(old(self).event_poller_thread),
            final(self).valid_device_list@ == old(self).valid_device_list@,
            final(self).active_device == old(self).active_device,
            final(self).next_device_id == old(self).next_device_id,
            final(self).input == old(self).input,
            Self::same_gesture_state(old(self), final(self)),
    {
        match &mut self.event_poller_thread {
            Some(t) => {
                t.cancelation_requested = true;
                t.join()
            },
            None => false,
        }
    }
}

} // verus!
