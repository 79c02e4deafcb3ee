//! A verified trackpad-gesture backend: a stateful classifier that turns a
//! stream of raw swipe and pinch phase events into one finished-gesture
//! decision per lifecycle, a cached registry of gesture-capable devices
//! with a single active binding, the bookkeeping of the background polling
//! thread and its bridge into a cooperative main loop, and a virtual
//! keyboard that computes the exact event records for injected key
//! presses. The host supplies the platform connection, the threads and the
//! file descriptors, and hands this crate plain values.

pub mod backend;
pub mod device;
pub mod gesture;
pub mod poller;
pub mod text;
pub mod virtual_input;

pub use backend::{GestureDelegate, Input, KinesixBackend, RebindRequest};
pub use device::{Device, DeviceCandidate, DeviceCapability};
pub use gesture::{
    EventType, GestureEvent, GestureEventState, GestureType, PinchType, SwipeDirection,
};
pub use poller::EventPollerThread;
pub use virtual_input::{Key, UinputEvent, VirtualInput};
