use vstd::prelude::*;

verus! {

/// Event bit that the poll wait reports when the descriptor is readable.
pub const POLLIN: i16 = 1;

/// What the backend knows of its background polling thread: whether
/// cancellation has been requested, and whether a join is still owed. The
/// operating-system thread and the channels themselves live with the host.
#[derive(Debug, PartialEq, Eq, Structural, Clone, Copy)]
pub struct EventPollerThread {
    pub cancelation_requested: bool,
    pub handle_present: bool,
}

impl EventPollerThread {
    /// The record for a freshly spawned poller: not cancelled, joinable.
    pub fn spawned() -> (r: EventPollerThread)
        ensures
            r == (EventPollerThread { cancelation_requested: false, handle_present: true }),
    {
        EventPollerThread { cancelation_requested: false, handle_present: true }
    }

    /// Takes the join obligation: reports whether a join is still owed, and
    /// never reports it twice.
    pub fn join(&mut self) -> (must_join: bool)
        ensures
            final(self).cancelation_requested == old(self).cancelation_requested,
            !final(self).handle_present,
            must_join == old(self).handle_present,
    {
        let had = self.handle_present;
        self.handle_present = false;
        had
    }
}

/// The poll loop's decision at its cancellation check: it exits exactly
/// when a `true` token has arrived on the cancellation channel.
pub fn poller_should_exit(cancel_msg: Option<bool>) -> (r: bool)
    ensures
        r == (cancel_msg == Some(true)),
{
    match cancel_msg {
        Some(true) => true,
        _ => false,
    }
}

/// The poll loop's decision after the bounded wait: only the readiness bit
/// makes it dispatch and signal the bridge. A timeout and a failed wait
/// alike are spurious wakes, and the loop goes on.
pub fn poll_signals_ready(revents: i16) -> (r: bool)
    ensures
        r == (revents == POLLIN),
{
    revents == POLLIN
}

/// The poller record after a stop request.
pub open spec fn poller_after_stop(p: Option<EventPollerThread>) -> Option<EventPollerThread> {
    match p {
        None => None,
        Some(_) => Some(EventPollerThread { cancelation_requested: true, handle_present: false }),
    }
}

/// Whether a stop request still owes a join.
pub open spec fn poller_stop_must_join(p: Option<EventPollerThread>) -> bool {
    match p {
        None => false,
        Some(t) => t.handle_present,
    }
}

/// Stopping twice is harmless: the second stop leaves the record as it is
/// and owes no further join.
pub proof fn lemma_stop_idempotent(p: Option<EventPollerThread>)
    ensures
        poller_after_stop(poller_after_stop(p)) == poller_after_stop(p),
        !poller_stop_must_join(poller_after_stop(p)),
{
}

} // verus!
