//! The one-shot stop signal that ends a recording session.

use vstd::prelude::*;
use crate::errors::AudioError;

verus! {

/// The payload-free stop event the command layer delivers, at most
/// meaningfully once per recording session.
#[derive(Clone, Copy, Debug)]
pub struct StopRecording(());

impl StopRecording {
    /// Makes the stop event.
    pub fn new() -> StopRecording {
        StopRecording(())
    }
}

/// A single-fire, single-consumer stop notification. Created fresh for
/// each recording session; satisfied at most once; the recording engine
/// is its sole receiver.
#[derive(Clone, Copy, Debug)]
pub struct StopSignal {
    pub fired: bool,
    pub consumed: bool,
}

/// What a send does to the signal: the first fires it, any later one
/// changes nothing.
pub open spec fn spec_send(s: StopSignal) -> StopSignal {
    if s.fired {
        s
    } else {
        StopSignal { fired: true, ..s }
    }
}

/// Whether a send succeeds: only before the signal has fired.
pub open spec fn spec_send_ok(s: StopSignal) -> bool {
    !s.fired
}

/// What a receive does to the signal: the one that observes a fired,
/// unconsumed signal consumes it; any other changes nothing.
pub open spec fn spec_receive(s: StopSignal) -> StopSignal {
    if s.fired && !s.consumed {
        StopSignal { consumed: true, ..s }
    } else {
        s
    }
}

/// Whether a receive obtains the signal.
pub open spec fn spec_received(s: StopSignal) -> bool {
    s.fired && !s.consumed
}

impl StopSignal {
    /// A signal never counts as consumed before it has fired.
    pub open spec fn wf(self) -> bool {
        self.consumed ==> self.fired
    }

    /// A fresh signal for one session: not fired, not consumed.
    pub fn new() -> (s: StopSignal)
        ensures
            s.wf(),
            !s.fired,
            !s.consumed,
    {
        StopSignal { fired: false, consumed: false }
    }

    /// Delivers the stop event. The first send fires the signal;
    /// any further send is the caller protocol violation `DoubleStop`
    /// and changes nothing — it never panics.
    pub fn send(&mut self, _event: StopRecording) -> (r: Result<(), AudioError>)
        requires
            old(self).wf(),
        ensures
            final(self).wf(),
            *final(self) == spec_send(*old(self)),
            (r is Ok) == spec_send_ok(*old(self)),
            !old(self).fired ==> r == Ok::<(), AudioError>(())
                && final(self).fired
                && !final(self).consumed,
            old(self).fired ==> r == Err::<(), AudioError>(AudioError::DoubleStop)
                && *final(self) == *old(self),
    {
        if self.fired {
            Err(AudioError::DoubleStop)
        } else {
            self.fired = true;
            Ok(())
        }
    }

    /// The receiver's poll: consumes the signal exactly once. Yields
    /// true on the one call that observes a fired, not-yet-consumed
    /// signal; every other call yields false and changes nothing.
    pub fn try_receive(&mut self) -> (got: bool)
        requires
            old(self).wf(),
        ensures
            final(self).wf(),
            *final(self) == spec_receive(*old(self)),
            got == spec_received(*old(self)),
            got ==> final(self).fired && final(self).consumed,
            !got ==> *final(self) == *old(self),
    {
        if self.fired && !self.consumed {
            self.consumed = true;
            true
        } else {
            false
        }
    }
}

/// Law: the signal is one-shot on both sides — once a send has fired
/// it, every further send fails and changes nothing, and once a
/// receive has consumed it, every further receive comes back empty and
/// changes nothing. Exactly the first send and the first receive after
/// it succeed.
pub proof fn lemma_stop_signal_one_shot(s: StopSignal)
    ensures
        !spec_send_ok(spec_send(s)),
        spec_send(spec_send(s)) == spec_send(s),
        !spec_received(spec_receive(s)),
        spec_receive(spec_receive(s)) == spec_receive(s),
        !s.fired && !s.consumed ==> spec_send_ok(s) && spec_received(spec_send(s)),
{
}

} // verus!
