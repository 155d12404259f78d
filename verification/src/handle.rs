//! The capture handle: the opaque token a successful start hands back, used
//! to request that the session halt. Halting is a one-shot request; asking
//! again once the session is already halted is a defined no-op.

use vstd::prelude::*;

verus! {

/// What one halt request achieved.
#[derive(Clone, Copy, Debug, PartialEq, Eq, Structural)]
pub enum HaltSignal {
    /// The flag flipped: the driver thread must now be signalled to wind
    /// down its message loop.
    SignalDriver,
    /// The session was already halted; there is nothing to signal.
    AlreadyHalted,
}

/// The token embodying the right to stop one capture session.
pub struct CaptureHandle {
    halted: bool,
}

/// A handle after a halt request: halted, whatever it was before.
pub closed spec fn halt_spec(h: CaptureHandle) -> CaptureHandle {
    CaptureHandle { halted: true }
}

impl CaptureHandle {
    /// Whether halt has been requested through this handle.
    pub closed spec fn spec_halted(self) -> bool {
        self.halted
    }

    /// The handle a successful start delivers: not yet halted.
    pub fn new() -> (h: CaptureHandle)
        ensures
            !h.spec_halted(),
    {
        CaptureHandle { halted: false }
    }

    /// Request that the capture session halt. The first request asks the
    /// caller to signal the driver; any later one is a no-op, so a second
    /// halt can neither deadlock nor fail.
    pub fn halt(&mut self) -> (sig: HaltSignal)
        ensures
            *final(self) == halt_spec(*old(self)),
            final(self).spec_halted(),
            sig == HaltSignal::SignalDriver <==> !old(self).spec_halted(),
            old(self).spec_halted() ==> *final(self) == *old(self) && sig
                == HaltSignal::AlreadyHalted,
    {
        if self.halted {
            HaltSignal::AlreadyHalted
        } else {
            self.halted = true;
            HaltSignal::SignalDriver
        }
    }

    /// Whether this handle has already issued its halt request.
    pub fn is_halted(&self) -> (b: bool)
        ensures
            b == self.spec_halted(),
    {
        self.halted
    }
}

/// Halting twice is the same as halting once: a second halt request on an
/// already-stopped session changes nothing.
pub proof fn lemma_halt_idempotent(h: CaptureHandle)
    ensures
        halt_spec(halt_spec(h)) == halt_spec(h),
        halt_spec(h).spec_halted(),
{
}

} // verus!
