//! The offscreen poller's change detection. The frame sink pushes nothing:
//! a poller reads the slot in a loop and must itself decide whether the
//! contents changed, here by comparing the frame's leading byte against the
//! last one it saw.

use vstd::prelude::*;

use crate::frame::OwnedFrame;

verus! {

/// The leading byte of a frame's pixel data, if it has any.
pub open spec fn leading_byte(f: OwnedFrame) -> Option<u8> {
    if f.data@.len() > 0 {
        Some(f.data@[0])
    } else {
        None
    }
}

/// A poller's own memory between two reads of the frame sink: the leading
/// byte of the last frame it reacted to, starting at zero.
pub struct PollerState {
    last: u8,
}

impl PollerState {
    /// The leading byte this poller last saw.
    pub closed spec fn spec_last(self) -> u8 {
        self.last
    }

    /// A poller that has not seen any frame yet.
    pub fn new() -> (p: PollerState)
        ensures
            p.spec_last() == 0u8,
    {
        PollerState { last: 0 }
    }

    /// The leading byte this poller last saw.
    pub fn last_seen(&self) -> (b: u8)
        ensures
            b == self.spec_last(),
    {
        self.last
    }

    /// Look at one frame read from the sink: report whether its leading byte
    /// differs from the last one seen, and remember it. A frame with no
    /// pixel data at all is no change and leaves the memory alone.
    pub fn observe(&mut self, f: &OwnedFrame) -> (changed: bool)
        ensures
            match leading_byte(*f) {
                Some(b) => changed == (b != old(self).spec_last()) && final(self).spec_last() == b,
                None => changed == false && *final(self) == *old(self),
            },
    {
        if f.data.len() > 0 {
            let b = f.data[0];
            if b != self.last {
                self.last = b;
                true
            } else {
                false
            }
        } else {
            false
        }
    }
}

} // verus!
