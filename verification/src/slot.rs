//! The frame buffer slot: a single-slot, overwrite-latest holder for the most
//! recent captured frame. Each write fully replaces the previous contents;
//! there is no queue and no backpressure, so a stale unread frame is silently
//! dropped. This module is the slot's sequential core; the cross-thread
//! wrapper around it lives in `sink`.

use vstd::prelude::*;

use crate::frame::{lemma_unpadded_identity, unpadded, OwnedFrame};

verus! {

/// The mutable cell holding the most recent frame, if any.
pub struct FrameSlot {
    latest: Option<OwnedFrame>,
}

/// What one write leaves in the slot: the new frame, whatever was there.
pub open spec fn store_spec(previous: Option<OwnedFrame>, f: OwnedFrame) -> Option<OwnedFrame> {
    Some(f)
}

/// The slot contents after a whole sequence of arrivals, each written in
/// order over the one before.
pub open spec fn slot_after(init: Option<OwnedFrame>, arrivals: Seq<OwnedFrame>) -> Option<
    OwnedFrame,
>
    decreases arrivals.len(),
{
    if arrivals.len() == 0 {
        init
    } else {
        store_spec(slot_after(init, arrivals.drop_last()), arrivals.last())
    }
}

/// Overwrite-latest semantics: after `n > 0` arrivals the slot holds exactly
/// the `n`-th arrived frame — never a mix of two frames, never a queue — and
/// with no arrival at all it still holds what it started with.
pub proof fn lemma_overwrite_latest(init: Option<OwnedFrame>, arrivals: Seq<OwnedFrame>)
    ensures
        arrivals.len() > 0 ==> slot_after(init, arrivals) == Some(arrivals.last()),
        arrivals.len() == 0 ==> slot_after(init, arrivals) == init,
{
}

/// A session in which no frame ever arrives writes nothing: the slot still
/// reads what it started as, and a slot that started empty reads empty.
pub proof fn lemma_no_arrival_reads_none(arrivals: Seq<OwnedFrame>)
    requires
        arrivals.len() == 0,
    ensures
        slot_after(None::<OwnedFrame>, arrivals) is None,
{
}

/// Round trip: a frame converted from an unpadded buffer of known geometry
/// and written into the slot reads back byte-identical to that buffer, with
/// exactly four bytes per pixel.
pub proof fn lemma_conversion_round_trip(
    init: Option<OwnedFrame>,
    f: OwnedFrame,
    buf: Seq<u8>,
    w: int,
    h: int,
)
    requires
        0 <= w,
        0 <= h,
        buf.len() == 4 * w * h,
        f.data@ == unpadded(buf, 4 * w, w, h),
    ensures
        slot_after(init, seq![f]) matches Some(g) && g == f,
        f.data@ == buf,
        f.data@.len() == 4 * w * h,
{
    lemma_unpadded_identity(buf, w, h);
    assert(slot_after(init, seq![f]) == store_spec(init, f));
}

impl FrameSlot {
    /// The slot's current contents.
    pub closed spec fn spec_latest(self) -> Option<OwnedFrame> {
        self.latest
    }

    /// A fresh slot holds no frame.
    pub fn empty() -> (s: FrameSlot)
        ensures
            s.spec_latest() is None,
    {
        FrameSlot { latest: None }
    }

    /// Replace the contents with a new frame; the previous one, read or not,
    /// is dropped.
    pub fn store(&mut self, f: OwnedFrame)
        ensures
            final(self).spec_latest() == store_spec(old(self).spec_latest(), f),
            final(self).spec_latest() == Some(f),
    {
        self.latest = Some(f);
    }

    /// Look at the current contents without changing them.
    pub fn read_latest(&self) -> (r: Option<&OwnedFrame>)
        ensures
            match r {
                Some(f) => self.spec_latest() == Some(*f),
                None => self.spec_latest() is None,
            },
    {
        self.latest.as_ref()
    }
}

} // verus!
