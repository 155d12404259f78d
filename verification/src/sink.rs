//! The cross-thread frame sink: the frame buffer slot behind a reference
//! count and a verified reader-writer lock, so that the capture thread can
//! write it while a poller on another thread reads it. Lock, store and read
//! are all verified code; the lock's invariant keeps every frame in the slot
//! well formed. A verified lock cannot be poisoned, so the poisoning failure
//! mode of an ordinary mutex does not arise here.

use vstd::prelude::*;
use vstd::rwlock::{RwLock, RwLockPredicate};

use crate::frame::OwnedFrame;
use crate::slot::FrameSlot;

use std::sync::Arc;

verus! {

/// The slot lock's invariant: whatever frame the slot holds is well formed.
pub struct SlotInv {}

impl RwLockPredicate<FrameSlot> for SlotInv {
    open spec fn inv(self, s: FrameSlot) -> bool {
        s.spec_latest() matches Some(f) ==> f.wf()
    }
}

/// A handle to the shared frame buffer slot. Copies made with `share` refer
/// to the same slot.
pub struct SharedSlot {
    cell: Arc<RwLock<FrameSlot, SlotInv>>,
}

impl SharedSlot {
    /// A fresh shared slot holding no frame.
    pub fn new() -> (s: SharedSlot) {
        SharedSlot { cell: Arc::new(RwLock::new(FrameSlot::empty(), Ghost(SlotInv {}))) }
    }

    /// Another handle to the same slot: a frame written through one handle
    /// is read through the other.
    pub fn share(&self) -> (s: SharedSlot) {
        SharedSlot { cell: Arc::clone(&self.cell) }
    }

    /// Write a frame into the slot, replacing whatever was there. Blocks
    /// only while another thread holds the lock for its own brief store or
    /// read. Which frame a later read sees stays unstated: another writer
    /// may replace this one first.
    pub fn store_latest(&self, f: OwnedFrame)
        requires
            f.wf(),
    {
        let (mut slot, write_handle) = self.cell.acquire_write();
        slot.store(f);
        write_handle.release_write(slot);
    }

    /// Take a snapshot of the current contents. Nothing is claimed of which
    /// frame comes back — another thread may overwrite the slot right after
    /// — but whatever does is well formed, by the lock's invariant.
    pub fn read_latest(&self) -> (r: Option<OwnedFrame>)
        ensures
            r matches Some(f) ==> f.wf(),
    {
        let read_handle = self.cell.acquire_read();
        let snapshot: Option<OwnedFrame> = match read_handle.borrow().read_latest() {
            Some(f) => Some(f.duplicate()),
            None => None,
        };
        read_handle.release_read();
        snapshot
    }
}

} // verus!
