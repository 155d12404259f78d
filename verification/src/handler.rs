//! The capture handler: the object the native capture runtime calls back
//! into whenever a frame arrives or the capture target closes. It converts
//! each arriving frame into an owned snapshot and writes it to the shared
//! frame sink. Because the runtime may invoke it from its own thread, the
//! handler is shared behind a reference count and a verified
//! mutual-exclusion lock (`SharedHandler`); the callback dispatch under the
//! lock is verified code.

use vstd::prelude::*;
use vstd::rwlock::{RwLock, RwLockPredicate};

use crate::errors::{FrameError, HandlerError};
use crate::frame::OwnedFrame;
use crate::sink::SharedSlot;

use std::sync::Arc;

verus! {

/// The handler instance: it owns a handle to the shared frame sink and
/// nothing else. Mirrors the capture runtime's handler shape: constructed
/// once per session from the session's flags payload (the sink), then driven
/// entirely through its two callbacks.
pub struct RecordingContext {
    sink: SharedSlot,
}

/// The result the frame-arrived callback owes for a raw buffer of length
/// `len` with the given geometry: it succeeds exactly on a convertible
/// frame, and a conversion error names exactly what did not fit.
pub open spec fn frame_arrival_ok(r: Result<(), HandlerError>, len: int, pitch: int, w: int, h: int) -> bool {
    &&& r is Ok <==> OwnedFrame::convertible(len, pitch, w, h)
    &&& pitch < 4 * w ==> r == Err::<(), HandlerError>(
        HandlerError::Conversion(FrameError::RowPitchTooSmall),
    )
    &&& (pitch >= 4 * w && h > 0 && len < (h - 1) * pitch + 4 * w) ==> r == Err::<(), HandlerError>(
        HandlerError::Conversion(FrameError::BufferTooShort),
    )
}

impl RecordingContext {
    /// The sink this handler writes every converted frame to.
    pub closed spec fn spec_sink(self) -> SharedSlot {
        self.sink
    }

    /// Construct the handler around the session's frame sink. Construction
    /// itself cannot fail; the `Result` is the shape the capture runtime
    /// expects of a handler constructor.
    pub fn new(frame_storage: SharedSlot) -> (r: Result<RecordingContext, HandlerError>)
        ensures
            r is Ok,
            r matches Ok(c) ==> c.spec_sink() == frame_storage,
    {
        Ok(RecordingContext { sink: frame_storage })
    }

    /// The frame-arrived callback: convert the transient raw buffer into an
    /// owned snapshot and replace the sink's contents with it. A frame that
    /// cannot be converted is surfaced as a conversion error and the sink is
    /// left alone.
    pub fn on_frame_arrived(
        &mut self,
        buffer: &Vec<u8>,
        row_pitch: usize,
        width: u32,
        height: u32,
    ) -> (r: Result<(), HandlerError>)
        ensures
            *final(self) == *old(self),
            frame_arrival_ok(
                r,
                buffer@.len() as int,
                row_pitch as int,
                width as int,
                height as int,
            ),
    {
        match OwnedFrame::from_padded(buffer, row_pitch, width, height) {
            Ok(f) => {
                self.sink.store_latest(f);
                Ok(())
            },
            Err(e) => Err(HandlerError::Conversion(e)),
        }
    }

    /// The closed callback: the capture target disappeared. It only
    /// acknowledges; shutting the message loop down stays the caller's
    /// responsibility, so neither the handler nor the sink changes.
    pub fn on_closed(&mut self) -> (r: Result<(), HandlerError>)
        ensures
            *final(self) == *old(self),
            r is Ok,
    {
        Ok(())
    }
}

/// The handler lock's invariant: any handler value may sit inside.
pub struct HandlerInv {}

impl RwLockPredicate<RecordingContext> for HandlerInv {
    open spec fn inv(self, c: RecordingContext) -> bool {
        true
    }
}

/// The callback-state handle: the handler behind a reference count and a
/// verified mutual-exclusion lock, because the native runtime may invoke the
/// callbacks from its own thread context, concurrently with the driver.
/// Copies made with `share` refer to the same handler.
pub struct SharedHandler {
    inner: Arc<RwLock<RecordingContext, HandlerInv>>,
}

impl SharedHandler {
    /// Wrap a handler for shared use.
    pub fn new(ctx: RecordingContext) -> (s: SharedHandler) {
        SharedHandler { inner: Arc::new(RwLock::new(ctx, Ghost(HandlerInv {}))) }
    }

    /// Another handle to the same handler, as when the driver keeps the
    /// handler while sending a second handle to the spawning side.
    pub fn share(&self) -> (s: SharedHandler) {
        SharedHandler { inner: Arc::clone(&self.inner) }
    }

    /// Run the frame-arrived callback under the handler lock: exclusive
    /// access to the one handler inside, so the result is exactly that of
    /// `RecordingContext::on_frame_arrived`, whose guarantees do not depend
    /// on the handler's state.
    pub fn deliver_frame(
        &self,
        buffer: &Vec<u8>,
        row_pitch: usize,
        width: u32,
        height: u32,
    ) -> (r: Result<(), HandlerError>)
        ensures
            frame_arrival_ok(
                r,
                buffer@.len() as int,
                row_pitch as int,
                width as int,
                height as int,
            ),
    {
        let (mut ctx, write_handle) = self.inner.acquire_write();
        let r = ctx.on_frame_arrived(buffer, row_pitch, width, height);
        write_handle.release_write(ctx);
        r
    }

    /// Run the closed callback under the handler lock; it always
    /// acknowledges.
    pub fn notify_closed(&self) -> (r: Result<(), HandlerError>)
        ensures
            r is Ok,
    {
        let (mut ctx, write_handle) = self.inner.acquire_write();
        let r = ctx.on_closed();
        write_handle.release_write(ctx);
        r
    }
}

} // verus!
