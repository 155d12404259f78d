//! The error taxonomy of a capture session: conversion errors from the
//! frame-arrived path, setup and shutdown errors from the driver thread, and
//! handshake errors seen by the spawning side.

use vstd::prelude::*;

verus! {

/// Why converting a native frame's raw buffer into an owned snapshot failed.
#[derive(Clone, Copy, Debug, PartialEq, Eq, Structural)]
pub enum FrameError {
    /// The reported row pitch cannot hold even one row of pixels.
    RowPitchTooSmall,
    /// The raw buffer ends before the last row's pixels do.
    BufferTooShort,
}

/// What the frame-arrived handler can record as an internal failure. The
/// frame sink sits behind a verified lock, which cannot be poisoned, so
/// conversion is the one thing that can go wrong inside the handler.
#[derive(Clone, Copy, Debug, PartialEq, Eq, Structural)]
pub enum HandlerError {
    /// The arriving frame could not be converted into an owned snapshot.
    Conversion(FrameError),
}

/// The terminal error of a capture session, observed by the caller either
/// when `start` fails or when the driver thread is joined.
#[derive(Clone, Copy, Debug, PartialEq, Eq, Structural)]
pub enum CaptureError {
    /// The per-thread dispatcher queue could not be created.
    FailedToCreateDispatcherQueueController,
    /// Constructing the handler instance failed.
    NewHandlerError,
    /// Opening the native capture session against the target failed.
    FailedToOpenCaptureSession,
    /// The opened session refused to begin capturing.
    FailedToStartCapture,
    /// Requesting an asynchronous shutdown of the dispatcher queue failed.
    FailedToShutdownDispatcherQueue,
    /// Registering the shutdown completion handler failed.
    FailedToSetDispatcherQueueCompletedHandler,
    /// The handler recorded an internal error; it supersedes a clean result.
    FrameHandlerError(HandlerError),
    /// The driver thread exited without a result (it panicked).
    FailedToJoinThread,
    /// The driver thread finished without error yet never delivered its
    /// handles; reported instead of panicking on an impossible handoff.
    HandleNotDelivered,
}

} // verus!
