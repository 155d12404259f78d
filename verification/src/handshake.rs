//! The startup handshake: before `start` returns, the spawning side must
//! receive, in order, the halt handle and then the callback-state handle
//! over two one-shot channels. If either sender was dropped — the spawned
//! thread exited early — the spawner joins the thread and propagates the
//! thread's own error; a thread that panicked without a result is a join
//! failure of its own.

use vstd::prelude::*;

use crate::errors::CaptureError;
use crate::handle::CaptureHandle;
use crate::handler::SharedHandler;

verus! {

/// What one blocking receive on a one-shot channel came back with.
pub enum RecvOutcome<T> {
    /// The driver thread sent its value before the channel closed.
    Delivered(T),
    /// The sender was dropped without sending: the thread exited early.
    SenderDropped,
}

/// What joining the driver thread came back with.
pub enum JoinOutcome {
    /// The thread's entry function returned this result.
    Finished(Result<(), CaptureError>),
    /// The thread panicked; there is no result to propagate.
    Panicked,
}

/// A successfully started session, as `start` hands it to its caller: the
/// halt handle and the shared handler, received in that order.
pub struct StartedCapture {
    pub handle: CaptureHandle,
    pub callback: SharedHandler,
}

/// The error `start` owes when a handshake receive fails and the thread is
/// joined: the thread's own error if it finished with one; a defined
/// delivery error — never a panic — if it finished clean without sending;
/// a join failure if it panicked.
pub open spec fn handshake_error(join: JoinOutcome) -> CaptureError {
    match join {
        JoinOutcome::Finished(thread_result) => match thread_result {
            Ok(_) => CaptureError::HandleNotDelivered,
            Err(e) => e,
        },
        JoinOutcome::Panicked => CaptureError::FailedToJoinThread,
    }
}

/// Resolve the spawning side of the handshake. `halt` is the first receive,
/// `callback` the second; `join` is what joining the thread returns and is
/// consulted only when a receive failed. Start succeeds exactly when both
/// handles were delivered.
pub fn await_handshake(
    halt: RecvOutcome<CaptureHandle>,
    callback: RecvOutcome<SharedHandler>,
    join: JoinOutcome,
) -> (r: Result<StartedCapture, CaptureError>)
    ensures
        r is Ok <==> (halt is Delivered && callback is Delivered),
        r matches Ok(s) ==> {
            &&& halt matches RecvOutcome::Delivered(h)
            &&& s.handle == h
            &&& callback matches RecvOutcome::Delivered(c)
            &&& s.callback == c
        },
        r matches Err(e) ==> e == handshake_error(join),
{
    match halt {
        RecvOutcome::Delivered(handle) => match callback {
            RecvOutcome::Delivered(cb) => Ok(StartedCapture { handle, callback: cb }),
            RecvOutcome::SenderDropped => Err(join_error(join)),
        },
        RecvOutcome::SenderDropped => Err(join_error(join)),
    }
}

/// Map what the joined thread returned onto the error `start` reports.
pub fn join_error(join: JoinOutcome) -> (e: CaptureError)
    ensures
        e == handshake_error(join),
{
    match join {
        JoinOutcome::Finished(thread_result) => match thread_result {
            Ok(_) => CaptureError::HandleNotDelivered,
            Err(err) => err,
        },
        JoinOutcome::Panicked => CaptureError::FailedToJoinThread,
    }
}

} // verus!
