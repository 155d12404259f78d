//! The capture session driver, as a state machine. The dedicated driver
//! thread alternates between outside work (creating its dispatcher queue,
//! opening the native session, pumping the platform message loop) and
//! decisions; the decisions are all here, as a verified transition function
//! from phase and event to the next phase and the action owed next. The
//! embedding program performs each action and feeds the outcome back in as
//! the next event.

use vstd::prelude::*;

use crate::errors::{CaptureError, HandlerError};

verus! {

/// Where in its lifecycle a capture session stands.
#[derive(Clone, Copy, Debug, PartialEq, Eq, Structural)]
pub enum SessionPhase {
    /// No driver thread exists yet.
    Uninitialized,
    /// The dedicated thread runs and is setting up its per-thread
    /// infrastructure and the native session.
    ThreadSpawned,
    /// The native capture session is open against the target but has not
    /// begun capturing.
    ApiInitialized,
    /// Frames may arrive; the message loop is being pumped.
    Capturing,
    /// Halt was signalled; the dispatcher queue is shutting down.
    HaltRequested,
    /// The shutdown completion is registered; pending messages drain until
    /// the queued quit arrives.
    Draining,
    /// The native session is stopped and the thread is about to return.
    Stopped,
    /// An unrecoverable error ended the session.
    Failed(CaptureError),
}

/// What happened, reported to the driver by the outside work it ordered.
#[derive(Clone, Copy, Debug, PartialEq, Eq, Structural)]
pub enum DriverEvent {
    /// The caller asked for a capture session.
    StartRequested,
    /// The per-thread dispatcher queue exists.
    DispatcherQueueCreated,
    /// The per-thread dispatcher queue could not be created.
    DispatcherQueueFailed,
    /// The handler instance was constructed and wrapped for shared access.
    HandlerConstructed,
    /// Constructing the handler instance failed.
    HandlerConstructionFailed,
    /// The native capture session is open against the target.
    SessionOpened,
    /// Opening the native capture session failed.
    SessionOpenFailed,
    /// The native session began capturing.
    CaptureStarted,
    /// The native session refused to begin capturing.
    CaptureStartFailed,
    /// A frame arrived and the handler converted and stored it.
    FrameDelivered,
    /// A frame arrived and the handler failed on it, with this error.
    FrameFailed(HandlerError),
    /// The capture target disappeared; acknowledged, nothing more.
    TargetClosed,
    /// The halt handle was used; the session must wind down.
    HaltSignalled,
    /// The dispatcher queue accepted its asynchronous shutdown.
    QueueShutdownStarted,
    /// Requesting the dispatcher queue shutdown failed.
    QueueShutdownFailed,
    /// The shutdown completion handler that posts the quit is registered.
    CompletionHandlerSet,
    /// Registering the shutdown completion handler failed.
    CompletionHandlerFailed,
    /// The message loop ran until the queued quit arrived.
    MessageLoopDrained,
    /// The native capture session was stopped explicitly.
    CaptureStopped,
}

/// The one piece of outside work the driver owes after a step. The embedding
/// program performs it and reports the outcome as the next event.
#[derive(Clone, Copy, Debug, PartialEq, Eq, Structural)]
pub enum DriverAction {
    /// Spawn the dedicated thread and create its dispatcher queue.
    CreateDispatcherQueue,
    /// Construct the handler and wrap it for shared access.
    ConstructHandler,
    /// Open the native capture session against the target.
    OpenSession,
    /// Ask the open session to begin capturing.
    BeginCapture,
    /// Send the halt handle, then the handler handle, to the spawning side.
    DeliverHandles,
    /// Ask the dispatcher queue for an asynchronous shutdown.
    ShutdownQueue,
    /// Register the completion handler that posts the quit message.
    RegisterCompletion,
    /// Pump the message loop until the queued quit arrives.
    DrainMessages,
    /// Stop the native capture session explicitly.
    StopCapture,
    /// Return the session's terminal result to whoever joins the thread.
    ReportResult,
    /// Nothing; the message loop simply keeps running.
    NoAction,
}

/// The phase after `event` hits a session in phase `s`. An event that has no
/// meaning in the current phase changes nothing: in particular a halt
/// signalled to an already stopped or failed session is a no-op, never a
/// deadlock.
pub open spec fn next_phase(s: SessionPhase, event: DriverEvent) -> SessionPhase {
    match (s, event) {
        (SessionPhase::Uninitialized, DriverEvent::StartRequested) => SessionPhase::ThreadSpawned,
        (SessionPhase::ThreadSpawned, DriverEvent::DispatcherQueueCreated) => SessionPhase::ThreadSpawned,
        (SessionPhase::ThreadSpawned, DriverEvent::DispatcherQueueFailed) => SessionPhase::Failed(
            CaptureError::FailedToCreateDispatcherQueueController,
        ),
        (SessionPhase::ThreadSpawned, DriverEvent::HandlerConstructed) => SessionPhase::ThreadSpawned,
        (SessionPhase::ThreadSpawned, DriverEvent::HandlerConstructionFailed) => SessionPhase::Failed(
            CaptureError::NewHandlerError,
        ),
        (SessionPhase::ThreadSpawned, DriverEvent::SessionOpened) => SessionPhase::ApiInitialized,
        (SessionPhase::ThreadSpawned, DriverEvent::SessionOpenFailed) => SessionPhase::Failed(
            CaptureError::FailedToOpenCaptureSession,
        ),
        (SessionPhase::ApiInitialized, DriverEvent::CaptureStarted) => SessionPhase::Capturing,
        (SessionPhase::ApiInitialized, DriverEvent::CaptureStartFailed) => SessionPhase::Failed(
            CaptureError::FailedToStartCapture,
        ),
        (SessionPhase::Capturing, DriverEvent::FrameDelivered) => SessionPhase::Capturing,
        (SessionPhase::Capturing, DriverEvent::FrameFailed(_)) => SessionPhase::Capturing,
        (SessionPhase::Capturing, DriverEvent::TargetClosed) => SessionPhase::Capturing,
        (SessionPhase::Capturing, DriverEvent::HaltSignalled) => SessionPhase::HaltRequested,
        (SessionPhase::HaltRequested, DriverEvent::QueueShutdownStarted) => SessionPhase::HaltRequested,
        (SessionPhase::HaltRequested, DriverEvent::QueueShutdownFailed) => SessionPhase::Failed(
            CaptureError::FailedToShutdownDispatcherQueue,
        ),
        (SessionPhase::HaltRequested, DriverEvent::CompletionHandlerSet) => SessionPhase::Draining,
        (SessionPhase::HaltRequested, DriverEvent::CompletionHandlerFailed) => SessionPhase::Failed(
            CaptureError::FailedToSetDispatcherQueueCompletedHandler,
        ),
        (SessionPhase::Draining, DriverEvent::MessageLoopDrained) => SessionPhase::Draining,
        (SessionPhase::Draining, DriverEvent::CaptureStopped) => SessionPhase::Stopped,
        _ => s,
    }
}

/// The outside work owed after `event` hits a session in phase `s`.
pub open spec fn next_action(s: SessionPhase, event: DriverEvent) -> DriverAction {
    match (s, event) {
        (SessionPhase::Uninitialized, DriverEvent::StartRequested) => DriverAction::CreateDispatcherQueue,
        (SessionPhase::ThreadSpawned, DriverEvent::DispatcherQueueCreated) => DriverAction::ConstructHandler,
        (SessionPhase::ThreadSpawned, DriverEvent::DispatcherQueueFailed) => DriverAction::ReportResult,
        (SessionPhase::ThreadSpawned, DriverEvent::HandlerConstructed) => DriverAction::OpenSession,
        (SessionPhase::ThreadSpawned, DriverEvent::HandlerConstructionFailed) => DriverAction::ReportResult,
        (SessionPhase::ThreadSpawned, DriverEvent::SessionOpened) => DriverAction::BeginCapture,
        (SessionPhase::ThreadSpawned, DriverEvent::SessionOpenFailed) => DriverAction::ReportResult,
        (SessionPhase::ApiInitialized, DriverEvent::CaptureStarted) => DriverAction::DeliverHandles,
        (SessionPhase::ApiInitialized, DriverEvent::CaptureStartFailed) => DriverAction::ReportResult,
        (SessionPhase::Capturing, DriverEvent::HaltSignalled) => DriverAction::ShutdownQueue,
        (SessionPhase::HaltRequested, DriverEvent::QueueShutdownStarted) => DriverAction::RegisterCompletion,
        (SessionPhase::HaltRequested, DriverEvent::QueueShutdownFailed) => DriverAction::ReportResult,
        (SessionPhase::HaltRequested, DriverEvent::CompletionHandlerSet) => DriverAction::DrainMessages,
        (SessionPhase::HaltRequested, DriverEvent::CompletionHandlerFailed) => DriverAction::ReportResult,
        (SessionPhase::Draining, DriverEvent::MessageLoopDrained) => DriverAction::StopCapture,
        (SessionPhase::Draining, DriverEvent::CaptureStopped) => DriverAction::ReportResult,
        _ => DriverAction::NoAction,
    }
}

/// What the handler has recorded after `event`, given what it had recorded
/// before: the first frame-processing error seen while capturing sticks.
pub open spec fn next_recorded(
    s: SessionPhase,
    recorded: Option<HandlerError>,
    event: DriverEvent,
) -> Option<HandlerError> {
    match (s, event) {
        (SessionPhase::Capturing, DriverEvent::FrameFailed(e)) => if recorded is None {
            Some(e)
        } else {
            recorded
        },
        _ => recorded,
    }
}

/// The driver's own record of one session: its phase, and the internal error
/// the frame handler recorded, if any.
pub struct SessionDriver {
    phase: SessionPhase,
    recorded: Option<HandlerError>,
}

impl SessionDriver {
    /// The session's current phase.
    pub closed spec fn spec_phase(self) -> SessionPhase {
        self.phase
    }

    /// The first internal handler error seen while capturing, if any.
    pub closed spec fn spec_recorded(self) -> Option<HandlerError> {
        self.recorded
    }

    /// A session that has not started anything yet.
    pub fn begin() -> (d: SessionDriver)
        ensures
            d.spec_phase() == SessionPhase::Uninitialized,
            d.spec_recorded() is None,
    {
        SessionDriver { phase: SessionPhase::Uninitialized, recorded: None }
    }

    /// The session's current phase.
    pub fn phase(&self) -> (p: SessionPhase)
        ensures
            p == self.spec_phase(),
    {
        self.phase
    }

    /// Feed one event in; move to the next phase, remember a first handler
    /// error, and say what outside work is owed next.
    pub fn handle_event(&mut self, event: DriverEvent) -> (a: DriverAction)
        ensures
            final(self).spec_phase() == next_phase(old(self).spec_phase(), event),
            final(self).spec_recorded() == next_recorded(
                old(self).spec_phase(),
                old(self).spec_recorded(),
                event,
            ),
            a == next_action(old(self).spec_phase(), event),
    {
        if let DriverEvent::FrameFailed(e) = event {
            if let SessionPhase::Capturing = self.phase {
                if self.recorded.is_none() {
                    self.recorded = Some(e);
                }
            }
        }
        let a = match (self.phase, event) {
            (SessionPhase::Uninitialized, DriverEvent::StartRequested) => {
                self.phase = SessionPhase::ThreadSpawned;
                DriverAction::CreateDispatcherQueue
            },
            (SessionPhase::ThreadSpawned, DriverEvent::DispatcherQueueCreated) => {
                DriverAction::ConstructHandler
            },
            (SessionPhase::ThreadSpawned, DriverEvent::DispatcherQueueFailed) => {
                self.phase = SessionPhase::Failed(
                    CaptureError::FailedToCreateDispatcherQueueController,
                );
                DriverAction::ReportResult
            },
            (SessionPhase::ThreadSpawned, DriverEvent::HandlerConstructed) => {
                DriverAction::OpenSession
            },
            (SessionPhase::ThreadSpawned, DriverEvent::HandlerConstructionFailed) => {
                self.phase = SessionPhase::Failed(CaptureError::NewHandlerError);
                DriverAction::ReportResult
            },
            (SessionPhase::ThreadSpawned, DriverEvent::SessionOpened) => {
                self.phase = SessionPhase::ApiInitialized;
                DriverAction::BeginCapture
            },
            (SessionPhase::ThreadSpawned, DriverEvent::SessionOpenFailed) => {
                self.phase = SessionPhase::Failed(CaptureError::FailedToOpenCaptureSession);
                DriverAction::ReportResult
            },
            (SessionPhase::ApiInitialized, DriverEvent::CaptureStarted) => {
                self.phase = SessionPhase::Capturing;
                DriverAction::DeliverHandles
            },
            (SessionPhase::ApiInitialized, DriverEvent::CaptureStartFailed) => {
                self.phase = SessionPhase::Failed(CaptureError::FailedToStartCapture);
                DriverAction::ReportResult
            },
            (SessionPhase::Capturing, DriverEvent::HaltSignalled) => {
                self.phase = SessionPhase::HaltRequested;
                DriverAction::ShutdownQueue
            },
            (SessionPhase::HaltRequested, DriverEvent::QueueShutdownStarted) => {
                DriverAction::RegisterCompletion
            },
            (SessionPhase::HaltRequested, DriverEvent::QueueShutdownFailed) => {
                self.phase = SessionPhase::Failed(CaptureError::FailedToShutdownDispatcherQueue);
                DriverAction::ReportResult
            },
            (SessionPhase::HaltRequested, DriverEvent::CompletionHandlerSet) => {
                self.phase = SessionPhase::Draining;
                DriverAction::DrainMessages
            },
            (SessionPhase::HaltRequested, DriverEvent::CompletionHandlerFailed) => {
                self.phase = SessionPhase::Failed(
                    CaptureError::FailedToSetDispatcherQueueCompletedHandler,
                );
                DriverAction::ReportResult
            },
            (SessionPhase::Draining, DriverEvent::MessageLoopDrained) => DriverAction::StopCapture,
            (SessionPhase::Draining, DriverEvent::CaptureStopped) => {
                self.phase = SessionPhase::Stopped;
                DriverAction::ReportResult
            },
            _ => DriverAction::NoAction,
        };
        a
    }

    /// The session's terminal result, read at join time: a failure phase
    /// returns its error; a stopped session returns the handler's recorded
    /// error if there is one — it supersedes a clean result — and only
    /// otherwise a clean Ok.
    pub fn finish(&self) -> (r: Result<(), CaptureError>)
        requires
            self.spec_phase() is Stopped || self.spec_phase() is Failed,
        ensures
            self.spec_phase() matches SessionPhase::Failed(e) ==> r == Err::<(), CaptureError>(e),
            self.spec_phase() is Stopped ==> (self.spec_recorded() matches Some(he) ==> r == Err::<
                (),
                CaptureError,
            >(CaptureError::FrameHandlerError(he))),
            self.spec_phase() is Stopped && self.spec_recorded() is None ==> r is Ok,
    {
        match self.phase {
            SessionPhase::Failed(e) => Err(e),
            _ => match self.recorded {
                Some(he) => Err(CaptureError::FrameHandlerError(he)),
                None => Ok(()),
            },
        }
    }
}

/// A numeric rank for the lifecycle's forward direction.
pub open spec fn phase_rank(s: SessionPhase) -> int {
    match s {
        SessionPhase::Uninitialized => 0,
        SessionPhase::ThreadSpawned => 1,
        SessionPhase::ApiInitialized => 2,
        SessionPhase::Capturing => 3,
        SessionPhase::HaltRequested => 4,
        SessionPhase::Draining => 5,
        SessionPhase::Stopped => 6,
        SessionPhase::Failed(_) => 7,
    }
}

/// The lifecycle only moves forward: no event returns a session to an
/// earlier phase.
pub proof fn lemma_phase_monotone(s: SessionPhase, event: DriverEvent)
    ensures
        phase_rank(next_phase(s, event)) >= phase_rank(s),
{
}

/// Only one step of the whole table delivers the handshake handles: the one
/// that takes an initialized session into capturing.
pub proof fn lemma_deliver_handles_single_source(s: SessionPhase, event: DriverEvent)
    ensures
        next_action(s, event) == DriverAction::DeliverHandles <==> (s
            == SessionPhase::ApiInitialized && event == DriverEvent::CaptureStarted),
{
}

/// A session begins capturing only by one step: capture started out of an
/// initialized session.
pub proof fn lemma_capturing_entered_from_initialized(s: SessionPhase, event: DriverEvent)
    requires
        s != SessionPhase::Capturing,
    ensures
        next_phase(s, event) == SessionPhase::Capturing <==> (s == SessionPhase::ApiInitialized
            && event == DriverEvent::CaptureStarted),
{
}

/// A session stops only through the orderly teardown: the one step out of
/// draining, after the native session was stopped explicitly.
pub proof fn lemma_stopped_only_after_draining(s: SessionPhase, event: DriverEvent)
    requires
        s != SessionPhase::Stopped,
    ensures
        next_phase(s, event) == SessionPhase::Stopped <==> (s == SessionPhase::Draining && event
            == DriverEvent::CaptureStopped),
{
}

/// The phases a session can only be in once its handshake handles have been
/// sent: capturing and everything after it, including the two shutdown
/// failures, but no setup failure.
pub open spec fn handles_delivered(s: SessionPhase) -> bool {
    match s {
        SessionPhase::Capturing => true,
        SessionPhase::HaltRequested => true,
        SessionPhase::Draining => true,
        SessionPhase::Stopped => true,
        SessionPhase::Failed(e) => e == CaptureError::FailedToShutdownDispatcherQueue || e
            == CaptureError::FailedToSetDispatcherQueueCompletedHandler,
        _ => false,
    }
}

/// One step keeps the delivery book straight: a step delivers the handles
/// exactly when it moves the session into the delivered phases, and a
/// session already past delivery never delivers again.
pub proof fn lemma_delivery_step(s: SessionPhase, event: DriverEvent)
    ensures
        handles_delivered(next_phase(s, event)) <==> (handles_delivered(s) || next_action(s, event)
            == DriverAction::DeliverHandles),
        handles_delivered(s) ==> next_action(s, event) != DriverAction::DeliverHandles,
{
}

/// The phase after a whole run of events from `init`.
pub open spec fn run_phase(init: SessionPhase, events: Seq<DriverEvent>) -> SessionPhase
    decreases events.len(),
{
    if events.len() == 0 {
        init
    } else {
        next_phase(run_phase(init, events.drop_last()), events.last())
    }
}

/// How many steps of a run deliver the handshake handles.
pub open spec fn deliveries(init: SessionPhase, events: Seq<DriverEvent>) -> nat
    decreases events.len(),
{
    if events.len() == 0 {
        0
    } else {
        deliveries(init, events.drop_last()) + (if next_action(
            run_phase(init, events.drop_last()),
            events.last(),
        ) == DriverAction::DeliverHandles {
            1nat
        } else {
            0nat
        })
    }
}

/// Over any run of a session that starts before delivery, the handshake
/// handles are delivered at most once — and exactly once when, and only
/// when, the session made it into capturing or beyond.
pub proof fn lemma_handles_delivered_exactly_once(init: SessionPhase, events: Seq<DriverEvent>)
    requires
        !handles_delivered(init),
    ensures
        deliveries(init, events) <= 1,
        deliveries(init, events) == 1 <==> handles_delivered(run_phase(init, events)),
    decreases events.len(),
{
    if events.len() > 0 {
        lemma_handles_delivered_exactly_once(init, events.drop_last());
        lemma_delivery_step(run_phase(init, events.drop_last()), events.last());
    }
}

} // verus!
