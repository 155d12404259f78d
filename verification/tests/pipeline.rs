use frame_capture::driver::{DriverAction, DriverEvent, SessionDriver, SessionPhase};
use frame_capture::errors::{CaptureError, FrameError, HandlerError};
use frame_capture::frame::OwnedFrame;
use frame_capture::handle::{CaptureHandle, HaltSignal};
use frame_capture::handler::{RecordingContext, SharedHandler};
use frame_capture::handshake::{await_handshake, JoinOutcome, RecvOutcome, StartedCapture};
use frame_capture::poller::PollerState;
use frame_capture::sink::SharedSlot;
use frame_capture::slot::FrameSlot;

fn drive_to_capturing(driver: &mut SessionDriver) {
    assert_eq!(
        driver.handle_event(DriverEvent::StartRequested),
        DriverAction::CreateDispatcherQueue
    );
    assert_eq!(
        driver.handle_event(DriverEvent::DispatcherQueueCreated),
        DriverAction::ConstructHandler
    );
    assert_eq!(
        driver.handle_event(DriverEvent::HandlerConstructed),
        DriverAction::OpenSession
    );
    assert_eq!(
        driver.handle_event(DriverEvent::SessionOpened),
        DriverAction::BeginCapture
    );
    assert_eq!(
        driver.handle_event(DriverEvent::CaptureStarted),
        DriverAction::DeliverHandles
    );
    assert_eq!(driver.phase(), SessionPhase::Capturing);
}

fn drive_shutdown(driver: &mut SessionDriver) {
    assert_eq!(
        driver.handle_event(DriverEvent::HaltSignalled),
        DriverAction::ShutdownQueue
    );
    assert_eq!(
        driver.handle_event(DriverEvent::QueueShutdownStarted),
        DriverAction::RegisterCompletion
    );
    assert_eq!(
        driver.handle_event(DriverEvent::CompletionHandlerSet),
        DriverAction::DrainMessages
    );
    assert_eq!(
        driver.handle_event(DriverEvent::MessageLoopDrained),
        DriverAction::StopCapture
    );
    assert_eq!(
        driver.handle_event(DriverEvent::CaptureStopped),
        DriverAction::ReportResult
    );
    assert_eq!(driver.phase(), SessionPhase::Stopped);
}

#[test]
fn overwrite_latest_keeps_only_newest() {
    let mut slot = FrameSlot::empty();
    assert!(slot.read_latest().is_none());
    slot.store(OwnedFrame {
        data: vec![1, 1, 1, 1],
        width: 1,
        height: 1,
    });
    slot.store(OwnedFrame {
        data: vec![9, 8, 7, 6],
        width: 1,
        height: 1,
    });
    let f = slot.read_latest().unwrap();
    assert_eq!(f.data, vec![9, 8, 7, 6]);
    assert_eq!(f.width, 1);
    assert_eq!(f.height, 1);
}

#[test]
fn shared_slot_round_trips_a_stored_frame() {
    let sink = SharedSlot::new();
    assert!(sink.read_latest().is_none());
    sink.store_latest(OwnedFrame {
        data: vec![3, 1, 4, 1],
        width: 1,
        height: 1,
    });
    let f = sink.read_latest().unwrap();
    assert_eq!(f.data, vec![3, 1, 4, 1]);
    let other = sink.share();
    let g = other.read_latest().unwrap();
    assert_eq!(g.data, vec![3, 1, 4, 1]);
}

#[test]
fn conversion_strips_row_padding() {
    // Two rows of two pixels each; pitch 12 leaves 4 padding bytes per row.
    let mut buffer = Vec::new();
    for r in 0..2u8 {
        for j in 0..12u8 {
            buffer.push(r * 100 + j);
        }
    }
    let f = OwnedFrame::from_padded(&buffer, 12, 2, 2).unwrap();
    assert_eq!(
        f.data,
        vec![0, 1, 2, 3, 4, 5, 6, 7, 100, 101, 102, 103, 104, 105, 106, 107]
    );
    assert_eq!(f.data.len(), 2 * 2 * 4);
    assert_eq!(f.width, 2);
    assert_eq!(f.height, 2);
}

#[test]
fn conversion_without_padding_is_identity() {
    let buffer: Vec<u8> = (0u8..16).collect();
    let f = OwnedFrame::from_padded(&buffer, 8, 2, 2).unwrap();
    assert_eq!(f.data, buffer);
}

#[test]
fn conversion_of_empty_frame_is_empty() {
    let buffer: Vec<u8> = Vec::new();
    let f = OwnedFrame::from_padded(&buffer, 0, 0, 0).unwrap();
    assert!(f.data.is_empty());
}

#[test]
fn conversion_rejects_small_pitch() {
    let buffer = vec![0u8; 16];
    let r = OwnedFrame::from_padded(&buffer, 7, 2, 2);
    assert!(matches!(r, Err(FrameError::RowPitchTooSmall)));
}

#[test]
fn conversion_rejects_short_buffer() {
    let buffer = vec![0u8; 15];
    let r = OwnedFrame::from_padded(&buffer, 8, 2, 2);
    assert!(matches!(r, Err(FrameError::BufferTooShort)));
}

#[test]
fn frame_arrival_reaches_poller() {
    let sink = SharedSlot::new();
    let ctx = RecordingContext::new(sink.share()).unwrap();
    let handler = SharedHandler::new(ctx);
    let mut driver = SessionDriver::begin();
    drive_to_capturing(&mut driver);
    let started = match await_handshake(
        RecvOutcome::Delivered(CaptureHandle::new()),
        RecvOutcome::Delivered(handler),
        JoinOutcome::Panicked,
    ) {
        Ok(s) => s,
        Err(_) => panic!("handshake must succeed when both handles arrive"),
    };

    let mut buffer = vec![0u8; 1920 * 1080 * 4];
    buffer[0] = 217;
    assert!(started
        .callback
        .deliver_frame(&buffer, 1920 * 4, 1920, 1080)
        .is_ok());
    assert_eq!(
        driver.handle_event(DriverEvent::FrameDelivered),
        DriverAction::NoAction
    );

    let mut poller = PollerState::new();
    let seen = sink.read_latest().unwrap();
    assert_eq!(seen.data.len(), 8294400);
    assert!(poller.observe(&seen));
    assert_eq!(poller.last_seen(), 217);

    let mut handle = started.handle;
    assert_eq!(handle.halt(), HaltSignal::SignalDriver);
    drive_shutdown(&mut driver);
    assert!(driver.finish().is_ok());
}

#[test]
fn closed_target_before_any_frame_leaves_slot_empty() {
    let sink = SharedSlot::new();
    let ctx = RecordingContext::new(sink.share()).unwrap();
    let handler = SharedHandler::new(ctx);
    let mut driver = SessionDriver::begin();
    drive_to_capturing(&mut driver);

    assert!(handler.notify_closed().is_ok());
    assert_eq!(
        driver.handle_event(DriverEvent::TargetClosed),
        DriverAction::NoAction
    );

    let mut handle = CaptureHandle::new();
    assert_eq!(handle.halt(), HaltSignal::SignalDriver);
    drive_shutdown(&mut driver);
    assert!(driver.finish().is_ok());
    assert!(sink.read_latest().is_none());
}

#[test]
fn second_halt_is_a_noop() {
    let mut handle = CaptureHandle::new();
    assert_eq!(handle.halt(), HaltSignal::SignalDriver);
    assert!(handle.is_halted());
    assert_eq!(handle.halt(), HaltSignal::AlreadyHalted);
    assert!(handle.is_halted());

    let mut driver = SessionDriver::begin();
    drive_to_capturing(&mut driver);
    drive_shutdown(&mut driver);
    assert_eq!(
        driver.handle_event(DriverEvent::HaltSignalled),
        DriverAction::NoAction
    );
    assert_eq!(driver.phase(), SessionPhase::Stopped);
}

#[test]
fn setup_failure_reaches_start_error() {
    let mut driver = SessionDriver::begin();
    assert_eq!(
        driver.handle_event(DriverEvent::StartRequested),
        DriverAction::CreateDispatcherQueue
    );
    assert_eq!(
        driver.handle_event(DriverEvent::DispatcherQueueFailed),
        DriverAction::ReportResult
    );
    assert_eq!(
        driver.phase(),
        SessionPhase::Failed(CaptureError::FailedToCreateDispatcherQueueController)
    );
    let thread_result = driver.finish();

    let halt: RecvOutcome<CaptureHandle> = RecvOutcome::SenderDropped;
    let callback: RecvOutcome<SharedHandler> = RecvOutcome::SenderDropped;
    let start: Result<StartedCapture, CaptureError> =
        await_handshake(halt, callback, JoinOutcome::Finished(thread_result));
    match start {
        Ok(_) => panic!("start must fail when no handle was delivered"),
        Err(e) => assert_eq!(e, CaptureError::FailedToCreateDispatcherQueueController),
    }
}

#[test]
fn each_failure_event_yields_its_error() {
    let cases = vec![
        (
            vec![DriverEvent::StartRequested, DriverEvent::DispatcherQueueFailed],
            CaptureError::FailedToCreateDispatcherQueueController,
        ),
        (
            vec![
                DriverEvent::StartRequested,
                DriverEvent::DispatcherQueueCreated,
                DriverEvent::HandlerConstructionFailed,
            ],
            CaptureError::NewHandlerError,
        ),
        (
            vec![
                DriverEvent::StartRequested,
                DriverEvent::DispatcherQueueCreated,
                DriverEvent::HandlerConstructed,
                DriverEvent::SessionOpenFailed,
            ],
            CaptureError::FailedToOpenCaptureSession,
        ),
        (
            vec![
                DriverEvent::StartRequested,
                DriverEvent::DispatcherQueueCreated,
                DriverEvent::HandlerConstructed,
                DriverEvent::SessionOpened,
                DriverEvent::CaptureStartFailed,
            ],
            CaptureError::FailedToStartCapture,
        ),
        (
            vec![
                DriverEvent::StartRequested,
                DriverEvent::DispatcherQueueCreated,
                DriverEvent::HandlerConstructed,
                DriverEvent::SessionOpened,
                DriverEvent::CaptureStarted,
                DriverEvent::HaltSignalled,
                DriverEvent::QueueShutdownFailed,
            ],
            CaptureError::FailedToShutdownDispatcherQueue,
        ),
        (
            vec![
                DriverEvent::StartRequested,
                DriverEvent::DispatcherQueueCreated,
                DriverEvent::HandlerConstructed,
                DriverEvent::SessionOpened,
                DriverEvent::CaptureStarted,
                DriverEvent::HaltSignalled,
                DriverEvent::QueueShutdownStarted,
                DriverEvent::CompletionHandlerFailed,
            ],
            CaptureError::FailedToSetDispatcherQueueCompletedHandler,
        ),
    ];
    for (events, expected) in cases {
        let mut driver = SessionDriver::begin();
        for e in events {
            driver.handle_event(e);
        }
        assert_eq!(driver.phase(), SessionPhase::Failed(expected));
        assert_eq!(driver.finish(), Err(expected));
        // A halt signalled to a failed session is a defined no-op.
        assert_eq!(
            driver.handle_event(DriverEvent::HaltSignalled),
            DriverAction::NoAction
        );
        assert_eq!(driver.phase(), SessionPhase::Failed(expected));
    }
}

#[test]
fn clean_exit_without_handles_is_delivery_error() {
    let halt: RecvOutcome<CaptureHandle> = RecvOutcome::SenderDropped;
    let callback: RecvOutcome<SharedHandler> = RecvOutcome::SenderDropped;
    match await_handshake(halt, callback, JoinOutcome::Finished(Ok(()))) {
        Ok(_) => panic!("start must fail when no handle was delivered"),
        Err(e) => assert_eq!(e, CaptureError::HandleNotDelivered),
    }
}

#[test]
fn panicked_thread_is_a_join_failure() {
    let halt: RecvOutcome<CaptureHandle> = RecvOutcome::SenderDropped;
    let callback: RecvOutcome<SharedHandler> = RecvOutcome::SenderDropped;
    match await_handshake(halt, callback, JoinOutcome::Panicked) {
        Ok(_) => panic!("start must fail when no handle was delivered"),
        Err(e) => assert_eq!(e, CaptureError::FailedToJoinThread),
    }
}

#[test]
fn conversion_error_supersedes_clean_result() {
    let sink = SharedSlot::new();
    let ctx = RecordingContext::new(sink.share()).unwrap();
    let handler = SharedHandler::new(ctx);
    let mut driver = SessionDriver::begin();
    drive_to_capturing(&mut driver);

    // A pitch too small for the claimed width: the handler reports it, the
    // driver records it, capture goes on until halt. The callback runs
    // through a second handle to the same handler, as it does when the
    // native runtime calls back from its own thread.
    let runtime_side = handler.share();
    let buffer = vec![0u8; 16];
    let r = runtime_side.deliver_frame(&buffer, 7, 2, 2);
    assert!(matches!(
        r,
        Err(HandlerError::Conversion(FrameError::RowPitchTooSmall))
    ));
    assert_eq!(
        driver.handle_event(DriverEvent::FrameFailed(HandlerError::Conversion(
            FrameError::RowPitchTooSmall
        ))),
        DriverAction::NoAction
    );
    assert_eq!(driver.phase(), SessionPhase::Capturing);

    drive_shutdown(&mut driver);
    assert_eq!(
        driver.finish(),
        Err(CaptureError::FrameHandlerError(HandlerError::Conversion(
            FrameError::RowPitchTooSmall
        )))
    );
}

#[test]
fn handles_delivered_once_per_successful_run() {
    let events = vec![
        DriverEvent::StartRequested,
        DriverEvent::DispatcherQueueCreated,
        DriverEvent::HandlerConstructed,
        DriverEvent::SessionOpened,
        DriverEvent::CaptureStarted,
        DriverEvent::FrameDelivered,
        DriverEvent::TargetClosed,
        DriverEvent::HaltSignalled,
        DriverEvent::QueueShutdownStarted,
        DriverEvent::CompletionHandlerSet,
        DriverEvent::MessageLoopDrained,
        DriverEvent::CaptureStopped,
    ];
    let mut driver = SessionDriver::begin();
    let mut deliveries: usize = 0;
    for e in events {
        if driver.handle_event(e) == DriverAction::DeliverHandles {
            deliveries += 1;
        }
    }
    assert_eq!(deliveries, 1);
    assert_eq!(driver.phase(), SessionPhase::Stopped);
}

#[test]
fn poller_ignores_unchanged_frames() {
    let mut poller = PollerState::new();
    let f = OwnedFrame {
        data: vec![5, 0, 0, 0],
        width: 1,
        height: 1,
    };
    assert!(poller.observe(&f));
    assert!(!poller.observe(&f));
    assert_eq!(poller.last_seen(), 5);
    let empty = OwnedFrame {
        data: Vec::new(),
        width: 0,
        height: 0,
    };
    assert!(!poller.observe(&empty));
    assert_eq!(poller.last_seen(), 5);
}
