use camera_pipeline::capture::{
    CaptureAction, CaptureEvent, CaptureSession, CaptureState, SETTLE_MILLIS,
};
use camera_pipeline::error::PipelineError;

const EVENTS: [CaptureEvent; 7] = [
    CaptureEvent::Opened,
    CaptureEvent::OpenFailed,
    CaptureEvent::Started,
    CaptureEvent::StartFailed,
    CaptureEvent::FrameCaptured,
    CaptureEvent::FrameFailed,
    CaptureEvent::Stopped,
];

fn streaming(limit: u64) -> CaptureSession {
    let mut session = CaptureSession::new(limit);
    assert_eq!(session.handle(CaptureEvent::Opened), None);
    assert_eq!(session.handle(CaptureEvent::Started), None);
    session
}

#[test]
fn session_starts_closed() {
    let session = CaptureSession::new(1000);
    assert_eq!(session.state(), CaptureState::Closed);
    assert_eq!(session.captured(), 0);
    assert_eq!(session.frame_limit(), 1000);
    assert!(!session.is_over());
    assert_eq!(session.next_action(), CaptureAction::Open);
}

#[test]
fn session_runs_from_open_to_stop() {
    let mut session = CaptureSession::new(3);
    assert_eq!(session.next_action(), CaptureAction::Open);
    assert_eq!(session.handle(CaptureEvent::Opened), None);
    assert_eq!(session.state(), CaptureState::Opened);
    assert_eq!(session.next_action(), CaptureAction::Start { settle_millis: 1000 });
    assert_eq!(SETTLE_MILLIS, 1000);
    assert_eq!(session.handle(CaptureEvent::Started), None);
    assert_eq!(session.state(), CaptureState::Streaming);
    for frame in 0..3u64 {
        assert_eq!(session.captured(), frame);
        assert_eq!(session.next_action(), CaptureAction::ReadFrame);
        assert_eq!(session.handle(CaptureEvent::FrameCaptured), None);
    }
    assert_eq!(session.captured(), 3);
    assert_eq!(session.next_action(), CaptureAction::Stop);
    assert_eq!(session.handle(CaptureEvent::Stopped), None);
    assert_eq!(session.state(), CaptureState::Stopped);
    assert!(session.is_over());
    assert_eq!(session.next_action(), CaptureAction::CloseChannel);
}

#[test]
fn no_device_is_fatal() {
    let mut session = CaptureSession::new(10);
    let fault = session.handle(CaptureEvent::OpenFailed);
    assert_eq!(fault, Some(PipelineError::DeviceUnavailable));
    assert!(fault.unwrap().is_fatal());
    assert_eq!(session.state(), CaptureState::Closed);
}

#[test]
fn refused_stream_is_fatal() {
    let mut session = CaptureSession::new(10);
    session.handle(CaptureEvent::Opened);
    let fault = session.handle(CaptureEvent::StartFailed);
    assert_eq!(fault, Some(PipelineError::StreamStartFailure));
    assert!(fault.unwrap().is_fatal());
    assert_eq!(session.state(), CaptureState::Opened);
}

#[test]
fn driver_fault_ends_the_stream() {
    let mut session = streaming(10);
    session.handle(CaptureEvent::FrameCaptured);
    let fault = session.handle(CaptureEvent::FrameFailed);
    assert_eq!(fault, Some(PipelineError::CaptureError));
    assert!(!fault.unwrap().is_fatal());
    assert_eq!(session.state(), CaptureState::Faulted);
    assert_eq!(session.captured(), 1);
    assert!(session.is_over());
    assert_eq!(session.next_action(), CaptureAction::CloseChannel);
}

#[test]
fn stop_is_idempotent() {
    let mut session = streaming(10);
    assert_eq!(session.handle(CaptureEvent::Stopped), None);
    let once = session;
    assert_eq!(session.handle(CaptureEvent::Stopped), None);
    assert_eq!(session, once);
    assert_eq!(session.state(), CaptureState::Stopped);
}

#[test]
fn finished_session_ignores_every_event() {
    for last in [CaptureEvent::Stopped, CaptureEvent::FrameFailed] {
        let mut session = streaming(10);
        session.handle(last);
        let over = session;
        for event in EVENTS {
            assert_eq!(session.handle(event), None);
            assert_eq!(session, over);
        }
    }
}

#[test]
fn events_out_of_turn_change_nothing() {
    let mut closed = CaptureSession::new(5);
    for event in [
        CaptureEvent::Started,
        CaptureEvent::StartFailed,
        CaptureEvent::FrameCaptured,
        CaptureEvent::FrameFailed,
        CaptureEvent::Stopped,
    ] {
        assert_eq!(closed.handle(event), None);
        assert_eq!(closed, CaptureSession::new(5));
    }
    let mut opened = CaptureSession::new(5);
    opened.handle(CaptureEvent::Opened);
    let before = opened;
    for event in [
        CaptureEvent::Opened,
        CaptureEvent::OpenFailed,
        CaptureEvent::FrameCaptured,
        CaptureEvent::FrameFailed,
        CaptureEvent::Stopped,
    ] {
        assert_eq!(opened.handle(event), None);
        assert_eq!(opened, before);
    }
    let mut live = streaming(5);
    let before = live;
    for event in [
        CaptureEvent::Opened,
        CaptureEvent::OpenFailed,
        CaptureEvent::Started,
        CaptureEvent::StartFailed,
    ] {
        assert_eq!(live.handle(event), None);
        assert_eq!(live, before);
    }
}

#[test]
fn session_without_frames_stops_at_once() {
    let session = streaming(0);
    assert_eq!(session.next_action(), CaptureAction::Stop);
}

#[test]
fn frames_are_counted_only_while_streaming() {
    let mut session = CaptureSession::new(5);
    session.handle(CaptureEvent::FrameCaptured);
    assert_eq!(session.captured(), 0);
    session.handle(CaptureEvent::Opened);
    session.handle(CaptureEvent::FrameCaptured);
    assert_eq!(session.captured(), 0);
    session.handle(CaptureEvent::Started);
    session.handle(CaptureEvent::FrameCaptured);
    assert_eq!(session.captured(), 1);
    session.handle(CaptureEvent::Stopped);
    session.handle(CaptureEvent::FrameCaptured);
    assert_eq!(session.captured(), 1);
}
