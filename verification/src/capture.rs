//! The course of one capture session: what the capture thread does next and
//! how the answers of the camera driver move the session on.
//!
//! The session itself touches no device. The caller does what the session
//! names, and reports how it went.

use crate::error::PipelineError;
use vstd::prelude::*;

verus! {

/// Milliseconds to wait after the stream has started, before its frames are
/// taken to be stable.
pub const SETTLE_MILLIS: u64 = 1000;

/// Where a capture session stands.
#[derive(Clone, Copy, Debug, PartialEq, Eq, Structural)]
pub enum CaptureState {
    /// No device is held.
    Closed,
    /// A device is held, at its highest resolution; it does not stream yet.
    Opened,
    /// Frames are being read.
    Streaming,
    /// The stream was stopped and the driver's resources were released.
    Stopped,
    /// The driver failed while a frame was read.
    Faulted,
}

/// What the camera driver answered to the last action.
#[derive(Clone, Copy, Debug, PartialEq, Eq, Structural)]
pub enum CaptureEvent {
    /// A device and a mode were found.
    Opened,
    /// No device, or no mode of it, was found.
    OpenFailed,
    /// The stream has started.
    Started,
    /// The driver refused to start the stream.
    StartFailed,
    /// A frame was read and handed to the channel.
    FrameCaptured,
    /// The driver failed while a frame was read.
    FrameFailed,
    /// The stream was stopped.
    Stopped,
}

/// What the capture thread does next.
#[derive(Clone, Copy, Debug, PartialEq, Eq, Structural)]
pub enum CaptureAction {
    /// Open the device at its highest resolution.
    Open,
    /// Start the stream, then wait for it to settle.
    Start { settle_millis: u64 },
    /// Read the next frame and send it to the channel.
    ReadFrame,
    /// Stop the stream and release the driver's resources.
    Stop,
    /// Close the channel: no frame will follow.
    CloseChannel,
}

/// One capture session, from the opening of the device to the end of its
/// stream.
#[derive(Clone, Copy, Debug, PartialEq, Eq, Structural)]
pub struct CaptureSession {
    state: CaptureState,
    captured: u64,
    frame_limit: u64,
}

/// The state that follows `state` when the driver answers `event`. An answer
/// that the state does not wait for changes nothing; so a stop after the stop
/// changes nothing.
pub open spec fn next_state(state: CaptureState, event: CaptureEvent) -> CaptureState {
    match (state, event) {
        (CaptureState::Closed, CaptureEvent::Opened) => CaptureState::Opened,
        (CaptureState::Opened, CaptureEvent::Started) => CaptureState::Streaming,
        (CaptureState::Streaming, CaptureEvent::FrameFailed) => CaptureState::Faulted,
        (CaptureState::Streaming, CaptureEvent::Stopped) => CaptureState::Stopped,
        _ => state,
    }
}

/// The fault that `event` stands for where it comes in `state`, if it stands
/// for one.
pub open spec fn fault_of(state: CaptureState, event: CaptureEvent) -> Option<PipelineError> {
    match (state, event) {
        (CaptureState::Closed, CaptureEvent::OpenFailed) => Some(PipelineError::DeviceUnavailable),
        (CaptureState::Opened, CaptureEvent::StartFailed) => Some(
            PipelineError::StreamStartFailure,
        ),
        (CaptureState::Streaming, CaptureEvent::FrameFailed) => Some(PipelineError::CaptureError),
        _ => None,
    }
}

/// The number of frames captured after `event` came in `state`: one more for
/// a frame that was read while streaming, as far as the count can go.
pub open spec fn next_captured(state: CaptureState, event: CaptureEvent, captured: u64) -> u64 {
    if state == CaptureState::Streaming && event == CaptureEvent::FrameCaptured && captured
        < u64::MAX {
        (captured + 1) as u64
    } else {
        captured
    }
}

/// What is to be done in `state` when `captured` frames of at most
/// `frame_limit` have been read.
pub open spec fn action_in(state: CaptureState, captured: u64, frame_limit: u64) -> CaptureAction {
    match state {
        CaptureState::Closed => CaptureAction::Open,
        CaptureState::Opened => CaptureAction::Start { settle_millis: SETTLE_MILLIS },
        CaptureState::Streaming => if captured < frame_limit {
            CaptureAction::ReadFrame
        } else {
            CaptureAction::Stop
        },
        CaptureState::Stopped => CaptureAction::CloseChannel,
        CaptureState::Faulted => CaptureAction::CloseChannel,
    }
}

impl CaptureSession {
    /// Where the session stands.
    pub closed spec fn spec_state(&self) -> CaptureState {
        self.state
    }

    /// Frames read so far.
    pub closed spec fn spec_captured(&self) -> u64 {
        self.captured
    }

    /// Frames after which the session stops the stream.
    pub closed spec fn spec_frame_limit(&self) -> u64 {
        self.frame_limit
    }

    /// A session that holds no device yet and will read `frame_limit` frames.
    pub fn new(frame_limit: u64) -> (session: CaptureSession)
        ensures
            session.spec_state() == CaptureState::Closed,
            session.spec_captured() == 0,
            session.spec_frame_limit() == frame_limit,
    {
        CaptureSession { state: CaptureState::Closed, captured: 0, frame_limit }
    }

    /// Where the session stands.
    pub fn state(&self) -> (state: CaptureState)
        ensures
            state == self.spec_state(),
    {
        self.state
    }

    /// Frames read so far.
    pub fn captured(&self) -> (frames: u64)
        ensures
            frames == self.spec_captured(),
    {
        self.captured
    }

    /// Frames after which the session stops the stream.
    pub fn frame_limit(&self) -> (frames: u64)
        ensures
            frames == self.spec_frame_limit(),
    {
        self.frame_limit
    }

    /// Whether the session is over: the stream was stopped or has failed.
    pub fn is_over(&self) -> (over: bool)
        ensures
            over == (self.spec_state() == CaptureState::Stopped || self.spec_state()
                == CaptureState::Faulted),
    {
        self.state == CaptureState::Stopped || self.state == CaptureState::Faulted
    }

    /// What the capture thread does next.
    pub fn next_action(&self) -> (action: CaptureAction)
        ensures
            action == action_in(self.spec_state(), self.spec_captured(), self.spec_frame_limit()),
    {
        match self.state {
            CaptureState::Closed => CaptureAction::Open,
            CaptureState::Opened => CaptureAction::Start { settle_millis: SETTLE_MILLIS },
            CaptureState::Streaming => {
                if self.captured < self.frame_limit {
                    CaptureAction::ReadFrame
                } else {
                    CaptureAction::Stop
                }
            },
            CaptureState::Stopped | CaptureState::Faulted => CaptureAction::CloseChannel,
        }
    }

    /// Takes the driver's answer and moves the session on. Where the answer
    /// is a failure, the fault is handed back.
    pub fn handle(&mut self, event: CaptureEvent) -> (fault: Option<PipelineError>)
        ensures
            final(self).spec_state() == next_state(old(self).spec_state(), event),
            final(self).spec_captured() == next_captured(
                old(self).spec_state(),
                event,
                old(self).spec_captured(),
            ),
            final(self).spec_frame_limit() == old(self).spec_frame_limit(),
            fault == fault_of(old(self).spec_state(), event),
    {
        match self.state {
            CaptureState::Closed => match event {
                CaptureEvent::Opened => {
                    self.state = CaptureState::Opened;
                    None
                },
                CaptureEvent::OpenFailed => Some(PipelineError::DeviceUnavailable),
                _ => None,
            },
            CaptureState::Opened => match event {
                CaptureEvent::Started => {
                    self.state = CaptureState::Streaming;
                    None
                },
                CaptureEvent::StartFailed => Some(PipelineError::StreamStartFailure),
                _ => None,
            },
            CaptureState::Streaming => match event {
                CaptureEvent::FrameCaptured => {
                    if self.captured < u64::MAX {
                        self.captured = self.captured + 1;
                    }
                    None
                },
                CaptureEvent::FrameFailed => {
                    self.state = CaptureState::Faulted;
                    Some(PipelineError::CaptureError)
                },
                CaptureEvent::Stopped => {
                    self.state = CaptureState::Stopped;
                    None
                },
                _ => None,
            },
            CaptureState::Stopped | CaptureState::Faulted => None,
        }
    }
}

/// A session only moves forward: from closed to opened, from opened to
/// streaming, from streaming to stopped or faulted, and from neither of
/// these two anywhere.
pub proof fn lemma_session_only_moves_forward(state: CaptureState, event: CaptureEvent)
    ensures
        state == CaptureState::Closed ==> next_state(state, event) == CaptureState::Closed
            || next_state(state, event) == CaptureState::Opened,
        state == CaptureState::Opened ==> next_state(state, event) == CaptureState::Opened
            || next_state(state, event) == CaptureState::Streaming,
        state == CaptureState::Streaming ==> next_state(state, event) == CaptureState::Streaming
            || next_state(state, event) == CaptureState::Stopped || next_state(state, event)
            == CaptureState::Faulted,
        state == CaptureState::Stopped || state == CaptureState::Faulted ==> next_state(
            state,
            event,
        ) == state,
{
}

/// Stopping twice is stopping once.
pub proof fn lemma_stop_is_idempotent(state: CaptureState)
    ensures
        next_state(next_state(state, CaptureEvent::Stopped), CaptureEvent::Stopped) == next_state(
            state,
            CaptureEvent::Stopped,
        ),
{
}

/// A fault of the capture never ends the process by itself unless nothing
/// could be captured at all: a failure to open or to start is fatal, a
/// failure while streaming ends the stream.
pub proof fn lemma_capture_faults(state: CaptureState, event: CaptureEvent)
    ensures
        fault_of(state, event) matches Some(e) ==> (e.spec_recovery()
            == crate::error::Recovery::EndStream <==> state == CaptureState::Streaming),
        fault_of(state, event) matches Some(e) ==> (e.spec_recovery()
            == crate::error::Recovery::Abort <==> state != CaptureState::Streaming),
        fault_of(state, event) is Some && state == CaptureState::Streaming ==> next_state(
            state,
            event,
        ) == CaptureState::Faulted,
{
}

} // verus!
