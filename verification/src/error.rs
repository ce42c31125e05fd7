//! The faults of the pipeline and what each of them calls for.

use vstd::prelude::*;

verus! {

/// What can go wrong between the camera and the window.
#[derive(Clone, Copy, Debug, PartialEq, Eq, Structural)]
pub enum PipelineError {
    /// No camera, or none of its modes, could be had.
    DeviceUnavailable,
    /// The driver refused to start the stream.
    StreamStartFailure,
    /// The driver failed while a frame was read.
    CaptureError,
    /// No graphics adapter or device could be had.
    AdapterOrDeviceCreationFailure,
    /// The surface gave no frame to draw into: lost, outdated or timed out.
    SurfaceAcquireError,
    /// The conversion of one frame failed.
    ConversionError,
    /// The drawing or presenting of one frame failed.
    PresentError,
}

/// What the pipeline does about a fault.
#[derive(Clone, Copy, Debug, PartialEq, Eq, Structural)]
pub enum Recovery {
    /// Nothing can run without what failed: the process ends with a message.
    Abort,
    /// The capture loop ends and the channel is closed; the process lives on.
    EndStream,
    /// The surface is configured again and the frame is tried once more.
    ReconfigureAndRetry,
    /// The frame is given up and the loop goes on with the next one.
    DropFrame,
}

impl PipelineError {
    /// The answer to each fault: setup faults abort, a capture fault ends the
    /// stream, a lost surface is configured again, and a fault of one frame
    /// costs that frame only.
    pub open spec fn spec_recovery(self) -> Recovery {
        match self {
            PipelineError::DeviceUnavailable => Recovery::Abort,
            PipelineError::StreamStartFailure => Recovery::Abort,
            PipelineError::AdapterOrDeviceCreationFailure => Recovery::Abort,
            PipelineError::CaptureError => Recovery::EndStream,
            PipelineError::SurfaceAcquireError => Recovery::ReconfigureAndRetry,
            PipelineError::ConversionError => Recovery::DropFrame,
            PipelineError::PresentError => Recovery::DropFrame,
        }
    }

    /// What the pipeline does about this fault.
    pub fn recovery(self) -> (r: Recovery)
        ensures
            r == self.spec_recovery(),
    {
        match self {
            PipelineError::DeviceUnavailable
            | PipelineError::StreamStartFailure
            | PipelineError::AdapterOrDeviceCreationFailure => Recovery::Abort,
            PipelineError::CaptureError => Recovery::EndStream,
            PipelineError::SurfaceAcquireError => Recovery::ReconfigureAndRetry,
            PipelineError::ConversionError | PipelineError::PresentError => Recovery::DropFrame,
        }
    }

    /// Whether the process cannot go on after this fault.
    pub fn is_fatal(self) -> (fatal: bool)
        ensures
            fatal == (self.spec_recovery() == Recovery::Abort),
    {
        self.recovery() == Recovery::Abort
    }

    /// The line that the diagnostic output shows for each fault.
    pub open spec fn spec_message(self) -> &'static str {
        match self {
            PipelineError::DeviceUnavailable => "no camera device or mode is available",
            PipelineError::StreamStartFailure => "the camera stream could not be started",
            PipelineError::CaptureError => "the camera failed while a frame was read",
            PipelineError::AdapterOrDeviceCreationFailure => {
                "no graphics adapter or device could be created"
            },
            PipelineError::SurfaceAcquireError => "the surface gave no frame to draw into",
            PipelineError::ConversionError => "the frame could not be converted",
            PipelineError::PresentError => "the frame could not be presented",
        }
    }

    /// A line for the diagnostic output.
    pub fn message(self) -> (text: &'static str)
        ensures
            text == self.spec_message(),
    {
        match self {
            PipelineError::DeviceUnavailable => "no camera device or mode is available",
            PipelineError::StreamStartFailure => "the camera stream could not be started",
            PipelineError::CaptureError => "the camera failed while a frame was read",
            PipelineError::AdapterOrDeviceCreationFailure => {
                "no graphics adapter or device could be created"
            },
            PipelineError::SurfaceAcquireError => "the surface gave no frame to draw into",
            PipelineError::ConversionError => "the frame could not be converted",
            PipelineError::PresentError => "the frame could not be presented",
        }
    }
}

} // verus!
