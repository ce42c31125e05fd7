//! The consumer's loop: what is done with each frame that leaves the channel,
//! and what a fault or a resize changes.
//!
//! A frame is dequeued, converted and presented. The loop itself touches no
//! graphics device. The caller does what the loop names, and reports how it
//! went.

use crate::convert::{convertible, ConversionPlan};
use crate::error::{PipelineError, Recovery};
use crate::surface::{lemma_resized, SurfaceConfig};
use vstd::prelude::*;

verus! {

/// Vertices of the draw that covers the surface: two triangles.
pub const FULL_SCREEN_VERTICES: u32 = 6;

/// Instances of the draw that covers the surface.
pub const FULL_SCREEN_INSTANCES: u32 = 1;

/// Where the loop stands with the frame at hand.
#[derive(Clone, Copy, Debug, PartialEq, Eq, Structural)]
pub enum RenderStage {
    /// No frame is at hand: the next one is awaited.
    Idle,
    /// A frame was dequeued and is being converted to this plan.
    Converting(ConversionPlan),
    /// The frame was converted and is being presented.
    Presenting,
    /// The stream has ended: no frame will come.
    Stopped,
}

/// What happened since the last action.
#[derive(Clone, Copy, Debug, PartialEq, Eq, Structural)]
pub enum RenderEvent {
    /// A frame of this size and this many raw bytes left the channel.
    Frame { width: u32, height: u32, input_len: usize },
    /// The channel is closed and empty.
    EndOfStream,
    /// The conversion was submitted.
    Converted,
    /// The conversion failed.
    ConversionFailed,
    /// The frame was drawn and presented.
    Presented,
    /// The surface gave no frame to draw into.
    AcquireFailed,
    /// The drawing or presenting failed.
    PresentFailed,
    /// The host reports a new size of the surface.
    Resized { width: u32, height: u32 },
}

/// What the caller does next.
#[derive(Clone, Copy, Debug)]
pub enum RenderAction {
    /// Wait for the next frame of the channel.
    Receive,
    /// Convert the frame at hand with these sizes.
    Convert(ConversionPlan),
    /// Draw the converted frame over the whole surface and present it.
    Present,
    /// Configure the surface with this configuration, then go on with what
    /// was being done.
    Configure(SurfaceConfig),
    /// Configure the surface with this configuration, then present the frame
    /// at hand once more.
    ReconfigureAndPresent(SurfaceConfig),
    /// Leave the loop.
    Stop,
}

/// A count that has gone up by one, as far as it can go.
pub open spec fn bumped(count: u64) -> u64 {
    if count < u64::MAX {
        (count + 1) as u64
    } else {
        count
    }
}

/// The stage that follows `stage` on `event`. An event that the stage does
/// not wait for leaves it as it is; a fault of one frame leads back to the
/// wait for the next.
pub open spec fn next_stage(stage: RenderStage, event: RenderEvent) -> RenderStage {
    match (stage, event) {
        (RenderStage::Idle, RenderEvent::Frame { width, height, input_len }) => if convertible(
            width as int,
            height as int,
        ) {
            RenderStage::Converting(ConversionPlan::spec_for_frame(width, height, input_len))
        } else {
            RenderStage::Idle
        },
        (RenderStage::Idle, RenderEvent::EndOfStream) => RenderStage::Stopped,
        (RenderStage::Converting(_), RenderEvent::Converted) => RenderStage::Presenting,
        (RenderStage::Converting(_), RenderEvent::ConversionFailed) => RenderStage::Idle,
        (RenderStage::Presenting, RenderEvent::Presented) => RenderStage::Idle,
        (RenderStage::Presenting, RenderEvent::PresentFailed) => RenderStage::Idle,
        _ => stage,
    }
}

/// The fault that `event` stands for where it comes at `stage`, if it stands
/// for one.
pub open spec fn fault_at(stage: RenderStage, event: RenderEvent) -> Option<PipelineError> {
    match (stage, event) {
        (RenderStage::Idle, RenderEvent::Frame { width, height, input_len }) => if convertible(
            width as int,
            height as int,
        ) {
            None
        } else {
            Some(PipelineError::ConversionError)
        },
        (RenderStage::Converting(_), RenderEvent::ConversionFailed) => Some(
            PipelineError::ConversionError,
        ),
        (RenderStage::Presenting, RenderEvent::AcquireFailed) => Some(
            PipelineError::SurfaceAcquireError,
        ),
        (RenderStage::Presenting, RenderEvent::PresentFailed) => Some(PipelineError::PresentError),
        _ => None,
    }
}

/// Whether `event` at `stage` has the surface configured again: a resize at
/// any stage, and a failure to acquire while presenting.
pub open spec fn configures(stage: RenderStage, event: RenderEvent) -> bool {
    event is Resized || (stage == RenderStage::Presenting && event == RenderEvent::AcquireFailed)
}

/// The configuration after `event`: a resize brings the new size, clamped;
/// nothing else touches it.
pub open spec fn next_config(config: SurfaceConfig, event: RenderEvent) -> SurfaceConfig {
    match event {
        RenderEvent::Resized { width, height } => config.spec_resized(width, height),
        _ => config,
    }
}

/// The times the surface has been configured after `event` came at `stage`.
pub open spec fn configured_after(stage: RenderStage, event: RenderEvent, times: u64) -> u64 {
    if configures(stage, event) {
        bumped(times)
    } else {
        times
    }
}

/// The frames presented after `event` came at `stage`.
pub open spec fn presented_after(stage: RenderStage, event: RenderEvent, frames: u64) -> u64 {
    if stage == RenderStage::Presenting && event == RenderEvent::Presented {
        bumped(frames)
    } else {
        frames
    }
}

/// The frames given up after `event` came at `stage`: one more where the
/// event is a fault that costs the frame.
pub open spec fn dropped_after(stage: RenderStage, event: RenderEvent, frames: u64) -> u64 {
    if fault_at(stage, event) matches Some(e) && e.spec_recovery() == Recovery::DropFrame {
        bumped(frames)
    } else {
        frames
    }
}

/// What is to be done at `stage`.
pub open spec fn pending(stage: RenderStage) -> RenderAction {
    match stage {
        RenderStage::Idle => RenderAction::Receive,
        RenderStage::Converting(plan) => RenderAction::Convert(plan),
        RenderStage::Presenting => RenderAction::Present,
        RenderStage::Stopped => RenderAction::Stop,
    }
}

/// What the caller does after `event` came at `stage` with the surface
/// configured as `config`: it configures the surface where the event calls
/// for that, and else goes on with what the new stage waits for.
pub open spec fn action_after(
    stage: RenderStage,
    config: SurfaceConfig,
    event: RenderEvent,
) -> RenderAction {
    if event is Resized {
        RenderAction::Configure(next_config(config, event))
    } else if stage == RenderStage::Presenting && event == RenderEvent::AcquireFailed {
        RenderAction::ReconfigureAndPresent(config)
    } else {
        pending(next_stage(stage, event))
    }
}

/// The consumer's loop, with its counts of what it has done.
#[derive(Clone, Copy, Debug)]
pub struct RenderLoop {
    stage: RenderStage,
    config: SurfaceConfig,
    configured: u64,
    presented: u64,
    dropped: u64,
}

impl RenderLoop {
    /// Where the loop stands with the frame at hand.
    pub closed spec fn spec_stage(&self) -> RenderStage {
        self.stage
    }

    /// What the surface is configured with.
    pub closed spec fn spec_config(&self) -> SurfaceConfig {
        self.config
    }

    /// Times the surface has been configured, the first time included.
    pub closed spec fn spec_configured(&self) -> u64 {
        self.configured
    }

    /// Frames presented.
    pub closed spec fn spec_presented(&self) -> u64 {
        self.presented
    }

    /// Frames given up after a fault.
    pub closed spec fn spec_dropped(&self) -> u64 {
        self.dropped
    }

    /// The loop as it stands when the surface has just been configured with
    /// `config` for the first time: it waits for a frame.
    pub fn new(config: SurfaceConfig) -> (render: RenderLoop)
        ensures
            render.spec_stage() == RenderStage::Idle,
            render.spec_config() == config,
            render.spec_configured() == 1,
            render.spec_presented() == 0,
            render.spec_dropped() == 0,
    {
        RenderLoop { stage: RenderStage::Idle, config, configured: 1, presented: 0, dropped: 0 }
    }

    /// Where the loop stands with the frame at hand.
    pub fn stage(&self) -> (stage: RenderStage)
        ensures
            stage == self.spec_stage(),
    {
        self.stage
    }

    /// What the surface is configured with.
    pub fn config(&self) -> (config: SurfaceConfig)
        ensures
            config == self.spec_config(),
    {
        self.config
    }

    /// Times the surface has been configured, the first time included.
    pub fn configured(&self) -> (times: u64)
        ensures
            times == self.spec_configured(),
    {
        self.configured
    }

    /// Frames presented.
    pub fn presented(&self) -> (frames: u64)
        ensures
            frames == self.spec_presented(),
    {
        self.presented
    }

    /// Frames given up after a fault.
    pub fn dropped(&self) -> (frames: u64)
        ensures
            frames == self.spec_dropped(),
    {
        self.dropped
    }

    /// Takes an event and says what to do next. Where the event is a fault,
    /// the fault is handed back for the diagnostic output; no fault ends the
    /// loop.
    pub fn handle(&mut self, event: RenderEvent) -> (step: (RenderAction, Option<PipelineError>))
        ensures
            final(self).spec_stage() == next_stage(old(self).spec_stage(), event),
            final(self).spec_config() == next_config(old(self).spec_config(), event),
            final(self).spec_configured() == configured_after(
                old(self).spec_stage(),
                event,
                old(self).spec_configured(),
            ),
            final(self).spec_presented() == presented_after(
                old(self).spec_stage(),
                event,
                old(self).spec_presented(),
            ),
            final(self).spec_dropped() == dropped_after(
                old(self).spec_stage(),
                event,
                old(self).spec_dropped(),
            ),
            step.0 == action_after(old(self).spec_stage(), old(self).spec_config(), event),
            step.1 == fault_at(old(self).spec_stage(), event),
    {
        match event {
            RenderEvent::Resized { width, height } => {
                self.config.resize(width, height);
                self.configured = bump(self.configured);
                return (RenderAction::Configure(self.config), None);
            },
            _ => {},
        }
        match self.stage {
            RenderStage::Idle => match event {
                RenderEvent::Frame { width, height, input_len } => {
                    match ConversionPlan::for_frame(width, height, input_len) {
                        Ok(plan) => {
                            self.stage = RenderStage::Converting(plan);
                            (RenderAction::Convert(plan), None)
                        },
                        Err(fault) => {
                            self.dropped = bump(self.dropped);
                            (RenderAction::Receive, Some(fault))
                        },
                    }
                },
                RenderEvent::EndOfStream => {
                    self.stage = RenderStage::Stopped;
                    (RenderAction::Stop, None)
                },
                _ => (RenderAction::Receive, None),
            },
            RenderStage::Converting(plan) => match event {
                RenderEvent::Converted => {
                    self.stage = RenderStage::Presenting;
                    (RenderAction::Present, None)
                },
                RenderEvent::ConversionFailed => {
                    self.stage = RenderStage::Idle;
                    self.dropped = bump(self.dropped);
                    (RenderAction::Receive, Some(PipelineError::ConversionError))
                },
                _ => (RenderAction::Convert(plan), None),
            },
            RenderStage::Presenting => match event {
                RenderEvent::Presented => {
                    self.stage = RenderStage::Idle;
                    self.presented = bump(self.presented);
                    (RenderAction::Receive, None)
                },
                RenderEvent::AcquireFailed => {
                    self.configured = bump(self.configured);
                    (
                        RenderAction::ReconfigureAndPresent(self.config),
                        Some(PipelineError::SurfaceAcquireError),
                    )
                },
                RenderEvent::PresentFailed => {
                    self.stage = RenderStage::Idle;
                    self.dropped = bump(self.dropped);
                    (RenderAction::Receive, Some(PipelineError::PresentError))
                },
                _ => (RenderAction::Present, None),
            },
            RenderStage::Stopped => (RenderAction::Stop, None),
        }
    }
}

/// Counts one more, as far as the count can go.
pub fn bump(count: u64) -> (out: u64)
    ensures
        out == bumped(count),
{
    if count < u64::MAX {
        count + 1
    } else {
        count
    }
}

/// No fault ends the loop: the loop stops on the end of the stream and on
/// nothing else, and a fault that costs a frame leads to the wait for the
/// next frame.
pub proof fn lemma_fault_never_stops_loop(stage: RenderStage, event: RenderEvent)
    ensures
        next_stage(stage, event) == RenderStage::Stopped ==> stage == RenderStage::Stopped || (
        stage == RenderStage::Idle && event == RenderEvent::EndOfStream),
        fault_at(stage, event) is Some ==> next_stage(stage, event) != RenderStage::Stopped,
        fault_at(stage, event) matches Some(e) ==> e.spec_recovery() != Recovery::Abort,
        fault_at(stage, event) matches Some(e) && e.spec_recovery() == Recovery::DropFrame
            ==> next_stage(stage, event) == RenderStage::Idle,
        fault_at(stage, event) matches Some(e) && e.spec_recovery()
            == Recovery::ReconfigureAndRetry ==> next_stage(stage, event) == RenderStage::Presenting,
{
}

/// No configuration of the surface gets a width or a height of 0, whatever
/// size the host reports.
pub proof fn lemma_surface_always_has_pixels(
    stage: RenderStage,
    config: SurfaceConfig,
    event: RenderEvent,
)
    requires
        config.wf(),
    ensures
        next_config(config, event).wf(),
        action_after(stage, config, event) matches RenderAction::Configure(c) ==> c.wf()
            && c.spec_width() >= 1 && c.spec_height() >= 1,
        action_after(stage, config, event) matches RenderAction::ReconfigureAndPresent(c) ==> c.wf()
            && c.spec_width() >= 1 && c.spec_height() >= 1,
        event matches RenderEvent::Resized { width, height } ==> action_after(stage, config, event)
            == RenderAction::Configure(config.spec_resized(width, height)),
{
    match event {
        RenderEvent::Resized { width, height } => {
            lemma_resized(config, width, height);
        },
        _ => {},
    }
}

/// A frame that meets no fault is presented, and costs no configuration of
/// the surface: from the wait for a frame, its three events lead back to
/// that wait with one more frame presented and nothing else counted.
pub proof fn lemma_good_frame_is_presented(
    width: u32,
    height: u32,
    input_len: usize,
    configured: u64,
    presented: u64,
    dropped: u64,
)
    requires
        convertible(width as int, height as int),
    ensures
        ({
            let frame = RenderEvent::Frame { width, height, input_len };
            let s1 = next_stage(RenderStage::Idle, frame);
            let s2 = next_stage(s1, RenderEvent::Converted);
            let s3 = next_stage(s2, RenderEvent::Presented);
            &&& s1 == RenderStage::Converting(
                ConversionPlan::spec_for_frame(width, height, input_len),
            )
            &&& s2 == RenderStage::Presenting
            &&& s3 == RenderStage::Idle
            &&& configured_after(
                s2,
                RenderEvent::Presented,
                configured_after(
                    s1,
                    RenderEvent::Converted,
                    configured_after(RenderStage::Idle, frame, configured),
                ),
            ) == configured
            &&& presented_after(
                s2,
                RenderEvent::Presented,
                presented_after(
                    s1,
                    RenderEvent::Converted,
                    presented_after(RenderStage::Idle, frame, presented),
                ),
            ) == bumped(presented)
            &&& dropped_after(
                s2,
                RenderEvent::Presented,
                dropped_after(
                    s1,
                    RenderEvent::Converted,
                    dropped_after(RenderStage::Idle, frame, dropped),
                ),
            ) == dropped
        }),
{
}

} // verus!
