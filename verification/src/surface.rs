//! The configuration of the presentation surface and how a resize changes it.

use crate::error::PipelineError;
use vstd::prelude::*;

verus! {

/// Declares `wgpu::TextureFormat`, the pixel format of a surface as the
/// graphics backend names it. Nothing is claimed of such a value: it is
/// carried from the surface's capabilities into its configuration.
#[verifier::external_type_specification]
#[verifier::external_body]
pub struct ExTextureFormat(wgpu::TextureFormat);

/// Declares `wgpu::CompositeAlphaMode`, the way a surface is blended with
/// what lies behind it as the graphics backend names it. Nothing is claimed
/// of such a value: it is carried from the surface's capabilities into its
/// configuration.
#[verifier::external_type_specification]
#[verifier::external_body]
pub struct ExCompositeAlphaMode(wgpu::CompositeAlphaMode);

/// The least width and the least height that a surface can be configured with.
pub const MIN_EXTENT: u32 = 1;

/// Frames that may be queued for display ahead of the one on screen.
pub const MAX_FRAME_LATENCY: u32 = 2;

/// How finished frames reach the display.
#[derive(Clone, Copy, Debug, PartialEq, Eq, Structural)]
pub enum PresentMode {
    /// Frames wait for the display's refresh and are shown in the order in
    /// which they were submitted.
    Fifo,
}

/// An extent of at least one pixel: `extent`, or 1 where it is 0.
pub open spec fn clamped(extent: u32) -> u32 {
    if extent < MIN_EXTENT {
        MIN_EXTENT
    } else {
        extent
    }
}

/// Raises an extent of 0 to 1.
pub fn clamp_extent(extent: u32) -> (out: u32)
    ensures
        out == clamped(extent),
        out >= 1,
{
    if extent < MIN_EXTENT {
        MIN_EXTENT
    } else {
        extent
    }
}

/// What a surface is configured with.
#[derive(Clone, Copy, Debug)]
pub struct SurfaceConfig {
    width: u32,
    height: u32,
    format: wgpu::TextureFormat,
    present_mode: PresentMode,
    alpha_mode: wgpu::CompositeAlphaMode,
    desired_maximum_frame_latency: u32,
}

impl SurfaceConfig {
    /// Width in pixels.
    pub closed spec fn spec_width(&self) -> u32 {
        self.width
    }

    /// Height in pixels.
    pub closed spec fn spec_height(&self) -> u32 {
        self.height
    }

    /// The pixel format of the surface's frames.
    pub closed spec fn spec_format(&self) -> wgpu::TextureFormat {
        self.format
    }

    /// How frames reach the display.
    pub closed spec fn spec_present_mode(&self) -> PresentMode {
        self.present_mode
    }

    /// How the surface is blended with what lies behind it.
    pub closed spec fn spec_alpha_mode(&self) -> wgpu::CompositeAlphaMode {
        self.alpha_mode
    }

    /// Frames that may be queued ahead of the one on screen.
    pub closed spec fn spec_frame_latency(&self) -> u32 {
        self.desired_maximum_frame_latency
    }

    /// Neither extent is 0, frames are presented in order, and two may be in
    /// flight. This holds of every configuration.
    pub open spec fn wf(&self) -> bool {
        &&& self.spec_width() >= 1
        &&& self.spec_height() >= 1
        &&& self.spec_present_mode() == PresentMode::Fifo
        &&& self.spec_frame_latency() == MAX_FRAME_LATENCY
    }

    #[verifier::type_invariant]
    spec fn inv(&self) -> bool {
        self.wf()
    }

    /// The configuration for a surface of `width` by `height` pixels that
    /// reports `formats` and `alpha_modes` as what it supports: the first of
    /// each is taken. A surface that reports no format or no alpha mode
    /// cannot be drawn to with the adapter at hand.
    pub fn from_capabilities(
        width: u32,
        height: u32,
        formats: &[wgpu::TextureFormat],
        alpha_modes: &[wgpu::CompositeAlphaMode],
    ) -> (config: Result<SurfaceConfig, PipelineError>)
        ensures
            config is Ok <==> formats@.len() > 0 && alpha_modes@.len() > 0,
            config matches Ok(c) ==> c.wf() && c.spec_width() == clamped(width) && c.spec_height()
                == clamped(height) && c.spec_format() == formats@[0] && c.spec_alpha_mode()
                == alpha_modes@[0],
            config matches Err(e) ==> e == PipelineError::AdapterOrDeviceCreationFailure,
    {
        if formats.len() == 0 || alpha_modes.len() == 0 {
            return Err(PipelineError::AdapterOrDeviceCreationFailure);
        }
        Ok(
            SurfaceConfig {
                width: clamp_extent(width),
                height: clamp_extent(height),
                format: formats[0],
                present_mode: PresentMode::Fifo,
                alpha_mode: alpha_modes[0],
                desired_maximum_frame_latency: MAX_FRAME_LATENCY,
            },
        )
    }

    /// This configuration with the size that the host reports after a
    /// resize, each extent raised to 1 where it is 0.
    pub closed spec fn spec_resized(self, width: u32, height: u32) -> SurfaceConfig {
        SurfaceConfig { width: clamped(width), height: clamped(height), ..self }
    }

    /// Takes the size that the host reports after a resize, each extent
    /// raised to 1 where it is 0. Nothing else changes.
    pub fn resize(&mut self, width: u32, height: u32)
        ensures
            *final(self) == old(self).spec_resized(width, height),
            final(self).wf(),
            final(self).spec_width() == clamped(width),
            final(self).spec_height() == clamped(height),
            final(self).spec_format() == old(self).spec_format(),
            final(self).spec_present_mode() == old(self).spec_present_mode(),
            final(self).spec_alpha_mode() == old(self).spec_alpha_mode(),
            final(self).spec_frame_latency() == old(self).spec_frame_latency(),
    {
        proof {
            use_type_invariant(&*self);
        }
        self.width = clamp_extent(width);
        self.height = clamp_extent(height);
    }

    /// Width in pixels, never 0.
    pub fn width(&self) -> (width: u32)
        ensures
            width == self.spec_width(),
            width >= 1,
    {
        proof {
            use_type_invariant(self);
        }
        self.width
    }

    /// Height in pixels, never 0.
    pub fn height(&self) -> (height: u32)
        ensures
            height == self.spec_height(),
            height >= 1,
    {
        proof {
            use_type_invariant(self);
        }
        self.height
    }

    /// The pixel format of the surface's frames.
    pub fn format(&self) -> (format: wgpu::TextureFormat)
        ensures
            format == self.spec_format(),
    {
        self.format
    }

    /// How frames reach the display.
    pub fn present_mode(&self) -> (mode: PresentMode)
        ensures
            mode == self.spec_present_mode(),
            mode == PresentMode::Fifo,
    {
        proof {
            use_type_invariant(self);
        }
        self.present_mode
    }

    /// How the surface is blended with what lies behind it.
    pub fn alpha_mode(&self) -> (mode: wgpu::CompositeAlphaMode)
        ensures
            mode == self.spec_alpha_mode(),
    {
        self.alpha_mode
    }

    /// Frames that may be queued ahead of the one on screen.
    pub fn desired_maximum_frame_latency(&self) -> (frames: u32)
        ensures
            frames == self.spec_frame_latency(),
            frames == MAX_FRAME_LATENCY,
    {
        proof {
            use_type_invariant(self);
        }
        self.desired_maximum_frame_latency
    }
}

/// What a resize changes and what it keeps: the configuration takes the
/// reported size, each extent raised to 1 where it is 0, and stays as it was
/// in everything else.
pub proof fn lemma_resized(config: SurfaceConfig, width: u32, height: u32)
    ensures
        config.spec_resized(width, height).spec_width() == clamped(width),
        config.spec_resized(width, height).spec_height() == clamped(height),
        config.spec_resized(width, height).spec_format() == config.spec_format(),
        config.spec_resized(width, height).spec_present_mode() == config.spec_present_mode(),
        config.spec_resized(width, height).spec_alpha_mode() == config.spec_alpha_mode(),
        config.spec_resized(width, height).spec_frame_latency() == config.spec_frame_latency(),
        config.spec_resized(width, height).spec_width() >= 1,
        config.spec_resized(width, height).spec_height() >= 1,
        config.wf() ==> config.spec_resized(width, height).wf(),
{
}

/// No resize leaves a surface without pixels: whatever the host reports,
/// both extents of the new size are at least 1, and an extent that was at
/// least 1 is taken as it is.
pub proof fn lemma_clamped_is_never_zero(extent: u32)
    ensures
        clamped(extent) >= 1,
        extent >= 1 ==> clamped(extent) == extent,
        extent == 0 ==> clamped(extent) == 1,
{
}

} // verus!
