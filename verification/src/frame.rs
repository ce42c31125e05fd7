//! A raw frame as the camera delivers it, and its conversion on the CPU.

use crate::color::{converted, uyvy_to_rgba};
use crate::convert::{convertible, output_bytes, ConversionPlan};
use crate::error::PipelineError;
use vstd::prelude::*;

verus! {

/// How the bytes of a raw frame encode its pixels.
#[derive(Clone, Copy, Debug, PartialEq, Eq, Structural)]
pub enum FrameFormat {
    /// Motion JPEG.
    Mjpeg,
    /// Packed YUV 4:2:2: four bytes for two pixels.
    Yuyv,
    /// Planar YUV 4:2:0.
    Nv12,
    /// One byte of grey for each pixel.
    Gray,
    /// Three bytes for each pixel: red, green, blue.
    RawRgb,
    /// Three bytes for each pixel: blue, green, red.
    RawBgr,
}

/// One frame of the camera. It is made once and read from then on.
#[derive(Debug)]
pub struct RawFrame {
    bytes: Vec<u8>,
    width: u32,
    height: u32,
    format: FrameFormat,
}

/// A buffer of `len` bytes, each of them 0.
pub open spec fn zeroed(len: nat) -> Seq<u8> {
    Seq::new(len, |i: int| 0u8)
}

/// Bytes of a packed frame: two for each pixel.
pub open spec fn packed_bytes(width: int, height: int) -> int {
    width * height * 2
}

impl RawFrame {
    /// The bytes as they were captured.
    pub closed spec fn spec_bytes(&self) -> Seq<u8> {
        self.bytes@
    }

    /// Pixels in a row.
    pub closed spec fn spec_width(&self) -> u32 {
        self.width
    }

    /// Rows.
    pub closed spec fn spec_height(&self) -> u32 {
        self.height
    }

    /// The encoding of the bytes.
    pub closed spec fn spec_format(&self) -> FrameFormat {
        self.format
    }

    /// Whether the frame can be converted on the CPU: its size is one that
    /// can be converted, its bytes are two for each pixel, and the image
    /// fits in memory.
    pub open spec fn cpu_convertible(&self) -> bool {
        &&& convertible(self.spec_width() as int, self.spec_height() as int)
        &&& self.spec_bytes().len() == packed_bytes(
            self.spec_width() as int,
            self.spec_height() as int,
        )
        &&& output_bytes(self.spec_width() as int, self.spec_height() as int) <= usize::MAX
    }

    /// A frame of `width` by `height` pixels with the bytes that the camera
    /// gave for it.
    pub fn new(bytes: Vec<u8>, width: u32, height: u32, format: FrameFormat) -> (frame: RawFrame)
        ensures
            frame.spec_bytes() == bytes@,
            frame.spec_width() == width,
            frame.spec_height() == height,
            frame.spec_format() == format,
    {
        RawFrame { bytes, width, height, format }
    }

    /// The bytes as they were captured.
    pub fn bytes(&self) -> (bytes: &[u8])
        ensures
            bytes@ == self.spec_bytes(),
    {
        self.bytes.as_slice()
    }

    /// Pixels in a row.
    pub fn width(&self) -> (width: u32)
        ensures
            width == self.spec_width(),
    {
        self.width
    }

    /// Rows.
    pub fn height(&self) -> (height: u32)
        ensures
            height == self.spec_height(),
    {
        self.height
    }

    /// The encoding of the bytes.
    pub fn format(&self) -> (format: FrameFormat)
        ensures
            format == self.spec_format(),
    {
        self.format
    }

    /// The sizes for the conversion of this frame on the graphics device.
    pub fn plan(&self) -> (plan: Result<ConversionPlan, PipelineError>)
        ensures
            plan is Ok <==> convertible(self.spec_width() as int, self.spec_height() as int),
            plan matches Ok(p) ==> p == ConversionPlan::spec_for_frame(
                self.spec_width(),
                self.spec_height(),
                self.spec_bytes().len() as usize,
            ) && p.wf() && p.spec_width() == self.spec_width() && p.spec_height()
                == self.spec_height() && p.spec_input_size() == self.spec_bytes().len(),
            plan matches Err(e) ==> e == PipelineError::ConversionError,
    {
        ConversionPlan::for_frame(self.width, self.height, self.bytes.len())
    }

    /// Converts the frame without the graphics device.
    ///
    /// The image has four bytes for each pixel. Where the pixels are odd in
    /// number, the last one has no chroma pair of its own and its four bytes
    /// are 0.
    pub fn to_rgba(&self) -> (image: Result<Vec<u8>, PipelineError>)
        ensures
            image is Ok <==> self.cpu_convertible(),
            image matches Ok(rgba) ==> rgba@.len() == output_bytes(
                self.spec_width() as int,
                self.spec_height() as int,
            ) && rgba@ == converted(self.spec_bytes(), zeroed(rgba@.len())),
            image matches Err(e) ==> e == PipelineError::ConversionError,
    {
        let plan = match self.plan() {
            Ok(plan) => plan,
            Err(e) => {
                return Err(e);
            },
        };
        let input_len: usize = self.bytes.len();
        let output_size: u64 = plan.output_size();
        assert(output_size == 2 * packed_bytes(self.width as int, self.height as int))
            by (nonlinear_arith)
            requires
                output_size == output_bytes(self.width as int, self.height as int),
        ;
        if output_size > usize::MAX as u64 || output_size / 2 != input_len as u64 {
            return Err(PipelineError::ConversionError);
        }
        let mut rgba: Vec<u8> = vec![0u8; output_size as usize];
        assert(rgba@ =~= zeroed(rgba@.len()));
        uyvy_to_rgba(self.bytes.as_slice(), rgba.as_mut_slice());
        Ok(rgba)
    }
}

} // verus!
