//! Sizing of the conversion of one frame: the two storage buffers, the compute
//! dispatch that fills the second from the first, and the copy into a texture.

use crate::error::PipelineError;
use vstd::prelude::*;

verus! {

/// Invocations along each side of one workgroup of the conversion program.
pub const WORKGROUP_EXTENT: u32 = 16;

/// Bytes of one converted pixel: red, green, blue, alpha.
pub const BYTES_PER_PIXEL: u32 = 4;

/// Storage buffers that a program of the graphics device may bind at once.
pub const STORAGE_BUFFERS_PER_STAGE: u32 = 8;

/// The widest row whose byte length still fits the copy layout.
pub const MAX_WIDTH: u32 = 0x3fff_ffff;

/// The least number of workgroups whose invocations span `extent` pixels:
/// `extent / 16`, rounded up.
pub open spec fn groups_for(extent: int) -> int {
    (extent + 15) / 16
}

/// Bytes of the converted image of a frame.
pub open spec fn output_bytes(width: int, height: int) -> int {
    width * height * 4
}

/// Whether a frame of this size can be converted: it has at least one pixel,
/// and the bytes of one of its rows can be counted in 32 bits.
pub open spec fn convertible(width: int, height: int) -> bool {
    1 <= width <= MAX_WIDTH && 1 <= height
}

/// Invocations along one axis of the dispatch for an axis of `extent` pixels.
pub open spec fn grid_extent(extent: int) -> int {
    16 * groups_for(extent)
}

/// The place along one axis of the grid of invocation `local` of workgroup
/// `group`.
pub open spec fn invocation_index(group: int, local: int) -> int {
    group * 16 + local
}

/// Whether invocation `local` of workgroup `group` runs in a dispatch of
/// `groups` workgroups along one axis.
pub open spec fn dispatched(groups: int, group: int, local: int) -> bool {
    0 <= group < groups && 0 <= local < 16
}

/// The pixel, counted row by row from 0, that invocation `(lx, ly)` of
/// workgroup `(gx, gy)` stands for in the dispatch for an image `width`
/// pixels wide: its place in the rows of the grid laid end to end.
pub open spec fn invocation_pixel(width: int, gx: int, gy: int, lx: int, ly: int) -> int {
    invocation_index(gy, ly) * grid_extent(width) + invocation_index(gx, lx)
}

/// Whether invocation `(lx, ly)` of workgroup `(gx, gy)` writes pixel `pixel`
/// of a `width` by `height` image: it runs, it stands for that pixel, and the
/// pixel passes the bounds test of the conversion program.
pub open spec fn writes_pixel(
    width: int,
    height: int,
    gx: int,
    gy: int,
    lx: int,
    ly: int,
    pixel: int,
) -> bool {
    &&& dispatched(groups_for(width), gx, lx)
    &&& dispatched(groups_for(height), gy, ly)
    &&& invocation_pixel(width, gx, gy, lx, ly) == pixel
    &&& 0 <= pixel < width * height
}

/// The place in the output buffer of the first byte of pixel `(x, y)`.
pub open spec fn pixel_offset(width: int, x: int, y: int) -> int {
    (y * width + x) * 4
}

/// The sizes that the conversion of one frame works with.
#[derive(Clone, Copy, Debug, PartialEq, Eq, Structural)]
pub struct ConversionPlan {
    width: u32,
    height: u32,
    input_size: u64,
    output_size: u64,
    groups_x: u32,
    groups_y: u32,
    groups_z: u32,
    bytes_per_row: u32,
    rows_per_image: u32,
}

impl ConversionPlan {
    /// Pixels in a row of the frame.
    pub closed spec fn spec_width(&self) -> u32 {
        self.width
    }

    /// Rows of the frame.
    pub closed spec fn spec_height(&self) -> u32 {
        self.height
    }

    /// Bytes of the input buffer: the raw frame as it was captured.
    pub closed spec fn spec_input_size(&self) -> u64 {
        self.input_size
    }

    /// Bytes of the output buffer.
    pub closed spec fn spec_output_size(&self) -> u64 {
        self.output_size
    }

    /// Workgroups along a row, along a column and in depth.
    pub closed spec fn spec_groups(&self) -> (u32, u32, u32) {
        (self.groups_x, self.groups_y, self.groups_z)
    }

    /// Bytes from one row to the next in the copy into the texture.
    pub closed spec fn spec_bytes_per_row(&self) -> u32 {
        self.bytes_per_row
    }

    /// Rows of the copy into the texture.
    pub closed spec fn spec_rows_per_image(&self) -> u32 {
        self.rows_per_image
    }

    /// The frame is one that can be converted, and every size follows from
    /// its width and height: four bytes of output for each pixel, workgroups
    /// of 16 by 16 invocations that span the image, one row of the copy for
    /// each row of the frame. This holds of every plan.
    pub open spec fn wf(&self) -> bool {
        &&& convertible(self.spec_width() as int, self.spec_height() as int)
        &&& self.spec_output_size() == output_bytes(
            self.spec_width() as int,
            self.spec_height() as int,
        )
        &&& self.spec_groups() == (
            groups_for(self.spec_width() as int) as u32,
            groups_for(self.spec_height() as int) as u32,
            1u32,
        )
        &&& self.spec_bytes_per_row() == 4 * self.spec_width()
        &&& self.spec_rows_per_image() == self.spec_height()
    }

    #[verifier::type_invariant]
    spec fn inv(&self) -> bool {
        self.wf()
    }

    /// The plan for a frame of `width` by `height` pixels whose raw bytes
    /// number `input_len`. It is the one plan of that width, height and input
    /// size of which `wf` holds.
    pub closed spec fn spec_for_frame(width: u32, height: u32, input_len: usize) -> ConversionPlan {
        ConversionPlan {
            width,
            height,
            input_size: input_len as u64,
            output_size: output_bytes(width as int, height as int) as u64,
            groups_x: groups_for(width as int) as u32,
            groups_y: groups_for(height as int) as u32,
            groups_z: 1,
            bytes_per_row: (4 * width) as u32,
            rows_per_image: height,
        }
    }

    /// Plans the conversion of a frame of `width` by `height` pixels whose
    /// raw bytes number `input_len`.
    ///
    /// A frame without pixels, or one whose rows are too long to count, is
    /// not converted.
    pub fn for_frame(width: u32, height: u32, input_len: usize) -> (plan: Result<
        ConversionPlan,
        PipelineError,
    >)
        ensures
            plan is Ok <==> convertible(width as int, height as int),
            plan matches Ok(p) ==> p == Self::spec_for_frame(width, height, input_len) && p.wf()
                && p.spec_width() == width && p.spec_height() == height && p.spec_input_size()
                == input_len,
            plan matches Err(e) ==> e == PipelineError::ConversionError,
    {
        if width == 0 || height == 0 || width > MAX_WIDTH {
            return Err(PipelineError::ConversionError);
        }
        let bytes_per_row: u32 = BYTES_PER_PIXEL * width;
        proof {
            lemma_output_fits(width as int, height as int);
        }
        let output_size: u64 = bytes_per_row as u64 * height as u64;
        Ok(
            ConversionPlan {
                width,
                height,
                input_size: input_len as u64,
                output_size,
                groups_x: workgroups(width),
                groups_y: workgroups(height),
                groups_z: 1,
                bytes_per_row,
                rows_per_image: height,
            },
        )
    }

    /// Pixels in a row of the frame, at least 1.
    pub fn width(&self) -> (width: u32)
        ensures
            width == self.spec_width(),
            width >= 1,
    {
        proof {
            use_type_invariant(self);
        }
        self.width
    }

    /// Rows of the frame, at least 1.
    pub fn height(&self) -> (height: u32)
        ensures
            height == self.spec_height(),
            height >= 1,
    {
        proof {
            use_type_invariant(self);
        }
        self.height
    }

    /// Bytes of the input buffer: the raw frame as it was captured.
    pub fn input_size(&self) -> (bytes: u64)
        ensures
            bytes == self.spec_input_size(),
    {
        self.input_size
    }

    /// Bytes of the output buffer: four for each pixel of the frame.
    pub fn output_size(&self) -> (bytes: u64)
        ensures
            bytes == self.spec_output_size(),
            bytes == output_bytes(self.spec_width() as int, self.spec_height() as int),
    {
        proof {
            use_type_invariant(self);
        }
        self.output_size
    }

    /// Workgroups to dispatch along a row, along a column and in depth.
    pub fn workgroups(&self) -> (groups: (u32, u32, u32))
        ensures
            groups == self.spec_groups(),
            groups.0 == groups_for(self.spec_width() as int),
            groups.1 == groups_for(self.spec_height() as int),
            groups.2 == 1,
    {
        proof {
            use_type_invariant(self);
        }
        (self.groups_x, self.groups_y, self.groups_z)
    }

    /// Bytes from one row to the next in the copy into the texture.
    pub fn bytes_per_row(&self) -> (bytes: u32)
        ensures
            bytes == self.spec_bytes_per_row(),
            bytes == 4 * self.spec_width(),
    {
        proof {
            use_type_invariant(self);
        }
        self.bytes_per_row
    }

    /// Rows of the copy into the texture.
    pub fn rows_per_image(&self) -> (rows: u32)
        ensures
            rows == self.spec_rows_per_image(),
            rows == self.spec_height(),
    {
        proof {
            use_type_invariant(self);
        }
        self.rows_per_image
    }
}

/// The number of workgroups to dispatch along an axis of `extent` pixels.
pub fn workgroups(extent: u32) -> (groups: u32)
    ensures
        groups == groups_for(extent as int),
{
    let whole: u32 = extent / WORKGROUP_EXTENT;
    if extent % WORKGROUP_EXTENT == 0 {
        whole
    } else {
        whole + 1
    }
}

/// The bytes of the converted image of a frame that can be converted fit in
/// 64 bits.
pub proof fn lemma_output_fits(width: int, height: int)
    requires
        0 <= width <= MAX_WIDTH,
        0 <= height <= u32::MAX,
    ensures
        0 <= (4 * width) * height <= u64::MAX,
        (4 * width) * height == output_bytes(width, height),
{
    assert((4 * width) * height == width * height * 4) by (nonlinear_arith);
    assert(0 <= (4 * width) * height <= 0xffff_fffc * 0xffff_ffff) by (nonlinear_arith)
        requires
            0 <= 4 * width <= 0xffff_fffc,
            0 <= height <= 0xffff_ffff,
    ;
}

/// The dispatch is tight: its workgroups reach the last pixel of the axis,
/// and one workgroup fewer would not.
pub proof fn lemma_dispatch_is_tight(extent: int)
    requires
        extent >= 1,
    ensures
        16 * (groups_for(extent) - 1) < extent <= 16 * groups_for(extent),
{
}

/// The grid has an invocation for every pixel of the image.
pub proof fn lemma_grid_holds_image(width: int, height: int)
    requires
        width >= 1,
        height >= 1,
    ensures
        width * height <= grid_extent(width) * grid_extent(height),
        width <= grid_extent(width),
        height <= grid_extent(height),
{
    lemma_dispatch_is_tight(width);
    lemma_dispatch_is_tight(height);
    assert(width * height <= grid_extent(width) * grid_extent(height)) by (nonlinear_arith)
        requires
            1 <= width <= grid_extent(width),
            1 <= height <= grid_extent(height),
    ;
}

/// Every pixel of the image is written by one invocation of the dispatch
/// and by no other.
pub proof fn lemma_every_pixel_written_once(width: int, height: int, pixel: int)
    requires
        width >= 1,
        height >= 1,
        0 <= pixel < width * height,
    ensures
        ({
            let column = pixel % grid_extent(width);
            let row = pixel / grid_extent(width);
            writes_pixel(width, height, column / 16, row / 16, column % 16, row % 16, pixel)
        }),
        forall|gx: int, gy: int, lx: int, ly: int|
            writes_pixel(width, height, gx, gy, lx, ly, pixel) ==> ({
                let column = pixel % grid_extent(width);
                let row = pixel / grid_extent(width);
                gx == column / 16 && gy == row / 16 && lx == column % 16 && ly == row % 16
            }),
{
    let stride = grid_extent(width);
    let column = pixel % stride;
    let row = pixel / stride;
    lemma_grid_holds_image(width, height);
    vstd::arithmetic::div_mod::lemma_fundamental_div_mod(pixel, stride);
    vstd::arithmetic::div_mod::lemma_mod_bound(pixel, stride);
    assert(stride * row == row * stride) by (nonlinear_arith);
    assert(0 <= row) by {
        vstd::arithmetic::div_mod::lemma_div_pos_is_pos(pixel, stride);
    }
    assert(row < height) by (nonlinear_arith)
        requires
            pixel == row * stride + column,
            0 <= column,
            pixel < width * height,
            1 <= width <= stride,
            height >= 1,
    ;
    assert(invocation_index(column / 16, column % 16) == column);
    assert(invocation_index(row / 16, row % 16) == row);
    assert forall|gx: int, gy: int, lx: int, ly: int|
        writes_pixel(width, height, gx, gy, lx, ly, pixel) implies gx == column / 16 && gy == row
        / 16 && lx == column % 16 && ly == row % 16 by {
        let c = invocation_index(gx, lx);
        let r = invocation_index(gy, ly);
        assert(0 <= c < stride);
        assert(pixel == r * stride + c);
        vstd::arithmetic::div_mod::lemma_fundamental_div_mod_converse(pixel, stride, r, c);
        assert(r == row && c == column);
    }
}

/// An invocation that stands for a place past the last pixel writes nothing.
pub proof fn lemma_outside_writes_nothing(
    width: int,
    height: int,
    gx: int,
    gy: int,
    lx: int,
    ly: int,
)
    requires
        invocation_pixel(width, gx, gy, lx, ly) >= width * height,
    ensures
        forall|pixel: int| !writes_pixel(width, height, gx, gy, lx, ly, pixel),
{
}

/// The four bytes of every pixel lie inside the output buffer.
pub proof fn lemma_pixel_inside_output(width: int, height: int, x: int, y: int)
    requires
        0 <= x < width,
        0 <= y < height,
    ensures
        0 <= pixel_offset(width, x, y),
        pixel_offset(width, x, y) + 4 <= output_bytes(width, height),
{
    assert(y * width + x + 1 <= height * width) by (nonlinear_arith)
        requires
            0 <= x < width,
            0 <= y < height,
    ;
    assert(0 <= y * width + x) by (nonlinear_arith)
        requires
            0 <= x < width,
            0 <= y < height,
    ;
    assert(height * width * 4 == width * height * 4) by (nonlinear_arith);
}

/// The bytes of two different pixels do not overlap.
pub proof fn lemma_pixels_do_not_overlap(width: int, x1: int, y1: int, x2: int, y2: int)
    requires
        0 <= x1 < width,
        0 <= x2 < width,
        0 <= y1,
        0 <= y2,
        (x1, y1) != (x2, y2),
    ensures
        pixel_offset(width, x1, y1) + 4 <= pixel_offset(width, x2, y2) || pixel_offset(
            width,
            x2,
            y2,
        ) + 4 <= pixel_offset(width, x1, y1),
{
    if y1 < y2 {
        assert(y1 * width + x1 < y2 * width + x2) by (nonlinear_arith)
            requires
                0 <= x1 < width,
                0 <= x2,
                y1 + 1 <= y2,
        ;
    } else if y2 < y1 {
        assert(y2 * width + x2 < y1 * width + x1) by (nonlinear_arith)
            requires
                0 <= x2 < width,
                0 <= x1,
                y2 + 1 <= y1,
        ;
    }
}

/// Every byte of the output buffer belongs to a pixel of the image: the
/// pixels leave no gap.
pub proof fn lemma_output_has_no_gap(width: int, height: int, i: int)
    requires
        width >= 1,
        0 <= i < output_bytes(width, height),
    ensures
        0 <= (i / 4) % width < width,
        0 <= (i / 4) / width < height,
        pixel_offset(width, (i / 4) % width, (i / 4) / width) <= i < pixel_offset(
            width,
            (i / 4) % width,
            (i / 4) / width,
        ) + 4,
{
    let p = i / 4;
    assert(0 <= p < width * height);
    vstd::arithmetic::div_mod::lemma_fundamental_div_mod(p, width);
    vstd::arithmetic::div_mod::lemma_mod_bound(p, width);
    assert(p == width * (p / width) + p % width);
    assert((p / width) * width == width * (p / width)) by (nonlinear_arith);
    assert(0 <= p / width) by {
        vstd::arithmetic::div_mod::lemma_div_pos_is_pos(p, width);
    }
    assert(p / width < height) by (nonlinear_arith)
        requires
            p == width * (p / width) + p % width,
            0 <= p % width,
            p < width * height,
            width >= 1,
    ;
}

} // verus!
