//! Packed-YUV to RGBA conversion with Rec. 709 coefficients.
//!
//! Colour values are carried as integers in millionths, so that every
//! coefficient of the conversion is exact and the result is the same on every
//! machine.

use vstd::prelude::*;

verus! {

/// Number of fixed-point units that make up one step of a colour channel.
pub const SCALE: i64 = 1_000_000;

/// Weight of the red-difference chroma sample in the red channel, in millionths.
pub const RED_FROM_CR: i64 = 1_574_800;

/// Weight of the blue-difference chroma sample in the green channel, in millionths.
pub const GREEN_FROM_CB: i64 = 187_324;

/// Weight of the red-difference chroma sample in the green channel, in millionths.
pub const GREEN_FROM_CR: i64 = 468_124;

/// Weight of the blue-difference chroma sample in the blue channel, in millionths.
pub const BLUE_FROM_CB: i64 = 1_855_600;

/// The chroma value that stands for "no colour difference".
pub const CHROMA_ZERO: i64 = 128;

/// Bytes of one packed group: two luma samples that share one chroma pair.
pub const GROUP_BYTES: usize = 4;

/// Bytes that one packed group becomes: two RGBA pixels.
pub const PIXEL_PAIR_BYTES: usize = 8;

/// The byte that a channel of `millionths / 1_000_000` becomes: 0 below zero,
/// 255 above 255, and otherwise the nearest integer, a tie going up.
pub open spec fn channel_of(millionths: int) -> int {
    if millionths < 0 {
        0
    } else if millionths > 255 * SCALE {
        255
    } else {
        (millionths + SCALE / 2) / (SCALE as int)
    }
}

/// Red before rounding, in millionths: `Y + 1.5748 * (Cr - 128)`.
pub open spec fn red_millionths(y: int, cr: int) -> int {
    SCALE * y + RED_FROM_CR * (cr - CHROMA_ZERO)
}

/// Green before rounding, in millionths:
/// `Y - 0.187324 * (Cb - 128) - 0.468124 * (Cr - 128)`.
pub open spec fn green_millionths(y: int, cb: int, cr: int) -> int {
    SCALE * y - GREEN_FROM_CB * (cb - CHROMA_ZERO) - GREEN_FROM_CR * (cr - CHROMA_ZERO)
}

/// Blue before rounding, in millionths: `Y + 1.8556 * (Cb - 128)`.
pub open spec fn blue_millionths(y: int, cb: int) -> int {
    SCALE * y + BLUE_FROM_CB * (cb - CHROMA_ZERO)
}

/// The pixel that one luma sample and one chroma pair stand for.
pub open spec fn rgb_of(y: u8, cb: u8, cr: u8) -> (int, int, int) {
    (
        channel_of(red_millionths(y as int, cr as int)),
        channel_of(green_millionths(y as int, cb as int, cr as int)),
        channel_of(blue_millionths(y as int, cb as int)),
    )
}

/// Byte `i` of the RGBA image that the packed buffer `input` describes.
///
/// Group `g` of the input, its bytes `Y0 Cb Y1 Cr`, gives output bytes
/// `8g .. 8g + 8`: the pixel of `Y0`, then the pixel of `Y1`, each followed
/// by an alpha of 255.
pub open spec fn rgba_byte(input: Seq<u8>, i: int) -> int
    recommends
        0 <= i < 8 * (input.len() / 4),
{
    let group = i / 8;
    let lane = i % 8;
    let y = if lane < 4 {
        input[4 * group]
    } else {
        input[4 * group + 2]
    };
    let cb = input[4 * group + 1];
    let cr = input[4 * group + 3];
    let channel = lane % 4;
    if channel == 0 {
        rgb_of(y, cb, cr).0
    } else if channel == 1 {
        rgb_of(y, cb, cr).1
    } else if channel == 2 {
        rgb_of(y, cb, cr).2
    } else {
        255
    }
}

/// What a conversion of `input` leaves in a buffer that held `before`: the
/// image over the bytes of every whole group, and the old bytes after them.
pub open spec fn converted(input: Seq<u8>, before: Seq<u8>) -> Seq<u8> {
    Seq::new(
        before.len(),
        |i: int|
            if i < 8 * (input.len() / 4) {
                rgba_byte(input, i) as u8
            } else {
                before[i]
            },
    )
}

/// A channel is a byte.
pub proof fn lemma_channel_is_byte(millionths: int)
    ensures
        0 <= channel_of(millionths) <= 255,
{
}

/// Within the range of a byte the channel is the integer nearest to the
/// exact value: it lies no more than half a step from it.
pub proof fn lemma_channel_is_nearest(millionths: int)
    requires
        0 <= millionths <= 255 * SCALE,
    ensures
        2 * (channel_of(millionths) * SCALE - millionths) <= SCALE,
        2 * (millionths - channel_of(millionths) * SCALE) < SCALE,
{
}

/// Rounds a channel value given in millionths and limits it to a byte.
pub fn clamp(val: i64) -> (out: u8)
    ensures
        out as int == channel_of(val as int),
{
    if val < 0 {
        0
    } else if val > 255 * SCALE {
        255
    } else {
        let rounded: i64 = (val + SCALE / 2) / SCALE;
        rounded as u8
    }
}

/// Converts one luma sample with its chroma pair to red, green and blue.
pub fn ycbcr_to_rgb(y: u8, cb: u8, cr: u8) -> (rgb: (u8, u8, u8))
    ensures
        (rgb.0 as int, rgb.1 as int, rgb.2 as int) == rgb_of(y, cb, cr),
{
    let y: i64 = y as i64;
    let cb: i64 = cb as i64 - CHROMA_ZERO;
    let cr: i64 = cr as i64 - CHROMA_ZERO;

    let r: i64 = SCALE * y + RED_FROM_CR * cr;
    let g: i64 = SCALE * y - GREEN_FROM_CB * cb - GREEN_FROM_CR * cr;
    let b: i64 = SCALE * y + BLUE_FROM_CB * cb;

    (clamp(r), clamp(g), clamp(b))
}

/// Converts a packed buffer, four bytes `Y0 Cb Y1 Cr` for every two pixels,
/// into RGBA, eight bytes for every two pixels.
///
/// Bytes of `in_buf` past its last whole group are not read, and the bytes of
/// `out_buf` that answer to them keep their values.
pub fn uyvy_to_rgba(in_buf: &[u8], out_buf: &mut [u8])
    requires
        old(out_buf)@.len() == in_buf@.len() * 2,
    ensures
        final(out_buf)@ == converted(in_buf@, old(out_buf)@),
{
    let groups: usize = out_buf.len() / PIXEL_PAIR_BYTES;
    let mut g: usize = 0;
    while g < groups
        invariant
            groups == in_buf@.len() / 4,
            8 * groups <= usize::MAX,
            g <= groups,
            out_buf@.len() == in_buf@.len() * 2,
            out_buf@.len() == old(out_buf)@.len(),
            forall|i: int| 0 <= i < 8 * g ==> out_buf@[i] as int == rgba_byte(in_buf@, i),
            forall|i: int| 8 * g <= i < out_buf@.len() ==> out_buf@[i] == old(out_buf)@[i],
        decreases groups - g,
    {
        assert(4 * g + 4 <= in_buf@.len());
        assert(8 * g + 8 <= out_buf@.len());
        let src: usize = g * GROUP_BYTES;
        let dst: usize = g * PIXEL_PAIR_BYTES;
        let y0: u8 = in_buf[src];
        let u0: u8 = in_buf[src + 1];
        let y1: u8 = in_buf[src + 2];
        let v0: u8 = in_buf[src + 3];

        let (r1, g1, b1) = ycbcr_to_rgb(y0, u0, v0);
        out_buf[dst] = r1;
        out_buf[dst + 1] = g1;
        out_buf[dst + 2] = b1;
        out_buf[dst + 3] = 255;

        let (r2, g2, b2) = ycbcr_to_rgb(y1, u0, v0);
        out_buf[dst + 4] = r2;
        out_buf[dst + 5] = g2;
        out_buf[dst + 6] = b2;
        out_buf[dst + 7] = 255;

        g = g + 1;
    }
    assert(out_buf@ =~= converted(in_buf@, old(out_buf)@));
}

/// The conversion keeps the length of the buffer it writes to.
pub proof fn lemma_converted_len(input: Seq<u8>, before: Seq<u8>)
    ensures
        converted(input, before).len() == before.len(),
{
}

/// Every byte of the image is a byte, and every fourth one, the alpha of its
/// pixel, is 255.
pub proof fn lemma_alpha_is_opaque(input: Seq<u8>, i: int)
    requires
        0 <= i < 8 * (input.len() / 4),
    ensures
        0 <= rgba_byte(input, i) <= 255,
        i % 4 == 3 ==> rgba_byte(input, i) == 255,
{
}

/// Byte `lane` of the eight bytes of group `group` is byte `8 * group + lane`
/// of the image.
proof fn lemma_lane_index(group: int, lane: int)
    requires
        0 <= group,
        0 <= lane < 8,
    ensures
        (8 * group + lane) / 8 == group,
        (8 * group + lane) % 8 == lane,
{
}

/// The conversion is a function of the samples alone: two buffers that agree
/// on the four bytes of one group give the same eight bytes for it, whatever
/// else they hold and however often they are converted.
pub proof fn lemma_same_samples_same_pixels(a: Seq<u8>, b: Seq<u8>, group: int, lane: int)
    requires
        0 <= group,
        4 * group + 4 <= a.len(),
        4 * group + 4 <= b.len(),
        a.subrange(4 * group, 4 * group + 4) == b.subrange(4 * group, 4 * group + 4),
        0 <= lane < 8,
    ensures
        rgba_byte(a, 8 * group + lane) == rgba_byte(b, 8 * group + lane),
{
    let sa = a.subrange(4 * group, 4 * group + 4);
    let sb = b.subrange(4 * group, 4 * group + 4);
    assert(a[4 * group] == sa[0] && b[4 * group] == sb[0]);
    assert(a[4 * group + 1] == sa[1] && b[4 * group + 1] == sb[1]);
    assert(a[4 * group + 2] == sa[2] && b[4 * group + 2] == sb[2]);
    assert(a[4 * group + 3] == sa[3] && b[4 * group + 3] == sb[3]);
    lemma_lane_index(group, lane);
}

/// The two pixels of a group are the pixels of its two luma samples, each
/// with the chroma pair that the group holds.
pub proof fn lemma_group_pixels(input: Seq<u8>, group: int)
    requires
        0 <= group,
        4 * group + 4 <= input.len(),
    ensures
        ({
            let first = rgb_of(input[4 * group], input[4 * group + 1], input[4 * group + 3]);
            let second = rgb_of(input[4 * group + 2], input[4 * group + 1], input[4 * group + 3]);
            &&& rgba_byte(input, 8 * group) == first.0
            &&& rgba_byte(input, 8 * group + 1) == first.1
            &&& rgba_byte(input, 8 * group + 2) == first.2
            &&& rgba_byte(input, 8 * group + 3) == 255
            &&& rgba_byte(input, 8 * group + 4) == second.0
            &&& rgba_byte(input, 8 * group + 5) == second.1
            &&& rgba_byte(input, 8 * group + 6) == second.2
            &&& rgba_byte(input, 8 * group + 7) == 255
        }),
{
    lemma_lane_index(group, 0);
    lemma_lane_index(group, 1);
    lemma_lane_index(group, 2);
    lemma_lane_index(group, 3);
    lemma_lane_index(group, 4);
    lemma_lane_index(group, 5);
    lemma_lane_index(group, 6);
    lemma_lane_index(group, 7);
}

/// A sample without colour difference is grey: with both chroma samples at
/// 128, red, green and blue are the luma.
pub proof fn lemma_no_chroma_is_grey(y: u8)
    ensures
        rgb_of(y, 128, 128) == (y as int, y as int, y as int),
{
}

} // verus!
