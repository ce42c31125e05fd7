use camera_pipeline::color::{clamp, uyvy_to_rgba, ycbcr_to_rgb};

fn round_and_clamp(val: f32) -> u8 {
    if val < 0.0 {
        0
    } else if val > 255.0 {
        255
    } else {
        val.round() as u8
    }
}

fn single_precision(y: u8, cb: u8, cr: u8) -> (f32, f32, f32) {
    let y = y as f32;
    let cb = cb as f32 - 128.0;
    let cr = cr as f32 - 128.0;
    (y + 1.5748 * cr, y - 0.187324 * cb - 0.468124 * cr, y + 1.8556 * cb)
}

#[test]
fn white_without_chroma_keeps_its_luma() {
    let input = [235u8, 128, 235, 128];
    let mut output = [0u8; 8];
    uyvy_to_rgba(&input, &mut output);
    assert_eq!(output, [235, 235, 235, 255, 235, 235, 235, 255]);
}

#[test]
fn full_luma_without_chroma_is_white() {
    let input = [255u8, 128, 255, 128];
    let mut output = [0u8; 8];
    uyvy_to_rgba(&input, &mut output);
    assert_eq!(output, [255u8; 8]);
}

#[test]
fn mid_grey_stays_mid_grey() {
    assert_eq!(ycbcr_to_rgb(128, 128, 128), (128, 128, 128));
    let input = [128u8, 128, 128, 128];
    let mut output = [0u8; 8];
    uyvy_to_rgba(&input, &mut output);
    assert_eq!(output, [128, 128, 128, 255, 128, 128, 128, 255]);
}

#[test]
fn grey_for_every_luma_without_chroma() {
    for y in 0..=255u8 {
        assert_eq!(ycbcr_to_rgb(y, 128, 128), (y, y, y));
    }
}

#[test]
fn known_colours() {
    // red = 128 + 1.5748 * 127 = 327.9996, clamped
    // green = 128 - 0.187324 * 0 - 0.468124 * 127 = 68.548252
    assert_eq!(ycbcr_to_rgb(128, 128, 255), (255, 69, 128));
    // blue = 128 + 1.8556 * 127 = 363.6612, clamped
    // green = 128 - 0.187324 * 127 = 104.209852
    assert_eq!(ycbcr_to_rgb(128, 255, 128), (128, 104, 255));
    // red = 100 + 1.5748 * -28 = 55.9056
    // green = 100 - 0.187324 * -28 - 0.468124 * -28 = 118.352544
    // blue = 100 + 1.8556 * -28 = 48.0432
    assert_eq!(ycbcr_to_rgb(100, 100, 100), (56, 118, 48));
    // red = 0 - 1.5748 * 128 < 0; green = 0 + 23.977472 + 59.919872 = 83.897344
    assert_eq!(ycbcr_to_rgb(0, 0, 0), (0, 84, 0));
    // green = 255 - 0.187324 * 127 - 0.468124 * 127 = 171.758104
    assert_eq!(ycbcr_to_rgb(255, 255, 255), (255, 172, 255));
    assert_eq!(ycbcr_to_rgb(16, 128, 128), (16, 16, 16));
}

#[test]
fn green_just_below_a_half_rounds_down() {
    // green = 100 + 0.187324 * 110 + 0.468124 * 19 = 129.499996
    assert_eq!(ycbcr_to_rgb(100, 18, 109).1, 129);
}

#[test]
fn clamp_rounds_to_nearest() {
    assert_eq!(clamp(-1), 0);
    assert_eq!(clamp(0), 0);
    assert_eq!(clamp(499_999), 0);
    assert_eq!(clamp(500_000), 1);
    assert_eq!(clamp(1_000_000), 1);
    assert_eq!(clamp(1_499_999), 1);
    assert_eq!(clamp(1_500_000), 2);
    assert_eq!(clamp(127_500_000), 128);
    assert_eq!(clamp(254_499_999), 254);
    assert_eq!(clamp(254_500_000), 255);
    assert_eq!(clamp(255_000_000), 255);
    assert_eq!(clamp(255_000_001), 255);
}

#[test]
fn clamp_limits_to_a_byte() {
    assert_eq!(clamp(i64::MAX), 255);
    assert_eq!(clamp(i64::MIN), 0);
    assert_eq!(clamp(-500_000), 0);
    assert_eq!(clamp(300_000_000), 255);
}

#[test]
fn both_pixels_of_a_group_share_its_chroma() {
    let input = [10u8, 200, 250, 30];
    let mut output = [0u8; 8];
    uyvy_to_rgba(&input, &mut output);
    let (r1, g1, b1) = ycbcr_to_rgb(10, 200, 30);
    let (r2, g2, b2) = ycbcr_to_rgb(250, 200, 30);
    assert_eq!(output, [r1, g1, b1, 255, r2, g2, b2, 255]);
    assert_ne!((r1, g1, b1), (r2, g2, b2));
}

#[test]
fn groups_are_converted_in_place_order() {
    let input = [0u8, 128, 64, 128, 128, 128, 255, 128];
    let mut output = [7u8; 16];
    uyvy_to_rgba(&input, &mut output);
    assert_eq!(
        output,
        [0, 0, 0, 255, 64, 64, 64, 255, 128, 128, 128, 255, 255, 255, 255, 255]
    );
}

#[test]
fn bytes_past_the_last_whole_group_are_left_alone() {
    let input = [50u8, 128, 60, 128, 70, 128];
    let mut output = [9u8; 12];
    uyvy_to_rgba(&input, &mut output);
    assert_eq!(output, [50, 50, 50, 255, 60, 60, 60, 255, 9, 9, 9, 9]);
}

#[test]
fn empty_buffer_converts_to_nothing() {
    let input: [u8; 0] = [];
    let mut output: [u8; 0] = [];
    uyvy_to_rgba(&input, &mut output);
    assert_eq!(output.len(), 0);
}

#[test]
fn converting_twice_gives_the_same_bytes() {
    let input: Vec<u8> = (0..=255u8).chain((0..=255u8).rev()).collect();
    let mut first = vec![0u8; input.len() * 2];
    let mut second = vec![0xffu8; input.len() * 2];
    uyvy_to_rgba(&input, &mut first);
    uyvy_to_rgba(&input, &mut second);
    assert_eq!(first, second);
    uyvy_to_rgba(&input, &mut first);
    assert_eq!(first, second);
}

#[test]
fn alpha_is_always_opaque() {
    let input: Vec<u8> = (0..1024u32).map(|i| (i * 37 % 256) as u8).collect();
    let mut output = vec![0u8; input.len() * 2];
    uyvy_to_rgba(&input, &mut output);
    for pixel in output.chunks_exact(4) {
        assert_eq!(pixel[3], 255);
    }
}

#[test]
fn red_and_blue_agree_with_single_precision() {
    for y in 0..=255u8 {
        for c in 0..=255u8 {
            let (r, _, _) = single_precision(y, 128, c);
            let (_, _, b) = single_precision(y, c, 128);
            assert_eq!(ycbcr_to_rgb(y, 128, c).0, round_and_clamp(r));
            assert_eq!(ycbcr_to_rgb(y, c, 128).2, round_and_clamp(b));
        }
    }
}

#[test]
fn green_agrees_with_single_precision_but_for_its_ties() {
    // In single precision a green that lies within a few millionths of a
    // half can come out as the half itself and round up. Nowhere else do the
    // two differ.
    let mut differ = 0u32;
    for cb in 0..=255u8 {
        for cr in 0..=255u8 {
            for y in (0..=255u8).step_by(3) {
                let (_, g, _) = single_precision(y, cb, cr);
                let exact = ycbcr_to_rgb(y, cb, cr).1;
                let single = round_and_clamp(g);
                if exact != single {
                    differ += 1;
                    assert_eq!(g.fract(), 0.5);
                    assert_eq!(single, exact + 1);
                }
            }
        }
    }
    assert!(differ < 100);
}
