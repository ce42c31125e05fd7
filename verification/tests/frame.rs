use camera_pipeline::color::ycbcr_to_rgb;
use camera_pipeline::error::PipelineError;
use camera_pipeline::frame::{FrameFormat, RawFrame};

fn solid(width: u32, height: u32, y: u8, cb: u8, cr: u8) -> RawFrame {
    let groups = (width * height / 2) as usize;
    let mut bytes = Vec::with_capacity(groups * 4);
    for _ in 0..groups {
        bytes.extend_from_slice(&[y, cb, y, cr]);
    }
    if width * height % 2 == 1 {
        bytes.extend_from_slice(&[y, cb]);
    }
    RawFrame::new(bytes, width, height, FrameFormat::Yuyv)
}

#[test]
fn frame_keeps_what_it_was_made_with() {
    let frame = RawFrame::new(vec![1, 2, 3, 4], 2, 1, FrameFormat::Yuyv);
    assert_eq!(frame.bytes(), &[1, 2, 3, 4]);
    assert_eq!(frame.width(), 2);
    assert_eq!(frame.height(), 1);
    assert_eq!(frame.format(), FrameFormat::Yuyv);
    let other = RawFrame::new(vec![], 7, 9, FrameFormat::Mjpeg);
    assert_eq!(other.bytes().len(), 0);
    assert_eq!((other.width(), other.height()), (7, 9));
    assert_eq!(other.format(), FrameFormat::Mjpeg);
}

#[test]
fn plan_of_a_frame() {
    let frame = solid(640, 480, 90, 128, 128);
    let plan = frame.plan().unwrap();
    assert_eq!(plan.width(), 640);
    assert_eq!(plan.height(), 480);
    assert_eq!(plan.input_size(), 614_400);
    assert_eq!(plan.output_size(), 1_228_800);
    assert_eq!(plan.workgroups(), (40, 30, 1));
}

#[test]
fn plan_of_a_frame_without_pixels_fails() {
    let frame = RawFrame::new(vec![], 0, 480, FrameFormat::Yuyv);
    assert_eq!(frame.plan(), Err(PipelineError::ConversionError));
    assert_eq!(frame.to_rgba(), Err(PipelineError::ConversionError));
}

#[test]
fn cpu_image_has_four_bytes_for_each_pixel() {
    for &(w, h) in &[(2u32, 1u32), (2, 2), (4, 3), (16, 16), (18, 5), (64, 48)] {
        let image = solid(w, h, 200, 128, 128).to_rgba().unwrap();
        assert_eq!(image.len(), (w * h * 4) as usize);
    }
}

#[test]
fn cpu_image_of_a_solid_frame_is_solid() {
    let image = solid(8, 4, 120, 90, 200).to_rgba().unwrap();
    let (r, g, b) = ycbcr_to_rgb(120, 90, 200);
    assert_eq!(image.len(), 128);
    for pixel in image.chunks_exact(4) {
        assert_eq!(pixel, &[r, g, b, 255]);
    }
}

#[test]
fn cpu_image_of_white_without_chroma() {
    let frame = RawFrame::new(vec![235, 128, 235, 128], 2, 1, FrameFormat::Yuyv);
    assert_eq!(frame.to_rgba(), Ok(vec![235, 235, 235, 255, 235, 235, 235, 255]));
}

#[test]
fn last_pixel_of_an_odd_frame_is_blank() {
    let frame = RawFrame::new(vec![50, 128, 60, 128, 70, 128], 3, 1, FrameFormat::Yuyv);
    assert_eq!(
        frame.to_rgba(),
        Ok(vec![50, 50, 50, 255, 60, 60, 60, 255, 0, 0, 0, 0])
    );
    let single = RawFrame::new(vec![50, 128], 1, 1, FrameFormat::Yuyv);
    assert_eq!(single.to_rgba(), Ok(vec![0, 0, 0, 0]));
}

#[test]
fn frame_with_the_wrong_number_of_bytes_is_not_converted() {
    let short = RawFrame::new(vec![1, 2, 3, 4], 4, 1, FrameFormat::Yuyv);
    assert_eq!(short.to_rgba(), Err(PipelineError::ConversionError));
    let long = RawFrame::new(vec![0; 12], 2, 2, FrameFormat::Yuyv);
    assert_eq!(long.to_rgba(), Err(PipelineError::ConversionError));
    let odd = RawFrame::new(vec![0; 9], 2, 2, FrameFormat::Yuyv);
    assert_eq!(odd.to_rgba(), Err(PipelineError::ConversionError));
    let empty = RawFrame::new(vec![], 2, 2, FrameFormat::Yuyv);
    assert_eq!(empty.to_rgba(), Err(PipelineError::ConversionError));
}
