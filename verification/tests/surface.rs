use camera_pipeline::error::PipelineError;
use camera_pipeline::surface::{clamp_extent, PresentMode, SurfaceConfig, MAX_FRAME_LATENCY};
use wgpu::{CompositeAlphaMode, TextureFormat};

fn config(width: u32, height: u32) -> SurfaceConfig {
    SurfaceConfig::from_capabilities(
        width,
        height,
        &[TextureFormat::Bgra8UnormSrgb, TextureFormat::Rgba8Unorm],
        &[CompositeAlphaMode::Opaque, CompositeAlphaMode::PreMultiplied],
    )
    .unwrap()
}

#[test]
fn clamp_extent_raises_zero_to_one() {
    assert_eq!(clamp_extent(0), 1);
    assert_eq!(clamp_extent(1), 1);
    assert_eq!(clamp_extent(2), 2);
    assert_eq!(clamp_extent(640), 640);
    assert_eq!(clamp_extent(u32::MAX), u32::MAX);
}

#[test]
fn first_capabilities_are_taken() {
    let c = config(800, 600);
    assert_eq!(c.width(), 800);
    assert_eq!(c.height(), 600);
    assert_eq!(c.format(), TextureFormat::Bgra8UnormSrgb);
    assert_eq!(c.alpha_mode(), CompositeAlphaMode::Opaque);
    assert_eq!(c.present_mode(), PresentMode::Fifo);
    assert_eq!(c.desired_maximum_frame_latency(), 2);
    assert_eq!(MAX_FRAME_LATENCY, 2);
}

#[test]
fn other_capabilities_first() {
    let c = SurfaceConfig::from_capabilities(
        10,
        20,
        &[TextureFormat::Rgba16Float],
        &[CompositeAlphaMode::Inherit, CompositeAlphaMode::Opaque],
    )
    .unwrap();
    assert_eq!(c.format(), TextureFormat::Rgba16Float);
    assert_eq!(c.alpha_mode(), CompositeAlphaMode::Inherit);
}

#[test]
fn surface_without_capabilities_cannot_be_configured() {
    let no_formats = SurfaceConfig::from_capabilities(800, 600, &[], &[CompositeAlphaMode::Opaque]);
    assert!(matches!(no_formats, Err(PipelineError::AdapterOrDeviceCreationFailure)));
    let no_alpha = SurfaceConfig::from_capabilities(800, 600, &[TextureFormat::Rgba8Unorm], &[]);
    assert!(matches!(no_alpha, Err(PipelineError::AdapterOrDeviceCreationFailure)));
    let neither = SurfaceConfig::from_capabilities(800, 600, &[], &[]);
    assert!(matches!(neither, Err(PipelineError::AdapterOrDeviceCreationFailure)));
}

#[test]
fn initial_size_is_clamped() {
    let c = config(0, 0);
    assert_eq!((c.width(), c.height()), (1, 1));
    let c = config(0, 5);
    assert_eq!((c.width(), c.height()), (1, 5));
}

#[test]
fn resize_takes_the_new_size() {
    let mut c = config(800, 600);
    c.resize(1024, 768);
    assert_eq!((c.width(), c.height()), (1024, 768));
    assert_eq!(c.format(), TextureFormat::Bgra8UnormSrgb);
    assert_eq!(c.alpha_mode(), CompositeAlphaMode::Opaque);
    assert_eq!(c.present_mode(), PresentMode::Fifo);
    assert_eq!(c.desired_maximum_frame_latency(), 2);
}

#[test]
fn resize_to_zero_is_clamped_to_one() {
    let mut c = config(800, 600);
    c.resize(0, 768);
    assert_eq!((c.width(), c.height()), (1, 768));
    c.resize(1024, 0);
    assert_eq!((c.width(), c.height()), (1024, 1));
    c.resize(0, 0);
    assert_eq!((c.width(), c.height()), (1, 1));
    c.resize(u32::MAX, u32::MAX);
    assert_eq!((c.width(), c.height()), (u32::MAX, u32::MAX));
}

#[test]
fn no_resize_leaves_a_zero_extent() {
    let mut c = config(3, 3);
    for w in 0..20u32 {
        for h in 0..20u32 {
            c.resize(w, h);
            assert!(c.width() >= 1 && c.height() >= 1);
            assert_eq!(c.width(), w.max(1));
            assert_eq!(c.height(), h.max(1));
        }
    }
}
