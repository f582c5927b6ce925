use slint_gl_surface::error::SurfaceError;
use slint_gl_surface::framebuffer::{
    describe_framebuffer, render_target_desc, ColorFormat, FramebufferDescriptor, SurfaceOrigin,
};

#[test]
fn descriptor_from_default_framebuffer() {
    let d = describe_framebuffer(0, None, 8).unwrap();
    assert_eq!(
        d,
        FramebufferDescriptor {
            framebuffer_id: 0,
            color_format: ColorFormat::Rgba8,
            sample_count: None,
            stencil_bits: 8
        }
    );
}

#[test]
fn descriptor_keeps_nonzero_binding_and_samples() {
    let d = describe_framebuffer(7, Some(4), 0).unwrap();
    assert_eq!(d.framebuffer_id, 7);
    assert_eq!(d.sample_count, Some(4));
    assert_eq!(d.stencil_bits, 0);
    let big = describe_framebuffer(i32::MAX, Some(u16::MAX), u8::MAX).unwrap();
    assert_eq!(big.framebuffer_id, i32::MAX as u32);
    assert_eq!(big.sample_count, Some(65535));
    assert_eq!(big.stencil_bits, 255);
}

#[test]
fn descriptor_twice_is_identical() {
    let a = describe_framebuffer(3, Some(2), 8);
    let b = describe_framebuffer(3, Some(2), 8);
    assert_eq!(a, b);
}

#[test]
fn negative_binding_is_setup_failure() {
    assert_eq!(describe_framebuffer(-1, None, 8), Err(SurfaceError::SetupFailure));
    assert_eq!(describe_framebuffer(i32::MIN, Some(1), 0), Err(SurfaceError::SetupFailure));
}

#[test]
fn target_matches_drawable() {
    let fb = describe_framebuffer(1, Some(4), 8).unwrap();
    let t = render_target_desc(1024, 768, fb).unwrap();
    assert_eq!(t.width, 1024);
    assert_eq!(t.height, 768);
    assert_eq!(t.framebuffer, fb);
    assert_eq!(t.origin, SurfaceOrigin::BottomLeft);
    let edge = render_target_desc(i32::MAX as u32, 0, fb).unwrap();
    assert_eq!(edge.width, i32::MAX);
    assert_eq!(edge.height, 0);
}

#[test]
fn oversized_target_is_setup_failure() {
    let fb = describe_framebuffer(0, None, 8).unwrap();
    assert_eq!(render_target_desc(1u32 << 31, 10, fb), Err(SurfaceError::SetupFailure));
    assert_eq!(render_target_desc(10, u32::MAX, fb), Err(SurfaceError::SetupFailure));
}
