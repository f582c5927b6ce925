use slint_gl_surface::context::GraphicsContextState;
use slint_gl_surface::error::SurfaceError;
use slint_gl_surface::surface::{FramePhase, FrameStep, OpenGLSurface};

fn render_noop(surface: &mut OpenGLSurface, width: u32, height: u32) -> Vec<FrameStep> {
    let mut steps = vec![surface.begin_render(width, height).unwrap()];
    while let Some(step) = surface.advance() {
        steps.push(step);
    }
    steps
}

#[test]
fn end_to_end_resize_scenario() {
    let mut surface = OpenGLSurface::new(800, 600);
    render_noop(&mut surface, 800, 600);
    assert_eq!(surface.target_size(), (800, 600));
    assert_eq!(surface.rebuild_count(), 1);
    render_noop(&mut surface, 1024, 768);
    assert_eq!(surface.target_size(), (1024, 768));
    assert_eq!(surface.rebuild_count(), 2);
    render_noop(&mut surface, 1024, 768);
    assert_eq!(surface.rebuild_count(), 2);
}

#[test]
fn target_follows_every_resize() {
    let mut surface = OpenGLSurface::new(10, 10);
    let sizes = [(10, 10), (20, 5), (20, 5), (1, 1), (0, 0), (3000, 2000)];
    for (w, h) in sizes {
        render_noop(&mut surface, w, h);
        assert_eq!(surface.target_size(), (w, h));
        assert_eq!(surface.phase(), FramePhase::Idle);
    }
    assert_eq!(surface.rebuild_count(), 5);
}

#[test]
fn unchanged_size_never_rebuilds() {
    let mut surface = OpenGLSurface::new(640, 480);
    for _ in 0..10 {
        let steps = render_noop(&mut surface, 640, 480);
        assert_eq!(
            steps,
            vec![
                FrameStep::MakeCurrent,
                FrameStep::EnsureResized,
                FrameStep::AcquireCanvas,
                FrameStep::Draw,
                FrameStep::SwapBuffers,
                FrameStep::MakeNotCurrent,
            ]
        );
    }
    assert_eq!(surface.rebuild_count(), 1);
}

#[test]
fn resized_frame_steps_in_order() {
    let mut surface = OpenGLSurface::new(640, 480);
    let steps = render_noop(&mut surface, 641, 480);
    assert_eq!(
        steps,
        vec![
            FrameStep::MakeCurrent,
            FrameStep::EnsureResized,
            FrameStep::RebuildTarget { width: 641, height: 480 },
            FrameStep::AcquireCanvas,
            FrameStep::Draw,
            FrameStep::SwapBuffers,
            FrameStep::MakeNotCurrent,
        ]
    );
}

#[test]
fn context_current_only_inside_frame() {
    let mut surface = OpenGLSurface::new(4, 4);
    assert!(!surface.is_context_current());
    assert_eq!(surface.check_current(), Err(SurfaceError::ContextNotCurrent));
    surface.begin_render(4, 4).unwrap();
    assert!(!surface.is_context_current());
    while let Some(step) = surface.advance() {
        assert!(surface.is_context_current());
        assert_eq!(surface.check_current(), Ok(()));
        if step == FrameStep::Draw {
            assert_eq!(surface.target_size(), (4, 4));
        }
    }
    assert!(!surface.is_context_current());
}

#[test]
fn reentrant_render_fails_fast() {
    let mut surface = OpenGLSurface::new(100, 50);
    surface.begin_render(100, 50).unwrap();
    loop {
        let step = surface.advance().unwrap();
        if step == FrameStep::Draw {
            break;
        }
    }
    assert!(surface.is_rendering());
    assert_eq!(surface.begin_render(200, 100), Err(SurfaceError::ReentrancyConflict));
    assert_eq!(surface.phase(), FramePhase::Drawing);
    assert_eq!(surface.target_size(), (100, 50));
    assert_eq!(surface.advance(), Some(FrameStep::SwapBuffers));
    assert_eq!(surface.advance(), Some(FrameStep::MakeNotCurrent));
    assert_eq!(surface.advance(), None);
    assert!(!surface.is_rendering());
}

#[test]
fn advance_when_idle_does_nothing() {
    let mut surface = OpenGLSurface::new(7, 9);
    assert_eq!(surface.advance(), None);
    assert_eq!(surface.phase(), FramePhase::Idle);
    assert_eq!(surface.rebuild_count(), 1);
}

#[test]
fn make_current_release_cycle() {
    let mut context = GraphicsContextState::new();
    assert!(!context.is_current());
    context.make_current();
    context.make_not_current();
    assert!(!context.is_current());
    assert_eq!(context.check_current(), Err(SurfaceError::ContextNotCurrent));
    context.make_current();
    assert!(context.is_current());
    assert_eq!(context.check_current(), Ok(()));
    context.make_current();
    assert!(context.is_current());
}
