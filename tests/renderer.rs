use anyrender_vello_cpu::RenderError;
use anyrender_vello_cpu::window_renderer::{clamp_dimension, supports_size, VelloCpuWindowRenderer};
use raw_window_handle::{
    DisplayHandle, HandleError, HasDisplayHandle, HasWindowHandle, WindowHandle,
};

/// A window whose native handles are never available.
#[derive(Clone)]
struct UnavailableWindow;

impl HasWindowHandle for UnavailableWindow {
    fn window_handle(&self) -> Result<WindowHandle<'_>, HandleError> {
        Err(HandleError::Unavailable)
    }
}

impl HasDisplayHandle for UnavailableWindow {
    fn display_handle(&self) -> Result<DisplayHandle<'_>, HandleError> {
        Err(HandleError::Unavailable)
    }
}

#[test]
fn new_renderer_is_suspended_with_empty_scene() {
    let r = VelloCpuWindowRenderer::new(UnavailableWindow);
    assert!(!r.is_active());
    assert_eq!(r.scene_dimensions(), (0, 0));
}

#[test]
fn render_while_suspended_does_nothing() {
    let mut r = VelloCpuWindowRenderer::new(UnavailableWindow);
    let mut called = false;
    assert_eq!(r.render(|_| called = true), Ok(None));
    assert!(!called);
    assert!(!r.is_active());
    assert_eq!(r.scene_dimensions(), (0, 0));
}

#[test]
fn set_size_while_suspended_does_nothing() {
    let mut r = VelloCpuWindowRenderer::new(UnavailableWindow);
    assert_eq!(r.set_size(800, 600), Ok(()));
    assert!(!r.is_active());
    assert_eq!(r.scene_dimensions(), (0, 0));
}

#[test]
fn suspend_is_idempotent() {
    let mut r = VelloCpuWindowRenderer::new(UnavailableWindow);
    r.suspend();
    r.suspend();
    assert!(!r.is_active());
    assert_eq!(r.scene_dimensions(), (0, 0));
}

#[test]
fn resume_without_a_display_fails_and_stays_suspended() {
    let mut r = VelloCpuWindowRenderer::new(UnavailableWindow);
    assert_eq!(r.resume(800, 600), Err(RenderError::ContextCreation));
    assert!(!r.is_active());
    assert_eq!(r.scene_dimensions(), (0, 0));
    assert_eq!(r.render(|_| {}), Ok(None));
}

#[test]
fn zero_dimensions_are_clamped_to_one() {
    assert_eq!(clamp_dimension(0), 1);
    assert_eq!(clamp_dimension(1), 1);
    assert_eq!(clamp_dimension(400), 400);
    assert_eq!(clamp_dimension(u32::MAX), u32::MAX);
}

#[test]
fn scene_sizes_the_rasterizer_cannot_snap_are_refused() {
    assert!(supports_size(800, 600));
    assert!(supports_size(0, 0));
    assert!(supports_size(65532, 65532));
    assert!(supports_size(65535, 0));
    assert!(!supports_size(65535, 600));
    assert!(!supports_size(600, 65533));
    assert!(!supports_size(131071, 600));
    assert!(supports_size(65536 + 800, 600));
}
