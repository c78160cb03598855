use headless_window::geometry::{DeviceIntPoint, DeviceIntSize, PixelDensity};
use headless_window::media::{GlApi, GlContext, NativeDisplay};
use headless_window::window::{Window, WindowId};
use headless_window::windowing::{AnimationState, WindowEvent};

fn size(width: i32, height: i32) -> DeviceIntSize {
    DeviceIntSize { width, height }
}

#[test]
fn resize_clamps_nonpositive_width() {
    let mut w = Window::new(4, 4, None);
    let request = w.set_inner_size(size(0, 10));
    assert_eq!(w.inner_size, size(1, 10));
    assert_eq!(request, Some(size(1, 10)));
}

#[test]
fn resize_clamps_nonpositive_height() {
    let mut w = Window::new(4, 4, None);
    let request = w.set_inner_size(size(10, -7));
    assert_eq!(w.inner_size, size(10, 1));
    assert_eq!(request, Some(size(10, 1)));
}

#[test]
fn resize_clamps_both_dimensions() {
    let mut w = Window::new(4, 4, None);
    let request = w.set_inner_size(size(-3, 0));
    assert_eq!(w.inner_size, size(1, 1));
    assert_eq!(request, Some(size(1, 1)));
}

#[test]
fn resize_keeps_positive_dimensions() {
    let mut w = Window::new(4, 4, None);
    let request = w.set_inner_size(size(640, 480));
    assert_eq!(w.inner_size, size(640, 480));
    assert_eq!(request, Some(size(640, 480)));
}

#[test]
fn resize_to_same_size_sets_flag_without_provider_call() {
    let mut w = Window::new(5, 7, None);
    assert!(!w.has_events());
    let request = w.set_inner_size(size(5, 7));
    assert_eq!(request, None);
    assert!(w.has_events());
    assert_eq!(w.inner_size, size(5, 7));
}

#[test]
fn resize_to_changed_size_requests_provider_call() {
    let mut w = Window::new(5, 7, None);
    let request = w.set_inner_size(size(6, 7));
    assert_eq!(request, Some(size(6, 7)));
    assert!(w.has_events());
}

#[test]
fn poll_after_resize_yields_exactly_one_event_then_none() {
    let mut w = Window::new(5, 7, None);
    w.set_inner_size(size(9, 9));
    let first = w.get_events();
    assert_eq!(first, vec![WindowEvent::Resize]);
    let second = w.get_events();
    assert!(second.is_empty());
}

#[test]
fn repeated_resizes_coalesce_into_one_event() {
    let mut w = Window::new(5, 7, None);
    w.set_inner_size(size(9, 9));
    w.set_inner_size(size(11, 13));
    w.set_inner_size(size(11, 13));
    let events = w.get_events();
    assert_eq!(events, vec![WindowEvent::Resize]);
    assert!(w.get_events().is_empty());
}

#[test]
fn poll_on_idle_window_yields_nothing() {
    let mut w = Window::new(5, 7, None);
    assert!(w.get_events().is_empty());
}

#[test]
fn has_events_predicts_poll_and_has_no_side_effect() {
    let mut w = Window::new(5, 7, None);
    assert!(!w.has_events());
    assert!(!w.has_events());
    assert!(w.get_events().is_empty());
    w.set_inner_size(size(8, 8));
    assert!(w.has_events());
    assert!(w.has_events());
    assert_eq!(w.get_events(), vec![WindowEvent::Resize]);
    assert!(!w.has_events());
    assert!(w.get_events().is_empty());
}

#[test]
fn page_height_scales_by_pixel_density() {
    let w = Window::new(100, 300, Some(PixelDensity { thousandths: 2000 }));
    let thousandths = w.page_height(Some(300));
    assert_eq!(thousandths, 600_000);
    assert_eq!(thousandths as f64 / 1000.0, 600.0);
}

#[test]
fn page_height_defaults_density_to_one() {
    let w = Window::new(100, 300, None);
    assert_eq!(w.page_height(Some(300)), 300_000);
}

#[test]
fn page_height_defaults_to_zero_without_surface_info() {
    let w = Window::new(100, 300, Some(PixelDensity { thousandths: 2000 }));
    assert_eq!(w.page_height(None), 0);
}

#[test]
fn hidpi_factor_reports_override_or_one() {
    let w = Window::new(1, 1, Some(PixelDensity { thousandths: 1500 }));
    assert_eq!(w.servo_hidpi_factor(), PixelDensity { thousandths: 1500 });
    let v = Window::new(1, 1, None);
    assert_eq!(v.servo_hidpi_factor(), PixelDensity { thousandths: 1000 });
}

#[test]
fn fullscreen_flag_round_trips() {
    let mut w = Window::new(5, 7, None);
    assert!(!w.get_fullscreen());
    w.set_fullscreen(true);
    assert!(w.get_fullscreen());
    w.set_fullscreen(false);
    assert!(!w.get_fullscreen());
}

#[test]
fn animation_flag_round_trips() {
    let mut w = Window::new(5, 7, None);
    assert!(!w.is_animating());
    w.set_animation_state(AnimationState::Animating);
    assert!(w.is_animating());
    w.set_animation_state(AnimationState::Idle);
    assert!(!w.is_animating());
}

#[test]
fn flags_survive_resize_activity() {
    let mut w = Window::new(5, 7, None);
    w.set_fullscreen(true);
    w.set_animation_state(AnimationState::Animating);
    w.set_inner_size(size(9, 9));
    w.get_events();
    assert!(w.get_fullscreen());
    assert!(w.is_animating());
    assert_eq!(w.inner_size, size(9, 9));
}

#[test]
fn zero_size_construction_stays_usable() {
    let mut w = Window::new(0, 0, None);
    assert_eq!(w.inner_size, size(0, 0));
    let request = w.set_inner_size(size(5, 7));
    assert_eq!(request, Some(size(5, 7)));
    assert_eq!(w.inner_size, size(5, 7));
    let degenerate = w.set_inner_size(size(0, -2));
    assert_eq!(degenerate, Some(size(1, 1)));
    assert_eq!(w.inner_size, size(1, 1));
}

#[test]
fn coordinates_collapse_to_reported_surface_size() {
    let w = Window::new(5, 7, Some(PixelDensity { thousandths: 2000 }));
    let reported = size(640, 480);
    let coords = w.get_coordinates(Some(reported));
    assert_eq!(coords.viewport.origin, DeviceIntPoint { x: 0, y: 0 });
    assert_eq!(coords.viewport.size, reported);
    assert_eq!(coords.framebuffer, reported);
    assert_eq!(coords.window, (reported, DeviceIntPoint { x: 0, y: 0 }));
    assert_eq!(coords.screen, reported);
    assert_eq!(coords.screen_avail, reported);
    assert_eq!(coords.hidpi_factor, PixelDensity { thousandths: 2000 });
}

#[test]
fn coordinates_default_to_zero_size_without_surface_info() {
    let w = Window::new(5, 7, None);
    let coords = w.get_coordinates(None);
    assert_eq!(coords.viewport.size, size(0, 0));
    assert_eq!(coords.framebuffer, size(0, 0));
    assert_eq!(coords.screen, size(0, 0));
    assert_eq!(coords.hidpi_factor, PixelDensity { thousandths: 1000 });
}

#[test]
fn capability_queries_answer_unavailable() {
    let w = Window::new(5, 7, None);
    assert_eq!(w.get_gl_context(), GlContext::Unknown);
    assert_eq!(w.get_native_display(), NativeDisplay::Unknown);
    assert_eq!(w.get_gl_api(), GlApi::NoApi);
}

#[test]
fn secondary_surface_has_no_spatial_transform() {
    let w = Window::new(5, 7, None);
    let rotation = w.get_rotation();
    assert_eq!((rotation.x, rotation.y, rotation.z, rotation.w), (0, 0, 0, 1));
    let translation = w.get_translation();
    assert_eq!((translation.x, translation.y, translation.z), (0, 0, 0));
}

#[test]
fn id_is_the_shared_placeholder() {
    let w = Window::new(5, 7, None);
    let v = Window::new(9, 9, None);
    assert_eq!(w.id(), WindowId { dummy: 0 });
    assert_eq!(w.id(), v.id());
}
