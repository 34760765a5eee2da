use render_host::event::{KeyState, PhysicalKey, WindowEvent};
use render_host::host::{ApplicationHost, HostAction, TickAction, WindowButtons};
use render_host::size::{PhysicalSize, SizeState};
use render_host::surface::{ClearColor, FramePlan, PresentMode, SurfaceConfig, SurfaceError};
use wgpu::{CompositeAlphaMode, TextureFormat};

fn formats() -> Vec<TextureFormat> {
    vec![TextureFormat::Rgba8Unorm, TextureFormat::Rgba8UnormSrgb]
}

fn alpha_modes() -> Vec<CompositeAlphaMode> {
    vec![CompositeAlphaMode::Auto]
}

fn config(width: u32, height: u32) -> SurfaceConfig {
    SurfaceConfig {
        width,
        height,
        format: TextureFormat::Rgba8UnormSrgb,
        present_mode: PresentMode::Fifo,
        alpha_mode: CompositeAlphaMode::Auto,
        desired_maximum_frame_latency: 2,
    }
}

fn active_host() -> ApplicationHost {
    let mut host = ApplicationHost::new();
    host.on_resumed(PhysicalSize::new(1280, 720), &formats(), &alpha_modes());
    host
}

fn key(key: PhysicalKey, state: KeyState, repeat: bool) -> WindowEvent {
    WindowEvent::KeyboardInput { key, state, repeat }
}

#[test]
fn new_host_is_uninitialized() {
    let host = ApplicationHost::new();
    assert!(!host.is_active());
    assert!(!host.is_terminated());
    assert_eq!(host.size(), SizeState::Logical { width: 1280, height: 720 });
    assert_eq!(host.surface_config(), None);
    assert!(!host.about_to_wait());
}

#[test]
fn window_options_are_fixed() {
    let options = ApplicationHost::new().window_options();
    assert_eq!(options.title, "[WGPU] Logic Game");
    assert!(!options.resizable);
    assert_eq!(options.buttons, WindowButtons { close: true, minimize: false, maximize: false });
    assert_eq!((options.width, options.height), (1280, 720));
}

#[test]
fn resumed_host_is_active_with_a_context() {
    let mut host = ApplicationHost::new();
    let applied = host.on_resumed(PhysicalSize::new(1280, 720), &formats(), &alpha_modes());
    assert_eq!(applied, Some(config(1280, 720)));
    assert!(host.is_active());
    assert_eq!(host.surface_config(), Some(config(1280, 720)));
    assert_eq!(host.size(), SizeState::Physical { width: 1280, height: 720 });
    assert!(host.about_to_wait());
}

#[test]
fn suspended_host_drops_the_context_and_resumes() {
    let mut host = active_host();
    host.on_suspended();
    assert!(!host.is_active());
    assert!(!host.is_terminated());
    assert_eq!(host.surface_config(), None);
    assert_eq!(host.on_window_event(WindowEvent::RedrawRequested), HostAction::Ignored);
    assert_eq!(host.on_redraw_tick(Ok(())), TickAction::Skip);
    let applied = host.on_resumed(PhysicalSize::new(640, 480), &formats(), &alpha_modes());
    assert_eq!(applied, Some(config(640, 480)));
    assert!(host.is_active());
}

#[test]
fn suspending_an_uninitialized_host_changes_nothing() {
    let mut host = ApplicationHost::new();
    host.on_suspended();
    assert!(!host.is_active());
    assert!(!host.is_terminated());
    assert_eq!(host.size(), SizeState::Logical { width: 1280, height: 720 });
}

#[test]
fn close_request_terminates_an_active_host() {
    let mut host = active_host();
    assert_eq!(host.on_window_event(WindowEvent::CloseRequested), HostAction::Exit);
    assert!(host.is_terminated());
    assert!(!host.is_active());
}

#[test]
fn close_request_terminates_a_suspended_host() {
    let mut host = active_host();
    host.on_suspended();
    assert_eq!(host.on_window_event(WindowEvent::CloseRequested), HostAction::Exit);
    assert!(host.is_terminated());
}

#[test]
fn escape_pressed_terminates() {
    let mut host = active_host();
    let action = host.on_window_event(key(PhysicalKey::Escape, KeyState::Pressed, false));
    assert_eq!(action, HostAction::Exit);
    assert!(host.is_terminated());
}

#[test]
fn escape_repeat_does_not_terminate() {
    let mut host = active_host();
    let action = host.on_window_event(key(PhysicalKey::Escape, KeyState::Pressed, true));
    assert_eq!(action, HostAction::Ignored);
    assert!(host.is_active());
}

#[test]
fn escape_released_does_not_terminate() {
    let mut host = active_host();
    let action = host.on_window_event(key(PhysicalKey::Escape, KeyState::Released, false));
    assert_eq!(action, HostAction::Ignored);
    assert!(host.is_active());
    let action = host.on_window_event(key(PhysicalKey::Escape, KeyState::Released, true));
    assert_eq!(action, HostAction::Ignored);
    assert!(host.is_active());
}

#[test]
fn other_keys_and_events_are_ignored() {
    let mut host = active_host();
    let action = host.on_window_event(key(PhysicalKey::Other, KeyState::Pressed, false));
    assert_eq!(action, HostAction::Ignored);
    assert_eq!(host.on_window_event(WindowEvent::Other), HostAction::Ignored);
    assert!(host.is_active());
    assert_eq!(host.surface_config(), Some(config(1280, 720)));
}

#[test]
fn exit_requests_are_recognized() {
    assert!(WindowEvent::CloseRequested.is_exit_request());
    assert!(key(PhysicalKey::Escape, KeyState::Pressed, false).is_exit_request());
    assert!(!key(PhysicalKey::Escape, KeyState::Pressed, true).is_exit_request());
    assert!(!key(PhysicalKey::Escape, KeyState::Released, false).is_exit_request());
    assert!(!key(PhysicalKey::Other, KeyState::Pressed, false).is_exit_request());
    assert!(!WindowEvent::RedrawRequested.is_exit_request());
    assert!(!WindowEvent::Resized(PhysicalSize::new(1, 1)).is_exit_request());
    assert!(!WindowEvent::Other.is_exit_request());
}

#[test]
fn terminated_host_stays_terminated() {
    let mut host = active_host();
    host.on_window_event(WindowEvent::CloseRequested);
    assert_eq!(host.on_resumed(PhysicalSize::new(1280, 720), &formats(), &alpha_modes()), None);
    assert!(host.is_terminated());
    host.on_suspended();
    assert!(host.is_terminated());
    assert_eq!(host.on_resize(PhysicalSize::new(800, 600)), None);
    assert_eq!(host.on_redraw_tick(Ok(())), TickAction::Skip);
    assert_eq!(host.on_window_event(WindowEvent::RedrawRequested), HostAction::Ignored);
    assert_eq!(host.on_window_event(WindowEvent::CloseRequested), HostAction::Exit);
    assert!(host.is_terminated());
}

#[test]
fn redraw_is_requested_once_the_window_exists() {
    let mut host = ApplicationHost::new();
    assert!(!host.about_to_wait());
    host.on_resumed(PhysicalSize::new(1280, 720), &formats(), &alpha_modes());
    assert!(host.about_to_wait());
    host.on_redraw_tick(Err(SurfaceError::Timeout));
    assert!(host.about_to_wait());
    host.on_suspended();
    assert!(host.about_to_wait());
    host.on_window_event(WindowEvent::CloseRequested);
    assert!(host.about_to_wait());
}

#[test]
fn cached_size_follows_the_surface() {
    let mut host = active_host();
    host.on_resize(PhysicalSize::new(800, 600));
    host.on_redraw_tick(Err(SurfaceError::Lost));
    host.on_resize(PhysicalSize::new(0, 0));
    host.on_redraw_tick(Ok(()));
    let config = host.surface_config().unwrap();
    let extent = PhysicalSize { width: config.width, height: config.height };
    assert_eq!(host.size().to_physical(), extent);
    assert_eq!(host.size(), SizeState::Physical { width: 800, height: 600 });
}

#[test]
fn resize_updates_size_and_configuration() {
    let mut host = active_host();
    assert_eq!(host.on_resize(PhysicalSize::new(800, 600)), Some(config(800, 600)));
    assert_eq!(host.size(), SizeState::Physical { width: 800, height: 600 });
    assert_eq!(host.surface_config(), Some(config(800, 600)));
    let action = host.on_window_event(WindowEvent::Resized(PhysicalSize::new(1024, 768)));
    assert_eq!(action, HostAction::Configure(config(1024, 768)));
    assert_eq!(host.size(), SizeState::Physical { width: 1024, height: 768 });
}

#[test]
fn resize_to_zero_area_is_ignored() {
    let mut host = active_host();
    host.on_resize(PhysicalSize::new(800, 600));
    assert_eq!(host.on_resize(PhysicalSize::new(0, 600)), None);
    assert_eq!(host.on_resize(PhysicalSize::new(800, 0)), None);
    let action = host.on_window_event(WindowEvent::Resized(PhysicalSize::new(0, 0)));
    assert_eq!(action, HostAction::Ignored);
    assert_eq!(host.size(), SizeState::Physical { width: 800, height: 600 });
    assert_eq!(host.surface_config(), Some(config(800, 600)));
    assert!(host.is_active());
}

#[test]
fn resize_before_the_window_exists_is_ignored() {
    let mut host = ApplicationHost::new();
    assert_eq!(host.on_resize(PhysicalSize::new(800, 600)), None);
    assert_eq!(host.size(), SizeState::Logical { width: 1280, height: 720 });
}

#[test]
fn redraw_request_starts_a_tick() {
    let mut host = active_host();
    assert_eq!(host.on_window_event(WindowEvent::RedrawRequested), HostAction::Redraw);
    assert!(host.is_active());
}

#[test]
fn tick_presents_the_cleared_frame() {
    let mut host = active_host();
    let action = host.on_redraw_tick(Ok(()));
    assert_eq!(
        action,
        TickAction::Present(FramePlan {
            serial: 0,
            width: 1280,
            height: 720,
            clear: ClearColor { r: 51, g: 51, b: 51, a: 255 },
        })
    );
    match host.on_redraw_tick(Ok(())) {
        TickAction::Present(plan) => assert_eq!(plan.serial, 1),
        other => panic!("no frame was presented: {:?}", other),
    }
}

#[test]
fn surface_lost_reconfigures_and_skips_the_frame() {
    let mut host = active_host();
    host.on_resize(PhysicalSize::new(800, 600));
    let action = host.on_redraw_tick(Err(SurfaceError::Lost));
    assert_eq!(action, TickAction::Configure(config(800, 600)));
    assert!(host.is_active());
    assert_eq!(host.surface_config(), Some(config(800, 600)));
    match host.on_redraw_tick(Ok(())) {
        TickAction::Present(plan) => {
            assert_eq!((plan.width, plan.height), (800, 600));
            assert_eq!(plan.clear, ClearColor { r: 51, g: 51, b: 51, a: 255 });
        },
        other => panic!("no frame was presented: {:?}", other),
    }
}

#[test]
fn surface_lost_with_an_empty_extent_skips() {
    let mut host = ApplicationHost::new();
    host.on_resumed(PhysicalSize::new(0, 0), &formats(), &alpha_modes());
    assert_eq!(host.on_redraw_tick(Err(SurfaceError::Lost)), TickAction::Skip);
    assert!(host.is_active());
}

#[test]
fn out_of_memory_terminates() {
    let mut host = active_host();
    assert_eq!(host.on_redraw_tick(Err(SurfaceError::OutOfMemory)), TickAction::Exit);
    assert!(host.is_terminated());
}

#[test]
fn timeout_and_outdated_skip_the_frame() {
    let mut host = active_host();
    assert_eq!(host.on_redraw_tick(Err(SurfaceError::Timeout)), TickAction::Skip);
    assert_eq!(host.on_redraw_tick(Err(SurfaceError::Outdated)), TickAction::Skip);
    assert!(host.is_active());
    assert_eq!(host.surface_config(), Some(config(1280, 720)));
    match host.on_redraw_tick(Ok(())) {
        TickAction::Present(plan) => assert_eq!(plan.serial, 0),
        other => panic!("no frame was presented: {:?}", other),
    }
}

#[test]
fn other_errors_are_reported_and_skipped() {
    let mut host = active_host();
    let action = host.on_redraw_tick(Err(SurfaceError::Other));
    assert_eq!(action, TickAction::Report(SurfaceError::Other));
    assert!(host.is_active());
}

#[test]
fn tick_before_the_window_exists_is_skipped() {
    let mut host = ApplicationHost::new();
    assert_eq!(host.on_redraw_tick(Ok(())), TickAction::Skip);
    assert_eq!(host.on_window_event(WindowEvent::RedrawRequested), HostAction::Ignored);
    assert!(!host.is_active());
}
