use windowhost::keys::Key;
use windowhost::keys::MouseButton;
use windowhost::surface::SurfaceCommand;
use windowhost::viewport::FullWindowPolicy;
use windowhost::viewport::Rect;
use windowhost::window::Window;
use windowhost::window::WindowEvent;

fn resize_sequence(width: u32, height: u32) -> Vec<SurfaceCommand> {
    vec![
        SurfaceCommand::UnbindRenderTargets,
        SurfaceCommand::ReleaseTargetViews,
        SurfaceCommand::Flush,
        SurfaceCommand::ResizeSwapChainBuffers { width, height },
        SurfaceCommand::CreateRenderTargetView,
        SurfaceCommand::CreateDepthStencil { width, height },
        SurfaceCommand::SetFullViewport { width, height },
    ]
}

fn size_changed(width: u32, height: u32) -> WindowEvent {
    WindowEvent::SizeChanged { minimized: false, width, height }
}

#[test]
fn repeated_size_notifications_resize_once() {
    let mut w: Window<FullWindowPolicy> = Window::new(800, 600);
    let first = w.handle_event(size_changed(1024, 768));
    assert_eq!(first.commands, resize_sequence(1024, 768));
    assert_eq!(w.width(), 1024);
    assert_eq!(w.height(), 768);
    assert!(w.size_changed());

    // The same final size again: a committed no-op, no teardown.
    let second = w.handle_event(size_changed(1024, 768));
    assert!(second.commands.is_empty());
    assert_eq!(w.width(), 1024);
}

#[test]
fn gesture_batches_intermediate_sizes() {
    let mut w: Window<FullWindowPolicy> = Window::new(800, 600);
    let begin = w.handle_event(WindowEvent::EnterSizeGesture);
    assert!(begin.commands.is_empty());

    for (width, height) in [(810, 600), (900, 640), (1100, 700), (1275, 715)] {
        let r = w.handle_event(size_changed(width, height));
        assert!(r.commands.is_empty());
        assert_eq!(w.width(), 800);
        assert_eq!(w.height(), 600);
    }

    let end = w.handle_event(WindowEvent::ExitSizeGesture { width: 1280, height: 720 });
    assert_eq!(end.commands, resize_sequence(1280, 720));
    assert_eq!(w.width(), 1280);
    assert_eq!(w.height(), 720);
    assert!(w.size_changed());
}

#[test]
fn gesture_ending_at_the_old_size_commits_nothing() {
    let mut w: Window<FullWindowPolicy> = Window::new(800, 600);
    w.handle_event(WindowEvent::EnterSizeGesture);
    w.handle_event(size_changed(850, 600));
    let end = w.handle_event(WindowEvent::ExitSizeGesture { width: 800, height: 600 });
    assert!(end.commands.is_empty());
    assert_eq!(w.width(), 800);
    assert!(!w.size_changed());
}

#[test]
fn minimize_and_restore_do_not_resize() {
    let mut w: Window<FullWindowPolicy> = Window::new(800, 600);
    let min = w.handle_event(WindowEvent::SizeChanged { minimized: true, width: 0, height: 0 });
    assert!(min.commands.is_empty());

    let restore = w.handle_event(size_changed(800, 600));
    assert!(restore.commands.is_empty());
    assert_eq!(w.width(), 800);
    assert!(!w.size_changed());

    // A further notification for the same size stays a no-op.
    let again = w.handle_event(size_changed(800, 600));
    assert!(again.commands.is_empty());
}

#[test]
fn end_to_end_resize_reaches_surface_and_viewports() {
    let mut w: Window<FullWindowPolicy> = Window::new(800, 600);
    let k = w.create_viewport(Rect { x: 0, y: 0, width: 800, height: 600 }, Some(FullWindowPolicy));
    w.set_default_viewport(k);

    let r = w.handle_event(size_changed(1920, 1080));
    assert_eq!(r.commands, resize_sequence(1920, 1080));
    assert_eq!(w.surface().render_target_size(), (1920, 1080));
    assert_eq!(w.surface().depth_stencil_size(), (1920, 1080));
    assert_eq!(w.get_viewport(k), Some(Rect { x: 0, y: 0, width: 1920, height: 1080 }));

    let (begin, viewport) = w.begin_render();
    assert_eq!(begin.len(), 5);
    assert_eq!(viewport, Some(Rect { x: 0, y: 0, width: 1920, height: 1080 }));
    let end = w.end_render();
    assert_eq!(end, vec![SurfaceCommand::UnbindRenderTargets, SurfaceCommand::Present]);
    let idle = w.end_render();
    assert!(idle.is_empty());
}

#[test]
fn size_changed_flag_lasts_one_poll_cycle() {
    let mut w: Window<FullWindowPolicy> = Window::new(800, 600);
    w.begin_poll();
    w.handle_event(size_changed(1024, 768));
    assert!(w.size_changed());
    w.begin_poll();
    assert!(!w.size_changed());
}

#[test]
fn min_size_query_answers_the_floor() {
    let mut w: Window<FullWindowPolicy> = Window::new(800, 600);
    let r = w.handle_event(WindowEvent::MinSizeQuery);
    assert_eq!(r.min_size, Some((800, 600)));
    assert!(r.commands.is_empty());
    assert!(!r.quit);
}

#[test]
fn quit_event_ends_the_loop() {
    let mut w: Window<FullWindowPolicy> = Window::new(800, 600);
    let r = w.handle_event(WindowEvent::Quit);
    assert!(r.quit);
    assert!(r.commands.is_empty());
}

#[test]
fn mouse_moves_report_center_relative_deltas() {
    let mut w: Window<FullWindowPolicy> = Window::new(800, 600);
    let r = w.handle_event(WindowEvent::MouseMoved { x: 100, y: 100 });
    assert!(!r.warp_cursor);
    assert_eq!(w.input().mouse_position(), (-300, -200));

    let r = w.handle_event(WindowEvent::MouseMoved { x: 400, y: 300 });
    assert!(!r.warp_cursor);
    assert_eq!(w.input().mouse_position(), (0, 0));
}

#[test]
fn locked_mouse_asks_for_a_warp() {
    let mut w: Window<FullWindowPolicy> = Window::new(800, 600);
    w.set_mouse_locked(true);
    let moved = w.handle_event(WindowEvent::MouseMoved { x: 10, y: 20 });
    assert!(moved.warp_cursor);
    let focus = w.handle_event(WindowEvent::FocusGained);
    assert!(focus.warp_cursor);

    w.set_mouse_locked(false);
    let focus = w.handle_event(WindowEvent::FocusGained);
    assert!(!focus.warp_cursor);
}

#[test]
fn mouse_center_cache_is_lazy() {
    let mut w: Window<FullWindowPolicy> = Window::new(800, 600);
    // Stale from construction until the shell computes it once.
    assert!(w.needs_center_update());
    w.set_mouse_center(640, 512);
    assert!(!w.needs_center_update());
    assert_eq!(w.mouse_center(), (640, 512));

    // A move or a committed resize makes it stale again.
    w.handle_event(WindowEvent::Moved);
    assert!(w.needs_center_update());
    w.set_mouse_center(700, 520);
    w.handle_event(size_changed(1024, 768));
    assert!(w.needs_center_update());
}

#[test]
fn key_events_drive_the_input_model() {
    let mut w: Window<FullWindowPolicy> = Window::new(800, 600);
    w.begin_poll();
    let scan_w: u16 = 0x11;
    w.handle_event(WindowEvent::RawKey { scan_code: scan_w, e0: false, e1: false, pressed: true });
    assert!(w.input().is_key_pressed(Key::W));
    assert!(w.input().is_key_held(Key::W));

    w.begin_poll();
    assert!(!w.input().is_key_pressed(Key::W));
    assert!(w.input().is_key_held(Key::W));

    w.handle_event(WindowEvent::RawKey { scan_code: scan_w, e0: false, e1: false, pressed: false });
    assert!(!w.input().is_key_held(Key::W));
    assert!(w.input().is_key_released(Key::W));

    // An unmapped scan code is dropped silently.
    let r = w.handle_event(WindowEvent::RawKey { scan_code: 0x60, e0: false, e1: false, pressed: true });
    assert!(!r.quit);
    assert!(r.commands.is_empty());
}

#[test]
fn mouse_buttons_reach_the_input_model() {
    let mut w: Window<FullWindowPolicy> = Window::new(800, 600);
    w.handle_event(WindowEvent::MouseButtonDown { button: MouseButton::Secondary });
    assert!(w.input().is_mouse_button_down(MouseButton::Secondary));
    w.handle_event(WindowEvent::MouseButtonUp { button: MouseButton::Secondary });
    assert!(!w.input().is_mouse_button_down(MouseButton::Secondary));
}

#[test]
fn debug_logging_flag_round_trips() {
    let mut w: Window<FullWindowPolicy> = Window::new(800, 600);
    assert!(!w.debug_logging());
    w.set_debug_logging(true);
    assert!(w.debug_logging());
}

#[test]
fn set_active_viewport_misses_silently() {
    let mut w: Window<FullWindowPolicy> = Window::new(800, 600);
    assert_eq!(w.set_active_viewport(7), None);
    let k = w.create_viewport(Rect { x: 1, y: 2, width: 3, height: 4 }, None);
    assert_eq!(w.set_active_viewport(k), Some(Rect { x: 1, y: 2, width: 3, height: 4 }));
    w.remove_viewport(k);
    assert_eq!(w.set_active_viewport(k), None);
}
