use glfw_rust::context::ContextRegistry;
use glfw_rust::cursor::Cursor;
use glfw_rust::error::clear_error;
use glfw_rust::error::get_error;
use glfw_rust::error::ErrorSlot;
use glfw_rust::event::Event;
use glfw_rust::event_loop::EventLoop;
use glfw_rust::event_loop::EventLoopConfig;
use glfw_rust::monitor::MonitorId;
use glfw_rust::types::ClientApi;
use glfw_rust::types::ErrorCode;
use glfw_rust::types::GlfwError;
use glfw_rust::types::Platform;
use glfw_rust::types::StdCursor;
use glfw_rust::window::HintSetting;
use glfw_rust::window::WindowConfig;
use glfw_rust::window::WindowId;

const MAIN: u64 = 1;
const OTHER: u64 = 2;

fn fault(code: ErrorCode, description: &str) -> GlfwError {
    GlfwError { code, description: String::from(description) }
}

fn live_loop() -> EventLoop {
    let mut el = EventLoop::new();
    el.init(MAIN, true, None).unwrap();
    el
}

#[test]
fn lifecycle_reinit_after_terminate() {
    let mut el = EventLoop::new();
    assert!(!el.alive);
    el.init(MAIN, true, None).unwrap();
    assert!(el.alive);
    assert_eq!(el.init_thread, MAIN);
    // leave some state behind, then end the lifecycle
    let _ = el.get_primary_monitor(7);
    el.monitor_callback(11, 7, 0x00040001);
    el.terminate(MAIN);
    assert!(!el.alive);
    assert_eq!(el.events.len(), 0);
    // a second initialization starts from a fully reset state
    el.init(MAIN, true, None).unwrap();
    assert!(el.alive);
    assert_eq!(el.events.len(), 0);
    assert!(!el.is_monitor_alive(MonitorId::new(7).unwrap()));
    assert_eq!(el.diagnostics.len(), 0);
}

#[test]
fn init_failure_reports_fault_or_synthesizes() {
    let mut el = EventLoop::new();
    let e = fault(ErrorCode::PlatformUnavailable, "no display");
    let r = el.init(MAIN, false, Some(e.clone()));
    assert_eq!(r, Err(e));
    assert!(!el.alive);
    let r2 = el.init(MAIN, false, None);
    let err = r2.unwrap_err();
    assert_eq!(err.code, ErrorCode::NotInitialized);
    assert!(!el.alive);
    // and after the failures, a successful attempt still works
    el.init(MAIN, true, None).unwrap();
    assert!(el.alive);
}

#[test]
fn terminate_off_thread_is_logged_not_fatal() {
    let mut el = live_loop();
    el.terminate(OTHER);
    assert!(!el.alive);
    assert_eq!(el.diagnostics.len(), 1);
}

#[test]
fn poll_with_nothing_pending_is_empty() {
    let mut el = live_loop();
    assert_eq!(el.poll_events().len(), 0);
}

#[test]
fn poll_delivers_in_order_and_never_twice() {
    let mut el = live_loop();
    let w = WindowId::new(9).unwrap();
    // two callbacks fire during one native poll cycle
    el.key_callback(100, w, 32, 57, 1, 0);
    el.key_callback(101, w, 32, 57, 0, 0);
    let events = el.poll_events();
    assert_eq!(events.len(), 2);
    assert_eq!(events[0].0, 100);
    assert_eq!(events[1].0, 101);
    assert!(matches!(events[0].1, Event::Key { pressed: true, repeat: false, .. }));
    assert!(matches!(events[1].1, Event::Key { pressed: false, .. }));
    // a second immediate poll delivers nothing again
    assert_eq!(el.poll_events().len(), 0);
    // the wait variants drain the same queue
    el.mouse_button_callback(102, w, 0, 1, 0);
    assert_eq!(el.wait_events().len(), 1);
    el.mouse_button_callback(103, w, 0, 0, 0);
    assert_eq!(el.wait_events_timeout(250).len(), 1);
}

#[test]
fn checked_surfaces_the_recorded_fault() {
    let mut el = live_loop();
    let e = fault(ErrorCode::FeatureUnavailable, "not on this platform");
    let r = el.checked(5i32, Some(e.clone()));
    assert_eq!(r, Err(e));
    let ok = el.checked(5i32, None);
    assert_eq!(ok, Ok(5));
}

#[test]
fn logged_returns_value_and_records_one_line() {
    let mut el = live_loop();
    let e = fault(ErrorCode::PlatformError, "window system says no");
    let before = el.diagnostics.len();
    let v = el.logged(17i32, Some(e));
    assert_eq!(v, 17);
    assert_eq!(el.diagnostics.len(), before + 1);
    assert_eq!(el.diagnostics.last().unwrap().as_str(), "window system says no");
    let v2 = el.logged(18i32, None);
    assert_eq!(v2, 18);
    assert_eq!(el.diagnostics.len(), before + 1);
}

#[test]
fn ignored_leaves_the_slot_clear_for_checked() {
    let mut el = live_loop();
    let e = fault(ErrorCode::InvalidValue, "ignorable");
    let v = el.ignored(3i32, Some(e));
    assert_eq!(v, 3);
    assert!(el.error_slot.last.is_none());
    // a following checked call sees only its own outcome
    assert_eq!(el.checked(4i32, None), Ok(4));
}

#[test]
fn error_slot_round_trip() {
    let mut slot = ErrorSlot::new();
    slot.record(0x00010004, String::from("bad value"));
    let err = get_error(&mut slot).unwrap_err();
    assert_eq!(err.code, ErrorCode::InvalidValue);
    assert_eq!(err.description.as_str(), "bad value");
    assert_eq!(get_error(&mut slot), Ok(()));
    slot.record(77, String::from("vendor specific"));
    clear_error(&mut slot);
    assert_eq!(get_error(&mut slot), Ok(()));
}

#[test]
fn disconnect_kills_the_monitor_and_gates_operations() {
    let mut el = live_loop();
    let m = el.get_primary_monitor(5).unwrap();
    assert!(el.is_monitor_alive(m));
    // the disconnect callback fires
    el.monitor_callback(50, 5, 0x00040002);
    assert!(!el.is_monitor_alive(m));
    let events = el.poll_events();
    assert!(matches!(events.last().unwrap().1, Event::MonitorConnected { connected: false, .. }));
    // every monitor-accepting operation now fails without reaching the backend
    let r = el.get_monitor_pos(m, 10, 20, None);
    let err = r.unwrap_err();
    assert_eq!(err.code, ErrorCode::PlatformError);
    assert_eq!(
        err.description.as_str(),
        "At get_monitor_pos, the monitor is no longer alive"
    );
    assert!(el.get_monitor_work_area(m, 0, 0, 800, 600, None).is_err());
    assert!(el.get_monitor_physical_size(m, 300, 200, None).is_err());
    assert!(el.get_monitor_name(m, String::from("display"), None).is_err());
    assert!(el.get_gamma_ramp(m, vec![1, 2, 3], None).is_err());
    assert!(el.set_gamma_ramp(m, &vec![1, 2, 3], 1, None).is_err());
}

#[test]
fn live_monitor_operations_pass_the_outcome_through() {
    let mut el = live_loop();
    let m = el.get_primary_monitor(5).unwrap();
    assert_eq!(el.get_monitor_pos(m, 10, 20, None), Ok([10, 20]));
    assert_eq!(el.get_monitor_work_area(m, 0, 0, 800, 600, None), Ok([0, 0, 800, 600]));
    assert_eq!(el.get_monitor_physical_size(m, 300, 200, None), Ok([300, 200]));
    assert_eq!(
        el.get_monitor_name(m, String::from("display"), None),
        Ok(String::from("display"))
    );
    assert_eq!(el.get_gamma_ramp(m, vec![1, 2, 3], None), Ok(vec![1, 2, 3]));
    assert_eq!(el.set_gamma_ramp(m, &vec![1, 2, 3], 1, None), Ok(()));
    let e = fault(ErrorCode::PlatformError, "query failed");
    assert_eq!(el.get_monitor_pos(m, 0, 0, Some(e.clone())), Err(e));
}

#[test]
fn enumeration_rebuilds_the_live_set() {
    let mut el = live_loop();
    let monitors = el.get_monitors(&vec![3, 0, 4]);
    // zero identities are dropped with a diagnostic, the rest kept in order
    assert_eq!(monitors.len(), 2);
    assert_eq!(monitors[0].get_ptr(), 3);
    assert_eq!(monitors[1].get_ptr(), 4);
    // everything a fresh enumeration returned is alive right after it
    for m in &monitors {
        assert!(el.is_monitor_alive(*m));
    }
    let nulls = el.diagnostics.len();
    assert_eq!(nulls, 1);
    // an identity vanishing without its disconnect callback is logged, not raised
    let again = el.get_monitors(&vec![4]);
    assert_eq!(again.len(), 1);
    assert!(!el.is_monitor_alive(MonitorId::new(3).unwrap()));
    assert!(el.is_monitor_alive(MonitorId::new(4).unwrap()));
    assert_eq!(el.diagnostics.len(), nulls + 1);
}

#[test]
fn context_handoff_on_one_thread() {
    let mut el = live_loop();
    let w1 = el.create_window(None, 101, ClientApi::OpenGL, None, None).unwrap();
    let w2 = el.create_window(None, 102, ClientApi::OpenGL, None, None).unwrap();
    el.contexts.make_current(MAIN, w1);
    assert!(el.contexts.is_current_on_current_thread(MAIN, w1));
    el.contexts.make_current(MAIN, w2);
    assert!(el.contexts.is_current_on_current_thread(MAIN, w2));
    assert!(!el.contexts.is_current_somewhere(w1));
    assert_eq!(el.contexts.get_current(MAIN), Some(w2));
}

#[test]
fn currency_is_visible_across_threads() {
    let mut el = live_loop();
    let w = el.create_window(None, 101, ClientApi::OpenGL, None, None).unwrap();
    el.contexts.make_current(OTHER, w);
    // the handle is current on the other thread; making it current here is
    // ruled out by make_current's precondition, and the state shows why
    assert!(el.contexts.is_current_somewhere(w));
    assert!(!el.contexts.is_current_on_current_thread(MAIN, w));
    assert_eq!(el.contexts.get_current(MAIN), None);
    assert!(!el.contexts.is_any_current(MAIN));
    assert!(el.contexts.is_any_current(OTHER));
}

#[test]
fn make_uncurrent_releases_only_the_named_window() {
    let mut el = live_loop();
    let w1 = el.create_window(None, 101, ClientApi::OpenGL, None, None).unwrap();
    let w2 = el.create_window(None, 102, ClientApi::OpenGL, None, None).unwrap();
    el.contexts.make_current(MAIN, w1);
    // releasing a window that is not current here changes nothing
    el.contexts.make_uncurrent(MAIN, Some(w2));
    assert!(el.contexts.is_current_on_current_thread(MAIN, w1));
    el.contexts.make_uncurrent(MAIN, Some(w1));
    assert!(!el.contexts.is_current_somewhere(w1));
    // releasing whatever is current
    el.contexts.make_current(MAIN, w2);
    el.contexts.make_uncurrent(MAIN, None);
    assert_eq!(el.contexts.get_current(MAIN), None);
}

#[test]
fn proxy_checks_liveness_and_releases_contexts() {
    let mut el = live_loop();
    let proxy = el.new_proxy();
    assert!(proxy.is_alive(&el));
    let v = proxy.with_proxy_alive(&el, || 21);
    assert_eq!(v, 21);
    assert_eq!(proxy.with_alive_checked(&mut el, 9i32, None), Ok(9));
    let w = el.create_window(None, 101, ClientApi::OpenGL, None, None).unwrap();
    el.contexts.make_current(MAIN, w);
    assert_eq!(proxy.get_any_current(&el, MAIN), Some(w));
    proxy.make_any_uncurrent(&mut el, MAIN);
    assert_eq!(proxy.get_any_current(&el, MAIN), None);
    el.terminate(MAIN);
    assert!(!proxy.is_alive(&el));
}

#[test]
fn window_creation_gates_on_the_monitor() {
    let mut el = live_loop();
    let dead = MonitorId::new(8).unwrap();
    let r = el.create_window(Some(dead), 101, ClientApi::OpenGL, None, None);
    let err = r.unwrap_err();
    assert_eq!(err.code, ErrorCode::PlatformError);
    assert_eq!(err.description.as_str(), "At window creation, the monitor is no longer alive");
    // a live monitor is accepted
    let m = el.get_primary_monitor(8).unwrap();
    let w = el.create_window(Some(m), 101, ClientApi::OpenGL, None, None).unwrap();
    assert_eq!(w.get_ptr(), 101);
    // a native fault on creation is surfaced
    let e = fault(ErrorCode::VersionUnavailable, "no such context version");
    assert_eq!(el.create_window(None, 102, ClientApi::OpenGL, None, Some(e.clone())), Err(e));
}

#[test]
fn destruction_detects_cross_thread_currency() {
    let mut el = live_loop();
    let w = el.create_window(None, 101, ClientApi::OpenGL, None, None).unwrap();
    el.contexts.make_current(OTHER, w);
    let before = el.diagnostics.len();
    // destroying from the main thread while another thread holds the context
    el.destroy_window(MAIN, w);
    assert_eq!(el.diagnostics.len(), before + 1);
    // the record is dead; the misuse left the stale currency visible
    assert!(el.contexts.is_current_somewhere(w));
}

#[test]
fn destruction_releases_own_currency_silently() {
    let mut el = live_loop();
    let w = el.create_window(None, 101, ClientApi::OpenGL, None, None).unwrap();
    el.contexts.make_current(MAIN, w);
    let before = el.diagnostics.len();
    el.destroy_window(MAIN, w);
    assert_eq!(el.diagnostics.len(), before);
    assert!(!el.contexts.is_current_somewhere(w));
}

#[test]
fn should_close_flag_round_trips() {
    let mut el = live_loop();
    let w = el.create_window(None, 101, ClientApi::NoAPI, None, None).unwrap();
    assert!(!el.contexts.should_close(w));
    el.contexts.set_should_close(w, true);
    assert!(el.contexts.should_close(w));
    assert!(!el.contexts.is_gl_window(w));
}

#[test]
fn window_config_emits_exactly_the_set_hints() {
    let config = WindowConfig::default();
    let hints = config.set_hints();
    assert_eq!(hints.len(), 1);
    assert!(matches!(hints[0], HintSetting::Reset));

    let mut config = WindowConfig::default();
    config.position_x = Some(10);
    config.position_y = Some(20);
    config.resizeable = Some(false);
    config.x11_class_name = Some(String::from("demo"));
    let hints = config.set_hints();
    assert_eq!(hints.len(), 5);
    assert!(matches!(hints[0], HintSetting::Reset));
    assert!(hints.contains(&HintSetting::Int { hint: 0x00020003, value: 0 }));
    assert!(hints.contains(&HintSetting::Int { hint: 0x0002000E, value: 10 }));
    assert!(hints.contains(&HintSetting::Int { hint: 0x0002000F, value: 20 }));
    assert!(hints.contains(&HintSetting::Text {
        hint: 0x00024001,
        value: String::from("demo"),
    }));
}

#[test]
fn event_loop_config_emits_platform_and_libdecor_hints() {
    let config = EventLoopConfig::default();
    assert_eq!(config.set_hints().len(), 0);

    let mut config = EventLoopConfig::default();
    config.platform = Some(Platform::Null);
    config.wayland_libdecor = Some(true);
    let hints = config.set_hints();
    assert_eq!(hints.len(), 2);
    assert_eq!(hints[0], HintSetting::Int { hint: 0x00050003, value: 0x00060005 });
    assert_eq!(hints[1], HintSetting::Int { hint: 0x00053001, value: 0x00038001 });
    let mut config = EventLoopConfig::default();
    config.wayland_libdecor = Some(false);
    assert_eq!(
        config.set_hints()[0],
        HintSetting::Int { hint: 0x00053001, value: 0x00038002 }
    );
}

#[test]
fn malformed_callback_arguments_are_logged_not_delivered() {
    let mut el = live_loop();
    let w = WindowId::new(9).unwrap();
    let before = el.diagnostics.len();
    el.key_callback(1, w, 33, 0, 1, 0); // no key token has code 33
    el.key_callback(2, w, 32, 0, 9, 0); // unknown action
    el.key_callback(3, w, 32, 0, 1, 0x40); // unknown modifier bit
    el.mouse_button_callback(4, w, 8, 1, 0); // no such button
    el.joystick_callback(5, 16, 0x00040001); // no such slot
    el.joystick_callback(6, 0, 7); // unknown event code
    el.monitor_callback(7, 0, 0x00040001); // null monitor
    el.monitor_callback(8, 5, 7); // unknown event code
    assert_eq!(el.diagnostics.len(), before + 8);
    assert_eq!(el.poll_events().len(), 0);
    // the no-token value is accepted and delivered without a token
    el.key_callback(9, w, -1, 57, 1, 0);
    let events = el.poll_events();
    assert_eq!(events.len(), 1);
    assert!(matches!(events[0].1, Event::Key { key: None, scancode: 57, .. }));
}

#[test]
fn joystick_connection_events_are_typed() {
    let mut el = live_loop();
    el.joystick_callback(1, 0, 0x00040001);
    el.joystick_callback(2, 15, 0x00040002);
    let events = el.poll_events();
    assert_eq!(events.len(), 2);
    assert!(matches!(events[0].1, Event::JoystickConnected { connected: true, .. }));
    assert!(matches!(events[1].1, Event::JoystickConnected { connected: false, .. }));
}

#[test]
fn dead_queue_rule_is_static_and_registry_is_standalone() {
    // the registry itself can be driven without a lifecycle
    let mut reg = ContextRegistry::new();
    reg.register_window(44, ClientApi::OpenGL, None);
    reg.make_current(MAIN, WindowId::new(44).unwrap());
    assert!(reg.is_current_somewhere(WindowId::new(44).unwrap()));
}

#[test]
fn cursor_creation_validates_geometry_and_identity() {
    let pixels: Vec<u8> = vec![0; 16];
    let c = Cursor::new_from_pixels(2, 2, &pixels, 0, 0, 5).unwrap();
    assert_eq!(c.get_ptr(), 5);
    assert!(Cursor::new_from_pixels(2, 2, &pixels, 0, 0, 0).is_none());
    let s = Cursor::new_std_cursor(StdCursor::Ibeam, 9).unwrap();
    assert_eq!(s.get_ptr(), 9);
    assert!(Cursor::new_std_cursor(StdCursor::Ibeam, 0).is_none());
}

#[test]
fn dead_monitor_error_builder() {
    let m = MonitorId::new(6).unwrap();
    let e = GlfwError::dead_monitor(m, "get_video_mode");
    assert_eq!(e.code, ErrorCode::PlatformError);
    assert_eq!(e.description.as_str(), "At get_video_mode, the monitor is no longer alive");
    let e2 = GlfwError::dead_context("poll");
    assert_eq!(e2.code, ErrorCode::NotInitialized);
    assert_eq!(e2.description.as_str(), "At poll, glfw is dead");
}
