use gpui_linux::wayland::{
    global_to_bind, Capability, Global, PointerEvent, PointerKind, Routed, SeatDevices, WaylandClient,
    KEYSYM_RETURN,
};
use gpui_linux::{InputEvent, MouseButton, ScrollDelta, TouchPhase};

fn client() -> WaylandClient<&'static str> {
    let mut c = WaylandClient::new();
    assert!(c.register_window(3, "main").is_none());
    c
}

fn pointer(surface: u64, kind: PointerKind<(f64, f64)>) -> PointerEvent<(f64, f64)> {
    PointerEvent { surface, position: (1.5, 2.5), kind }
}

fn phase_of(r: Option<Routed<(f64, f64)>>) -> TouchPhase {
    match r.expect("an event").event {
        InputEvent::ScrollWheel { touch_phase, delta, .. } => {
            assert!(matches!(delta, ScrollDelta::Pixels((0.0, -4.0))));
            touch_phase
        }
        _ => panic!("expected a scroll event"),
    }
}

#[test]
fn registry_globals() {
    assert_eq!(global_to_bind("wl_compositor"), Some(Global::Compositor));
    assert_eq!(global_to_bind("xdg_wm_base"), Some(Global::WmBase));
    assert_eq!(global_to_bind("wl_seat"), None);
}

#[test]
fn seat_devices_attach_once() {
    let mut seat = SeatDevices::new();
    assert!(seat.capability_added(Capability::Keyboard));
    assert!(!seat.capability_added(Capability::Keyboard));
    assert!(seat.capability_added(Capability::Pointer));
    assert!(seat.capability_removed(Capability::Keyboard));
    assert!(!seat.capability_removed(Capability::Keyboard));
    assert!(seat.pointer);
    assert!(!seat.keyboard);
}

#[test]
fn key_press_goes_to_focused_window() {
    let mut c = client();
    assert!(c.key_press::<(f64, f64)>(KEYSYM_RETURN, None).is_none());
    c.keyboard_enter(8);
    assert_eq!(c.focus, None);
    c.keyboard_enter(3);
    assert_eq!(c.focus, Some(3));
    let routed = c.update_modifiers::<(f64, f64)>(true, false, false, true).expect("focused");
    assert_eq!(routed.window, 3);
    match routed.event {
        InputEvent::ModifiersChanged { modifiers } => {
            assert!(modifiers.control);
            assert!(modifiers.command);
            assert!(!modifiers.alt);
        }
        _ => panic!("expected a modifier change"),
    }
    let routed = c.key_press::<(f64, f64)>(KEYSYM_RETURN, None).expect("focused");
    assert_eq!(routed.window, 3);
    match routed.event {
        InputEvent::KeyDown { keystroke, is_held } => {
            assert_eq!(keystroke.key, "enter");
            assert!(keystroke.modifiers.control);
            assert!(keystroke.modifiers.command);
            assert!(!keystroke.modifiers.shift);
            assert!(!is_held);
        }
        _ => panic!("expected a key down"),
    }
    let routed = c.key_press::<(f64, f64)>(0x51, Some("Q".to_string())).expect("focused");
    match routed.event {
        InputEvent::KeyDown { keystroke, .. } => assert_eq!(keystroke.key, "q"),
        _ => panic!("expected a key down"),
    }
    assert!(c.key_press::<(f64, f64)>(0xffe1, None).is_none());
    let routed = c.key_release::<(f64, f64)>(KEYSYM_RETURN, None).expect("focused");
    match routed.event {
        InputEvent::KeyUp { keystroke } => {
            assert_eq!(keystroke.key, "enter");
            assert!(keystroke.modifiers.control);
        }
        _ => panic!("expected a key up"),
    }
    let routed = c.key_release::<(f64, f64)>(0x51, Some("Q".to_string())).expect("focused");
    match routed.event {
        InputEvent::KeyUp { keystroke } => assert_eq!(keystroke.key, "q"),
        _ => panic!("expected a key up"),
    }
    assert!(c.key_release::<(f64, f64)>(0xffe1, None).is_none());
    c.keyboard_leave();
    assert!(c.key_release::<(f64, f64)>(KEYSYM_RETURN, None).is_none());
    assert!(c.update_modifiers::<(f64, f64)>(false, false, false, false).is_none());
    assert_eq!(c.modifiers, gpui_linux::Modifiers::none());
}

#[test]
fn pointer_events_route_by_surface() {
    let mut c = client();
    assert!(c.pointer_event(pointer(4, PointerKind::Motion)).is_none());
    assert!(c.pointer_event(pointer(3, PointerKind::Enter)).is_none());
    let r = c.pointer_event(pointer(3, PointerKind::Press { button: 272 })).expect("registered");
    assert_eq!(r.window, 3);
    assert!(matches!(r.event, InputEvent::MouseDown { button: MouseButton::Left, click_count: 1, .. }));
    assert_eq!(c.pressed_button, Some(MouseButton::Left));
    let r = c.pointer_event(pointer(3, PointerKind::Motion)).expect("registered");
    assert!(matches!(r.event, InputEvent::MouseMove { pressed_button: Some(MouseButton::Left), position: (1.5, 2.5), .. }));
    let r = c.pointer_event(pointer(3, PointerKind::Release { button: 272 })).expect("registered");
    assert!(matches!(r.event, InputEvent::MouseUp { button: MouseButton::Left, .. }));
    assert_eq!(c.pressed_button, None);
    assert!(c.pointer_event(pointer(3, PointerKind::Press { button: 999 })).is_none());
    let r = c.pointer_event(pointer(3, PointerKind::Leave)).expect("registered");
    assert!(matches!(r.event, InputEvent::MouseExited { pressed_button: None, .. }));
}

#[test]
fn continuous_scroll_gesture() {
    let mut c = client();
    let axis = |stop| pointer(3, PointerKind::Axis { delta: (0.0, -4.0), stop });
    assert_eq!(phase_of(c.pointer_event(axis(false))), TouchPhase::Started);
    assert_eq!(phase_of(c.pointer_event(axis(false))), TouchPhase::Moved);
    assert_eq!(phase_of(c.pointer_event(axis(false))), TouchPhase::Moved);
    assert_eq!(phase_of(c.pointer_event(axis(true))), TouchPhase::Ended);
    assert!(c.pointer_event(axis(true)).is_none());
    assert_eq!(phase_of(c.pointer_event(axis(false))), TouchPhase::Started);
}

#[test]
fn toplevel_configure_and_close() {
    let mut c = client();
    assert!(c.is_registered(3));
    assert!(!c.is_registered(4));
    assert_eq!(c.toplevel_configure(3, 800, 600), Some((800, 600)));
    assert_eq!(c.toplevel_configure(3, 0, 600), None);
    assert_eq!(c.toplevel_configure(4, 800, 600), None);
    c.keyboard_enter(3);
    let closed = c.remove_window(3).expect("registered");
    assert_eq!(closed.window, "main");
    assert!(closed.was_last);
    assert_eq!(c.focus, None);
    assert!(c.remove_window(3).is_none());
    assert!(c.pointer_event(pointer(3, PointerKind::Motion)).is_none());
}
