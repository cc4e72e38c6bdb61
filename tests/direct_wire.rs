use gpui_linux::x11::{
    button_from_state, button_of_detail, modifiers_from_state, X11Client, XAction, XEvent, BUTTON1_MASK,
    CONTROL_MASK, MOD1_MASK, MOD4_MASK, SHIFT_MASK,
};
use gpui_linux::{Bounds, InputEvent, Modifiers, MouseButton, ScrollDelta, TouchPhase};

const DELETE: u32 = 77;

fn client() -> X11Client<&'static str> {
    let mut c = X11Client::new(DELETE);
    assert!(c.register_window(1, "main").is_none());
    c
}

fn input(action: XAction<(i16, i16)>) -> (u64, InputEvent<(i16, i16)>) {
    match action {
        XAction::Input { window, event } => (window, event),
        _ => panic!("expected an input action"),
    }
}

fn phase(action: XAction<(i16, i16)>) -> TouchPhase {
    match input(action).1 {
        InputEvent::ScrollWheel { touch_phase, delta, .. } => {
            assert!(matches!(delta, ScrollDelta::Lines { x: 0, .. }));
            touch_phase
        }
        _ => panic!("expected a scroll event"),
    }
}

#[test]
fn state_masks_decode() {
    let m = modifiers_from_state(SHIFT_MASK | MOD4_MASK);
    assert_eq!(m, Modifiers { control: false, alt: false, shift: true, command: true, function: false });
    let m = modifiers_from_state(CONTROL_MASK | MOD1_MASK);
    assert_eq!(m, Modifiers { control: true, alt: true, shift: false, command: false, function: false });
    assert_eq!(modifiers_from_state(0), Modifiers::none());
    assert_eq!(button_from_state(BUTTON1_MASK | 0x400), Some(MouseButton::Left));
    assert_eq!(button_from_state(0x200), Some(MouseButton::Middle));
    assert_eq!(button_from_state(0x400), Some(MouseButton::Right));
    assert_eq!(button_from_state(SHIFT_MASK), None);
    assert_eq!(button_of_detail(1), Some(MouseButton::Left));
    assert_eq!(button_of_detail(2), Some(MouseButton::Middle));
    assert_eq!(button_of_detail(3), Some(MouseButton::Right));
    assert_eq!(button_of_detail(8), None);
}

#[test]
fn unregistered_window_events_do_nothing() {
    let mut c = client();
    let a = c.handle_event(XEvent::ButtonPress { window: 9, detail: 1, state: 0, position: (1, 2) });
    assert!(matches!(a, XAction::Ignore));
    let a = c.handle_event::<(i16, i16)>(XEvent::Expose { window: 9 });
    assert!(matches!(a, XAction::Ignore));
    let a = c.handle_event::<(i16, i16)>(XEvent::ClientMessage { window: 9, atom: DELETE });
    assert!(matches!(a, XAction::Ignore));
    let a = c.handle_event::<(i16, i16)>(XEvent::Other);
    assert!(matches!(a, XAction::Ignore));
    assert!(c.windows.contains(1));
}

#[test]
fn delete_request_closes_and_quits_once() {
    let mut c = client();
    c.register_window(2, "second");
    let a = c.handle_event::<(i16, i16)>(XEvent::ClientMessage { window: 2, atom: DELETE });
    assert!(matches!(a, XAction::Close { window: 2 }));
    // The window stays registered while its close callbacks run.
    assert!(c.windows.contains(2));
    let closed = c.remove_window(2).expect("registered");
    assert_eq!(closed.window, "second");
    assert!(!closed.was_last);
    let a = c.handle_event::<(i16, i16)>(XEvent::ClientMessage { window: 1, atom: 5 });
    assert!(matches!(a, XAction::Ignore));
    let a = c.handle_event::<(i16, i16)>(XEvent::ClientMessage { window: 1, atom: DELETE });
    assert!(matches!(a, XAction::Close { window: 1 }));
    let closed = c.remove_window(1).expect("registered");
    assert_eq!(closed.window, "main");
    assert!(closed.was_last);
    let a = c.handle_event::<(i16, i16)>(XEvent::ClientMessage { window: 1, atom: DELETE });
    assert!(matches!(a, XAction::Ignore));
    assert!(c.remove_window(1).is_none());
    assert!(c.windows.is_empty());
}

#[test]
fn expose_and_configure_are_routed() {
    let mut c = client();
    let a = c.handle_event::<(i16, i16)>(XEvent::Expose { window: 1 });
    assert!(matches!(a, XAction::Expose { window: 1 }));
    let a = c.handle_event::<(i16, i16)>(XEvent::Configure { window: 1, x: -5, y: 7, width: 640, height: 480 });
    match a {
        XAction::Configure { window, bounds } => {
            assert_eq!(window, 1);
            assert_eq!(bounds, Bounds { x: -5, y: 7, width: 640, height: 480 });
        }
        _ => panic!("expected a configure action"),
    }
}

#[test]
fn return_press_gives_enter() {
    let mut c = client();
    let (window, event) = input(c.handle_event(XEvent::KeyPress { window: 1, name: "Return".to_string(), state: 0 }));
    assert_eq!(window, 1);
    match event {
        InputEvent::KeyDown { keystroke, is_held } => {
            assert_eq!(keystroke.key, "enter");
            assert_eq!(keystroke.modifiers, Modifiers::none());
            assert!(!is_held);
        }
        _ => panic!("expected a key down"),
    }
    let (_, event) = input(c.handle_event(XEvent::KeyRelease { window: 1, name: "a".to_string(), state: SHIFT_MASK }));
    match event {
        InputEvent::KeyUp { keystroke } => {
            assert_eq!(keystroke.key, "a");
            assert!(keystroke.modifiers.shift);
        }
        _ => panic!("expected a key up"),
    }
}

#[test]
fn modifier_key_reports_modifiers() {
    let mut c = client();
    let (_, event) = input(c.handle_event(XEvent::KeyPress { window: 1, name: "Control_L".to_string(), state: CONTROL_MASK }));
    match event {
        InputEvent::ModifiersChanged { modifiers } => assert!(modifiers.control),
        _ => panic!("expected a modifier change"),
    }
}

#[test]
fn key_without_name_is_dropped() {
    let mut c = client();
    let a = c.handle_event::<(i16, i16)>(XEvent::KeyPress { window: 1, name: String::new(), state: 0 });
    assert!(matches!(a, XAction::Ignore));
    let a = c.handle_event::<(i16, i16)>(XEvent::KeyRelease { window: 1, name: String::new(), state: 0 });
    assert!(matches!(a, XAction::Ignore));
}

#[test]
fn wheel_buttons_scroll() {
    let mut c = client();
    let down = XEvent::ButtonPress { window: 1, detail: 5, state: 0, position: (3, 4) };
    assert_eq!(phase(c.handle_event(down)), TouchPhase::Started);
    let a = c.handle_event(XEvent::ButtonPress { window: 1, detail: 4, state: 0, position: (3, 4) });
    match input(a).1 {
        InputEvent::ScrollWheel { delta: ScrollDelta::Lines { x, y }, touch_phase, position, .. } => {
            assert_eq!((x, y), (0, -1));
            assert_eq!(touch_phase, TouchPhase::Moved);
            assert_eq!(position, (3, 4));
        }
        _ => panic!("expected a scroll event"),
    }
    let up = XEvent::ButtonRelease { window: 1, detail: 5, state: 0, position: (3, 4) };
    match input(c.handle_event(up)).1 {
        InputEvent::ScrollWheel { delta: ScrollDelta::Lines { y, .. }, touch_phase, .. } => {
            assert_eq!(y, 1);
            assert_eq!(touch_phase, TouchPhase::Ended);
        }
        _ => panic!("expected a scroll event"),
    }
    let again = XEvent::ButtonRelease { window: 1, detail: 5, state: 0, position: (3, 4) };
    assert!(matches!(c.handle_event(again), XAction::Ignore));
}

#[test]
fn pointer_buttons_and_motion() {
    let mut c = client();
    let (_, e) = input(c.handle_event(XEvent::ButtonPress { window: 1, detail: 3, state: SHIFT_MASK, position: (10, 20) }));
    match e {
        InputEvent::MouseDown { button, position, modifiers, click_count } => {
            assert_eq!(button, MouseButton::Right);
            assert_eq!(position, (10, 20));
            assert!(modifiers.shift);
            assert_eq!(click_count, 1);
        }
        _ => panic!("expected a mouse down"),
    }
    let (_, e) = input(c.handle_event(XEvent::ButtonRelease { window: 1, detail: 1, state: 0, position: (1, 1) }));
    assert!(matches!(e, InputEvent::MouseUp { button: MouseButton::Left, click_count: 1, .. }));
    let a = c.handle_event(XEvent::ButtonPress { window: 1, detail: 9, state: 0, position: (1, 1) });
    assert!(matches!(a, XAction::Ignore));
    let (_, e) = input(c.handle_event(XEvent::Motion { window: 1, state: BUTTON1_MASK, position: (5, 6) }));
    assert!(matches!(e, InputEvent::MouseMove { pressed_button: Some(MouseButton::Left), position: (5, 6), .. }));
    let (_, e) = input(c.handle_event(XEvent::Leave { window: 1, state: 0, position: (0, 0) }));
    assert!(matches!(e, InputEvent::MouseExited { pressed_button: None, .. }));
}
