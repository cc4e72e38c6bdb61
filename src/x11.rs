//! Decisions of the direct-wire (X11) client: which window an event goes to,
//! and what it translates to.

use crate::input::{InputEvent, Modifiers, MouseButton, ScrollDelta, TouchPhase};
use crate::keys::{key_translation, lower_of, lowercase_key, translate_key};
use crate::registry::{close_spec, route_spec, Closed, WindowRegistry};
use crate::scroll::{gesture, lemma_gesture_phases, moved_then_ended, phases_of, scroll_step, ScrollSession};
use crate::window::Bounds;
use vstd::prelude::*;

verus! {

/// Bits of the key-and-button state mask that an X event carries.
pub const SHIFT_MASK: u32 = 0x1;
pub const CONTROL_MASK: u32 = 0x4;
pub const MOD1_MASK: u32 = 0x8;
pub const MOD4_MASK: u32 = 0x40;
pub const BUTTON1_MASK: u32 = 0x100;
pub const BUTTON2_MASK: u32 = 0x200;
pub const BUTTON3_MASK: u32 = 0x400;

/// Button numbers of the core protocol.
pub const BUTTON_LEFT: u8 = 1;
pub const BUTTON_MIDDLE: u8 = 2;
pub const BUTTON_RIGHT: u8 = 3;
/// The wheel reports each notch as a press and release of these buttons.
pub const BUTTON_WHEEL_UP: u8 = 4;
pub const BUTTON_WHEEL_DOWN: u8 = 5;

pub open spec fn modifiers_of_state(state: u32) -> Modifiers {
    Modifiers {
        control: state & CONTROL_MASK != 0,
        alt: state & MOD1_MASK != 0,
        shift: state & SHIFT_MASK != 0,
        command: state & MOD4_MASK != 0,
        function: false,
    }
}

pub open spec fn pressed_button_of_state(state: u32) -> Option<MouseButton> {
    if state & BUTTON1_MASK != 0 {
        Some(MouseButton::Left)
    } else if state & BUTTON2_MASK != 0 {
        Some(MouseButton::Middle)
    } else if state & BUTTON3_MASK != 0 {
        Some(MouseButton::Right)
    } else {
        None
    }
}

pub open spec fn button_of_detail_spec(detail: u8) -> Option<MouseButton> {
    if detail == BUTTON_LEFT {
        Some(MouseButton::Left)
    } else if detail == BUTTON_MIDDLE {
        Some(MouseButton::Middle)
    } else if detail == BUTTON_RIGHT {
        Some(MouseButton::Right)
    } else {
        None
    }
}

pub open spec fn is_wheel_button(detail: u8) -> bool {
    detail == BUTTON_WHEEL_UP || detail == BUTTON_WHEEL_DOWN
}

/// Lines scrolled by one wheel notch: down is positive.
pub open spec fn wheel_delta<P>(detail: u8) -> ScrollDelta<P> {
    ScrollDelta::Lines { x: 0, y: if detail == BUTTON_WHEEL_DOWN { 1i32 } else { -1i32 } }
}

/// The modifiers that a state mask reports held.
pub fn modifiers_from_state(state: u32) -> (r: Modifiers)
    ensures
        r == modifiers_of_state(state),
{
    Modifiers {
        control: state & CONTROL_MASK != 0,
        alt: state & MOD1_MASK != 0,
        shift: state & SHIFT_MASK != 0,
        command: state & MOD4_MASK != 0,
        function: false,
    }
}

/// The button that a state mask reports held, the lowest-numbered first.
pub fn button_from_state(state: u32) -> (r: Option<MouseButton>)
    ensures
        r == pressed_button_of_state(state),
{
    if state & BUTTON1_MASK != 0 {
        Some(MouseButton::Left)
    } else if state & BUTTON2_MASK != 0 {
        Some(MouseButton::Middle)
    } else if state & BUTTON3_MASK != 0 {
        Some(MouseButton::Right)
    } else {
        None
    }
}

/// The pointer button of a core-protocol button number; `None` for any
/// other number.
pub fn button_of_detail(detail: u8) -> (r: Option<MouseButton>)
    ensures
        r == button_of_detail_spec(detail),
{
    if detail == BUTTON_LEFT {
        Some(MouseButton::Left)
    } else if detail == BUTTON_MIDDLE {
        Some(MouseButton::Middle)
    } else if detail == BUTTON_RIGHT {
        Some(MouseButton::Right)
    } else {
        None
    }
}

/// An event of the wire protocol, as plain values. `P` is a pointer position.
/// For key events, `name` is the symbolic name that the active keymap gives
/// the key code, in any case.
pub enum XEvent<P> {
    ClientMessage { window: u32, atom: u32 },
    Expose { window: u32 },
    Configure { window: u32, x: i16, y: i16, width: u16, height: u16 },
    ButtonPress { window: u32, detail: u8, state: u32, position: P },
    ButtonRelease { window: u32, detail: u8, state: u32, position: P },
    KeyPress { window: u32, name: String, state: u32 },
    KeyRelease { window: u32, name: String, state: u32 },
    Motion { window: u32, state: u32, position: P },
    Leave { window: u32, state: u32, position: P },
    Other,
}

/// What the client does with an event. Every `window` handle named here is
/// registered when the action is given out.
pub enum XAction<P> {
    /// Nothing: the event is not for a registered window, or translates to
    /// nothing.
    Ignore,
    /// The window is asked to close: its should-close and close callbacks run
    /// while it is still registered, then `X11Client::remove_window` takes it
    /// out.
    Close { window: u64 },
    Expose { window: u64 },
    Configure { window: u64, bounds: Bounds },
    Input { window: u64, event: InputEvent<P> },
}

/// The window that an event is addressed to.
pub open spec fn event_window<P>(ev: XEvent<P>) -> Option<u32> {
    match ev {
        XEvent::ClientMessage { window, .. } => Some(window),
        XEvent::Expose { window } => Some(window),
        XEvent::Configure { window, .. } => Some(window),
        XEvent::ButtonPress { window, .. } => Some(window),
        XEvent::ButtonRelease { window, .. } => Some(window),
        XEvent::KeyPress { window, .. } => Some(window),
        XEvent::KeyRelease { window, .. } => Some(window),
        XEvent::Motion { window, .. } => Some(window),
        XEvent::Leave { window, .. } => Some(window),
        XEvent::Other => None,
    }
}

/// Pointer events: the next scroll state and the input to deliver, if any.
pub open spec fn pointer_input<P>(scrolling: bool, ev: XEvent<P>) -> (bool, Option<InputEvent<P>>) {
    match ev {
        XEvent::ButtonPress { detail, state, position, .. } => {
            if is_wheel_button(detail) {
                let (next, phase) = scroll_step(scrolling, false);
                (
                    next,
                    Some(
                        InputEvent::ScrollWheel {
                            position,
                            delta: wheel_delta(detail),
                            modifiers: modifiers_of_state(state),
                            touch_phase: phase.unwrap(),
                        },
                    ),
                )
            } else {
                match button_of_detail_spec(detail) {
                    Some(button) => (
                        scrolling,
                        Some(
                            InputEvent::MouseDown {
                                button,
                                position,
                                modifiers: modifiers_of_state(state),
                                click_count: 1,
                            },
                        ),
                    ),
                    None => (scrolling, None),
                }
            }
        },
        XEvent::ButtonRelease { detail, state, position, .. } => {
            if is_wheel_button(detail) {
                let (next, phase) = scroll_step(scrolling, true);
                match phase {
                    Some(p) => (
                        next,
                        Some(
                            InputEvent::ScrollWheel {
                                position,
                                delta: wheel_delta(detail),
                                modifiers: modifiers_of_state(state),
                                touch_phase: p,
                            },
                        ),
                    ),
                    None => (next, None),
                }
            } else {
                match button_of_detail_spec(detail) {
                    Some(button) => (
                        scrolling,
                        Some(
                            InputEvent::MouseUp {
                                button,
                                position,
                                modifiers: modifiers_of_state(state),
                                click_count: 1,
                            },
                        ),
                    ),
                    None => (scrolling, None),
                }
            }
        },
        XEvent::Motion { state, position, .. } => (
            scrolling,
            Some(
                InputEvent::MouseMove {
                    pressed_button: pressed_button_of_state(state),
                    position,
                    modifiers: modifiers_of_state(state),
                },
            ),
        ),
        XEvent::Leave { state, position, .. } => (
            scrolling,
            Some(
                InputEvent::MouseExited {
                    pressed_button: pressed_button_of_state(state),
                    position,
                    modifiers: modifiers_of_state(state),
                },
            ),
        ),
        _ => (scrolling, None),
    }
}

pub open spec fn input_action<P>(window: u32, input: Option<InputEvent<P>>) -> XAction<P> {
    match input {
        Some(event) => XAction::Input { window: window as u64, event },
        None => XAction::Ignore,
    }
}

/// A press or release of a wheel button.
pub open spec fn is_wheel_event<P>(ev: XEvent<P>) -> bool {
    match ev {
        XEvent::ButtonPress { detail, .. } => is_wheel_button(detail),
        XEvent::ButtonRelease { detail, .. } => is_wheel_button(detail),
        _ => false,
    }
}

/// Whether a wheel event ends the gesture: a release does.
pub open spec fn ends_gesture<P>(ev: XEvent<P>) -> bool {
    ev is ButtonRelease
}

/// The touch phases reported, in order, when the pointer events `evs` arrive
/// for a registered window.
pub open spec fn reported_phases<P>(scrolling: bool, evs: Seq<XEvent<P>>) -> Seq<TouchPhase>
    decreases evs.len(),
{
    if evs.len() == 0 {
        Seq::empty()
    } else {
        let (next, input) = pointer_input(scrolling, evs[0]);
        let rest = reported_phases(next, evs.drop_first());
        match input {
            Some(InputEvent::ScrollWheel { touch_phase, .. }) => seq![touch_phase] + rest,
            _ => rest,
        }
    }
}

/// Wheel events drive exactly the scroll gesture machine: a press is a motion
/// notification and a release a stop.
pub proof fn lemma_wheel_events_drive_gesture<P>(scrolling: bool, evs: Seq<XEvent<P>>)
    requires
        forall|i: int| 0 <= i < evs.len() ==> is_wheel_event(#[trigger] evs[i]),
    ensures
        reported_phases(scrolling, evs) == phases_of(
            scrolling,
            evs.map_values(|e: XEvent<P>| ends_gesture(e)),
        ),
    decreases evs.len(),
{
    let stops = evs.map_values(|e: XEvent<P>| ends_gesture(e));
    if evs.len() > 0 {
        let rest = evs.drop_first();
        assert forall|i: int| 0 <= i < rest.len() implies is_wheel_event(#[trigger] rest[i]) by {
            assert(rest[i] == evs[i + 1]);
        }
        assert(is_wheel_event(evs[0]));
        assert(stops[0] == ends_gesture(evs[0]));
        let next = pointer_input(scrolling, evs[0]).0;
        lemma_wheel_events_drive_gesture(next, rest);
        assert(stops.drop_first() =~= rest.map_values(|e: XEvent<P>| ends_gesture(e)));
    }
}

/// On the wire: from rest, `moves + 1` wheel presses followed by a wheel
/// release report Started, then Moved for each further press, then Ended.
pub proof fn lemma_wheel_gesture<P>(moves: nat, evs: Seq<XEvent<P>>)
    requires
        evs.len() == moves + 2,
        forall|i: int| 0 <= i < evs.len() ==> is_wheel_event(#[trigger] evs[i]),
        forall|i: int| 0 <= i < evs.len() - 1 ==> (#[trigger] evs[i]) is ButtonPress,
        evs[evs.len() - 1] is ButtonRelease,
    ensures
        reported_phases(false, evs) =~= seq![TouchPhase::Started] + moved_then_ended(moves),
{
    lemma_wheel_events_drive_gesture(false, evs);
    assert(evs.map_values(|e: XEvent<P>| ends_gesture(e)) =~= gesture(moves));
    lemma_gesture_phases(moves);
}

/// State of the direct-wire client: its windows, the wheel gesture, and the
/// atom that asks for a window's deletion. Modifiers are not kept here: every
/// wire event carries the server's modifier state in its state mask.
pub struct X11Client<W> {
    pub windows: WindowRegistry<W>,
    pub scroll: ScrollSession,
    pub delete_window_atom: u32,
}

impl<W> X11Client<W> {
    pub fn new(delete_window_atom: u32) -> (r: X11Client<W>)
        ensures
            r.windows@ == Map::<u64, W>::empty(),
            !r.scroll.scrolling,
            r.delete_window_atom == delete_window_atom,
    {
        X11Client { windows: WindowRegistry::new(), scroll: ScrollSession::new(), delete_window_atom }
    }

    /// Registers the state of a newly opened window under its id.
    pub fn register_window(&mut self, window: u32, state: W) -> (r: Option<W>)
        ensures
            final(self).windows@ == old(self).windows@.insert(window as u64, state),
            r == route_spec(old(self).windows@, window as u64),
            final(self).scroll == old(self).scroll,
            final(self).delete_window_atom == old(self).delete_window_atom,
    {
        self.windows.insert(window as u64, state)
    }

    /// Takes a window whose close callbacks have run out of the registry,
    /// reporting whether it was the last one. A handle that is no longer
    /// registered changes nothing and gives `None`.
    pub fn remove_window(&mut self, window: u64) -> (r: Option<Closed<W>>)
        ensures
            final(self).windows@ == close_spec(old(self).windows@, window).0,
            match r {
                Some(c) => close_spec(old(self).windows@, window).1 == Some((c.window, c.was_last)),
                None => close_spec(old(self).windows@, window).1 == None::<(W, bool)>,
            },
            final(self).scroll == old(self).scroll,
            final(self).delete_window_atom == old(self).delete_window_atom,
    {
        self.windows.close(window)
    }

    /// Decides what one wire event does. An event for a window that is not
    /// registered does nothing and changes nothing. A deletion request asks the
    /// window to close, leaving it registered. Pointer and key events are
    /// translated with the modifiers of the event's state mask; wheel buttons
    /// drive the scroll gesture; a key with no symbolic name is dropped. No
    /// event changes the registry.
    pub fn handle_event<P>(&mut self, ev: XEvent<P>) -> (r: XAction<P>)
        ensures
            final(self).delete_window_atom == old(self).delete_window_atom,
            final(self).windows@ == old(self).windows@,
            match event_window(ev) {
                Some(w) => !old(self).windows@.contains_key(w as u64) ==> {
                    &&& r is Ignore
                    &&& final(self).scroll == old(self).scroll
                },
                None => {
                    &&& r is Ignore
                    &&& final(self).scroll == old(self).scroll
                },
            },
            match ev {
                XEvent::ClientMessage { window, atom } => {
                    &&& final(self).scroll == old(self).scroll
                    &&& r == if atom == old(self).delete_window_atom && old(
                        self,
                    ).windows@.contains_key(window as u64) {
                        XAction::<P>::Close { window: window as u64 }
                    } else {
                        XAction::<P>::Ignore
                    }
                },
                XEvent::Expose { window } => old(self).windows@.contains_key(window as u64) ==> {
                    &&& r == XAction::<P>::Expose { window: window as u64 }
                    &&& final(self).scroll == old(self).scroll
                },
                XEvent::Configure { window, x, y, width, height } => old(self).windows@.contains_key(
                    window as u64,
                ) ==> {
                    &&& r == XAction::<P>::Configure {
                        window: window as u64,
                        bounds: Bounds {
                            x: x as i32,
                            y: y as i32,
                            width: width as u32,
                            height: height as u32,
                        },
                    }
                    &&& final(self).scroll == old(self).scroll
                },
                XEvent::KeyPress { window, name, state } => old(self).windows@.contains_key(
                    window as u64,
                ) ==> {
                    &&& final(self).scroll == old(self).scroll
                    &&& name@.len() == 0 ==> r is Ignore
                    &&& name@.len() > 0 ==> match r {
                        XAction::Input { window: w, event } => w == window as u64 && key_translation(
                            event,
                            lower_of(name@),
                            modifiers_of_state(state),
                            true,
                        ),
                        _ => false,
                    }
                },
                XEvent::KeyRelease { window, name, state } => old(self).windows@.contains_key(
                    window as u64,
                ) ==> {
                    &&& final(self).scroll == old(self).scroll
                    &&& name@.len() == 0 ==> r is Ignore
                    &&& name@.len() > 0 ==> match r {
                        XAction::Input { window: w, event } => w == window as u64 && key_translation(
                            event,
                            lower_of(name@),
                            modifiers_of_state(state),
                            false,
                        ),
                        _ => false,
                    }
                },
                XEvent::Other => true,
                _ => {
                    let window = event_window(ev).unwrap();
                    let (next, input) = pointer_input(old(self).scroll.scrolling, ev);
                    old(self).windows@.contains_key(window as u64) ==> {
                        &&& r == input_action::<P>(window, input)
                        &&& final(self).scroll.scrolling == next
                    }
                },
            },
    {
        match ev {
            XEvent::ClientMessage { window, atom } => {
                if atom == self.delete_window_atom && self.windows.contains(window as u64) {
                    XAction::Close { window: window as u64 }
                } else {
                    XAction::Ignore
                }
            },
            XEvent::Expose { window } => {
                if self.windows.contains(window as u64) {
                    XAction::Expose { window: window as u64 }
                } else {
                    XAction::Ignore
                }
            },
            XEvent::Configure { window, x, y, width, height } => {
                if self.windows.contains(window as u64) {
                    let bounds = Bounds {
                        x: x as i32,
                        y: y as i32,
                        width: width as u32,
                        height: height as u32,
                    };
                    XAction::Configure { window: window as u64, bounds }
                } else {
                    XAction::Ignore
                }
            },
            XEvent::KeyPress { window, name, state } => {
                if self.windows.contains(window as u64) && !name.as_str().is_empty() {
                    key_event(window, name, state, true)
                } else {
                    XAction::Ignore
                }
            },
            XEvent::KeyRelease { window, name, state } => {
                if self.windows.contains(window as u64) && !name.as_str().is_empty() {
                    key_event(window, name, state, false)
                } else {
                    XAction::Ignore
                }
            },
            XEvent::ButtonPress { window, detail, state, position } => {
                if !self.windows.contains(window as u64) {
                    return XAction::Ignore;
                }
                let modifiers = modifiers_from_state(state);
                if detail == BUTTON_WHEEL_UP || detail == BUTTON_WHEEL_DOWN {
                    let phase = self.scroll.advance(false);
                    let y: i32 = if detail == BUTTON_WHEEL_DOWN { 1 } else { -1 };
                    match phase {
                        Some(touch_phase) => XAction::Input {
                            window: window as u64,
                            event: InputEvent::ScrollWheel {
                                position,
                                delta: ScrollDelta::Lines { x: 0, y },
                                modifiers,
                                touch_phase,
                            },
                        },
                        None => XAction::Ignore,
                    }
                } else {
                    match button_of_detail(detail) {
                        Some(button) => XAction::Input {
                            window: window as u64,
                            event: InputEvent::MouseDown {
                                button,
                                position,
                                modifiers,
                                click_count: 1,
                            },
                        },
                        None => XAction::Ignore,
                    }
                }
            },
            XEvent::ButtonRelease { window, detail, state, position } => {
                if !self.windows.contains(window as u64) {
                    return XAction::Ignore;
                }
                let modifiers = modifiers_from_state(state);
                if detail == BUTTON_WHEEL_UP || detail == BUTTON_WHEEL_DOWN {
                    let phase = self.scroll.advance(true);
                    let y: i32 = if detail == BUTTON_WHEEL_DOWN { 1 } else { -1 };
                    match phase {
                        Some(touch_phase) => XAction::Input {
                            window: window as u64,
                            event: InputEvent::ScrollWheel {
                                position,
                                delta: ScrollDelta::Lines { x: 0, y },
                                modifiers,
                                touch_phase,
                            },
                        },
                        None => XAction::Ignore,
                    }
                } else {
                    match button_of_detail(detail) {
                        Some(button) => XAction::Input {
                            window: window as u64,
                            event: InputEvent::MouseUp { button, position, modifiers, click_count: 1 },
                        },
                        None => XAction::Ignore,
                    }
                }
            },
            XEvent::Motion { window, state, position } => {
                if !self.windows.contains(window as u64) {
                    return XAction::Ignore;
                }
                XAction::Input {
                    window: window as u64,
                    event: InputEvent::MouseMove {
                        pressed_button: button_from_state(state),
                        position,
                        modifiers: modifiers_from_state(state),
                    },
                }
            },
            XEvent::Leave { window, state, position } => {
                if !self.windows.contains(window as u64) {
                    return XAction::Ignore;
                }
                XAction::Input {
                    window: window as u64,
                    event: InputEvent::MouseExited {
                        pressed_button: button_from_state(state),
                        position,
                        modifiers: modifiers_from_state(state),
                    },
                }
            },
            XEvent::Other => XAction::Ignore,
        }
    }
}

/// A key event for a registered window: the key name is lowercased and
/// translated with the modifiers of the state mask.
fn key_event<P>(window: u32, name: String, state: u32, pressed: bool) -> (r: XAction<P>)
    ensures
        match r {
            XAction::Input { window: w, event } => w == window as u64 && key_translation(
                event,
                lower_of(name@),
                modifiers_of_state(state),
                pressed,
            ),
            _ => false,
        },
{
    let modifiers = modifiers_from_state(state);
    let lowered = lowercase_key(name.as_str());
    XAction::Input { window: window as u64, event: translate_key(lowered, modifiers, pressed) }
}

} // verus!
