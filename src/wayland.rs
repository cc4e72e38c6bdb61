//! Decisions of the compositor-registry (Wayland) client. Windows are
//! registered under the protocol id of their compositor surface; the shell
//! objects of a window carry that id, so every event names the surface it is for.

use crate::input::{InputEvent, Keystroke, Modifiers, MouseButton, ScrollDelta, TouchPhase};
use crate::keys::{lower_of, lowercase_key, same_text};
use crate::registry::{close_spec, Closed, WindowRegistry};
use crate::scroll::{gesture, lemma_gesture_phases, moved_then_ended, phases_of, scroll_step, ScrollSession};
use vstd::prelude::*;
use vstd::string::*;

verus! {

/// Key symbols (keysyms) of the keys that have a fixed name.
pub const KEYSYM_BACKSPACE: u32 = 0xff08;
pub const KEYSYM_TAB: u32 = 0xff09;
pub const KEYSYM_RETURN: u32 = 0xff0d;
pub const KEYSYM_ESCAPE: u32 = 0xff1b;
pub const KEYSYM_HOME: u32 = 0xff50;
pub const KEYSYM_LEFT: u32 = 0xff51;
pub const KEYSYM_UP: u32 = 0xff52;
pub const KEYSYM_RIGHT: u32 = 0xff53;
pub const KEYSYM_DOWN: u32 = 0xff54;
pub const KEYSYM_PAGE_UP: u32 = 0xff55;
pub const KEYSYM_PAGE_DOWN: u32 = 0xff56;
pub const KEYSYM_END: u32 = 0xff57;
pub const KEYSYM_DELETE: u32 = 0xffff;
pub const KEYSYM_SPACE: u32 = 0x20;

/// Linux input event codes of the pointer buttons.
pub const BTN_LEFT: u32 = 0x110;
pub const BTN_RIGHT: u32 = 0x111;
pub const BTN_MIDDLE: u32 = 0x112;

/// The name that a key with a fixed name is reported under.
pub open spec fn keysym_key_name(sym: u32) -> Option<Seq<char>> {
    if sym == KEYSYM_BACKSPACE {
        Some("backspace"@)
    } else if sym == KEYSYM_DOWN {
        Some("down"@)
    } else if sym == KEYSYM_UP {
        Some("up"@)
    } else if sym == KEYSYM_LEFT {
        Some("left"@)
    } else if sym == KEYSYM_RIGHT {
        Some("right"@)
    } else if sym == KEYSYM_DELETE {
        Some("delete"@)
    } else if sym == KEYSYM_PAGE_UP {
        Some("pageup"@)
    } else if sym == KEYSYM_PAGE_DOWN {
        Some("pagedown"@)
    } else if sym == KEYSYM_HOME {
        Some("home"@)
    } else if sym == KEYSYM_END {
        Some("end"@)
    } else if sym == KEYSYM_ESCAPE {
        Some("escape"@)
    } else if sym == KEYSYM_RETURN {
        Some("enter"@)
    } else if sym == KEYSYM_SPACE {
        Some("space"@)
    } else if sym == KEYSYM_TAB {
        Some("tab"@)
    } else {
        None
    }
}

pub open spec fn button_of_key_spec(button: u32) -> Option<MouseButton> {
    if button == BTN_LEFT {
        Some(MouseButton::Left)
    } else if button == BTN_MIDDLE {
        Some(MouseButton::Middle)
    } else if button == BTN_RIGHT {
        Some(MouseButton::Right)
    } else {
        None
    }
}

/// The name of a key with a fixed name (navigation and editing keys, space,
/// tab); `None` for any other keysym.
pub fn keysym_to_key(sym: u32) -> (r: Option<String>)
    ensures
        match r {
            Some(s) => keysym_key_name(sym) == Some(s@),
            None => keysym_key_name(sym) == None::<Seq<char>>,
        },
{
    let name: &str = if sym == KEYSYM_BACKSPACE {
        "backspace"
    } else if sym == KEYSYM_DOWN {
        "down"
    } else if sym == KEYSYM_UP {
        "up"
    } else if sym == KEYSYM_LEFT {
        "left"
    } else if sym == KEYSYM_RIGHT {
        "right"
    } else if sym == KEYSYM_DELETE {
        "delete"
    } else if sym == KEYSYM_PAGE_UP {
        "pageup"
    } else if sym == KEYSYM_PAGE_DOWN {
        "pagedown"
    } else if sym == KEYSYM_HOME {
        "home"
    } else if sym == KEYSYM_END {
        "end"
    } else if sym == KEYSYM_ESCAPE {
        "escape"
    } else if sym == KEYSYM_RETURN {
        "enter"
    } else if sym == KEYSYM_SPACE {
        "space"
    } else if sym == KEYSYM_TAB {
        "tab"
    } else {
        return None;
    };
    Some(String::from_str(name))
}

/// The pointer button of a Linux input event code; `None` for any other code.
pub fn button_of_key(button: u32) -> (r: Option<MouseButton>)
    ensures
        r == button_of_key_spec(button),
{
    if button == BTN_LEFT {
        Some(MouseButton::Left)
    } else if button == BTN_MIDDLE {
        Some(MouseButton::Middle)
    } else if button == BTN_RIGHT {
        Some(MouseButton::Right)
    } else {
        None
    }
}

/// The globals of the compositor registry that the client binds.
#[derive(Clone, Copy, Debug, PartialEq, Eq, Structural)]
pub enum Global {
    Compositor,
    WmBase,
}

pub open spec fn global_of_interface(interface: Seq<char>) -> Option<Global> {
    if interface == "wl_compositor"@ {
        Some(Global::Compositor)
    } else if interface == "xdg_wm_base"@ {
        Some(Global::WmBase)
    } else {
        None
    }
}

/// The global to bind for an interface that the registry announces; `None`
/// for an interface the client does not use.
pub fn global_to_bind(interface: &str) -> (r: Option<Global>)
    ensures
        r == global_of_interface(interface@),
{
    if same_text(interface, "wl_compositor") {
        Some(Global::Compositor)
    } else if same_text(interface, "xdg_wm_base") {
        Some(Global::WmBase)
    } else {
        None
    }
}

/// Input devices that a seat can offer.
#[derive(Clone, Copy, Debug, PartialEq, Eq, Structural)]
pub enum Capability {
    Keyboard,
    Pointer,
}

/// Which input devices of the seat are attached.
pub struct SeatDevices {
    pub keyboard: bool,
    pub pointer: bool,
}

impl SeatDevices {
    pub fn new() -> (r: SeatDevices)
        ensures
            !r.keyboard,
            !r.pointer,
    {
        SeatDevices { keyboard: false, pointer: false }
    }

    /// The seat gained a capability: gives whether a device must be attached
    /// for it (none is attached twice), and records it.
    pub fn capability_added(&mut self, capability: Capability) -> (attach: bool)
        ensures
            capability == Capability::Keyboard ==> {
                &&& attach == !old(self).keyboard
                &&& final(self).keyboard
                &&& final(self).pointer == old(self).pointer
            },
            capability == Capability::Pointer ==> {
                &&& attach == !old(self).pointer
                &&& final(self).pointer
                &&& final(self).keyboard == old(self).keyboard
            },
    {
        match capability {
            Capability::Keyboard => {
                let attach = !self.keyboard;
                self.keyboard = true;
                attach
            },
            Capability::Pointer => {
                let attach = !self.pointer;
                self.pointer = true;
                attach
            },
        }
    }

    /// The seat lost a capability: gives whether an attached device must be
    /// released, and records it.
    pub fn capability_removed(&mut self, capability: Capability) -> (release: bool)
        ensures
            capability == Capability::Keyboard ==> {
                &&& release == old(self).keyboard
                &&& !final(self).keyboard
                &&& final(self).pointer == old(self).pointer
            },
            capability == Capability::Pointer ==> {
                &&& release == old(self).pointer
                &&& !final(self).pointer
                &&& final(self).keyboard == old(self).keyboard
            },
    {
        match capability {
            Capability::Keyboard => {
                let release = self.keyboard;
                self.keyboard = false;
                release
            },
            Capability::Pointer => {
                let release = self.pointer;
                self.pointer = false;
                release
            },
        }
    }
}

/// An input event together with the window (surface id) it goes to.
pub struct Routed<P> {
    pub window: u64,
    pub event: InputEvent<P>,
}

/// What a pointer event of a frame reports.
pub enum PointerKind<P> {
    Enter,
    Leave,
    Motion,
    Press { button: u32 },
    Release { button: u32 },
    /// Continuous scroll by `delta`; `stop` when the compositor reports that
    /// scrolling stopped on either axis.
    Axis { delta: P, stop: bool },
}

/// One pointer event: the surface it is over, the pointer position and what
/// happened.
pub struct PointerEvent<P> {
    pub surface: u64,
    pub position: P,
    pub kind: PointerKind<P>,
}

/// Pointer state that pointer events consult and update.
pub struct PointerState {
    pub scrolling: bool,
    pub pressed_button: Option<MouseButton>,
}

/// A pointer event over a registered surface: the pointer state afterwards and
/// the input to deliver, if any.
pub open spec fn pointer_step<P>(st: PointerState, modifiers: Modifiers, ev: PointerEvent<P>) -> (
    PointerState,
    Option<InputEvent<P>>,
) {
    match ev.kind {
        PointerKind::Enter => (st, None),
        PointerKind::Leave => (
            st,
            Some(
                InputEvent::MouseExited {
                    position: ev.position,
                    pressed_button: st.pressed_button,
                    modifiers,
                },
            ),
        ),
        PointerKind::Motion => (
            st,
            Some(
                InputEvent::MouseMove {
                    position: ev.position,
                    pressed_button: st.pressed_button,
                    modifiers,
                },
            ),
        ),
        PointerKind::Press { button } => match button_of_key_spec(button) {
            Some(b) => (
                PointerState { pressed_button: Some(b), ..st },
                Some(
                    InputEvent::MouseDown {
                        button: b,
                        position: ev.position,
                        modifiers,
                        click_count: 1,
                    },
                ),
            ),
            None => (st, None),
        },
        PointerKind::Release { button } => (
            PointerState { pressed_button: None, ..st },
            match button_of_key_spec(button) {
                Some(b) => Some(
                    InputEvent::MouseUp { button: b, position: ev.position, modifiers, click_count: 1 },
                ),
                None => None,
            },
        ),
        PointerKind::Axis { delta, stop } => {
            let (next, phase) = scroll_step(st.scrolling, stop);
            (
                PointerState { scrolling: next, ..st },
                match phase {
                    Some(p) => Some(
                        InputEvent::ScrollWheel {
                            position: ev.position,
                            delta: ScrollDelta::Pixels(delta),
                            modifiers,
                            touch_phase: p,
                        },
                    ),
                    None => None,
                },
            )
        },
    }
}

/// The name a key press is reported under: the fixed name of its keysym, else
/// the text it produces; `None` when it has neither.
pub open spec fn pressed_key_name(sym: u32, utf8: Option<String>) -> Option<Seq<char>> {
    match keysym_key_name(sym) {
        Some(n) => Some(n),
        None => match utf8 {
            Some(u) => Some(u@),
            None => None,
        },
    }
}

/// A continuous-scroll event.
pub open spec fn is_axis_event<P>(ev: PointerEvent<P>) -> bool {
    ev.kind is Axis
}

/// Whether an axis event reports that scrolling stopped.
pub open spec fn axis_stops<P>(ev: PointerEvent<P>) -> bool {
    match ev.kind {
        PointerKind::Axis { stop, .. } => stop,
        _ => false,
    }
}

/// The touch phases reported, in order, when the pointer events `evs` arrive
/// over a registered surface.
pub open spec fn reported_phases<P>(st: PointerState, modifiers: Modifiers, evs: Seq<PointerEvent<P>>) -> Seq<TouchPhase>
    decreases evs.len(),
{
    if evs.len() == 0 {
        Seq::empty()
    } else {
        let (next, input) = pointer_step(st, modifiers, evs[0]);
        let rest = reported_phases(next, modifiers, evs.drop_first());
        match input {
            Some(InputEvent::ScrollWheel { touch_phase, .. }) => seq![touch_phase] + rest,
            _ => rest,
        }
    }
}

/// Axis events drive exactly the scroll gesture machine: an axis event is a
/// motion notification, or a stop when it says scrolling stopped.
pub proof fn lemma_axis_events_drive_gesture<P>(st: PointerState, modifiers: Modifiers, evs: Seq<PointerEvent<P>>)
    requires
        forall|i: int| 0 <= i < evs.len() ==> is_axis_event(#[trigger] evs[i]),
    ensures
        reported_phases(st, modifiers, evs) == phases_of(
            st.scrolling,
            evs.map_values(|e: PointerEvent<P>| axis_stops(e)),
        ),
    decreases evs.len(),
{
    let stops = evs.map_values(|e: PointerEvent<P>| axis_stops(e));
    if evs.len() > 0 {
        let rest = evs.drop_first();
        assert forall|i: int| 0 <= i < rest.len() implies is_axis_event(#[trigger] rest[i]) by {
            assert(rest[i] == evs[i + 1]);
        }
        assert(is_axis_event(evs[0]));
        assert(stops[0] == axis_stops(evs[0]));
        let next = pointer_step(st, modifiers, evs[0]).0;
        lemma_axis_events_drive_gesture(next, modifiers, rest);
        assert(stops.drop_first() =~= rest.map_values(|e: PointerEvent<P>| axis_stops(e)));
    }
}

/// From rest, `moves + 1` axis events without a stop followed by one with a
/// stop report Started, then Moved for each further event, then Ended.
pub proof fn lemma_axis_gesture<P>(st: PointerState, modifiers: Modifiers, moves: nat, evs: Seq<PointerEvent<P>>)
    requires
        !st.scrolling,
        evs.len() == moves + 2,
        forall|i: int| 0 <= i < evs.len() ==> is_axis_event(#[trigger] evs[i]),
        forall|i: int| 0 <= i < evs.len() - 1 ==> !axis_stops(#[trigger] evs[i]),
        axis_stops(evs[evs.len() - 1]),
    ensures
        reported_phases(st, modifiers, evs) =~= seq![TouchPhase::Started] + moved_then_ended(moves),
{
    lemma_axis_events_drive_gesture(st, modifiers, evs);
    assert(evs.map_values(|e: PointerEvent<P>| axis_stops(e)) =~= gesture(moves));
    lemma_gesture_phases(moves);
}

/// State of the compositor-registry client: its windows by surface id, the
/// surface that has keyboard focus, the modifier snapshot, pointer state and
/// the attached input devices.
pub struct WaylandClient<W> {
    pub windows: WindowRegistry<W>,
    pub focus: Option<u64>,
    pub modifiers: Modifiers,
    pub scroll: ScrollSession,
    pub pressed_button: Option<MouseButton>,
    pub devices: SeatDevices,
}

impl<W> WaylandClient<W> {
    pub open spec fn pointer_state(&self) -> PointerState {
        PointerState { scrolling: self.scroll.scrolling, pressed_button: self.pressed_button }
    }

    pub fn new() -> (r: WaylandClient<W>)
        ensures
            r.windows@ == Map::<u64, W>::empty(),
            r.focus is None,
            r.modifiers == Modifiers::none_spec(),
            !r.scroll.scrolling,
            r.pressed_button is None,
            !r.devices.keyboard,
            !r.devices.pointer,
    {
        WaylandClient {
            windows: WindowRegistry::new(),
            focus: None,
            modifiers: Modifiers::none(),
            scroll: ScrollSession::new(),
            pressed_button: None,
            devices: SeatDevices::new(),
        }
    }

    /// Registers the state of a window whose surface has id `surface`.
    pub fn register_window(&mut self, surface: u64, state: W) -> (r: Option<W>)
        ensures
            final(self).windows@ == old(self).windows@.insert(surface, state),
            r == crate::registry::route_spec(old(self).windows@, surface),
            final(self).focus == old(self).focus,
            final(self).modifiers == old(self).modifiers,
            final(self).pointer_state() == old(self).pointer_state(),
    {
        self.windows.insert(surface, state)
    }

    /// Keyboard focus entered a surface: a registered one takes the focus; an
    /// unknown one changes nothing.
    pub fn keyboard_enter(&mut self, surface: u64)
        ensures
            final(self).focus == if old(self).windows@.contains_key(surface) {
                Some(surface)
            } else {
                old(self).focus
            },
            final(self).windows == old(self).windows,
            final(self).modifiers == old(self).modifiers,
            final(self).pointer_state() == old(self).pointer_state(),
    {
        if self.windows.contains(surface) {
            self.focus = Some(surface);
        }
    }

    /// Keyboard focus left the client's surfaces.
    pub fn keyboard_leave(&mut self)
        ensures
            final(self).focus is None,
            final(self).windows == old(self).windows,
            final(self).modifiers == old(self).modifiers,
            final(self).pointer_state() == old(self).pointer_state(),
    {
        self.focus = None;
    }

    /// The compositor reported the modifier state. It becomes the snapshot
    /// that every later key and pointer event consults, and is reported as
    /// `ModifiersChanged` to the focused window, if it is registered.
    pub fn update_modifiers<P>(&mut self, control: bool, alt: bool, shift: bool, logo: bool) -> (r:
        Option<Routed<P>>)
        ensures
            final(self).modifiers == (Modifiers {
                control,
                alt,
                shift,
                command: logo,
                function: false,
            }),
            final(self).windows == old(self).windows,
            final(self).focus == old(self).focus,
            final(self).pointer_state() == old(self).pointer_state(),
            match r {
                Some(routed) => {
                    &&& old(self).focus == Some(routed.window)
                    &&& old(self).windows@.contains_key(routed.window)
                    &&& routed.event == InputEvent::<P>::ModifiersChanged {
                        modifiers: final(self).modifiers,
                    }
                },
                None => match old(self).focus {
                    Some(f) => !old(self).windows@.contains_key(f),
                    None => true,
                },
            },
    {
        let modifiers = Modifiers { control, alt, shift, command: logo, function: false };
        self.modifiers = modifiers;
        match self.focused_window() {
            Some(window) => Some(Routed { window, event: InputEvent::ModifiersChanged { modifiers } }),
            None => None,
        }
    }

    /// The focused window, if it is still registered.
    fn focused_window(&self) -> (r: Option<u64>)
        ensures
            r == match self.focus {
                Some(f) => if self.windows@.contains_key(f) {
                    Some(f)
                } else {
                    None
                },
                None => None,
            },
    {
        match self.focus {
            Some(f) => if self.windows.contains(f) {
                Some(f)
            } else {
                None
            },
            None => None,
        }
    }

    /// A key press: goes to the focused window, if it is registered, as a
    /// `KeyDown` carrying the lowercased key name and the modifier snapshot.
    /// A key with neither a fixed name nor text is dropped.
    pub fn key_press<P>(&self, sym: u32, utf8: Option<String>) -> (r: Option<Routed<P>>)
        ensures
            match r {
                Some(routed) => {
                    &&& self.focus == Some(routed.window)
                    &&& self.windows@.contains_key(routed.window)
                    &&& pressed_key_name(sym, utf8) is Some
                    &&& match routed.event {
                        InputEvent::KeyDown { keystroke, is_held } => {
                            &&& !is_held
                            &&& keystroke.modifiers == self.modifiers
                            &&& keystroke.key@ == lower_of(pressed_key_name(sym, utf8).unwrap())
                        },
                        _ => false,
                    }
                },
                None => match self.focus {
                    Some(f) => !self.windows@.contains_key(f) || pressed_key_name(sym, utf8) is None,
                    None => true,
                },
            },
    {
        let window = match self.focused_window() {
            Some(w) => w,
            None => return None,
        };
        let name = match keysym_to_key(sym) {
            Some(n) => n,
            None => match utf8 {
                Some(u) => u,
                None => return None,
            },
        };
        let key = lowercase_key(name.as_str());
        let keystroke = Keystroke { modifiers: self.modifiers, key };
        Some(Routed { window, event: InputEvent::KeyDown { keystroke, is_held: false } })
    }

    /// A key release: goes to the focused window, if it is registered, as a
    /// `KeyUp` carrying the lowercased key name (named as for a press) and the
    /// modifier snapshot. A key with neither a fixed name nor text is dropped.
    pub fn key_release<P>(&self, sym: u32, utf8: Option<String>) -> (r: Option<Routed<P>>)
        ensures
            match r {
                Some(routed) => {
                    &&& self.focus == Some(routed.window)
                    &&& self.windows@.contains_key(routed.window)
                    &&& pressed_key_name(sym, utf8) is Some
                    &&& match routed.event {
                        InputEvent::KeyUp { keystroke } => {
                            &&& keystroke.modifiers == self.modifiers
                            &&& keystroke.key@ == lower_of(pressed_key_name(sym, utf8).unwrap())
                        },
                        _ => false,
                    }
                },
                None => match self.focus {
                    Some(f) => !self.windows@.contains_key(f) || pressed_key_name(sym, utf8) is None,
                    None => true,
                },
            },
    {
        let window = match self.focused_window() {
            Some(w) => w,
            None => return None,
        };
        let name = match keysym_to_key(sym) {
            Some(n) => n,
            None => match utf8 {
                Some(u) => u,
                None => return None,
            },
        };
        let key = lowercase_key(name.as_str());
        let keystroke = Keystroke { modifiers: self.modifiers, key };
        Some(Routed { window, event: InputEvent::KeyUp { keystroke } })
    }

    /// One pointer event of a frame. An event over a surface that is not
    /// registered is dropped and changes nothing. Otherwise the event is
    /// translated with the modifier snapshot: a press of a known button records
    /// it as held, any release clears it, and continuous scroll drives the
    /// scroll gesture.
    pub fn pointer_event<P>(&mut self, ev: PointerEvent<P>) -> (r: Option<Routed<P>>)
        ensures
            final(self).windows == old(self).windows,
            final(self).focus == old(self).focus,
            final(self).modifiers == old(self).modifiers,
            !old(self).windows@.contains_key(ev.surface) ==> {
                &&& r is None
                &&& final(self).pointer_state() == old(self).pointer_state()
            },
            old(self).windows@.contains_key(ev.surface) ==> {
                let (next, input) = pointer_step(old(self).pointer_state(), old(self).modifiers, ev);
                &&& final(self).pointer_state() == next
                &&& match input {
                    Some(e) => r == Some(Routed { window: ev.surface, event: e }),
                    None => r is None,
                }
            },
    {
        if !self.windows.contains(ev.surface) {
            return None;
        }
        let window = ev.surface;
        let position = ev.position;
        let modifiers = self.modifiers;
        let event = match ev.kind {
            PointerKind::Enter => None,
            PointerKind::Leave => Some(
                InputEvent::MouseExited { position, pressed_button: self.pressed_button, modifiers },
            ),
            PointerKind::Motion => Some(
                InputEvent::MouseMove { position, pressed_button: self.pressed_button, modifiers },
            ),
            PointerKind::Press { button } => match button_of_key(button) {
                Some(b) => {
                    self.pressed_button = Some(b);
                    Some(InputEvent::MouseDown { button: b, position, modifiers, click_count: 1 })
                },
                None => None,
            },
            PointerKind::Release { button } => {
                self.pressed_button = None;
                match button_of_key(button) {
                    Some(b) => Some(
                        InputEvent::MouseUp { button: b, position, modifiers, click_count: 1 },
                    ),
                    None => None,
                }
            },
            PointerKind::Axis { delta, stop } => match self.scroll.advance(stop) {
                Some(touch_phase) => Some(
                    InputEvent::ScrollWheel {
                        position,
                        delta: ScrollDelta::Pixels(delta),
                        modifiers,
                        touch_phase,
                    },
                ),
                None => None,
            },
        };
        match event {
            Some(e) => Some(Routed { window, event: e }),
            None => None,
        }
    }

    /// A surface's frame callback fired, its shell surface was configured, or
    /// its toplevel was asked to close: whether the surface belongs to a
    /// registered window, which is then redrawn, or runs its close callbacks.
    pub fn is_registered(&self, surface: u64) -> (r: bool)
        ensures
            r == self.windows@.contains_key(surface),
    {
        self.windows.contains(surface)
    }

    /// The toplevel of a surface was configured to `width` x `height`: the
    /// size to resize its window to, or `None` when either side is zero (the
    /// compositor leaves the size to the client) or the surface is unknown.
    pub fn toplevel_configure(&self, surface: u64, width: i32, height: i32) -> (r: Option<
        (u32, u32),
    >)
        ensures
            r == if width > 0 && height > 0 && self.windows@.contains_key(surface) {
                Some((width as u32, height as u32))
            } else {
                None::<(u32, u32)>
            },
    {
        if width <= 0 || height <= 0 {
            return None;
        }
        if self.windows.contains(surface) {
            Some((width as u32, height as u32))
        } else {
            None
        }
    }

    /// The compositor asked to close a surface's toplevel and the window's
    /// should-close and close callbacks have run (while it was still
    /// registered, see `is_registered`): its window is taken out of the
    /// registry and loses the keyboard focus, reporting whether it was the
    /// last. A surface that is no longer registered changes nothing.
    pub fn remove_window(&mut self, surface: u64) -> (r: Option<Closed<W>>)
        ensures
            final(self).windows@ == close_spec(old(self).windows@, surface).0,
            match r {
                Some(c) => close_spec(old(self).windows@, surface).1 == Some((c.window, c.was_last)),
                None => close_spec(old(self).windows@, surface).1 == None::<(W, bool)>,
            },
            final(self).focus == if old(self).focus == Some(surface) {
                None
            } else {
                old(self).focus
            },
            final(self).modifiers == old(self).modifiers,
            final(self).pointer_state() == old(self).pointer_state(),
    {
        if self.focus == Some(surface) {
            self.focus = None;
        }
        self.windows.close(surface)
    }
}

} // verus!
