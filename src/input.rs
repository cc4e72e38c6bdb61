use vstd::prelude::*;

verus! {

/// Snapshot of the keyboard modifiers that apply to an input event.
#[derive(Clone, Copy, Debug, PartialEq, Eq, Structural)]
pub struct Modifiers {
    pub control: bool,
    pub alt: bool,
    pub shift: bool,
    pub command: bool,
    pub function: bool,
}

impl Modifiers {
    /// The snapshot with no modifier held.
    pub open spec fn none_spec() -> Modifiers {
        Modifiers { control: false, alt: false, shift: false, command: false, function: false }
    }

    pub fn none() -> (r: Modifiers)
        ensures
            r == Modifiers::none_spec(),
    {
        Modifiers { control: false, alt: false, shift: false, command: false, function: false }
    }
}

/// The pointer buttons that the platform reports.
#[derive(Clone, Copy, Debug, PartialEq, Eq, Structural)]
pub enum MouseButton {
    Left,
    Middle,
    Right,
}

/// Stage of a continuous scroll gesture.
#[derive(Clone, Copy, Debug, PartialEq, Eq, Structural)]
pub enum TouchPhase {
    Started,
    Moved,
    Ended,
}

/// Amount scrolled: whole lines (wheel notches) or a pointer-space vector `P`.
#[derive(Clone, Copy, Debug)]
pub enum ScrollDelta<P> {
    Lines { x: i32, y: i32 },
    Pixels(P),
}

/// A key together with the modifiers held when it was pressed.
#[derive(Clone, Debug)]
pub struct Keystroke {
    pub modifiers: Modifiers,
    pub key: String,
}

/// The portable input taxonomy delivered to a window. `P` is the type of a
/// pointer position, chosen by the embedder.
#[derive(Clone, Debug)]
pub enum InputEvent<P> {
    KeyDown { keystroke: Keystroke, is_held: bool },
    KeyUp { keystroke: Keystroke },
    ModifiersChanged { modifiers: Modifiers },
    MouseDown { button: MouseButton, position: P, modifiers: Modifiers, click_count: u32 },
    MouseUp { button: MouseButton, position: P, modifiers: Modifiers, click_count: u32 },
    MouseMove { pressed_button: Option<MouseButton>, position: P, modifiers: Modifiers },
    MouseExited { pressed_button: Option<MouseButton>, position: P, modifiers: Modifiers },
    ScrollWheel {
        position: P,
        delta: ScrollDelta<P>,
        modifiers: Modifiers,
        touch_phase: TouchPhase,
    },
}

} // verus!
