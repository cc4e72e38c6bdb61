//! Platform core for Linux windowing: the event taxonomy that both native
//! protocols are normalised into, the translation of raw protocol codes, the
//! window registry, the callback slots and the run-loop decisions.

pub mod input;
pub mod keys;
pub mod platform;
pub mod registry;
pub mod scroll;
pub mod slot;
pub mod wayland;
pub mod window;
pub mod x11;

pub use input::{InputEvent, Keystroke, Modifiers, MouseButton, ScrollDelta, TouchPhase};
pub use scroll::ScrollSession;
pub use registry::{Closed, WindowRegistry};
pub use slot::CallbackSlot;
pub use wayland::button_of_key;
pub use platform::{Client, LoopStep, RunLoop};
pub use window::{Bounds, WindowBounds, WindowGeometry};
