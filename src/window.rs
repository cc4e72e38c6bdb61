//! Geometry bookkeeping of a window's state.

use vstd::prelude::*;

verus! {

/// Position and size of a window, in pixels of the screen it is on.
#[derive(Clone, Copy, Debug, PartialEq, Eq, Structural)]
pub struct Bounds {
    pub x: i32,
    pub y: i32,
    pub width: u32,
    pub height: u32,
}

/// How a window occupies the screen. `B` is the embedder's bounds type.
#[derive(Clone, Copy, Debug)]
pub enum WindowBounds<B> {
    Maximized,
    Fullscreen,
    Fixed(B),
}

pub open spec fn window_bounds_spec<B>(
    maximized: bool,
    fullscreen: bool,
    fixed: Option<B>,
) -> WindowBounds<B> {
    if maximized {
        WindowBounds::Maximized
    } else if fullscreen {
        WindowBounds::Fullscreen
    } else {
        match fixed {
            Some(b) => WindowBounds::Fixed(b),
            None => WindowBounds::Maximized,
        }
    }
}

/// The bounds a window reports: maximized wins over full screen, which wins
/// over the window's own rectangle; a window whose position cannot be known
/// counts as maximized.
pub fn classify_bounds<B>(maximized: bool, fullscreen: bool, fixed: Option<B>) -> (r: WindowBounds<
    B,
>)
    ensures
        r == window_bounds_spec(maximized, fullscreen, fixed),
{
    if maximized {
        WindowBounds::Maximized
    } else if fullscreen {
        WindowBounds::Fullscreen
    } else {
        match fixed {
            Some(b) => WindowBounds::Fixed(b),
            None => WindowBounds::Maximized,
        }
    }
}

/// What a change of bounds calls for: `resized` (the render surface and the
/// resize callback) and `moved` (the moved callback).
#[derive(Clone, Copy, Debug, PartialEq, Eq, Structural)]
pub struct ConfigureOutcome {
    pub resized: bool,
    pub moved: bool,
}

/// The current geometry of a window.
pub struct WindowGeometry {
    pub bounds: Bounds,
}

impl WindowGeometry {
    pub fn new(bounds: Bounds) -> (r: WindowGeometry)
        ensures
            r.bounds == bounds,
    {
        WindowGeometry { bounds }
    }

    /// The native protocol reported new bounds: records them and says whether
    /// the size and the position changed.
    pub fn configure(&mut self, bounds: Bounds) -> (r: ConfigureOutcome)
        ensures
            final(self).bounds == bounds,
            r.resized == (old(self).bounds.width != bounds.width || old(self).bounds.height
                != bounds.height),
            r.moved == (old(self).bounds.x != bounds.x || old(self).bounds.y != bounds.y),
    {
        let old_bounds = self.bounds;
        self.bounds = bounds;
        ConfigureOutcome {
            resized: old_bounds.width != bounds.width || old_bounds.height != bounds.height,
            moved: old_bounds.x != bounds.x || old_bounds.y != bounds.y,
        }
    }

    /// The compositor set the window's size; its position is its own affair.
    /// Says whether the size changed.
    pub fn resize(&mut self, width: u32, height: u32) -> (resized: bool)
        ensures
            final(self).bounds == (Bounds { width, height, ..old(self).bounds }),
            resized == (old(self).bounds.width != width || old(self).bounds.height != height),
    {
        let resized = self.bounds.width != width || self.bounds.height != height;
        self.bounds = Bounds { x: self.bounds.x, y: self.bounds.y, width, height };
        resized
    }

    /// The content size: the size of the bounds.
    pub fn content_size(&self) -> (r: (u32, u32))
        ensures
            r == (self.bounds.width, self.bounds.height),
    {
        (self.bounds.width, self.bounds.height)
    }
}

} // verus!
