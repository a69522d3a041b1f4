use vstd::prelude::*;

verus! {

/// Where the window is put when it is created.
#[derive(Debug, Clone, Copy, PartialEq, Eq, Structural)]
pub enum WindowPosition {
    /// Centred on the monitor.
    Centered,
    /// Top-left corner at the given screen coordinates, in pixels.
    At(i32, i32),
}

/// The persisted preference: the position of the primary window.
#[derive(Debug, Clone, Copy, PartialEq, Eq, Structural)]
pub struct WindowPlacement {
    pub position: WindowPosition,
}

impl WindowPlacement {
    /// The placement with the window's top-left corner at `(x, y)`.
    pub open spec fn spec_at(x: i32, y: i32) -> WindowPlacement {
        WindowPlacement { position: WindowPosition::At(x, y) }
    }

    /// The placement used when nothing was saved before.
    pub fn centered() -> (r: WindowPlacement)
        ensures
            r.position == WindowPosition::Centered,
    {
        WindowPlacement { position: WindowPosition::Centered }
    }

    /// A placement with the window's top-left corner at `(x, y)`.
    pub fn at(x: i32, y: i32) -> (r: WindowPlacement)
        ensures
            r == WindowPlacement::spec_at(x, y),
    {
        WindowPlacement { position: WindowPosition::At(x, y) }
    }
}

} // verus!
