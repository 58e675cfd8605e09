use vstd::prelude::*;

verus! {

/// The mode of the primary window.
#[derive(Clone, Copy, PartialEq, Eq, Structural, Debug)]
pub enum WindowMode {
    Windowed,
    BorderlessFullscreen,
}

/// What a fullscreen toggle does to the mode.
pub open spec fn spec_toggled(m: WindowMode) -> WindowMode {
    match m {
        WindowMode::Windowed => WindowMode::BorderlessFullscreen,
        WindowMode::BorderlessFullscreen => WindowMode::Windowed,
    }
}

impl WindowMode {
    /// Switch between windowed and borderless fullscreen.
    pub fn toggled(self) -> (r: WindowMode)
        ensures
            r == spec_toggled(self),
    {
        match self {
            WindowMode::Windowed => WindowMode::BorderlessFullscreen,
            WindowMode::BorderlessFullscreen => WindowMode::Windowed,
        }
    }
}

/// The primary window's dimensions in window coordinates.
#[derive(Clone, Copy, PartialEq, Eq, Structural, Debug)]
pub struct WindowSize {
    pub width: u32,
    pub height: u32,
}

/// A position in window coordinates, as a cursor-moved event carries it,
/// in whole units.
#[derive(Clone, Copy, PartialEq, Eq, Structural, Debug)]
pub struct WindowPos {
    pub x: i32,
    pub y: i32,
}

} // verus!
