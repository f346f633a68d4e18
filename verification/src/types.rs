use vstd::prelude::*;

verus! {

/// How a window is decorated.
#[derive(Debug, Clone, Copy, PartialEq, Eq, Structural)]
pub enum WindowStyle {
    Standard,
    Borderless,
    Transparent,
}

/// How a window covers the screen.
#[derive(Debug, Clone, Copy, PartialEq, Eq, Structural)]
pub enum FullscreenMode {
    /// An ordinary window.
    Windowed,
    Workspace,
    MonitorFit,
}

/// The system cursor shapes a window can show.
#[derive(Debug, Clone, Copy, PartialEq, Eq, Structural)]
pub enum CursorIcon {
    Arrow,
    IBeam,
    PointingHand,
    ClosedHand,
    OpenHand,
    Crosshair,
    ResizeLeftRight,
    ResizeUpDown,
}

/// A mouse button.
#[derive(Debug, Clone, Copy, PartialEq, Eq, Structural)]
pub enum Mouse {
    Left,
    Right,
    Middle,
    Back,
    Forward,
}

/// The number of mouse buttons the input state tracks.
pub const MOUSE_BUTTON_COUNT: usize = 5;

/// The slot of a mouse button in the input state's button tables.
pub open spec fn mouse_slot(button: Mouse) -> int {
    match button {
        Mouse::Left => 0,
        Mouse::Right => 1,
        Mouse::Middle => 2,
        Mouse::Back => 3,
        Mouse::Forward => 4,
    }
}

/// The modifier keys held while an input event happened.
#[derive(Debug, Clone, Copy, PartialEq, Eq, Structural)]
pub struct Modifiers {
    pub shift: bool,
    pub ctrl: bool,
    pub alt: bool,
    /// Command on macOS, Windows on Windows.
    pub logo: bool,
}

impl Default for Modifiers {
    fn default() -> (r: Self)
        ensures
            r == (Modifiers { shift: false, ctrl: false, alt: false, logo: false }),
    {
        Modifiers { shift: false, ctrl: false, alt: false, logo: false }
    }
}

/// Where a scroll event stands in a trackpad gesture.
#[derive(Debug, Clone, Copy, PartialEq, Eq, Structural)]
pub enum ScrollPhase {
    /// The event is not part of a gesture, as with a mouse wheel.
    NoPhase,
    Began,
    Changed,
    Ended,
    MomentumBegan,
    MomentumChanged,
    MomentumEnded,
}

impl Default for ScrollPhase {
    fn default() -> (r: Self)
        ensures
            r == ScrollPhase::NoPhase,
    {
        ScrollPhase::NoPhase
    }
}

impl ScrollPhase {
    /// The event belongs to the fling that the system continues after the fingers lift.
    pub fn momentum(self) -> (r: bool)
        ensures
            r == (self is MomentumBegan || self is MomentumChanged || self is MomentumEnded),
    {
        match self {
            ScrollPhase::MomentumBegan | ScrollPhase::MomentumChanged
            | ScrollPhase::MomentumEnded => true,
            _ => false,
        }
    }

    /// The event ends a gesture or its fling.
    pub fn ended(self) -> (r: bool)
        ensures
            r == (self is Ended || self is MomentumEnded),
    {
        match self {
            ScrollPhase::Ended | ScrollPhase::MomentumEnded => true,
            _ => false,
        }
    }
}

} // verus!
