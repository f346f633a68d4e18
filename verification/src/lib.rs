//! The platform-independent core of a minimal windowing library: keys and their
//! codes, rectangles, the per-frame input state, and the decisions that the Win32
//! and AppKit layers take on the values the system hands them.

pub mod geometry;
pub mod input;
pub mod keys;
pub mod macos;
pub mod types;
pub mod win32;

pub use geometry::Rect;
pub use input::{InputState, InputView};
pub use keys::Key;
pub use macos::{parse_modifiers, VsyncMode};
pub use types::{CursorIcon, FullscreenMode, Modifiers, Mouse, ScrollPhase, WindowStyle};
pub use win32::{
    get_style_flags, MARGINS, MONITORINFO, MSG, POINT, RAWINPUTDEVICE, RAWMOUSE_BUTTON_DATA, RECT,
    TRACKMOUSEEVENT, GUID, WindowInfo,
};
