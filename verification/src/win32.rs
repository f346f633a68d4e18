//! The Win32 side of the window: the message and structure values that the
//! platform layer exchanges with the system, and the decisions it takes on them.
#![allow(non_snake_case, non_camel_case_types)]

use vstd::prelude::*;

use crate::geometry::{sat_sub, sat_sub_spec, Rect};
use crate::input::{InputState, InputView};
use crate::keys::{from_windows_vk_spec, Key};
use crate::types::{CursorIcon, Modifiers, Mouse, WindowStyle};

verus! {

pub const WM_CREATE: u32 = 0x0001;
pub const WM_DESTROY: u32 = 0x0002;
pub const WM_SIZE: u32 = 0x0005;
pub const WM_SETFOCUS: u32 = 0x0007;
pub const WM_KILLFOCUS: u32 = 0x0008;
pub const WM_PAINT: u32 = 0x000F;
pub const WM_CLOSE: u32 = 0x0010;
pub const WM_QUIT: u32 = 0x0012;
pub const WM_SETCURSOR: u32 = 0x0020;
pub const WM_NCCALCSIZE: u32 = 0x0083;
pub const WM_NCHITTEST: u32 = 0x0084;
pub const HTCLIENT: usize = 1;
pub const HTCAPTION: isize = 2;
pub const HTLEFT: isize = 10;
pub const HTRIGHT: isize = 11;
pub const HTTOP: isize = 12;
pub const HTTOPLEFT: isize = 13;
pub const HTTOPRIGHT: isize = 14;
pub const HTBOTTOM: isize = 15;
pub const HTBOTTOMLEFT: isize = 16;
pub const HTBOTTOMRIGHT: isize = 17;
pub const WM_KEYDOWN: u32 = 0x0100;
pub const WM_KEYUP: u32 = 0x0101;
pub const WM_CHAR: u32 = 0x0102;
pub const WM_INPUT: u32 = 0x00FF;
pub const WM_SYSKEYDOWN: u32 = 0x0104;
pub const WM_SYSKEYUP: u32 = 0x0105;
pub const WM_MOUSEMOVE: u32 = 0x0200;
pub const WM_LBUTTONDOWN: u32 = 0x0201;
pub const WM_LBUTTONUP: u32 = 0x0202;
pub const WM_LBUTTONDBLCLK: u32 = 0x0203;
pub const WM_RBUTTONDOWN: u32 = 0x0204;
pub const WM_RBUTTONUP: u32 = 0x0205;
pub const WM_RBUTTONDBLCLK: u32 = 0x0206;
pub const WM_MBUTTONDOWN: u32 = 0x0207;
pub const WM_MBUTTONUP: u32 = 0x0208;
pub const WM_MBUTTONDBLCLK: u32 = 0x0209;
pub const WM_MOUSEWHEEL: u32 = 0x020A;
pub const WM_XBUTTONDOWN: u32 = 0x020B;
pub const WM_XBUTTONUP: u32 = 0x020C;
pub const WM_XBUTTONDBLCLK: u32 = 0x020D;
pub const CS_DBLCLKS: u32 = 0x0008;
pub const WM_MOUSELEAVE: u32 = 0x02A3;
pub const TME_LEAVE: u32 = 0x00000002;
pub const WM_SIZING: u32 = 0x0214;
pub const WM_DROPFILES: u32 = 0x0233;
pub const WM_DPICHANGED: u32 = 0x02E0;
pub const MK_LBUTTON: u32 = 0x0001;
pub const MK_RBUTTON: u32 = 0x0002;
pub const MK_MBUTTON: u32 = 0x0010;
pub const MK_XBUTTON1: u32 = 0x0020;
pub const MK_XBUTTON2: u32 = 0x0040;
pub const RID_INPUT: u32 = 0x10000003;
pub const RIM_TYPEMOUSE: u32 = 0;
pub const GWLP_USERDATA: i32 = -21;
pub const PM_REMOVE: u32 = 0x0001;
pub const WS_CAPTION: u32 = 0x00C00000;
pub const WS_MAXIMIZE: u32 = 0x01000000;
pub const WS_MAXIMIZEBOX: u32 = 0x00010000;
pub const WS_MINIMIZEBOX: u32 = 0x00020000;
pub const WS_POPUP: u32 = 0x80000000;
pub const WS_SYSMENU: u32 = 0x00080000;
pub const WS_THICKFRAME: u32 = 0x00040000;
pub const WS_VISIBLE: u32 = 0x10000000;
pub const CW_USEDEFAULT: i32 = -2147483648i32;
/// Resource ordinals of the system cursors.
pub const IDC_ARROW_ID: u16 = 32512;
pub const IDC_IBEAM_ID: u16 = 32513;
pub const IDC_CROSS_ID: u16 = 32515;
pub const IDC_SIZEWE_ID: u16 = 32644;
pub const IDC_SIZENS_ID: u16 = 32645;
pub const IDC_HAND_ID: u16 = 32649;
pub const GWL_STYLE: i32 = -16;
pub const SM_CXFRAME: i32 = 32;
pub const SM_CYFRAME: i32 = 33;
pub const SM_CXPADDEDBORDER: i32 = 92;
pub const SW_MAXIMIZE: i32 = 3;
pub const SW_MINIMIZE: i32 = 6;
pub const SW_RESTORE: i32 = 9;
pub const SWP_NOSIZE: u32 = 0x0001;
pub const SWP_NOMOVE: u32 = 0x0002;
pub const SWP_NOZORDER: u32 = 0x0004;
pub const SWP_NOACTIVATE: u32 = 0x0010;
pub const SWP_FRAMECHANGED: u32 = 0x0020;
pub const IDI_APPLICATION: i32 = 32512;
pub const IDI_HAND: i32 = 32513;
pub const IDI_QUESTION: i32 = 32514;
pub const IDI_EXCLAMATION: i32 = 32515;
pub const IDI_ASTERISK: i32 = 32516;
pub const IDI_WINLOGO: i32 = 32517;
pub const SRCCOPY: u32 = 0x00CC0020;

/// A Win32 `RECT`: the edges of a rectangle.
#[derive(Debug, Default, Copy, Clone, PartialEq, Eq, Structural)]
pub struct RECT {
    pub left: i32,
    pub top: i32,
    pub right: i32,
    pub bottom: i32,
}

/// A Win32 `POINT`.
#[derive(Debug, Default, Copy, Clone, PartialEq, Eq, Structural)]
pub struct POINT {
    pub x: i32,
    pub y: i32,
}

/// A Win32 `MSG`, as taken from the message queue.
#[derive(Debug, Default, Copy, Clone, PartialEq, Eq, Structural)]
pub struct MSG {
    pub hwnd: isize,
    pub message: u32,
    pub w_param: usize,
    pub l_param: isize,
    pub time: u32,
    pub pt: POINT,
}

impl MSG {
    /// The empty message that a queue read fills in.
    pub fn new() -> (r: Self)
        ensures
            r == (MSG {
                hwnd: 0,
                message: 0,
                w_param: 0,
                l_param: 0,
                time: 0,
                pt: POINT { x: 0, y: 0 },
            }),
    {
        MSG { hwnd: 0, message: 0, w_param: 0, l_param: 0, time: 0, pt: POINT { x: 0, y: 0 } }
    }
}

/// A Win32 `MARGINS`: how far a frame extends into the client area.
#[derive(Debug, Default, Copy, Clone, PartialEq, Eq, Structural)]
pub struct MARGINS {
    pub left: i32,
    pub right: i32,
    pub top: i32,
    pub bottom: i32,
}

/// A Win32 `TRACKMOUSEEVENT`.
#[derive(Debug, Default, Copy, Clone, PartialEq, Eq, Structural)]
pub struct TRACKMOUSEEVENT {
    pub cbSize: u32,
    pub dwFlags: u32,
    pub hwndTrack: isize,
    pub dwHoverTime: u32,
}

/// A Win32 `WINDOWINFO`.
#[derive(Debug, Default, Copy, Clone, PartialEq, Eq, Structural)]
pub struct WindowInfo {
    pub size: u32,
    pub window: RECT,
    pub client: RECT,
    pub style: u32,
    pub ex_style: u32,
    pub window_status: u32,
    pub window_borders_x: u32,
    pub window_borders_y: u32,
    pub window_type: u16,
    pub creator_version: u16,
}

/// A Win32 `RAWINPUTDEVICE`.
#[derive(Debug, Default, Copy, Clone, PartialEq, Eq, Structural)]
pub struct RAWINPUTDEVICE {
    pub usUsagePage: u16,
    pub usUsage: u16,
    pub dwFlags: u32,
    pub hwndTarget: isize,
}

/// The button fields of a Win32 `RAWMOUSE`.
#[derive(Debug, Default, Copy, Clone, PartialEq, Eq, Structural)]
pub struct RAWMOUSE_BUTTON_DATA {
    pub usButtonFlags: u16,
    pub usButtonData: u16,
}

/// A Win32 `MONITORINFO`.
#[derive(Debug, Copy, Clone, PartialEq, Eq, Structural)]
pub struct MONITORINFO {
    pub cbSize: u32,
    pub rcMonitor: RECT,
    pub rcWork: RECT,
    pub dwFlags: u32,
}

/// The byte size of the Win32 `MONITORINFO` structure, which the system reads
/// from its `cbSize` field.
pub const MONITORINFO_SIZE: u32 = 40;

impl Default for MONITORINFO {
    fn default() -> (r: Self)
        ensures
            r == (MONITORINFO {
                cbSize: MONITORINFO_SIZE,
                rcMonitor: RECT { left: 0, top: 0, right: 0, bottom: 0 },
                rcWork: RECT { left: 0, top: 0, right: 0, bottom: 0 },
                dwFlags: 0,
            }),
    {
        MONITORINFO {
            cbSize: MONITORINFO_SIZE,
            rcMonitor: RECT { left: 0, top: 0, right: 0, bottom: 0 },
            rcWork: RECT { left: 0, top: 0, right: 0, bottom: 0 },
            dwFlags: 0,
        }
    }
}

/// A Win32 `GUID`.
#[derive(Debug, PartialEq)]
pub struct GUID {
    pub data1: u32,
    pub data2: u16,
    pub data3: u16,
    pub data4: [u8; 8],
}

impl GUID {
    /// The GUID whose canonical text is the hexadecimal form of `uuid`: the top
    /// 32 bits, then two groups of 16, then the low 64 bits as big-endian bytes.
    pub fn from_u128(uuid: u128) -> (r: Self)
        ensures
            r.data1 == uuid >> 96u128,
            r.data2 == (uuid >> 80u128) & 0xffff,
            r.data3 == (uuid >> 64u128) & 0xffff,
            r.data4@.len() == 8,
            forall|i: int|
                0 <= i < 8 ==> r.data4@[i] == (uuid >> (56 - 8 * i) as u128) & 0xff,
    {
        let lo = uuid as u64;
        let r = GUID {
            data1: (uuid >> 96u128) as u32,
            data2: (uuid >> 80u128 & 0xffff) as u16,
            data3: (uuid >> 64u128 & 0xffff) as u16,
            data4: [
                (lo >> 56u64) as u8,
                (lo >> 48u64) as u8,
                (lo >> 40u64) as u8,
                (lo >> 32u64) as u8,
                (lo >> 24u64) as u8,
                (lo >> 16u64) as u8,
                (lo >> 8u64) as u8,
                lo as u8,
            ],
        };
        assert(((uuid >> 96u128) as u32) == uuid >> 96u128) by (bit_vector);
        assert(((uuid >> 80u128 & 0xffff) as u16) == (uuid >> 80u128) & 0xffff) by (bit_vector);
        assert(((uuid >> 64u128 & 0xffff) as u16) == (uuid >> 64u128) & 0xffff) by (bit_vector);
        assert(((uuid as u64) >> 56u64) as u8 == (uuid >> 56u128) & 0xff) by (bit_vector);
        assert(((uuid as u64) >> 48u64) as u8 == (uuid >> 48u128) & 0xff) by (bit_vector);
        assert(((uuid as u64) >> 40u64) as u8 == (uuid >> 40u128) & 0xff) by (bit_vector);
        assert(((uuid as u64) >> 32u64) as u8 == (uuid >> 32u128) & 0xff) by (bit_vector);
        assert(((uuid as u64) >> 24u64) as u8 == (uuid >> 24u128) & 0xff) by (bit_vector);
        assert(((uuid as u64) >> 16u64) as u8 == (uuid >> 16u128) & 0xff) by (bit_vector);
        assert(((uuid as u64) >> 8u64) as u8 == (uuid >> 8u128) & 0xff) by (bit_vector);
        assert((uuid as u64) as u8 == (uuid >> 0u128) & 0xff) by (bit_vector);
        r
    }
}

impl Rect {
    /// The size of a Win32 rectangle, placed at the origin.
    pub fn from_windows(rect: RECT) -> (r: Rect)
        ensures
            r == (Rect {
                x: 0,
                y: 0,
                width: sat_sub_spec(rect.right as int, rect.left as int),
                height: sat_sub_spec(rect.bottom as int, rect.top as int),
            }),
    {
        Rect { x: 0, y: 0, width: sat_sub(rect.right, rect.left), height: sat_sub(rect.bottom, rect.top) }
    }
}

/// The window style and extended style for a window style.
pub open spec fn style_flags_spec(style: WindowStyle) -> (u32, u32) {
    match style {
        WindowStyle::Standard => (
            WS_CAPTION | WS_SYSMENU | WS_THICKFRAME | WS_MINIMIZEBOX | WS_MAXIMIZEBOX | WS_VISIBLE,
            0,
        ),
        WindowStyle::Borderless | WindowStyle::Transparent => (WS_POPUP | WS_VISIBLE, 0),
    }
}

/// The window style and extended style that a window of `style` is created with.
pub fn get_style_flags(style: WindowStyle) -> (r: (u32, u32))
    ensures
        r == style_flags_spec(style),
{
    match style {
        WindowStyle::Standard => (
            WS_CAPTION | WS_SYSMENU | WS_THICKFRAME | WS_MINIMIZEBOX | WS_MAXIMIZEBOX | WS_VISIBLE,
            0,
        ),
        WindowStyle::Borderless | WindowStyle::Transparent => (WS_POPUP | WS_VISIBLE, 0),
    }
}

/// The style of a window that covers its monitor: borderless and maximized.
pub fn fullscreen_style() -> (r: u32)
    ensures
        r == style_flags_spec(WindowStyle::Borderless).0 | WS_MAXIMIZE,
{
    get_style_flags(WindowStyle::Borderless).0 | WS_MAXIMIZE
}

/// The `ShowWindow` command that toggles maximization.
pub fn maximize_command(maximized: bool) -> (r: i32)
    ensures
        r == if maximized {
            SW_RESTORE
        } else {
            SW_MAXIMIZE
        },
{
    if maximized {
        SW_RESTORE
    } else {
        SW_MAXIMIZE
    }
}

/// The resource ordinal of the system cursor shown for `icon`; shapes the system
/// does not have fall back to the arrow.
pub open spec fn cursor_resource_spec(icon: CursorIcon) -> u16 {
    match icon {
        CursorIcon::IBeam => IDC_IBEAM_ID,
        CursorIcon::PointingHand => IDC_HAND_ID,
        CursorIcon::Crosshair => IDC_CROSS_ID,
        CursorIcon::ResizeLeftRight => IDC_SIZEWE_ID,
        CursorIcon::ResizeUpDown => IDC_SIZENS_ID,
        _ => IDC_ARROW_ID,
    }
}

pub fn cursor_resource(icon: CursorIcon) -> (r: u16)
    ensures
        r == cursor_resource_spec(icon),
{
    match icon {
        CursorIcon::IBeam => IDC_IBEAM_ID,
        CursorIcon::PointingHand => IDC_HAND_ID,
        CursorIcon::Crosshair => IDC_CROSS_ID,
        CursorIcon::ResizeLeftRight => IDC_SIZEWE_ID,
        CursorIcon::ResizeUpDown => IDC_SIZENS_ID,
        _ => IDC_ARROW_ID,
    }
}

/// The accent colour as `0xRRGGBB`: the colorization colour without its alpha byte.
pub fn accent_rgb(color: u32) -> (r: u32)
    ensures
        r == color % 0x0100_0000,
{
    let r = color & 0x00FFFFFF;
    assert(color & 0x00FFFFFF == color % 0x0100_0000) by (bit_vector);
    r
}

/// The width and height of a Win32 rectangle.
pub fn rect_extent(rect: RECT) -> (r: (i32, i32))
    requires
        i32::MIN <= rect.right - rect.left <= i32::MAX,
        i32::MIN <= rect.bottom - rect.top <= i32::MAX,
    ensures
        r.0 == rect.right - rect.left,
        r.1 == rect.bottom - rect.top,
{
    (rect.right - rect.left, rect.bottom - rect.top)
}

/// The size of a client area in pixels, with negative extents counted as zero.
pub fn client_size(rect: Rect) -> (r: (usize, usize))
    ensures
        r.0 == if rect.width > 0 {
            rect.width as int
        } else {
            0
        },
        r.1 == if rect.height > 0 {
            rect.height as int
        } else {
            0
        },
{
    let w: usize = if rect.width > 0 {
        rect.width as usize
    } else {
        0
    };
    let h: usize = if rect.height > 0 {
        rect.height as usize
    } else {
        0
    };
    (w, h)
}

/// The two signed 16-bit coordinates packed into a message's `LPARAM`: `x` in the
/// low word and `y` in the next.
pub fn lparam_point(lparam: isize) -> (r: (i16, i16))
    ensures
        r.0 == lparam as i16,
        r.1 == (lparam >> 16isize) as i16,
{
    (lparam as i16, (lparam >> 16isize) as i16)
}

/// The high word of a `WPARAM`, where messages carry a DPI, a wheel delta or an
/// extra button number.
pub open spec fn high_word(wparam: usize) -> u16 {
    ((wparam >> 16usize) & 0xffff) as u16
}

fn wparam_high_word(wparam: usize) -> (r: u16)
    ensures
        r == high_word(wparam),
{
    ((wparam >> 16usize) & 0xffff) as u16
}

fn low_word(lparam: isize) -> (r: usize)
    ensures
        r == lparam & 0xffff,
{
    let low = lparam & 0xffff;
    assert(0 <= lparam & 0xffff <= 0xffff) by (bit_vector);
    low as usize
}

/// The Unicode scalar values, the values a `char` can hold.
pub open spec fn is_scalar_value(code: u32) -> bool {
    code <= 0x10FFFF && !(0xD800 <= code && code <= 0xDFFF)
}

/// `char::from_u32` of std. Its documentation promises `Some` of the `char` with
/// value `code` exactly when `code` is a Unicode scalar value, and `None` otherwise;
/// this contract claims that.
#[verifier::external_body]
fn char_from_u32(code: u32) -> (r: Option<char>)
    ensures
        r == if is_scalar_value(code) {
            Some(code as char)
        } else {
            None::<char>
        },
{
    char::from_u32(code)
}

/// What a window procedure does with a message, as far as the message's own
/// parameters decide it.
#[derive(Debug, Clone, Copy, PartialEq, Eq, Structural)]
pub enum WindowMessage {
    Create,
    Close,
    DropFiles,
    Destroy,
    Size,
    /// Stretch the client area over the frame (only with a custom title bar).
    NcCalcSize,
    /// Hit-test the frame by hand (only with a custom title bar).
    NcHitTest,
    /// Restore the window's own cursor over the client area.
    SetCursor,
    Sizing,
    Paint,
    DpiChanged { dpi: u16 },
    /// A typed character, or `None` where the code is no scalar value.
    Char(Option<char>),
    RawInput,
    MouseMove,
    MouseLeave,
    /// A wheel turn, in multiples of `WHEEL_DELTA`.
    MouseWheel { delta: i16 },
    KeyDown(Key),
    KeyUp(Key),
    ButtonDown { button: Mouse, double: bool },
    /// A button release; `release_capture` when no button is held any more.
    ButtonUp { released: Option<Mouse>, release_capture: bool },
    KillFocus,
    SetFocus,
    /// Any message that none of the above takes, whatever its number, whose
    /// `LPARAM` low word is `WM_LBUTTONDOWN` (the shape of a notification-area
    /// icon's left click): the window procedure answers it with 0 and does not
    /// pass it to the default procedure.
    TrayClick,
    /// Left to the default window procedure.
    Unhandled,
}

/// The button of an extra-button message, from the high word of its `WPARAM`.
pub open spec fn xbutton_spec(wparam: usize) -> Option<Mouse> {
    if high_word(wparam) == 1 {
        Some(Mouse::Back)
    } else if high_word(wparam) == 2 {
        Some(Mouse::Forward)
    } else {
        None
    }
}

/// The mask of the `MK_*` flags for all buttons.
pub open spec fn any_button_mask() -> u32 {
    MK_LBUTTON | MK_RBUTTON | MK_MBUTTON | MK_XBUTTON1 | MK_XBUTTON2
}

/// What the window procedure does with message `msg`, given its parameters and
/// the height of the custom title bar (0 where there is none).
pub open spec fn classify_message_spec(
    msg: u32,
    wparam: usize,
    lparam: isize,
    caption_height: i32,
) -> WindowMessage {
    if msg == WM_CREATE {
        WindowMessage::Create
    } else if msg == WM_CLOSE {
        WindowMessage::Close
    } else if msg == WM_DROPFILES {
        WindowMessage::DropFiles
    } else if msg == WM_DESTROY {
        WindowMessage::Destroy
    } else if msg == WM_SIZE {
        WindowMessage::Size
    } else if msg == WM_NCCALCSIZE && wparam == 1 && caption_height > 0 {
        WindowMessage::NcCalcSize
    } else if msg == WM_NCHITTEST && caption_height > 0 {
        WindowMessage::NcHitTest
    } else if msg == WM_SETCURSOR && (lparam & 0xffff) == HTCLIENT {
        WindowMessage::SetCursor
    } else if msg == WM_SIZING {
        WindowMessage::Sizing
    } else if msg == WM_PAINT {
        WindowMessage::Paint
    } else if msg == WM_DPICHANGED {
        WindowMessage::DpiChanged { dpi: high_word(wparam) }
    } else if msg == WM_CHAR {
        WindowMessage::Char(
            if is_scalar_value(wparam as u32) {
                Some((wparam as u32) as char)
            } else {
                None
            },
        )
    } else if msg == WM_INPUT {
        WindowMessage::RawInput
    } else if msg == WM_MOUSEMOVE {
        WindowMessage::MouseMove
    } else if msg == WM_MOUSELEAVE {
        WindowMessage::MouseLeave
    } else if msg == WM_MOUSEWHEEL {
        WindowMessage::MouseWheel { delta: high_word(wparam) as i16 }
    } else if msg == WM_KEYDOWN || msg == WM_SYSKEYDOWN {
        WindowMessage::KeyDown(from_windows_vk_spec(wparam as u16))
    } else if msg == WM_KEYUP || msg == WM_SYSKEYUP {
        WindowMessage::KeyUp(from_windows_vk_spec(wparam as u16))
    } else if msg == WM_LBUTTONDOWN || msg == WM_LBUTTONDBLCLK {
        WindowMessage::ButtonDown { button: Mouse::Left, double: msg == WM_LBUTTONDBLCLK }
    } else if msg == WM_RBUTTONDOWN || msg == WM_RBUTTONDBLCLK {
        WindowMessage::ButtonDown { button: Mouse::Right, double: msg == WM_RBUTTONDBLCLK }
    } else if msg == WM_MBUTTONDOWN || msg == WM_MBUTTONDBLCLK {
        WindowMessage::ButtonDown { button: Mouse::Middle, double: msg == WM_MBUTTONDBLCLK }
    } else if msg == WM_XBUTTONDOWN || msg == WM_XBUTTONDBLCLK {
        match xbutton_spec(wparam) {
            Some(b) => WindowMessage::ButtonDown { button: b, double: msg == WM_XBUTTONDBLCLK },
            None => WindowMessage::Unhandled,
        }
    } else if msg == WM_LBUTTONUP || msg == WM_RBUTTONUP || msg == WM_MBUTTONUP || msg
        == WM_XBUTTONUP {
        WindowMessage::ButtonUp {
            released: if msg == WM_LBUTTONUP {
                Some(Mouse::Left)
            } else if msg == WM_RBUTTONUP {
                Some(Mouse::Right)
            } else if msg == WM_MBUTTONUP {
                Some(Mouse::Middle)
            } else {
                xbutton_spec(wparam)
            },
            release_capture: (wparam as u32) & any_button_mask() == 0,
        }
    } else if msg == WM_KILLFOCUS {
        WindowMessage::KillFocus
    } else if msg == WM_SETFOCUS {
        WindowMessage::SetFocus
    } else if (lparam & 0xffff) == WM_LBUTTONDOWN {
        WindowMessage::TrayClick
    } else {
        WindowMessage::Unhandled
    }
}

fn xbutton(wparam: usize) -> (r: Option<Mouse>)
    ensures
        r == xbutton_spec(wparam),
{
    let button = wparam_high_word(wparam);
    if button == 1 {
        Some(Mouse::Back)
    } else if button == 2 {
        Some(Mouse::Forward)
    } else {
        None
    }
}

/// Decides what the window procedure does with message `msg`.
pub fn classify_message(msg: u32, wparam: usize, lparam: isize, caption_height: i32) -> (r:
    WindowMessage)
    ensures
        r == classify_message_spec(msg, wparam, lparam, caption_height),
{
    if msg == WM_CREATE {
        WindowMessage::Create
    } else if msg == WM_CLOSE {
        WindowMessage::Close
    } else if msg == WM_DROPFILES {
        WindowMessage::DropFiles
    } else if msg == WM_DESTROY {
        WindowMessage::Destroy
    } else if msg == WM_SIZE {
        WindowMessage::Size
    } else if msg == WM_NCCALCSIZE && wparam == 1 && caption_height > 0 {
        WindowMessage::NcCalcSize
    } else if msg == WM_NCHITTEST && caption_height > 0 {
        WindowMessage::NcHitTest
    } else if msg == WM_SETCURSOR && low_word(lparam) == HTCLIENT {
        WindowMessage::SetCursor
    } else if msg == WM_SIZING {
        WindowMessage::Sizing
    } else if msg == WM_PAINT {
        WindowMessage::Paint
    } else if msg == WM_DPICHANGED {
        WindowMessage::DpiChanged { dpi: wparam_high_word(wparam) }
    } else if msg == WM_CHAR {
        WindowMessage::Char(char_from_u32(wparam as u32))
    } else if msg == WM_INPUT {
        WindowMessage::RawInput
    } else if msg == WM_MOUSEMOVE {
        WindowMessage::MouseMove
    } else if msg == WM_MOUSELEAVE {
        WindowMessage::MouseLeave
    } else if msg == WM_MOUSEWHEEL {
        WindowMessage::MouseWheel { delta: wparam_high_word(wparam) as i16 }
    } else if msg == WM_KEYDOWN || msg == WM_SYSKEYDOWN {
        WindowMessage::KeyDown(Key::from_windows_vk(wparam as u16))
    } else if msg == WM_KEYUP || msg == WM_SYSKEYUP {
        WindowMessage::KeyUp(Key::from_windows_vk(wparam as u16))
    } else if msg == WM_LBUTTONDOWN || msg == WM_LBUTTONDBLCLK {
        WindowMessage::ButtonDown { button: Mouse::Left, double: msg == WM_LBUTTONDBLCLK }
    } else if msg == WM_RBUTTONDOWN || msg == WM_RBUTTONDBLCLK {
        WindowMessage::ButtonDown { button: Mouse::Right, double: msg == WM_RBUTTONDBLCLK }
    } else if msg == WM_MBUTTONDOWN || msg == WM_MBUTTONDBLCLK {
        WindowMessage::ButtonDown { button: Mouse::Middle, double: msg == WM_MBUTTONDBLCLK }
    } else if msg == WM_XBUTTONDOWN || msg == WM_XBUTTONDBLCLK {
        match xbutton(wparam) {
            Some(b) => WindowMessage::ButtonDown { button: b, double: msg == WM_XBUTTONDBLCLK },
            None => WindowMessage::Unhandled,
        }
    } else if msg == WM_LBUTTONUP || msg == WM_RBUTTONUP || msg == WM_MBUTTONUP || msg
        == WM_XBUTTONUP {
        let button = if msg == WM_LBUTTONUP {
            Some(Mouse::Left)
        } else if msg == WM_RBUTTONUP {
            Some(Mouse::Right)
        } else if msg == WM_MBUTTONUP {
            Some(Mouse::Middle)
        } else {
            xbutton(wparam)
        };
        WindowMessage::ButtonUp {
            released: button,
            release_capture: (wparam as u32) & (MK_LBUTTON | MK_RBUTTON | MK_MBUTTON
                | MK_XBUTTON1 | MK_XBUTTON2) == 0,
        }
    } else if msg == WM_KILLFOCUS {
        WindowMessage::KillFocus
    } else if msg == WM_SETFOCUS {
        WindowMessage::SetFocus
    } else if low_word(lparam) == WM_LBUTTONDOWN as usize {
        WindowMessage::TrayClick
    } else {
        WindowMessage::Unhandled
    }
}

/// What a message does to the input state, with the pointer at `pointer` and the
/// modifier keys in `modifiers` when it arrived.
pub open spec fn message_input_effect<P>(
    v: InputView<P>,
    message: WindowMessage,
    pointer: P,
    modifiers: Modifiers,
) -> InputView<P> {
    match message {
        WindowMessage::Char(Some(c)) => v.type_char(c),
        WindowMessage::MouseMove => v.move_to(Some(pointer)),
        WindowMessage::MouseLeave => v.move_to(None),
        WindowMessage::KeyDown(key) => v.key_down(key).with_modifiers(modifiers),
        WindowMessage::KeyUp(key) => v.key_up(key).with_modifiers(modifiers),
        WindowMessage::ButtonDown { button, double } => {
            let w = v.move_to(Some(pointer)).with_modifiers(modifiers);
            if double {
                w.button_double_down(button)
            } else {
                w.button_down(button)
            }
        },
        WindowMessage::ButtonUp { released: button, .. } => {
            let w = v.move_to(Some(pointer));
            let w = match button {
                Some(b) => w.button_up(b),
                None => w,
            };
            w.with_modifiers(modifiers)
        },
        _ => v,
    }
}

/// What happens during one frame's message pump.
#[derive(Debug, Clone, Copy, PartialEq, Eq, Structural)]
pub enum PumpEvent {
    /// A message with this number was taken from the queue.
    Taken(u32),
    /// The message taken last was dispatched; `open` is whether the window is
    /// still open after it.
    Dispatched { open: bool },
    /// The pump stopped; `open` is whether the window is open, and `repainted`
    /// whether a paint message already rendered this frame.
    Drained { open: bool, repainted: bool },
}

/// What the frame does next.
#[derive(Debug, Clone, Copy, PartialEq, Eq, Structural)]
pub enum PumpAction {
    /// Translate and dispatch the message taken.
    Dispatch,
    /// Take the next message from the queue.
    NextMessage,
    /// The application quits: mark the window closed and stop pumping.
    CloseAndStop,
    /// Stop pumping, or end the frame without rendering.
    Stop,
    /// Run the frame's render callback.
    Render,
}

pub open spec fn pump_step_spec(event: PumpEvent) -> PumpAction {
    match event {
        PumpEvent::Taken(message) => if message == WM_QUIT {
            PumpAction::CloseAndStop
        } else {
            PumpAction::Dispatch
        },
        PumpEvent::Dispatched { open } => if open {
            PumpAction::NextMessage
        } else {
            PumpAction::Stop
        },
        PumpEvent::Drained { open, repainted } => if open && !repainted {
            PumpAction::Render
        } else {
            PumpAction::Stop
        },
    }
}

/// The decisions of a frame's message pump: a quit message closes the window, a
/// window closed by a dispatched message stops the pump, and a frame renders
/// only in an open window that no paint message has rendered already.
pub fn pump_step(event: PumpEvent) -> (r: PumpAction)
    ensures
        r == pump_step_spec(event),
{
    match event {
        PumpEvent::Taken(message) => if message == WM_QUIT {
            PumpAction::CloseAndStop
        } else {
            PumpAction::Dispatch
        },
        PumpEvent::Dispatched { open } => if open {
            PumpAction::NextMessage
        } else {
            PumpAction::Stop
        },
        PumpEvent::Drained { open, repainted } => if open && !repainted {
            PumpAction::Render
        } else {
            PumpAction::Stop
        },
    }
}

/// Applies a classified message to the input state.
pub fn apply_message<P: Copy>(
    input: &mut InputState<P>,
    message: WindowMessage,
    pointer: P,
    modifiers: Modifiers,
)
    ensures
        final(input)@ == message_input_effect(old(input)@, message, pointer, modifiers),
{
    match message {
        WindowMessage::Char(Some(c)) => input.push_text(c),
        WindowMessage::MouseMove => input.set_mouse_pos(Some(pointer)),
        WindowMessage::MouseLeave => input.set_mouse_pos(None),
        WindowMessage::KeyDown(key) => {
            input.set_key_down(key);
            input.set_modifiers(modifiers);
        },
        WindowMessage::KeyUp(key) => {
            input.set_key_up(key);
            input.set_modifiers(modifiers);
        },
        WindowMessage::ButtonDown { button, double } => {
            input.set_mouse_pos(Some(pointer));
            input.set_modifiers(modifiers);
            if double {
                input.set_mouse_double_down(button);
            } else {
                input.set_mouse_down(button);
            }
        },
        WindowMessage::ButtonUp { released: button, .. } => {
            input.set_mouse_pos(Some(pointer));
            if let Some(b) = button {
                input.set_mouse_up(b);
            }
            input.set_modifiers(modifiers);
        },
        _ => {},
    }
}

/// Whether a key state from `GetKeyState` says the key is held: its high bit.
pub open spec fn key_held(state: i16) -> bool {
    state < 0
}

/// The modifiers from the key states of Shift, Control, Alt and the two Windows keys.
pub fn modifiers_from_key_states(
    shift: i16,
    ctrl: i16,
    alt: i16,
    left_logo: i16,
    right_logo: i16,
) -> (r: Modifiers)
    ensures
        r == (Modifiers {
            shift: key_held(shift),
            ctrl: key_held(ctrl),
            alt: key_held(alt),
            logo: key_held(left_logo) || key_held(right_logo),
        }),
{
    let key_down: i16 = 0x8000u16 as i16;
    assert(key_down == -32768i16) by (bit_vector)
        requires
            key_down == 0x8000u16 as i16,
    ;
    assert(((shift & key_down) != 0) == (shift < 0)) by (bit_vector)
        requires
            key_down == -32768i16,
    ;
    assert(((ctrl & key_down) != 0) == (ctrl < 0)) by (bit_vector)
        requires
            key_down == -32768i16,
    ;
    assert(((alt & key_down) != 0) == (alt < 0)) by (bit_vector)
        requires
            key_down == -32768i16,
    ;
    assert(((left_logo & key_down) != 0) == (left_logo < 0)) by (bit_vector)
        requires
            key_down == -32768i16,
    ;
    assert(((right_logo & key_down) != 0) == (right_logo < 0)) by (bit_vector)
        requires
            key_down == -32768i16,
    ;
    Modifiers {
        shift: (shift & key_down) != 0,
        ctrl: (ctrl & key_down) != 0,
        alt: (alt & key_down) != 0,
        logo: (left_logo & key_down) != 0 || (right_logo & key_down) != 0,
    }
}

/// Whether a raw input read is a complete mouse report: the read did not fail,
/// returned as many bytes as asked for, and carries mouse data.
pub fn raw_input_accepted(bytes_read: u32, size: u32, kind: u32) -> (r: bool)
    ensures
        r == (bytes_read != u32::MAX && bytes_read == size && kind == RIM_TYPEMOUSE),
{
    !(bytes_read == u32::MAX || bytes_read != size || kind != RIM_TYPEMOUSE)
}

/// The resize edge or corner under a point of the client area, for a window whose
/// resize border is `border` pixels wide; corners win over edges.
pub open spec fn resize_edge_spec(x: i32, y: i32, width: i32, height: i32, border: i32) -> Option<
    isize,
> {
    let left = x < border;
    let right = x >= width - border;
    let top = y < border;
    let bottom = y >= height - border;
    if left && top {
        Some(HTTOPLEFT)
    } else if right && top {
        Some(HTTOPRIGHT)
    } else if left && bottom {
        Some(HTBOTTOMLEFT)
    } else if right && bottom {
        Some(HTBOTTOMRIGHT)
    } else if left {
        Some(HTLEFT)
    } else if right {
        Some(HTRIGHT)
    } else if top {
        Some(HTTOP)
    } else if bottom {
        Some(HTBOTTOM)
    } else {
        None
    }
}

pub fn resize_edge(x: i32, y: i32, width: i32, height: i32, border: i32) -> (r: Option<isize>)
    requires
        i32::MIN <= width - border <= i32::MAX,
        i32::MIN <= height - border <= i32::MAX,
    ensures
        r == resize_edge_spec(x, y, width, height, border),
{
    let left = x < border;
    let right = x >= width - border;
    let top = y < border;
    let bottom = y >= height - border;
    match (left, right, top, bottom) {
        (true, _, true, _) => Some(HTTOPLEFT),
        (_, true, true, _) => Some(HTTOPRIGHT),
        (true, _, _, true) => Some(HTBOTTOMLEFT),
        (_, true, _, true) => Some(HTBOTTOMRIGHT),
        (true, ..) => Some(HTLEFT),
        (_, true, ..) => Some(HTRIGHT),
        (_, _, true, _) => Some(HTTOP),
        (.., true) => Some(HTBOTTOM),
        _ => None,
    }
}

/// Whether a point of a custom title bar belongs to the client: below the bar, or
/// inside one of the excluded areas (such as the application's own buttons).
pub open spec fn caption_is_client(x: i32, y: i32, caption_height: i32, exclusions: Seq<Rect>) -> bool {
    y >= caption_height || exists|k: int|
        0 <= k < exclusions.len() && #[trigger] exclusions[k].contains_spec(x as int, y as int)
}

/// The hit-test code of a point of the client area under a custom title bar:
/// `HTCLIENT` where it belongs to the client, `HTCAPTION` where it drags the window.
pub fn caption_hit(x: i32, y: i32, caption_height: i32, exclusions: &[Rect]) -> (r: isize)
    ensures
        r == if caption_is_client(x, y, caption_height, exclusions@) {
            HTCLIENT as isize
        } else {
            HTCAPTION
        },
{
    if y >= caption_height {
        return HTCLIENT as isize;
    }
    let n = exclusions.len();
    let mut k: usize = 0;
    while k < n
        invariant
            k <= n,
            n == exclusions@.len(),
            forall|j: int| 0 <= j < k ==> !(#[trigger] exclusions@[j]).contains_spec(x as int, y as int),
        decreases n - k,
    {
        if exclusions[k].contains(x, y) {
            return HTCLIENT as isize;
        }
        k = k + 1;
    }
    HTCAPTION
}

/// The client rectangle of a maximized window with a custom title bar: the
/// proposed rectangle shrunk by the frame on each side, so that it stays on screen.
pub fn inset_for_maximized(rect: RECT, frame_x: i32, frame_y: i32, padding: i32) -> (r: RECT)
    requires
        i32::MIN <= frame_x + padding <= i32::MAX,
        i32::MIN <= frame_y + padding <= i32::MAX,
        i32::MIN <= rect.left + (frame_x + padding) <= i32::MAX,
        i32::MIN <= rect.right - (frame_x + padding) <= i32::MAX,
        i32::MIN <= rect.top + (frame_y + padding) <= i32::MAX,
        i32::MIN <= rect.bottom - (frame_y + padding) <= i32::MAX,
    ensures
        r.left == rect.left + (frame_x + padding),
        r.right == rect.right - (frame_x + padding),
        r.top == rect.top + (frame_y + padding),
        r.bottom == rect.bottom - (frame_y + padding),
{
    let x = frame_x + padding;
    let y = frame_y + padding;
    RECT { left: rect.left + x, top: rect.top + y, right: rect.right - x, bottom: rect.bottom - y }
}

/// What changes when the height of the custom title bar is set: whether the
/// stored height changes, and whether the frame must be restored because the
/// custom title bar was removed.
pub fn caption_change(old_height: i32, new_height: i32) -> (r: (bool, bool))
    ensures
        r.0 == (old_height != new_height),
        r.1 == (old_height != new_height && new_height == 0),
{
    if old_height == new_height {
        (false, false)
    } else {
        (true, new_height == 0)
    }
}

/// How a software framebuffer reaches the window.
#[derive(Debug, Clone, Copy, PartialEq, Eq, Structural)]
pub enum PresentPlan {
    /// The window renders on the GPU: swap the buffers.
    SwapBuffers,
    /// Nothing to show: the client area or the framebuffer is empty.
    Skip,
    /// Stretch the whole framebuffer over the client area.
    Stretch,
}

pub open spec fn present_plan_spec(use_gpu: bool, client: Rect, area: Rect, buffer_len: usize) -> PresentPlan {
    if use_gpu {
        PresentPlan::SwapBuffers
    } else if client.width == 0 || client.height == 0 || area.width == 0 || area.height == 0
        || buffer_len == 0 {
        PresentPlan::Skip
    } else {
        PresentPlan::Stretch
    }
}

/// How to show the framebuffer of `area` in a client area of size `client`.
pub fn present_plan(use_gpu: bool, client: Rect, area: Rect, buffer_len: usize) -> (r: PresentPlan)
    ensures
        r == present_plan_spec(use_gpu, client, area, buffer_len),
{
    if use_gpu {
        PresentPlan::SwapBuffers
    } else if client.width == 0 || client.height == 0 || area.width == 0 || area.height == 0
        || buffer_len == 0 {
        PresentPlan::Skip
    } else {
        PresentPlan::Stretch
    }
}

/// A damaged part of the framebuffer to copy: the rectangle, and the index of the
/// first pixel of its first row. The copy reads `rect.height` whole rows of the
/// framebuffer from there.
#[derive(Debug, Clone, Copy, PartialEq, Eq, Structural)]
pub struct DamageStrip {
    pub rect: Rect,
    pub offset: usize,
}

/// The strips to copy for the damaged rectangles, in order: each rectangle is
/// clipped to the framebuffer and dropped where nothing is left.
pub open spec fn damage_strips(damage: Seq<Rect>, area: Rect) -> Seq<DamageStrip>
    decreases damage.len(),
{
    if damage.len() == 0 {
        Seq::empty()
    } else {
        let before = damage_strips(damage.drop_last(), area);
        let r = damage.last().intersection_spec(area);
        if r.is_empty_spec() {
            before
        } else {
            before.push(DamageStrip { rect: r, offset: (r.y * area.width) as usize })
        }
    }
}

/// How a damaged framebuffer reaches the window.
#[derive(Debug, PartialEq, Eq)]
pub enum DamagePlan {
    /// Present the whole framebuffer.
    Whole(PresentPlan),
    /// Nothing to show.
    Skip,
    /// Copy only these strips.
    Strips(Vec<DamageStrip>),
}

/// How to show only the `damage` of the framebuffer of `area` (at the origin)
/// in a client area of size `client`.
pub fn damage_plan(
    use_gpu: bool,
    client: Rect,
    area: Rect,
    buffer_len: usize,
    damage: &[Rect],
) -> (r: DamagePlan)
    requires
        area.x == 0,
        area.y == 0,
        area.width * area.height <= usize::MAX,
    ensures
        use_gpu || damage@.len() == 0 ==> r == DamagePlan::Whole(
            present_plan_spec(use_gpu, client, area, buffer_len),
        ),
        !use_gpu && damage@.len() != 0 && (client.width == 0 || client.height == 0 || area.width
            == 0 || area.height == 0 || buffer_len == 0) ==> r == DamagePlan::Skip,
        !use_gpu && damage@.len() != 0 && present_plan_spec(use_gpu, client, area, buffer_len)
            == PresentPlan::Stretch && (client.width != area.width || client.height
            != area.height) ==> r == DamagePlan::Whole(PresentPlan::Stretch),
        !use_gpu && damage@.len() != 0 && present_plan_spec(use_gpu, client, area, buffer_len)
            == PresentPlan::Stretch && client.width == area.width && client.height
            == area.height ==> (r matches DamagePlan::Strips(strips) && strips@ == damage_strips(
            damage@,
            area,
        )),
{
    if use_gpu || damage.len() == 0 {
        return DamagePlan::Whole(present_plan(use_gpu, client, area, buffer_len));
    }
    if client.width == 0 || client.height == 0 || area.width == 0 || area.height == 0
        || buffer_len == 0 {
        return DamagePlan::Skip;
    }
    if client.width != area.width || client.height != area.height {
        return DamagePlan::Whole(present_plan(use_gpu, client, area, buffer_len));
    }
    let mut strips: Vec<DamageStrip> = Vec::new();
    let n = damage.len();
    let mut k: usize = 0;
    while k < n
        invariant
            k <= n,
            n == damage@.len(),
            area.x == 0,
            area.y == 0,
            area.width * area.height <= usize::MAX,
            strips@ == damage_strips(damage@.take(k as int), area),
        decreases n - k,
    {
        let rect = damage[k].intersection(area);
        assert(damage@.take(k + 1).drop_last() =~= damage@.take(k as int));
        if !rect.is_empty() {
            proof {
                lemma_clipped_row_in_area(damage@[k as int], area);
            }
            let offset = rect.y as usize * area.width as usize;
            strips.push(DamageStrip { rect, offset });
        }
        k = k + 1;
    }
    assert(damage@.take(n as int) =~= damage@);
    DamagePlan::Strips(strips)
}

/// A damaged rectangle clipped to a framebuffer at the origin lies inside it.
proof fn lemma_clipped_row_in_area(d: Rect, area: Rect)
    requires
        area.x == 0,
        area.y == 0,
        area.width * area.height <= usize::MAX,
        !d.intersection_spec(area).is_empty_spec(),
    ensures
        0 <= d.intersection_spec(area).x,
        0 <= d.intersection_spec(area).y,
        d.intersection_spec(area).x + d.intersection_spec(area).width <= area.width,
        d.intersection_spec(area).y + d.intersection_spec(area).height <= area.height,
        0 < d.intersection_spec(area).height,
        0 < area.width,
        d.intersection_spec(area).y * area.width <= area.width * area.height,
        (d.intersection_spec(area).y + d.intersection_spec(area).height) * area.width
            <= area.width * area.height,
{
    let r = d.intersection_spec(area);
    assert(r.y * area.width <= area.width * area.height) by (nonlinear_arith)
        requires
            0 <= r.y < area.height,
            0 < area.width,
    ;
    assert((r.y + r.height) * area.width <= area.width * area.height) by (nonlinear_arith)
        requires
            0 <= r.y + r.height <= area.height,
            0 < area.width,
    ;
}

/// Every strip of a damage plan lies inside the framebuffer: its rectangle is
/// inside the area, and the rows it reads end within the area's pixels.
pub proof fn lemma_damage_strips_in_bounds(damage: Seq<Rect>, area: Rect, j: int)
    requires
        area.x == 0,
        area.y == 0,
        area.width * area.height <= usize::MAX,
        0 <= j < damage_strips(damage, area).len(),
    ensures
        0 <= damage_strips(damage, area)[j].rect.x,
        0 <= damage_strips(damage, area)[j].rect.y,
        damage_strips(damage, area)[j].rect.x + damage_strips(damage, area)[j].rect.width
            <= area.width,
        damage_strips(damage, area)[j].offset == damage_strips(damage, area)[j].rect.y
            * area.width,
        damage_strips(damage, area)[j].offset + damage_strips(damage, area)[j].rect.height
            * area.width <= area.width * area.height,
    decreases damage.len(),
{
    let before = damage_strips(damage.drop_last(), area);
    if j < before.len() {
        lemma_damage_strips_in_bounds(damage.drop_last(), area, j);
    } else {
        let d = damage.last();
        let r = d.intersection_spec(area);
        lemma_clipped_row_in_area(d, area);
        assert(r.y * area.width + r.height * area.width == (r.y + r.height) * area.width)
            by (nonlinear_arith);
    }
}

/// A key-down message for a virtual-key code below the key table's size marks
/// that code's key held and pressed; the matching key-up marks it up again.
pub proof fn lemma_key_messages_track_code<P>(
    v: InputView<P>,
    vk: u16,
    lparam: isize,
    caption_height: i32,
    pointer: P,
    modifiers: Modifiers,
)
    requires
        v.wf(),
        vk < crate::input::KEY_COUNT,
    ensures
        ({
            let down = message_input_effect(
                v,
                classify_message_spec(WM_KEYDOWN, vk as usize, lparam, caption_height),
                pointer,
                modifiers,
            );
            &&& down.is_down(from_windows_vk_spec(vk))
            &&& down.pressed(from_windows_vk_spec(vk))
            &&& down.keys_down[vk as int]
            &&& down.modifiers == modifiers
            &&& !message_input_effect(
                down,
                classify_message_spec(WM_KEYUP, vk as usize, lparam, caption_height),
                pointer,
                modifiers,
            ).is_down(from_windows_vk_spec(vk))
        }),
{
    crate::keys::lemma_windows_vk_round_trip(vk);
    assert((vk as usize) as u16 == vk);
}

/// A left-button press message with the pointer at `p`, followed by the release
/// message with the pointer at `q`, reports a left click from `p` to `q`.
pub proof fn lemma_left_click_messages<P>(
    v: InputView<P>,
    wparam_down: usize,
    wparam_up: usize,
    lparam: isize,
    caption_height: i32,
    p: P,
    q: P,
    modifiers: Modifiers,
)
    requires
        v.wf(),
        !v.mouse_down(Mouse::Left),
    ensures
        message_input_effect(
            message_input_effect(
                v,
                classify_message_spec(WM_LBUTTONDOWN, wparam_down, lparam, caption_height),
                p,
                modifiers,
            ),
            classify_message_spec(WM_LBUTTONUP, wparam_up, lparam, caption_height),
            q,
            modifiers,
        ).click_positions(Mouse::Left) == Some((p, q)),
{
}

/// Each mouse-button message names its button: `0x0201`..`0x0203` the left one,
/// `0x0204`..`0x0206` the right one, `0x0207`..`0x0209` the middle one, and the
/// extra-button messages `0x020B`..`0x020D` the back or forward button by the
/// high word of `WPARAM` (1 or 2). A press message is a double click exactly
/// when it is the `DBLCLK` one, and a release lets the mouse go exactly when
/// `WPARAM` reports none of the five buttons (`0x73`) held.
pub proof fn lemma_button_messages_name_their_button(wparam: usize, lparam: isize, caption_height: i32)
    ensures
        classify_message_spec(0x0201, wparam, lparam, caption_height) == (WindowMessage::ButtonDown {
            button: Mouse::Left,
            double: false,
        }),
        classify_message_spec(0x0203, wparam, lparam, caption_height) == (WindowMessage::ButtonDown {
            button: Mouse::Left,
            double: true,
        }),
        classify_message_spec(0x0204, wparam, lparam, caption_height) == (WindowMessage::ButtonDown {
            button: Mouse::Right,
            double: false,
        }),
        classify_message_spec(0x0206, wparam, lparam, caption_height) == (WindowMessage::ButtonDown {
            button: Mouse::Right,
            double: true,
        }),
        classify_message_spec(0x0207, wparam, lparam, caption_height) == (WindowMessage::ButtonDown {
            button: Mouse::Middle,
            double: false,
        }),
        classify_message_spec(0x0209, wparam, lparam, caption_height) == (WindowMessage::ButtonDown {
            button: Mouse::Middle,
            double: true,
        }),
        classify_message_spec(0x0202, wparam, lparam, caption_height) == (WindowMessage::ButtonUp {
            released: Some(Mouse::Left),
            release_capture: (wparam as u32) & 0x73 == 0,
        }),
        classify_message_spec(0x0205, wparam, lparam, caption_height) == (WindowMessage::ButtonUp {
            released: Some(Mouse::Right),
            release_capture: (wparam as u32) & 0x73 == 0,
        }),
        classify_message_spec(0x0208, wparam, lparam, caption_height) == (WindowMessage::ButtonUp {
            released: Some(Mouse::Middle),
            release_capture: (wparam as u32) & 0x73 == 0,
        }),
        high_word(wparam) == 1 ==> classify_message_spec(0x020B, wparam, lparam, caption_height)
            == (WindowMessage::ButtonDown { button: Mouse::Back, double: false }),
        high_word(wparam) == 2 ==> classify_message_spec(0x020D, wparam, lparam, caption_height)
            == (WindowMessage::ButtonDown { button: Mouse::Forward, double: true }),
        high_word(wparam) == 1 ==> classify_message_spec(0x020C, wparam, lparam, caption_height)
            == (WindowMessage::ButtonUp {
            released: Some(Mouse::Back),
            release_capture: (wparam as u32) & 0x73 == 0,
        }),
        high_word(wparam) == 2 ==> classify_message_spec(0x020C, wparam, lparam, caption_height)
            == (WindowMessage::ButtonUp {
            released: Some(Mouse::Forward),
            release_capture: (wparam as u32) & 0x73 == 0,
        }),
{
    assert((1u32 | 2u32 | 0x10u32 | 0x20u32 | 0x40u32) == 0x73u32) by (bit_vector);
}

/// A press message of the left, right or middle button with the pointer at `p`,
/// then the release message of the same button with the pointer at `q`, leaves
/// that button up, reports it released, and reports a click from `p` to `q`.
pub proof fn lemma_click_messages<P>(
    v: InputView<P>,
    button: Mouse,
    down: u32,
    up: u32,
    wparam_down: usize,
    wparam_up: usize,
    lparam: isize,
    caption_height: i32,
    p: P,
    q: P,
    modifiers: Modifiers,
)
    requires
        v.wf(),
        !v.mouse_down(button),
        (button == Mouse::Left && down == 0x0201 && up == 0x0202) || (button == Mouse::Right && down
            == 0x0204 && up == 0x0205) || (button == Mouse::Middle && down == 0x0207 && up == 0x0208),
    ensures
        ({
            let pressed = message_input_effect(
                v,
                classify_message_spec(down, wparam_down, lparam, caption_height),
                p,
                modifiers,
            );
            let released = message_input_effect(
                pressed,
                classify_message_spec(up, wparam_up, lparam, caption_height),
                q,
                modifiers,
            );
            &&& pressed.mouse_down(button)
            &&& !released.mouse_down(button)
            &&& released.mouse_released(button)
            &&& released.click_positions(button) == Some((p, q))
        }),
{
    lemma_button_messages_name_their_button(wparam_down, lparam, caption_height);
    lemma_button_messages_name_their_button(wparam_up, lparam, caption_height);
}

/// The resize code under a point names the sides the point is near, `left`
/// meaning within `border` of the left edge, and so on: a code with a left side
/// (10, 13, 16) exactly when it is near the left, one with a right side (11, 14,
/// 17) exactly when near the right and not the left, one with a top (12, 13, 14)
/// exactly when near the top, one with a bottom (15, 16, 17) exactly when near
/// the bottom and not the top, and none where it is near no side.
pub proof fn lemma_resize_edge_names_near_sides(x: i32, y: i32, width: i32, height: i32, border: i32)
    ensures
        ({
            let r = resize_edge_spec(x, y, width, height, border);
            let left = x < border;
            let right = x >= width - border;
            let top = y < border;
            let bottom = y >= height - border;
            &&& (r is None) == !(left || right || top || bottom)
            &&& (r == Some(10isize) || r == Some(13isize) || r == Some(16isize)) == left
            &&& (r == Some(11isize) || r == Some(14isize) || r == Some(17isize)) == (right && !left)
            &&& (r == Some(12isize) || r == Some(13isize) || r == Some(14isize)) == top
            &&& (r == Some(15isize) || r == Some(16isize) || r == Some(17isize)) == (bottom && !top)
        }),
{
}

/// The strip that a damaged rectangle overlapping the framebuffer yields.
proof fn lemma_damage_strip_of(damage: Seq<Rect>, area: Rect, k: int) -> (j: int)
    requires
        area.x == 0,
        area.y == 0,
        area.width * area.height <= usize::MAX,
        0 <= k < damage.len(),
        !damage[k].intersection_spec(area).is_empty_spec(),
    ensures
        0 <= j < damage_strips(damage, area).len(),
        damage_strips(damage, area)[j].rect == damage[k].intersection_spec(area),
        damage_strips(damage, area)[j].offset == damage[k].intersection_spec(area).y * area.width,
    decreases damage.len(),
{
    let prefix = damage.drop_last();
    let before = damage_strips(prefix, area);
    if k < damage.len() - 1 {
        assert(prefix[k] == damage[k]);
        let j = lemma_damage_strip_of(prefix, area, k);
        j
    } else {
        lemma_clipped_row_in_area(damage[k], area);
        before.len() as int
    }
}

/// The damaged rectangle that a strip is the part of.
proof fn lemma_damage_strip_source(damage: Seq<Rect>, area: Rect, j: int) -> (k: int)
    requires
        0 <= j < damage_strips(damage, area).len(),
    ensures
        0 <= k < damage.len(),
        damage[k].intersection_spec(area) == damage_strips(damage, area)[j].rect,
        !damage[k].intersection_spec(area).is_empty_spec(),
    decreases damage.len(),
{
    let prefix = damage.drop_last();
    let before = damage_strips(prefix, area);
    if j < before.len() {
        let k = lemma_damage_strip_source(prefix, area, j);
        assert(prefix[k] == damage[k]);
        k
    } else {
        damage.len() - 1
    }
}

/// Every damaged rectangle that overlaps the framebuffer yields a strip of
/// exactly its part inside the framebuffer, starting at the pixel index of that
/// part's first row.
pub proof fn lemma_damage_strips_cover(damage: Seq<Rect>, area: Rect)
    requires
        area.x == 0,
        area.y == 0,
        area.width * area.height <= usize::MAX,
    ensures
        forall|k: int|
            0 <= k < damage.len() && !(#[trigger] damage[k].intersection_spec(area)).is_empty_spec()
                ==> exists|j: int|
                0 <= j < damage_strips(damage, area).len() && #[trigger] damage_strips(
                    damage,
                    area,
                )[j].rect == damage[k].intersection_spec(area) && damage_strips(damage, area)[j].offset
                    == damage[k].intersection_spec(area).y * area.width,
{
    assert forall|k: int|
        0 <= k < damage.len() && !(#[trigger] damage[k].intersection_spec(area)).is_empty_spec()
        implies exists|j: int|
        0 <= j < damage_strips(damage, area).len() && #[trigger] damage_strips(damage, area)[j].rect
            == damage[k].intersection_spec(area) && damage_strips(damage, area)[j].offset
            == damage[k].intersection_spec(area).y * area.width by {
        let j = lemma_damage_strip_of(damage, area, k);
    }
}

/// Every strip of a damage plan is the part inside the framebuffer of one of the
/// damaged rectangles, a part that is not empty.
pub proof fn lemma_damage_strips_are_clips(damage: Seq<Rect>, area: Rect)
    ensures
        forall|j: int|
            0 <= j < damage_strips(damage, area).len() ==> exists|k: int|
                0 <= k < damage.len() && #[trigger] damage[k].intersection_spec(area) == (
                #[trigger] damage_strips(damage, area)[j]).rect && !damage[k].intersection_spec(
                    area,
                ).is_empty_spec(),
{
    assert forall|j: int| 0 <= j < damage_strips(damage, area).len() implies exists|k: int|
        0 <= k < damage.len() && #[trigger] damage[k].intersection_spec(area) == (
        #[trigger] damage_strips(damage, area)[j]).rect && !damage[k].intersection_spec(
            area,
        ).is_empty_spec() by {
        let k = lemma_damage_strip_source(damage, area, j);
    }
}

} // verus!
