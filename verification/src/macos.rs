//! The AppKit side of the window: the event values that the platform layer reads
//! from the system, and the decisions it takes on them.
#![allow(non_upper_case_globals)]

use vstd::prelude::*;

use crate::input::{is_text_char, InputState, InputView};
use crate::keys::{from_macos_keycode_spec, Key};
use crate::types::{CursorIcon, Modifiers, Mouse, ScrollPhase, WindowStyle};

verus! {

pub const NSWindowStyleMaskBorderless: usize = 0;
pub const NSWindowStyleMaskTitled: usize = 1;
pub const NSWindowStyleMaskClosable: usize = 2;
pub const NSWindowStyleMaskMiniaturizable: usize = 4;
pub const NSWindowStyleMaskResizable: usize = 8;
pub const NSWindowStyleMaskFullScreen: usize = 0x4000;
pub const NSWindowStyleMaskFullSizeContentView: usize = 0x8000;
pub const NSBackingStoreBuffered: usize = 2;
pub const NSEventTypeLeftMouseDown: usize = 1;
pub const NSEventTypeLeftMouseUp: usize = 2;
pub const NSEventTypeRightMouseDown: usize = 3;
pub const NSEventTypeRightMouseUp: usize = 4;
pub const NSEventTypeMouseMoved: usize = 5;
pub const NSEventTypeLeftMouseDragged: usize = 6;
pub const NSEventTypeRightMouseDragged: usize = 7;
pub const NSEventTypeKeyDown: usize = 10;
pub const NSEventTypeKeyUp: usize = 11;
pub const NSEventTypeScrollWheel: usize = 22;
pub const NSEventTypeOtherMouseDown: usize = 25;
pub const NSEventTypeOtherMouseUp: usize = 26;
pub const NSEventTypeOtherMouseDragged: usize = 27;
pub const NSEventMaskAny: u64 = 0xFFFF_FFFF_FFFF_FFFF;
pub const NSApplicationActivationPolicyRegular: isize = 0;
pub const NSEventPhaseNone: usize = 0;
pub const NSEventPhaseBegan: usize = 1;
pub const NSEventPhaseStationary: usize = 2;
pub const NSEventPhaseChanged: usize = 4;
pub const NSEventPhaseEnded: usize = 8;
pub const NSEventPhaseCancelled: usize = 16;
pub const NSEventPhaseMayBegin: usize = 32;
/// The modifier-flag bits of Shift, Control, Option and Command.
pub const NSEventModifierFlagShift: usize = 0x20000;
pub const NSEventModifierFlagControl: usize = 0x40000;
pub const NSEventModifierFlagOption: usize = 0x80000;
pub const NSEventModifierFlagCommand: usize = 0x100000;

/// The modifiers that an event's modifier flags report.
pub open spec fn parse_modifiers_spec(flags: usize) -> Modifiers {
    Modifiers {
        shift: flags & NSEventModifierFlagShift != 0,
        ctrl: flags & NSEventModifierFlagControl != 0,
        alt: flags & NSEventModifierFlagOption != 0,
        logo: flags & NSEventModifierFlagCommand != 0,
    }
}

pub fn parse_modifiers(flags: usize) -> (r: Modifiers)
    ensures
        r == parse_modifiers_spec(flags),
{
    Modifiers {
        shift: (flags & NSEventModifierFlagShift) != 0,
        ctrl: (flags & NSEventModifierFlagControl) != 0,
        alt: (flags & NSEventModifierFlagOption) != 0,
        logo: (flags & NSEventModifierFlagCommand) != 0,
    }
}

/// Each modifier is read from its own bit of the flags: Shift from bit 17,
/// Control from bit 18, Option from bit 19 and Command from bit 20; no other bit
/// matters.
pub proof fn lemma_modifier_flag_bits(flags: usize)
    ensures
        parse_modifiers_spec(flags).shift == ((flags >> 17usize) & 1 == 1),
        parse_modifiers_spec(flags).ctrl == ((flags >> 18usize) & 1 == 1),
        parse_modifiers_spec(flags).alt == ((flags >> 19usize) & 1 == 1),
        parse_modifiers_spec(flags).logo == ((flags >> 20usize) & 1 == 1),
        parse_modifiers_spec(flags) == parse_modifiers_spec(flags & 0x1E0000),
{
    assert(((flags & 0x20000) != 0) == ((flags >> 17usize) & 1 == 1)) by (bit_vector);
    assert(((flags & 0x40000) != 0) == ((flags >> 18usize) & 1 == 1)) by (bit_vector);
    assert(((flags & 0x80000) != 0) == ((flags >> 19usize) & 1 == 1)) by (bit_vector);
    assert(((flags & 0x100000) != 0) == ((flags >> 20usize) & 1 == 1)) by (bit_vector);
    assert(((flags & 0x20000) != 0) == (((flags & 0x1E0000) & 0x20000) != 0)) by (bit_vector);
    assert(((flags & 0x40000) != 0) == (((flags & 0x1E0000) & 0x40000) != 0)) by (bit_vector);
    assert(((flags & 0x80000) != 0) == (((flags & 0x1E0000) & 0x80000) != 0)) by (bit_vector);
    assert(((flags & 0x100000) != 0) == (((flags & 0x1E0000) & 0x100000) != 0)) by (bit_vector);
}

/// What the event translation does with an event of a type.
#[derive(Debug, Clone, Copy, PartialEq, Eq, Structural)]
pub enum EventKind {
    KeyDown,
    KeyUp,
    ButtonDown,
    ButtonUp,
    Moved,
    Dragged,
    Scroll,
    Other,
}

pub open spec fn event_kind_spec(event_type: usize) -> EventKind {
    if event_type == NSEventTypeKeyDown {
        EventKind::KeyDown
    } else if event_type == NSEventTypeKeyUp {
        EventKind::KeyUp
    } else if event_type == NSEventTypeLeftMouseDown || event_type == NSEventTypeRightMouseDown
        || event_type == NSEventTypeOtherMouseDown {
        EventKind::ButtonDown
    } else if event_type == NSEventTypeLeftMouseUp || event_type == NSEventTypeRightMouseUp
        || event_type == NSEventTypeOtherMouseUp {
        EventKind::ButtonUp
    } else if event_type == NSEventTypeMouseMoved {
        EventKind::Moved
    } else if event_type == NSEventTypeLeftMouseDragged || event_type
        == NSEventTypeRightMouseDragged || event_type == NSEventTypeOtherMouseDragged {
        EventKind::Dragged
    } else if event_type == NSEventTypeScrollWheel {
        EventKind::Scroll
    } else {
        EventKind::Other
    }
}

/// The kind of an event, by its `NSEventType`.
pub fn event_kind(event_type: usize) -> (r: EventKind)
    ensures
        r == event_kind_spec(event_type),
{
    if event_type == NSEventTypeKeyDown {
        EventKind::KeyDown
    } else if event_type == NSEventTypeKeyUp {
        EventKind::KeyUp
    } else if event_type == NSEventTypeLeftMouseDown || event_type == NSEventTypeRightMouseDown
        || event_type == NSEventTypeOtherMouseDown {
        EventKind::ButtonDown
    } else if event_type == NSEventTypeLeftMouseUp || event_type == NSEventTypeRightMouseUp
        || event_type == NSEventTypeOtherMouseUp {
        EventKind::ButtonUp
    } else if event_type == NSEventTypeMouseMoved {
        EventKind::Moved
    } else if event_type == NSEventTypeLeftMouseDragged || event_type
        == NSEventTypeRightMouseDragged || event_type == NSEventTypeOtherMouseDragged {
        EventKind::Dragged
    } else if event_type == NSEventTypeScrollWheel {
        EventKind::Scroll
    } else {
        EventKind::Other
    }
}

/// Whether an event of this type comes from a button other than the left and
/// right ones, whose number the event then carries.
pub fn is_other_mouse_event(event_type: usize) -> (r: bool)
    ensures
        r == (event_type == NSEventTypeOtherMouseDown || event_type == NSEventTypeOtherMouseUp
            || event_type == NSEventTypeOtherMouseDragged),
{
    event_type == NSEventTypeOtherMouseDown || event_type == NSEventTypeOtherMouseUp
        || event_type == NSEventTypeOtherMouseDragged
}

/// Whether an event of this type can start AppKit's own mouse tracking (on the
/// window frame), during which the window must keep repainting.
pub fn starts_mouse_tracking(event_type: usize) -> (r: bool)
    ensures
        r == (event_type == NSEventTypeLeftMouseDown || event_type == NSEventTypeRightMouseDown),
{
    event_type == NSEventTypeLeftMouseDown || event_type == NSEventTypeRightMouseDown
}

/// The button of a mouse event: left and right by the event type, the others by
/// the button number the event carries.
pub open spec fn mouse_from_event_spec(event_type: usize, button_number: isize) -> Option<Mouse> {
    if event_type == NSEventTypeLeftMouseDown || event_type == NSEventTypeLeftMouseUp
        || event_type == NSEventTypeLeftMouseDragged {
        Some(Mouse::Left)
    } else if event_type == NSEventTypeRightMouseDown || event_type == NSEventTypeRightMouseUp
        || event_type == NSEventTypeRightMouseDragged {
        Some(Mouse::Right)
    } else if event_type == NSEventTypeOtherMouseDown || event_type == NSEventTypeOtherMouseUp
        || event_type == NSEventTypeOtherMouseDragged {
        if button_number == 2 {
            Some(Mouse::Middle)
        } else if button_number == 3 {
            Some(Mouse::Back)
        } else if button_number == 4 {
            Some(Mouse::Forward)
        } else {
            None
        }
    } else {
        None
    }
}

pub fn mouse_from_event(event_type: usize, button_number: isize) -> (r: Option<Mouse>)
    ensures
        r == mouse_from_event_spec(event_type, button_number),
{
    if event_type == NSEventTypeLeftMouseDown || event_type == NSEventTypeLeftMouseUp
        || event_type == NSEventTypeLeftMouseDragged {
        Some(Mouse::Left)
    } else if event_type == NSEventTypeRightMouseDown || event_type == NSEventTypeRightMouseUp
        || event_type == NSEventTypeRightMouseDragged {
        Some(Mouse::Right)
    } else if event_type == NSEventTypeOtherMouseDown || event_type == NSEventTypeOtherMouseUp
        || event_type == NSEventTypeOtherMouseDragged {
        match button_number {
            2 => Some(Mouse::Middle),
            3 => Some(Mouse::Back),
            4 => Some(Mouse::Forward),
            _ => None,
        }
    } else {
        None
    }
}

/// The phase of a scroll event from its gesture phase and momentum phase: a
/// gesture reports `phase` with no momentum phase, and the two swap once the
/// fingers lift and the system carries on the fling.
pub open spec fn scroll_phase_spec(phase: usize, momentum: usize) -> ScrollPhase {
    if momentum == NSEventPhaseBegan {
        ScrollPhase::MomentumBegan
    } else if momentum == NSEventPhaseChanged {
        ScrollPhase::MomentumChanged
    } else if momentum == NSEventPhaseEnded || momentum == NSEventPhaseCancelled {
        ScrollPhase::MomentumEnded
    } else if phase == NSEventPhaseBegan || phase == NSEventPhaseMayBegin {
        ScrollPhase::Began
    } else if phase == NSEventPhaseChanged || phase == NSEventPhaseStationary {
        ScrollPhase::Changed
    } else if phase == NSEventPhaseEnded || phase == NSEventPhaseCancelled {
        ScrollPhase::Ended
    } else {
        ScrollPhase::NoPhase
    }
}

pub fn scroll_phase(phase: usize, momentum: usize) -> (r: ScrollPhase)
    ensures
        r == scroll_phase_spec(phase, momentum),
{
    match (phase, momentum) {
        (_, NSEventPhaseBegan) => ScrollPhase::MomentumBegan,
        (_, NSEventPhaseChanged) => ScrollPhase::MomentumChanged,
        (_, NSEventPhaseEnded) | (_, NSEventPhaseCancelled) => ScrollPhase::MomentumEnded,
        (NSEventPhaseBegan, _) | (NSEventPhaseMayBegin, _) => ScrollPhase::Began,
        (NSEventPhaseChanged, _) | (NSEventPhaseStationary, _) => ScrollPhase::Changed,
        (NSEventPhaseEnded, _) | (NSEventPhaseCancelled, _) => ScrollPhase::Ended,
        _ => ScrollPhase::NoPhase,
    }
}

/// The AppKit event types by number (the `NSEventType` values): key down 10 and
/// up 11; left, right and other button down 1, 3, 25, up 2, 4, 26 and dragged 6, 7,
/// 27; moved 5; scroll wheel 22. Left-button events name the left button and
/// right-button events the right one; other-button events name the button by its
/// number, 2 the middle, 3 back and 4 forward. A scroll in its momentum phase
/// reports the momentum phase (began 1, changed 4, ended 8 or cancelled 16),
/// whatever its gesture phase.
pub proof fn lemma_event_type_numbers(button_number: isize, phase: usize, momentum: usize)
    ensures
        event_kind_spec(10) == EventKind::KeyDown,
        event_kind_spec(11) == EventKind::KeyUp,
        event_kind_spec(1) == EventKind::ButtonDown && event_kind_spec(3) == EventKind::ButtonDown
            && event_kind_spec(25) == EventKind::ButtonDown,
        event_kind_spec(2) == EventKind::ButtonUp && event_kind_spec(4) == EventKind::ButtonUp
            && event_kind_spec(26) == EventKind::ButtonUp,
        event_kind_spec(6) == EventKind::Dragged && event_kind_spec(7) == EventKind::Dragged
            && event_kind_spec(27) == EventKind::Dragged,
        event_kind_spec(5) == EventKind::Moved,
        event_kind_spec(22) == EventKind::Scroll,
        mouse_from_event_spec(1, button_number) == Some(Mouse::Left) && mouse_from_event_spec(
            2,
            button_number,
        ) == Some(Mouse::Left) && mouse_from_event_spec(6, button_number) == Some(Mouse::Left),
        mouse_from_event_spec(3, button_number) == Some(Mouse::Right) && mouse_from_event_spec(
            4,
            button_number,
        ) == Some(Mouse::Right) && mouse_from_event_spec(7, button_number) == Some(Mouse::Right),
        mouse_from_event_spec(25, 2) == Some(Mouse::Middle) && mouse_from_event_spec(26, 3) == Some(
            Mouse::Back,
        ) && mouse_from_event_spec(27, 4) == Some(Mouse::Forward),
        scroll_phase_spec(phase, 1) == ScrollPhase::MomentumBegan,
        scroll_phase_spec(phase, 4) == ScrollPhase::MomentumChanged,
        scroll_phase_spec(phase, 8) == ScrollPhase::MomentumEnded && scroll_phase_spec(phase, 16)
            == ScrollPhase::MomentumEnded,
        scroll_phase_spec(1, 0) == ScrollPhase::Began && scroll_phase_spec(32, 0)
            == ScrollPhase::Began,
        scroll_phase_spec(4, 0) == ScrollPhase::Changed && scroll_phase_spec(2, 0)
            == ScrollPhase::Changed,
        scroll_phase_spec(8, 0) == ScrollPhase::Ended && scroll_phase_spec(16, 0)
            == ScrollPhase::Ended,
        scroll_phase_spec(0, 0) == ScrollPhase::NoPhase,
{
}

/// The AppKit style mask of a window style.
pub fn style_mask(style: WindowStyle) -> (r: usize)
    ensures
        r == match style {
            WindowStyle::Standard => NSWindowStyleMaskTitled | NSWindowStyleMaskClosable
                | NSWindowStyleMaskMiniaturizable | NSWindowStyleMaskResizable,
            _ => NSWindowStyleMaskBorderless,
        },
{
    match style {
        WindowStyle::Standard => NSWindowStyleMaskTitled | NSWindowStyleMaskClosable
            | NSWindowStyleMaskMiniaturizable | NSWindowStyleMaskResizable,
        WindowStyle::Borderless | WindowStyle::Transparent => NSWindowStyleMaskBorderless,
    }
}

/// The name of the `NSCursor` class method that returns the cursor for `icon`.
pub open spec fn cursor_selector_spec(icon: CursorIcon) -> Seq<char> {
    match icon {
        CursorIcon::Arrow => "arrowCursor"@,
        CursorIcon::IBeam => "IBeamCursor"@,
        CursorIcon::PointingHand => "pointingHandCursor"@,
        CursorIcon::ClosedHand => "closedHandCursor"@,
        CursorIcon::OpenHand => "openHandCursor"@,
        CursorIcon::Crosshair => "crosshairCursor"@,
        CursorIcon::ResizeLeftRight => "resizeLeftRightCursor"@,
        CursorIcon::ResizeUpDown => "resizeUpDownCursor"@,
    }
}

pub fn cursor_selector(icon: CursorIcon) -> (r: &'static str)
    ensures
        r@ == cursor_selector_spec(icon),
{
    match icon {
        CursorIcon::Arrow => "arrowCursor",
        CursorIcon::IBeam => "IBeamCursor",
        CursorIcon::PointingHand => "pointingHandCursor",
        CursorIcon::ClosedHand => "closedHandCursor",
        CursorIcon::OpenHand => "openHandCursor",
        CursorIcon::Crosshair => "crosshairCursor",
        CursorIcon::ResizeLeftRight => "resizeLeftRightCursor",
        CursorIcon::ResizeUpDown => "resizeUpDownCursor",
    }
}

/// What a key event does to the input state.
pub open spec fn key_event_effect<P>(v: InputView<P>, down: bool, keycode: u16) -> InputView<P> {
    if down {
        v.key_down(from_macos_keycode_spec(keycode))
    } else {
        v.key_up(from_macos_keycode_spec(keycode))
    }
}

/// Applies a key-down or key-up event with hardware key code `keycode`.
pub fn apply_key_event<P: Copy>(input: &mut InputState<P>, down: bool, keycode: u16)
    ensures
        final(input)@ == key_event_effect(old(input)@, down, keycode),
{
    let key = Key::from_macos_keycode(keycode);
    if down {
        input.set_key_down(key);
    } else {
        input.set_key_up(key);
    }
}

/// What a button event does to the input state: the pointer moves to the event's
/// location, and a press that the system counts as the second click or later
/// starts a double click.
pub open spec fn button_event_effect<P>(
    v: InputView<P>,
    down: bool,
    button: Option<Mouse>,
    click_count: isize,
    location: Option<P>,
) -> InputView<P> {
    let w = v.move_to(location);
    match button {
        Some(b) => if down {
            if click_count >= 2 {
                w.button_double_down(b)
            } else {
                w.button_down(b)
            }
        } else {
            w.button_up(b)
        },
        None => w,
    }
}

/// Applies a button press or release at `location`.
pub fn apply_button_event<P: Copy>(
    input: &mut InputState<P>,
    down: bool,
    button: Option<Mouse>,
    click_count: isize,
    location: Option<P>,
)
    ensures
        final(input)@ == button_event_effect(old(input)@, down, button, click_count, location),
{
    input.set_mouse_pos(location);
    if let Some(b) = button {
        if down {
            if click_count >= 2 {
                input.set_mouse_double_down(b);
            } else {
                input.set_mouse_down(b);
            }
        } else {
            input.set_mouse_up(b);
        }
    }
}

/// What a drag event does to the input state: the pointer moves, and the dragging
/// button counts as held.
pub open spec fn drag_event_effect<P>(v: InputView<P>, button: Option<Mouse>, location: Option<P>) -> InputView<P> {
    match button {
        Some(b) => v.move_to(location).button_down(b),
        None => v.move_to(location),
    }
}

/// Applies a drag of `button` to `location`.
pub fn apply_drag_event<P: Copy>(input: &mut InputState<P>, button: Option<Mouse>, location: Option<P>)
    ensures
        final(input)@ == drag_event_effect(old(input)@, button, location),
{
    input.set_mouse_pos(location);
    if let Some(b) = button {
        input.set_mouse_down(b);
    }
}

/// An AppKit event as the event translation reads it: the fields that matter for
/// its kind, read from the event by the platform layer.
#[derive(Debug)]
pub enum MacEvent<P> {
    /// A key went down; `characters` are the characters the event produced.
    KeyDown { key_code: u16, characters: Vec<char> },
    KeyUp { key_code: u16 },
    /// A button went down; `click_count` is the system's count of quick clicks.
    ButtonDown { button: Option<Mouse>, click_count: isize, location: Option<P> },
    ButtonUp { button: Option<Mouse>, location: Option<P> },
    Dragged { button: Option<Mouse>, location: Option<P> },
    Moved { location: Option<P> },
    Scroll { location: Option<P> },
    Other,
}

/// The characters that text input keeps from `chars`, in order: all but the
/// control characters.
pub open spec fn typed_text(chars: Seq<char>) -> Seq<char> {
    chars.filter(|c: char| is_text_char(c))
}

/// What an event with modifier flags `modifier_flags` does to the input state.
/// Every event reports the modifiers; a key-down also types the characters it
/// produced, all but the control characters, after the text typed before.
pub open spec fn mac_event_effect<P>(v: InputView<P>, modifier_flags: usize, event: MacEvent<P>) -> InputView<P> {
    let w = v.with_modifiers(parse_modifiers_spec(modifier_flags));
    match event {
        MacEvent::KeyDown { key_code, characters } => {
            let k = key_event_effect(w, true, key_code);
            InputView { text_input: k.text_input + typed_text(characters@), ..k }
        },
        MacEvent::KeyUp { key_code } => key_event_effect(w, false, key_code),
        MacEvent::ButtonDown { button, click_count, location } => button_event_effect(
            w,
            true,
            button,
            click_count,
            location,
        ),
        MacEvent::ButtonUp { button, location } => button_event_effect(w, false, button, 0, location),
        MacEvent::Dragged { button, location } => drag_event_effect(w, button, location),
        MacEvent::Moved { location } => w.move_to(location),
        MacEvent::Scroll { location } => w.move_to(location),
        MacEvent::Other => w,
    }
}

/// Types each of `characters` in order; control characters are dropped.
fn type_characters<P: Copy>(input: &mut InputState<P>, characters: &Vec<char>)
    ensures
        final(input)@ == (InputView {
            text_input: old(input)@.text_input + typed_text(characters@),
            ..old(input)@
        }),
{
    let ghost start = input@;
    let mut i: usize = 0;
    while i < characters.len()
        invariant
            i <= characters.len(),
            input@ == (InputView {
                text_input: start.text_input + typed_text(characters@.subrange(0, i as int)),
                ..start
            }),
        decreases characters.len() - i,
    {
        let c = characters[i];
        input.push_text(c);
        proof {
            let done = characters@.subrange(0, i as int);
            let next = characters@.subrange(0, i + 1);
            assert(next.drop_last() =~= done);
            assert(next.last() == c);
            reveal(Seq::filter);
            assert(typed_text(next) == if is_text_char(c) {
                typed_text(done).push(c)
            } else {
                typed_text(done)
            });
            assert(input@ =~= (InputView {
                text_input: start.text_input + typed_text(next),
                ..start
            }));
        }
        i = i + 1;
    }
    proof {
        assert(characters@.subrange(0, characters@.len() as int) =~= characters@);
    }
}

/// Applies one event to the input state: its modifier flags, then what its kind
/// does.
pub fn apply_event<P: Copy>(input: &mut InputState<P>, modifier_flags: usize, event: &MacEvent<P>)
    ensures
        final(input)@ == mac_event_effect(old(input)@, modifier_flags, *event),
{
    input.set_modifiers(parse_modifiers(modifier_flags));
    match event {
        MacEvent::KeyDown { key_code, characters } => {
            apply_key_event(input, true, *key_code);
            type_characters(input, characters);
        },
        MacEvent::KeyUp { key_code } => {
            apply_key_event(input, false, *key_code);
        },
        MacEvent::ButtonDown { button, click_count, location } => {
            apply_button_event(input, true, *button, *click_count, *location);
        },
        MacEvent::ButtonUp { button, location } => {
            apply_button_event(input, false, *button, 0, *location);
        },
        MacEvent::Dragged { button, location } => {
            apply_drag_event(input, *button, *location);
        },
        MacEvent::Moved { location } => {
            input.set_mouse_pos(*location);
        },
        MacEvent::Scroll { location } => {
            input.set_mouse_pos(*location);
        },
        MacEvent::Other => {},
    }
}

/// How the display-link callback wakes a thread waiting for the next vertical sync.
#[derive(Debug, Clone, Copy, PartialEq, Eq, Structural)]
pub enum VsyncMode {
    /// Signal on every display tick. Idle periods bank signals on the counting
    /// semaphore, so the next stretch of waits returns in a burst.
    AlwaysSignal,
    /// Signal only when a waiter has armed. Idle ticks are ignored.
    ArmGated,
}

/// Whether a wait arms the waiter flag before it blocks.
pub fn arms_on_wait(mode: VsyncMode) -> (r: bool)
    ensures
        r == (mode == VsyncMode::ArmGated),
{
    match mode {
        VsyncMode::AlwaysSignal => false,
        VsyncMode::ArmGated => true,
    }
}

/// Whether a display tick takes the arm (resets it) when it reads it.
pub fn tick_disarms(mode: VsyncMode) -> (r: bool)
    ensures
        r == (mode == VsyncMode::ArmGated),
{
    match mode {
        VsyncMode::AlwaysSignal => false,
        VsyncMode::ArmGated => true,
    }
}

/// Whether a display tick signals the waiter, given whether the waiter flag was armed.
pub open spec fn tick_signals_spec(mode: VsyncMode, armed: bool) -> bool {
    match mode {
        VsyncMode::AlwaysSignal => true,
        VsyncMode::ArmGated => armed,
    }
}

pub fn tick_signals(mode: VsyncMode, armed: bool) -> (r: bool)
    ensures
        r == tick_signals_spec(mode, armed),
{
    match mode {
        VsyncMode::AlwaysSignal => true,
        VsyncMode::ArmGated => armed,
    }
}

/// The arm after a display tick that found it `armed`.
pub open spec fn armed_after_tick(mode: VsyncMode, armed: bool) -> bool {
    if mode == VsyncMode::ArmGated {
        false
    } else {
        armed
    }
}

/// In the arm-gated mode a tick signals only an armed waiter, and then disarms,
/// so each wait is answered by at most one signal however many ticks pass; in the
/// always-signal mode every tick signals.
pub proof fn lemma_vsync_signals(mode: VsyncMode, armed: bool)
    ensures
        mode == VsyncMode::ArmGated ==> (tick_signals_spec(mode, armed) == armed
            && !tick_signals_spec(mode, armed_after_tick(mode, armed))),
        mode == VsyncMode::AlwaysSignal ==> tick_signals_spec(mode, armed),
{
}

/// What happens in the vertical-sync handshake: a wait begins (and, in the
/// arm-gated mode, arms the waiter flag), the display ticks, or the waiter polls
/// the semaphore, taking a permit where there is one.
pub enum VsyncEvent {
    WaitBegins,
    Tick,
    Poll,
}

/// The shared state of the handshake: the waiter flag and the count of the
/// semaphore.
pub struct VsyncHandshake {
    pub armed: bool,
    pub permits: nat,
}

/// The handshake after one event.
pub open spec fn vsync_step(mode: VsyncMode, s: VsyncHandshake, e: VsyncEvent) -> VsyncHandshake {
    match e {
        VsyncEvent::WaitBegins => VsyncHandshake {
            armed: if mode == VsyncMode::ArmGated {
                true
            } else {
                s.armed
            },
            permits: s.permits,
        },
        VsyncEvent::Tick => VsyncHandshake {
            armed: armed_after_tick(mode, s.armed),
            permits: if tick_signals_spec(mode, s.armed) {
                s.permits + 1
            } else {
                s.permits
            },
        },
        VsyncEvent::Poll => VsyncHandshake {
            armed: s.armed,
            permits: if s.permits > 0 {
                (s.permits - 1) as nat
            } else {
                s.permits
            },
        },
    }
}

/// The handshake after a run of events.
pub open spec fn vsync_run(mode: VsyncMode, s: VsyncHandshake, events: Seq<VsyncEvent>) -> VsyncHandshake
    decreases events.len(),
{
    if events.len() == 0 {
        s
    } else {
        vsync_step(mode, vsync_run(mode, s, events.drop_last()), events.last())
    }
}

/// How many ticks of a run signal the semaphore.
pub open spec fn vsync_signals(mode: VsyncMode, s: VsyncHandshake, events: Seq<VsyncEvent>) -> nat
    decreases events.len(),
{
    if events.len() == 0 {
        0
    } else {
        let before = vsync_run(mode, s, events.drop_last());
        vsync_signals(mode, s, events.drop_last()) + if events.last() is Tick && tick_signals_spec(
            mode,
            before.armed,
        ) {
            1nat
        } else {
            0nat
        }
    }
}

/// How many polls of a run take a permit, that is, how many waits return.
pub open spec fn vsync_returns(mode: VsyncMode, s: VsyncHandshake, events: Seq<VsyncEvent>) -> nat
    decreases events.len(),
{
    if events.len() == 0 {
        0
    } else {
        let before = vsync_run(mode, s, events.drop_last());
        vsync_returns(mode, s, events.drop_last()) + if events.last() is Poll && before.permits > 0 {
            1nat
        } else {
            0nat
        }
    }
}

/// How many waits begin in a run.
pub open spec fn wait_count(events: Seq<VsyncEvent>) -> nat
    decreases events.len(),
{
    if events.len() == 0 {
        0
    } else {
        wait_count(events.drop_last()) + if events.last() is WaitBegins {
            1nat
        } else {
            0nat
        }
    }
}

/// Whether the waiter is inside a wait after a run that began outside one: a wait
/// begins, and ends with the poll that takes a permit.
pub open spec fn waiter_busy(mode: VsyncMode, s: VsyncHandshake, events: Seq<VsyncEvent>) -> bool
    decreases events.len(),
{
    if events.len() == 0 {
        false
    } else {
        let busy = waiter_busy(mode, s, events.drop_last());
        match events.last() {
            VsyncEvent::WaitBegins => true,
            VsyncEvent::Tick => busy,
            VsyncEvent::Poll => busy && vsync_run(mode, s, events.drop_last()).permits == 0,
        }
    }
}

/// The run has a single waiter: a wait begins only when the previous one has
/// returned, and only a waiter inside a wait polls.
pub open spec fn single_waiter(mode: VsyncMode, s: VsyncHandshake, events: Seq<VsyncEvent>) -> bool
    decreases events.len(),
{
    if events.len() == 0 {
        true
    } else {
        let prefix = events.drop_last();
        &&& single_waiter(mode, s, prefix)
        &&& match events.last() {
            VsyncEvent::WaitBegins => !waiter_busy(mode, s, prefix),
            VsyncEvent::Tick => true,
            VsyncEvent::Poll => waiter_busy(mode, s, prefix),
        }
    }
}

/// `n` display ticks in a row.
pub open spec fn ticks(n: nat) -> Seq<VsyncEvent> {
    Seq::new(n, |i: int| VsyncEvent::Tick)
}

/// `n` polls in a row.
pub open spec fn polls(n: nat) -> Seq<VsyncEvent> {
    Seq::new(n, |i: int| VsyncEvent::Poll)
}

/// The count of the semaphore is what it started at, plus the signals, minus the
/// waits that returned.
pub proof fn lemma_vsync_permits_balance(mode: VsyncMode, s: VsyncHandshake, events: Seq<VsyncEvent>)
    ensures
        vsync_run(mode, s, events).permits + vsync_returns(mode, s, events) == s.permits
            + vsync_signals(mode, s, events),
    decreases events.len(),
{
    if events.len() > 0 {
        lemma_vsync_permits_balance(mode, s, events.drop_last());
    }
}

/// In the arm-gated mode the display signals no more often than waits arm: over
/// any run, the signals and a flag still armed at its end are at most the waits
/// begun and a flag armed at its start. From a disarmed start, signals never
/// exceed waits.
pub proof fn lemma_arm_gated_signals_within_waits(s: VsyncHandshake, events: Seq<VsyncEvent>)
    ensures
        vsync_signals(VsyncMode::ArmGated, s, events) + (if vsync_run(
            VsyncMode::ArmGated,
            s,
            events,
        ).armed {
            1int
        } else {
            0int
        }) <= wait_count(events) + (if s.armed {
            1int
        } else {
            0int
        }),
        !s.armed ==> vsync_signals(VsyncMode::ArmGated, s, events) <= wait_count(events),
    decreases events.len(),
{
    if events.len() > 0 {
        lemma_arm_gated_signals_within_waits(s, events.drop_last());
    }
}

/// In the arm-gated mode ticks while no wait is armed are ignored: they leave the
/// handshake as it was and signal nothing, so a wait that begins after them finds
/// no banked permit and waits for the next tick.
pub proof fn lemma_arm_gated_idle_ticks_ignored(s: VsyncHandshake, n: nat)
    requires
        !s.armed,
    ensures
        vsync_run(VsyncMode::ArmGated, s, ticks(n)) == s,
        vsync_signals(VsyncMode::ArmGated, s, ticks(n)) == 0,
        vsync_returns(VsyncMode::ArmGated, s, ticks(n)) == 0,
        s.permits == 0 ==> vsync_returns(
            VsyncMode::ArmGated,
            s,
            ticks(n) + seq![VsyncEvent::WaitBegins, VsyncEvent::Poll],
        ) == 0,
    decreases n,
{
    if n > 0 {
        lemma_arm_gated_idle_ticks_ignored(s, (n - 1) as nat);
        assert(ticks(n).drop_last() =~= ticks((n - 1) as nat));
    }
    let run = ticks(n) + seq![VsyncEvent::WaitBegins, VsyncEvent::Poll];
    let begun = ticks(n).push(VsyncEvent::WaitBegins);
    assert(run.drop_last() =~= begun);
    assert(begun.drop_last() =~= ticks(n));
    assert(vsync_run(VsyncMode::ArmGated, s, begun.drop_last()) == s);
    assert(vsync_returns(VsyncMode::ArmGated, s, begun.drop_last()) == 0);
    assert(vsync_run(VsyncMode::ArmGated, s, begun).permits == s.permits);
    assert(vsync_returns(VsyncMode::ArmGated, s, begun) == 0);
}

/// In the arm-gated mode with a single waiter, the semaphore never holds more
/// than one permit: outside a wait it holds none and the flag is down, and inside
/// one the flag and the permits together count one.
pub proof fn lemma_arm_gated_single_permit(s: VsyncHandshake, events: Seq<VsyncEvent>)
    requires
        !s.armed,
        s.permits == 0,
        single_waiter(VsyncMode::ArmGated, s, events),
    ensures
        vsync_run(VsyncMode::ArmGated, s, events).permits <= 1,
        !waiter_busy(VsyncMode::ArmGated, s, events) ==> vsync_run(VsyncMode::ArmGated, s, events).permits == 0
            && !vsync_run(VsyncMode::ArmGated, s, events).armed,
        waiter_busy(VsyncMode::ArmGated, s, events) ==> vsync_run(VsyncMode::ArmGated, s, events).permits + (
        if vsync_run(VsyncMode::ArmGated, s, events).armed {
            1int
        } else {
            0int
        }) == 1,
    decreases events.len(),
{
    if events.len() > 0 {
        lemma_arm_gated_single_permit(s, events.drop_last());
    }
}

/// In the always-signal mode every tick signals, whatever the waiter flag holds:
/// `n` idle ticks bank `n` permits and leave the flag as it was, so the next `n`
/// waits all return without waiting for a tick.
pub proof fn lemma_always_signal_burst(s: VsyncHandshake, n: nat)
    ensures
        vsync_run(VsyncMode::AlwaysSignal, s, ticks(n)).permits == s.permits + n,
        vsync_run(VsyncMode::AlwaysSignal, s, ticks(n)).armed == s.armed,
        vsync_signals(VsyncMode::AlwaysSignal, s, ticks(n)) == n,
        vsync_returns(VsyncMode::AlwaysSignal, vsync_run(VsyncMode::AlwaysSignal, s, ticks(n)), polls(n))
            == n,
    decreases n,
{
    if n > 0 {
        lemma_always_signal_burst(s, (n - 1) as nat);
        assert(ticks(n).drop_last() =~= ticks((n - 1) as nat));
    }
    lemma_polls_take_permits(vsync_run(VsyncMode::AlwaysSignal, s, ticks(n)), n);
}

/// `n` polls with at least `n` permits all take one.
proof fn lemma_polls_take_permits(s: VsyncHandshake, n: nat)
    requires
        n <= s.permits,
    ensures
        vsync_returns(VsyncMode::AlwaysSignal, s, polls(n)) == n,
        vsync_run(VsyncMode::AlwaysSignal, s, polls(n)).permits == s.permits - n,
    decreases n,
{
    if n > 0 {
        lemma_polls_take_permits(s, (n - 1) as nat);
        assert(polls(n).drop_last() =~= polls((n - 1) as nat));
    }
}

/// The row length in bytes and the total length in bytes of a framebuffer of
/// 32-bit pixels that is `width` pixels wide and holds `len` pixels, or `None`
/// where there is nothing to present: the window renders on the GPU, or the
/// framebuffer is empty.
pub fn present_layout(use_gpu: bool, width: usize, height: usize, len: usize) -> (r: Option<(usize, usize)>)
    requires
        width * 4 <= usize::MAX,
        len * 4 <= usize::MAX,
    ensures
        r == if use_gpu || width == 0 || height == 0 || len == 0 {
            None::<(usize, usize)>
        } else {
            Some(((width * 4) as usize, (len * 4) as usize))
        },
{
    if use_gpu || width == 0 || height == 0 || len == 0 {
        None
    } else {
        Some((width * 4, len * 4))
    }
}

/// A press event at `p` followed by the release event at `q` reports a click from
/// `p` to `q`; where the system counted the press as a second click, it also
/// reports a double click.
pub proof fn lemma_button_events_click<P>(
    v: InputView<P>,
    button: Mouse,
    click_count: isize,
    p: P,
    q: P,
)
    requires
        v.wf(),
        !v.mouse_down(button),
    ensures
        ({
            let after = button_event_effect(
                button_event_effect(v, true, Some(button), click_count, Some(p)),
                false,
                Some(button),
                click_count,
                Some(q),
            );
            &&& after.click_positions(button) == Some((p, q))
            &&& click_count >= 2 ==> after.double_click_positions(button) == Some((p, q))
            &&& after.mouse_released(button)
        }),
{
}

} // verus!
