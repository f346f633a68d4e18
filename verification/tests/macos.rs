use lib::macos::{
    apply_button_event, apply_drag_event, apply_event, apply_key_event, arms_on_wait, cursor_selector,
    event_kind, is_other_mouse_event, mouse_from_event, present_layout, scroll_phase,
    starts_mouse_tracking, style_mask, tick_disarms, tick_signals, EventKind, MacEvent,
    NSEventPhaseBegan, NSEventPhaseCancelled, NSEventPhaseChanged, NSEventPhaseEnded,
    NSEventPhaseMayBegin, NSEventPhaseNone, NSEventPhaseStationary,
};
use lib::{
    parse_modifiers, CursorIcon, InputState, Key, Modifiers, Mouse, ScrollPhase, VsyncMode,
    WindowStyle,
};

#[test]
fn modifiers_from_flags() {
    assert_eq!(parse_modifiers(0), Modifiers::default());
    assert_eq!(
        parse_modifiers((1 << 17) | (1 << 20)),
        Modifiers { shift: true, ctrl: false, alt: false, logo: true }
    );
    assert_eq!(
        parse_modifiers((1 << 18) | (1 << 19) | 0xFF),
        Modifiers { shift: false, ctrl: true, alt: true, logo: false }
    );
}

#[test]
fn event_kinds() {
    assert_eq!(event_kind(10), EventKind::KeyDown);
    assert_eq!(event_kind(11), EventKind::KeyUp);
    assert_eq!(event_kind(1), EventKind::ButtonDown);
    assert_eq!(event_kind(26), EventKind::ButtonUp);
    assert_eq!(event_kind(5), EventKind::Moved);
    assert_eq!(event_kind(27), EventKind::Dragged);
    assert_eq!(event_kind(22), EventKind::Scroll);
    assert_eq!(event_kind(12), EventKind::Other);
    assert!(is_other_mouse_event(25));
    assert!(!is_other_mouse_event(1));
    assert!(starts_mouse_tracking(1) && starts_mouse_tracking(3));
    assert!(!starts_mouse_tracking(25));
}

#[test]
fn mouse_buttons_from_events() {
    assert_eq!(mouse_from_event(1, 0), Some(Mouse::Left));
    assert_eq!(mouse_from_event(7, 9), Some(Mouse::Right));
    assert_eq!(mouse_from_event(25, 2), Some(Mouse::Middle));
    assert_eq!(mouse_from_event(26, 3), Some(Mouse::Back));
    assert_eq!(mouse_from_event(27, 4), Some(Mouse::Forward));
    assert_eq!(mouse_from_event(25, 5), None);
    assert_eq!(mouse_from_event(22, 2), None);
}

#[test]
fn scroll_phases() {
    assert_eq!(scroll_phase(NSEventPhaseNone, NSEventPhaseNone), ScrollPhase::NoPhase);
    assert_eq!(scroll_phase(NSEventPhaseBegan, NSEventPhaseNone), ScrollPhase::Began);
    assert_eq!(scroll_phase(NSEventPhaseMayBegin, NSEventPhaseNone), ScrollPhase::Began);
    assert_eq!(scroll_phase(NSEventPhaseStationary, NSEventPhaseNone), ScrollPhase::Changed);
    assert_eq!(scroll_phase(NSEventPhaseCancelled, NSEventPhaseNone), ScrollPhase::Ended);
    assert_eq!(scroll_phase(NSEventPhaseNone, NSEventPhaseBegan), ScrollPhase::MomentumBegan);
    assert_eq!(
        scroll_phase(NSEventPhaseChanged, NSEventPhaseChanged),
        ScrollPhase::MomentumChanged
    );
    assert_eq!(scroll_phase(NSEventPhaseEnded, NSEventPhaseCancelled), ScrollPhase::MomentumEnded);
    assert!(ScrollPhase::MomentumChanged.momentum());
    assert!(!ScrollPhase::Changed.momentum());
    assert!(ScrollPhase::MomentumEnded.ended() && ScrollPhase::Ended.ended());
    assert!(!ScrollPhase::Began.ended());
    assert_eq!(ScrollPhase::default(), ScrollPhase::NoPhase);
}

#[test]
fn style_masks() {
    assert_eq!(style_mask(WindowStyle::Standard), 15);
    assert_eq!(style_mask(WindowStyle::Borderless), 0);
    assert_eq!(style_mask(WindowStyle::Transparent), 0);
}

#[test]
fn cursor_selectors() {
    assert_eq!(cursor_selector(CursorIcon::Arrow), "arrowCursor");
    assert_eq!(cursor_selector(CursorIcon::IBeam), "IBeamCursor");
    assert_eq!(cursor_selector(CursorIcon::ResizeLeftRight), "resizeLeftRightCursor");
}

#[test]
fn key_events() {
    let mut input: InputState<(f64, f64)> = InputState::new();
    apply_key_event(&mut input, true, 0);
    assert!(input.is_down(Key::Char('A')));
    assert_eq!(input.pressed_keys(), &[Key::Char('A')]);
    apply_key_event(&mut input, false, 0);
    assert!(!input.is_down(Key::Char('A')));
    apply_key_event(&mut input, true, 10);
    assert!(input.pressed(Key::Unknown(10)));
}

#[test]
fn button_events_make_clicks() {
    let mut input: InputState<(f64, f64)> = InputState::new();
    apply_button_event(&mut input, true, Some(Mouse::Left), 1, Some((1.0, 2.0)));
    apply_button_event(&mut input, false, Some(Mouse::Left), 1, Some((3.0, 4.0)));
    assert_eq!(input.mouse_click_positions(Mouse::Left), Some(((1.0, 2.0), (3.0, 4.0))));
    assert_eq!(input.mouse_double_click_positions(Mouse::Left), None);
    input.begin_frame();
    apply_button_event(&mut input, true, Some(Mouse::Left), 2, Some((5.0, 5.0)));
    apply_button_event(&mut input, false, Some(Mouse::Left), 2, Some((5.0, 6.0)));
    assert_eq!(input.mouse_double_click_positions(Mouse::Left), Some(((5.0, 5.0), (5.0, 6.0))));
}

#[test]
fn drag_events_hold_the_button() {
    let mut input: InputState<(f64, f64)> = InputState::new();
    apply_drag_event(&mut input, Some(Mouse::Right), Some((7.0, 8.0)));
    assert!(input.mouse_down(Mouse::Right));
    assert_eq!(input.mouse_pos(), Some((7.0, 8.0)));
    apply_drag_event(&mut input, None, None);
    assert_eq!(input.mouse_pos(), None);
}

#[test]
fn vsync_decisions() {
    assert!(arms_on_wait(VsyncMode::ArmGated));
    assert!(!arms_on_wait(VsyncMode::AlwaysSignal));
    assert!(tick_disarms(VsyncMode::ArmGated));
    assert!(!tick_disarms(VsyncMode::AlwaysSignal));
    assert!(tick_signals(VsyncMode::AlwaysSignal, false));
    assert!(tick_signals(VsyncMode::ArmGated, true));
    assert!(!tick_signals(VsyncMode::ArmGated, false));
}

#[test]
fn present_layouts() {
    assert_eq!(present_layout(false, 4, 3, 12), Some((16, 48)));
    assert_eq!(present_layout(true, 4, 3, 12), None);
    assert_eq!(present_layout(false, 0, 3, 12), None);
    assert_eq!(present_layout(false, 4, 3, 0), None);
}

#[test]
fn key_down_event_types_its_text() {
    let mut input: InputState<(f64, f64)> = InputState::new();
    let shift_command = (1 << 17) | (1 << 20);
    let event = MacEvent::KeyDown { key_code: 0, characters: vec!['a', '\u{7f}', 'é', '\r'] };
    apply_event(&mut input, shift_command, &event);
    assert!(input.is_down(Key::Char('A')));
    assert_eq!(input.pressed_keys(), &[Key::Char('A')]);
    assert_eq!(input.text_input(), &['a', 'é']);
    assert_eq!(input.modifiers(), Modifiers { shift: true, ctrl: false, alt: false, logo: true });
    // The next key-down types after what was typed before.
    apply_event(&mut input, 0, &MacEvent::KeyDown { key_code: 11, characters: vec!['b'] });
    assert_eq!(input.text_input(), &['a', 'é', 'b']);
    assert_eq!(input.modifiers(), Modifiers::default());
}

#[test]
fn key_up_event_types_nothing() {
    let mut input: InputState<(f64, f64)> = InputState::new();
    apply_event(&mut input, 0, &MacEvent::KeyDown { key_code: 0, characters: vec!['a'] });
    apply_event(&mut input, 1 << 18, &MacEvent::KeyUp { key_code: 0 });
    assert!(!input.is_down(Key::Char('A')));
    assert_eq!(input.text_input(), &['a']);
    assert!(input.modifiers().ctrl);
}

#[test]
fn pointer_events_through_one_entry() {
    let mut input: InputState<(f64, f64)> = InputState::new();
    let down = MacEvent::ButtonDown { button: Some(Mouse::Left), click_count: 2, location: Some((1.0, 1.0)) };
    apply_event(&mut input, 0, &down);
    apply_event(&mut input, 0, &MacEvent::ButtonUp { button: Some(Mouse::Left), location: Some((2.0, 1.0)) });
    assert_eq!(input.mouse_double_click_positions(Mouse::Left), Some(((1.0, 1.0), (2.0, 1.0))));
    apply_event(&mut input, 0, &MacEvent::Moved { location: Some((3.0, 3.0)) });
    assert_eq!(input.mouse_pos(), Some((3.0, 3.0)));
    apply_event(&mut input, 0, &MacEvent::Scroll { location: Some((4.0, 4.0)) });
    assert_eq!(input.mouse_pos(), Some((4.0, 4.0)));
    apply_event(&mut input, 0, &MacEvent::Dragged { button: Some(Mouse::Middle), location: None });
    assert!(input.mouse_down(Mouse::Middle));
    assert_eq!(input.mouse_pos(), None);
    apply_event(&mut input, 1 << 19, &MacEvent::Other);
    assert!(input.modifiers().alt);
    assert!(input.mouse_down(Mouse::Middle));
}

/// Runs the handshake on a list of events ('w' a wait begins, 't' a tick, 'p' a
/// poll) and gives the signals, the waits that returned and the final count.
fn run_handshake(mode: VsyncMode, events: &str) -> (usize, usize, usize) {
    let (mut armed, mut permits, mut signals, mut returns) = (false, 0usize, 0usize, 0usize);
    for e in events.chars() {
        match e {
            'w' => armed = armed || arms_on_wait(mode),
            't' => {
                if tick_signals(mode, armed) {
                    signals += 1;
                    permits += 1;
                }
                if tick_disarms(mode) {
                    armed = false;
                }
            }
            _ => {
                if permits > 0 {
                    permits -= 1;
                    returns += 1;
                }
            }
        }
    }
    (signals, returns, permits)
}

#[test]
fn arm_gated_idle_ticks_bank_nothing() {
    assert_eq!(run_handshake(VsyncMode::ArmGated, "tttttwp"), (0, 0, 0));
    assert_eq!(run_handshake(VsyncMode::ArmGated, "tttttwptp"), (1, 1, 0));
    // Every signal answers a wait, and the count never passes one.
    assert_eq!(run_handshake(VsyncMode::ArmGated, "wtttpttwtpwtptt"), (3, 3, 0));
}

#[test]
fn always_signal_idle_ticks_burst() {
    assert_eq!(run_handshake(VsyncMode::AlwaysSignal, "ttttt"), (5, 0, 5));
    assert_eq!(run_handshake(VsyncMode::AlwaysSignal, "tttttppppp"), (5, 5, 0));
}
