use lib::input::is_control_char;
use lib::{InputState, Key, Modifiers, Mouse};

type Pos = (f64, f64);

fn state() -> InputState<Pos> {
    InputState::new()
}

#[test]
fn fresh_state_is_idle() {
    let s = state();
    assert!(!s.is_down(Key::Char('A')));
    assert!(s.is_up(Key::Char('A')));
    assert!(!s.pressed(Key::Enter));
    assert!(!s.released(Key::Enter));
    assert!(s.pressed_keys().is_empty());
    assert!(!s.mouse_down(Mouse::Left));
    assert!(!s.mouse_released(Mouse::Left));
    assert_eq!(s.mouse_pos(), None);
    assert!(s.text_input().is_empty());
    assert_eq!(s.modifiers(), Modifiers::default());
}

#[test]
fn key_press_hold_release() {
    let mut s = state();
    s.set_key_down(Key::Char('a'));
    assert!(s.is_down(Key::Char('A')));
    assert!(s.pressed(Key::Char('A')));
    assert_eq!(s.pressed_keys(), &[Key::Char('a')]);

    s.begin_frame();
    assert!(s.is_down(Key::Char('A')));
    assert!(!s.pressed(Key::Char('A')));
    assert!(!s.released(Key::Char('A')));
    assert!(s.pressed_keys().is_empty());

    s.set_key_up(Key::Char('A'));
    assert!(!s.is_down(Key::Char('A')));
    assert!(s.released(Key::Char('A')));

    s.begin_frame();
    assert!(!s.released(Key::Char('A')));
}

#[test]
fn key_repeat_is_pressed_but_not_listed_again() {
    let mut s = state();
    s.set_key_down(Key::Space);
    s.begin_frame();
    s.set_key_down(Key::Space);
    assert!(s.pressed(Key::Space));
    assert!(s.pressed_keys().is_empty());
}

#[test]
fn down_up_down_in_one_frame_lists_twice() {
    let mut s = state();
    s.set_key_down(Key::Tab);
    s.set_key_up(Key::Tab);
    s.set_key_down(Key::Tab);
    assert_eq!(s.pressed_keys(), &[Key::Tab, Key::Tab]);
}

#[test]
fn keys_sharing_a_code_share_a_slot() {
    let mut s = state();
    s.set_key_down(Key::Up);
    assert!(s.is_down(Key::ArrowUp));
}

#[test]
fn keys_without_a_slot_are_ignored() {
    let mut s = state();
    s.set_key_down(Key::Unknown(300));
    assert!(!s.is_down(Key::Unknown(300)));
    assert!(!s.pressed(Key::Unknown(300)));
    assert!(s.pressed_keys().is_empty());
}

#[test]
fn click_reports_press_and_release_positions() {
    let mut s = state();
    s.set_mouse_pos(Some((1.5, 2.5)));
    s.set_mouse_down(Mouse::Left);
    assert!(s.mouse_down(Mouse::Left));
    assert!(s.mouse_pressed(Mouse::Left));
    s.set_mouse_pos(Some((3.0, 4.0)));
    s.set_mouse_up(Mouse::Left);
    assert!(!s.mouse_down(Mouse::Left));
    assert!(s.mouse_released(Mouse::Left));
    assert_eq!(s.mouse_click_positions(Mouse::Left), Some(((1.5, 2.5), (3.0, 4.0))));
    assert_eq!(s.mouse_double_click_positions(Mouse::Left), None);
    assert_eq!(s.mouse_click_positions(Mouse::Right), None);

    s.begin_frame();
    assert!(!s.mouse_released(Mouse::Left));
    assert_eq!(s.mouse_click_positions(Mouse::Left), None);
}

#[test]
fn double_click_is_reported_once() {
    let mut s = state();
    s.set_mouse_pos(Some((5.0, 5.0)));
    s.set_mouse_down(Mouse::Right);
    s.set_mouse_up(Mouse::Right);
    s.begin_frame();
    s.set_mouse_double_down(Mouse::Right);
    s.set_mouse_pos(Some((6.0, 5.0)));
    s.set_mouse_up(Mouse::Right);
    assert_eq!(s.mouse_double_click_positions(Mouse::Right), Some(((5.0, 5.0), (6.0, 5.0))));
    s.begin_frame();
    assert_eq!(s.mouse_double_click_positions(Mouse::Right), None);
}

#[test]
fn held_button_keeps_press_position() {
    let mut s = state();
    s.set_mouse_pos(Some((1.0, 1.0)));
    s.set_mouse_down(Mouse::Middle);
    s.set_mouse_pos(Some((9.0, 9.0)));
    s.set_mouse_down(Mouse::Middle);
    s.set_mouse_up(Mouse::Middle);
    assert_eq!(s.mouse_click_positions(Mouse::Middle), Some(((1.0, 1.0), (9.0, 9.0))));
}

#[test]
fn release_without_pointer_is_still_a_release() {
    let mut s = state();
    s.set_mouse_down(Mouse::Back);
    s.begin_frame();
    s.set_mouse_up(Mouse::Back);
    assert!(s.mouse_released(Mouse::Back));
    assert_eq!(s.mouse_click_positions(Mouse::Back), None);
}

#[test]
fn text_input_drops_control_characters() {
    let mut s = state();
    s.push_text('h');
    s.push_text('\u{8}');
    s.push_text('i');
    s.push_text('\u{7f}');
    s.push_text('\u{85}');
    s.push_text('é');
    assert_eq!(s.text_input(), &['h', 'i', 'é']);
    s.begin_frame();
    assert!(s.text_input().is_empty());
}

#[test]
fn control_characters_match_std() {
    for code in 0u32..0x3000 {
        if let Some(c) = char::from_u32(code) {
            assert_eq!(is_control_char(c), c.is_control());
        }
    }
}

#[test]
fn modifiers_are_kept() {
    let mut s = state();
    let m = Modifiers { shift: true, ctrl: false, alt: true, logo: false };
    s.set_modifiers(m);
    assert_eq!(s.modifiers(), m);
    s.begin_frame();
    assert_eq!(s.modifiers(), m);
}

#[test]
fn click_spans_drags_and_frames() {
    let mut s = state();
    s.set_mouse_pos(Some((1.0, 1.0)));
    s.set_mouse_down(Mouse::Left);
    for x in [5.0, 9.0, 40.0] {
        s.set_mouse_pos(Some((x, 2.0)));
        s.set_mouse_down(Mouse::Left);
    }
    s.begin_frame();
    assert_eq!(s.mouse_click_positions(Mouse::Left), None);
    s.set_mouse_pos(Some((60.0, 3.0)));
    s.set_mouse_down(Mouse::Left);
    s.set_mouse_pos(Some((61.0, 3.0)));
    s.set_mouse_up(Mouse::Left);
    assert_eq!(s.mouse_click_positions(Mouse::Left), Some(((1.0, 1.0), (61.0, 3.0))));
}
