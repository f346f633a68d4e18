use lib::Key;

#[test]
fn vk_code_of_named_keys() {
    assert_eq!(Key::Enter.vk_code(), 0x0D);
    assert_eq!(Key::Escape.vk_code(), 0x1B);
    assert_eq!(Key::Up.vk_code(), Key::ArrowUp.vk_code());
    assert_eq!(Key::Logo.vk_code(), 0x5B);
    assert_eq!(Key::ScrollLock.vk_code(), 0x91);
}

#[test]
fn vk_code_of_chars() {
    assert_eq!(Key::Char('A').vk_code(), 0x41);
    assert_eq!(Key::Char('a').vk_code(), 0x41);
    assert_eq!(Key::Char('z').vk_code(), 0x5A);
    assert_eq!(Key::Char('7').vk_code(), 0x37);
    assert_eq!(Key::Char('+').vk_code(), 0xBB);
    assert_eq!(Key::Char('=').vk_code(), 0xBB);
    assert_eq!(Key::Char('"').vk_code(), 0xDE);
    assert_eq!(Key::Char('\\').vk_code(), 0xDC);
    assert_eq!(Key::Char('>').vk_code(), 0xBE);
    assert_eq!(Key::Char('é').vk_code(), 0);
    assert_eq!(Key::Char(' ').vk_code(), 0);
}

#[test]
fn vk_code_of_function_and_unknown_keys() {
    assert_eq!(Key::Function(1).vk_code(), 0x70);
    assert_eq!(Key::Function(24).vk_code(), 0x87);
    assert_eq!(Key::Function(0).vk_code(), 0);
    assert_eq!(Key::Function(25).vk_code(), 0);
    assert_eq!(Key::Unknown(300).vk_code(), 300);
}

#[test]
fn from_windows_vk_examples() {
    assert_eq!(Key::from_windows_vk(0x41), Key::Char('A'));
    assert_eq!(Key::from_windows_vk(0x30), Key::Char('0'));
    assert_eq!(Key::from_windows_vk(0x70), Key::Function(1));
    assert_eq!(Key::from_windows_vk(0x87), Key::Function(24));
    assert_eq!(Key::from_windows_vk(0x25), Key::ArrowLeft);
    assert_eq!(Key::from_windows_vk(0x91), Key::ScrollLock);
    assert_eq!(Key::from_windows_vk(0xFF), Key::Unknown(0xFF));
    assert_eq!(Key::from_windows_vk(0x61), Key::Unknown(0x61));
}

#[test]
fn windows_vk_round_trip_for_every_code() {
    for vk in 0..=u16::MAX {
        assert_eq!(Key::from_windows_vk(vk).vk_code(), vk as usize);
    }
}

#[test]
fn char_code_ignores_case() {
    for c in 'a'..='z' {
        assert_eq!(Key::Char(c).vk_code(), Key::Char(c.to_ascii_uppercase()).vk_code());
    }
}

#[test]
fn from_macos_keycode_examples() {
    assert_eq!(Key::from_macos_keycode(0), Key::Char('A'));
    assert_eq!(Key::from_macos_keycode(1), Key::Char('S'));
    assert_eq!(Key::from_macos_keycode(36), Key::Enter);
    assert_eq!(Key::from_macos_keycode(76), Key::Enter);
    assert_eq!(Key::from_macos_keycode(63), Key::Function(0));
    assert_eq!(Key::from_macos_keycode(122), Key::Function(1));
    assert_eq!(Key::from_macos_keycode(126), Key::ArrowUp);
    assert_eq!(Key::from_macos_keycode(10), Key::Unknown(10));
    assert_eq!(Key::from_macos_keycode(200), Key::Unknown(200));
}

#[test]
fn macos_keys_have_table_slots() {
    for code in 0..=u16::MAX {
        match Key::from_macos_keycode(code) {
            Key::Unknown(c) => assert_eq!(c, code),
            key => assert!(key.vk_code() < 256),
        }
    }
}
