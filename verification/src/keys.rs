use vstd::prelude::*;

verus! {

/// A keyboard key, as seen by the input state.
#[derive(Debug, Clone, Copy, PartialEq, Eq, Structural)]
pub enum Key {
    Char(char),
    Function(u8),
    Enter,
    Space,
    Backspace,
    Escape,
    Control,
    Shift,
    Alt,
    Tab,
    ArrowUp,
    ArrowDown,
    ArrowLeft,
    ArrowRight,
    Up,
    Down,
    Left,
    Right,
    Logo,
    LeftWindows,
    RightWindows,
    Menu,
    CapsLock,
    ScrollLock,
    PauseBreak,
    Insert,
    Home,
    Delete,
    End,
    PageUp,
    PageDown,
    Unknown(u16),
}

/// The virtual-key code of a character key: letters and digits map to the code of
/// their upper-case form, the punctuation keys of a US layout to their OEM codes,
/// and every other character to 0.
pub open spec fn char_vk_spec(c: char) -> usize {
    let u = c as u32;
    if (0x41 <= u && u <= 0x5A) || (0x30 <= u && u <= 0x39) {
        u as usize
    } else if 0x61 <= u && u <= 0x7A {
        (u - 0x20) as usize
    } else if c == '=' || c == '+' {
        0xBB
    } else if c == '-' || c == '_' {
        0xBD
    } else if c == ';' || c == ':' {
        0xBA
    } else if c == '/' || c == '?' {
        0xBF
    } else if c == '`' || c == '~' {
        0xC0
    } else if c == '[' || c == '{' {
        0xDB
    } else if c == '\\' || c == '|' {
        0xDC
    } else if c == ']' || c == '}' {
        0xDD
    } else if c == '\'' || c == '"' {
        0xDE
    } else if c == ',' || c == '<' {
        0xBC
    } else if c == '.' || c == '>' {
        0xBE
    } else {
        0
    }
}

/// The Windows virtual-key code of a key.
pub open spec fn vk_code_spec(key: Key) -> usize {
    match key {
        Key::Enter => 0x0D,
        Key::Space => 0x20,
        Key::Backspace => 0x08,
        Key::Escape => 0x1B,
        Key::Control => 0x11,
        Key::Shift => 0x10,
        Key::Alt => 0x12,
        Key::Tab => 0x09,
        Key::ArrowUp | Key::Up => 0x26,
        Key::ArrowDown | Key::Down => 0x28,
        Key::ArrowLeft | Key::Left => 0x25,
        Key::ArrowRight | Key::Right => 0x27,
        Key::Logo | Key::LeftWindows => 0x5B,
        Key::RightWindows => 0x5C,
        Key::Menu => 0x5D,
        Key::CapsLock => 0x14,
        Key::ScrollLock => 0x91,
        Key::PauseBreak => 0x13,
        Key::Insert => 0x2D,
        Key::Home => 0x24,
        Key::Delete => 0x2E,
        Key::End => 0x23,
        Key::PageUp => 0x21,
        Key::PageDown => 0x22,
        Key::Char(c) => char_vk_spec(c),
        Key::Function(n) => if 1 <= n && n <= 24 { (0x6F + n) as usize } else { 0 },
        Key::Unknown(vk) => vk as usize,
    }
}

fn char_vk(c: char) -> (r: usize)
    ensures
        r == char_vk_spec(c),
{
    let u = c as u32;
    if (0x41 <= u && u <= 0x5A) || (0x30 <= u && u <= 0x39) {
        u as usize
    } else if 0x61 <= u && u <= 0x7A {
        (u - 0x20) as usize
    } else if c == '=' || c == '+' {
        0xBB
    } else if c == '-' || c == '_' {
        0xBD
    } else if c == ';' || c == ':' {
        0xBA
    } else if c == '/' || c == '?' {
        0xBF
    } else if c == '`' || c == '~' {
        0xC0
    } else if c == '[' || c == '{' {
        0xDB
    } else if c == '\\' || c == '|' {
        0xDC
    } else if c == ']' || c == '}' {
        0xDD
    } else if c == '\'' || c == '"' {
        0xDE
    } else if c == ',' || c == '<' {
        0xBC
    } else if c == '.' || c == '>' {
        0xBE
    } else {
        0
    }
}

/// The key that a Windows virtual-key code stands for: letters and digits become
/// `Char` keys, `F1` to `F24` become `Function` keys, and codes without a named key
/// are carried as `Unknown`.
pub open spec fn from_windows_vk_spec(vk: u16) -> Key {
    if vk == 0x08 {
        Key::Backspace
    } else if vk == 0x09 {
        Key::Tab
    } else if vk == 0x0D {
        Key::Enter
    } else if vk == 0x10 {
        Key::Shift
    } else if vk == 0x11 {
        Key::Control
    } else if vk == 0x12 {
        Key::Alt
    } else if vk == 0x13 {
        Key::PauseBreak
    } else if vk == 0x14 {
        Key::CapsLock
    } else if vk == 0x1B {
        Key::Escape
    } else if vk == 0x20 {
        Key::Space
    } else if vk == 0x21 {
        Key::PageUp
    } else if vk == 0x22 {
        Key::PageDown
    } else if vk == 0x23 {
        Key::End
    } else if vk == 0x24 {
        Key::Home
    } else if vk == 0x25 {
        Key::ArrowLeft
    } else if vk == 0x26 {
        Key::ArrowUp
    } else if vk == 0x27 {
        Key::ArrowRight
    } else if vk == 0x28 {
        Key::ArrowDown
    } else if vk == 0x2D {
        Key::Insert
    } else if vk == 0x2E {
        Key::Delete
    } else if (0x30 <= vk <= 0x39) || (0x41 <= vk <= 0x5A) {
        Key::Char((vk as u8) as char)
    } else if vk == 0x5B {
        Key::LeftWindows
    } else if vk == 0x5C {
        Key::RightWindows
    } else if vk == 0x5D {
        Key::Menu
    } else if 0x70 <= vk <= 0x87 {
        Key::Function((vk - 0x6F) as u8)
    } else if vk == 0x91 {
        Key::ScrollLock
    } else {
        Key::Unknown(vk)
    }
}

/// The key that a macOS hardware key code stands for (ANSI layout); codes without
/// a named key are carried as `Unknown`.
pub open spec fn from_macos_keycode_spec(keycode: u16) -> Key {
    match keycode {
        0 => Key::Char('A'),
        1 => Key::Char('S'),
        2 => Key::Char('D'),
        3 => Key::Char('F'),
        4 => Key::Char('H'),
        5 => Key::Char('G'),
        6 => Key::Char('Z'),
        7 => Key::Char('X'),
        8 => Key::Char('C'),
        9 => Key::Char('V'),
        11 => Key::Char('B'),
        12 => Key::Char('Q'),
        13 => Key::Char('W'),
        14 => Key::Char('E'),
        15 => Key::Char('R'),
        16 => Key::Char('Y'),
        17 => Key::Char('T'),
        18 => Key::Char('1'),
        19 => Key::Char('2'),
        20 => Key::Char('3'),
        21 => Key::Char('4'),
        22 => Key::Char('6'),
        23 => Key::Char('5'),
        25 => Key::Char('9'),
        26 => Key::Char('7'),
        28 => Key::Char('8'),
        29 => Key::Char('0'),
        31 => Key::Char('O'),
        32 => Key::Char('U'),
        34 => Key::Char('I'),
        35 => Key::Char('P'),
        36 | 76 => Key::Enter,
        37 => Key::Char('L'),
        38 => Key::Char('J'),
        40 => Key::Char('K'),
        45 => Key::Char('N'),
        46 => Key::Char('M'),
        48 => Key::Tab,
        49 => Key::Space,
        51 => Key::Backspace,
        53 => Key::Escape,
        56 | 60 => Key::Shift,
        57 => Key::CapsLock,
        58 | 61 => Key::Alt,
        59 | 62 => Key::Control,
        55 | 54 => Key::Logo,
        63 => Key::Function(0),
        114 => Key::Insert,
        115 => Key::Home,
        116 => Key::PageUp,
        117 => Key::Delete,
        119 => Key::End,
        121 => Key::PageDown,
        122 => Key::Function(1),
        120 => Key::Function(2),
        99 => Key::Function(3),
        118 => Key::Function(4),
        96 => Key::Function(5),
        97 => Key::Function(6),
        98 => Key::Function(7),
        100 => Key::Function(8),
        101 => Key::Function(9),
        109 => Key::Function(10),
        103 => Key::Function(11),
        111 => Key::Function(12),
        123 => Key::ArrowLeft,
        124 => Key::ArrowRight,
        125 => Key::ArrowDown,
        126 => Key::ArrowUp,
        _ => Key::Unknown(keycode),
    }
}

impl Key {
    /// The Windows virtual-key code of the key, which is also its slot in the
    /// input state's key table.
    pub fn vk_code(&self) -> (r: usize)
        ensures
            r == vk_code_spec(*self),
    {
        match *self {
            Key::Enter => 0x0D,
            Key::Space => 0x20,
            Key::Backspace => 0x08,
            Key::Escape => 0x1B,
            Key::Control => 0x11,
            Key::Shift => 0x10,
            Key::Alt => 0x12,
            Key::Tab => 0x09,
            Key::ArrowUp | Key::Up => 0x26,
            Key::ArrowDown | Key::Down => 0x28,
            Key::ArrowLeft | Key::Left => 0x25,
            Key::ArrowRight | Key::Right => 0x27,
            Key::Logo | Key::LeftWindows => 0x5B,
            Key::RightWindows => 0x5C,
            Key::Menu => 0x5D,
            Key::CapsLock => 0x14,
            Key::ScrollLock => 0x91,
            Key::PauseBreak => 0x13,
            Key::Insert => 0x2D,
            Key::Home => 0x24,
            Key::Delete => 0x2E,
            Key::End => 0x23,
            Key::PageUp => 0x21,
            Key::PageDown => 0x22,
            Key::Char(c) => char_vk(c),
            Key::Function(n) => {
                if n >= 1 && n <= 24 {
                    (0x6F + n) as usize
                } else {
                    0
                }
            },
            Key::Unknown(vk) => vk as usize,
        }
    }

    /// The key for a Windows virtual-key code.
    pub fn from_windows_vk(vk: u16) -> (r: Self)
        ensures
            r == from_windows_vk_spec(vk),
    {
        match vk {
            0x08 => Key::Backspace,
            0x09 => Key::Tab,
            0x0D => Key::Enter,
            0x10 => Key::Shift,
            0x11 => Key::Control,
            0x12 => Key::Alt,
            0x13 => Key::PauseBreak,
            0x14 => Key::CapsLock,
            0x1B => Key::Escape,
            0x20 => Key::Space,
            0x21 => Key::PageUp,
            0x22 => Key::PageDown,
            0x23 => Key::End,
            0x24 => Key::Home,
            0x25 => Key::ArrowLeft,
            0x26 => Key::ArrowUp,
            0x27 => Key::ArrowRight,
            0x28 => Key::ArrowDown,
            0x2D => Key::Insert,
            0x2E => Key::Delete,
            0x30..=0x39 | 0x41..=0x5A => Key::Char(vk as u8 as char),
            0x5B => Key::LeftWindows,
            0x5C => Key::RightWindows,
            0x5D => Key::Menu,
            0x70..=0x87 => Key::Function((vk - 0x6F) as u8),
            0x91 => Key::ScrollLock,
            _ => Key::Unknown(vk),
        }
    }

    /// The key for a macOS hardware key code.
    pub fn from_macos_keycode(keycode: u16) -> (r: Self)
        ensures
            r == from_macos_keycode_spec(keycode),
    {
        match keycode {
            0 => Key::Char('A'),
            1 => Key::Char('S'),
            2 => Key::Char('D'),
            3 => Key::Char('F'),
            4 => Key::Char('H'),
            5 => Key::Char('G'),
            6 => Key::Char('Z'),
            7 => Key::Char('X'),
            8 => Key::Char('C'),
            9 => Key::Char('V'),
            11 => Key::Char('B'),
            12 => Key::Char('Q'),
            13 => Key::Char('W'),
            14 => Key::Char('E'),
            15 => Key::Char('R'),
            16 => Key::Char('Y'),
            17 => Key::Char('T'),
            18 => Key::Char('1'),
            19 => Key::Char('2'),
            20 => Key::Char('3'),
            21 => Key::Char('4'),
            22 => Key::Char('6'),
            23 => Key::Char('5'),
            25 => Key::Char('9'),
            26 => Key::Char('7'),
            28 => Key::Char('8'),
            29 => Key::Char('0'),
            31 => Key::Char('O'),
            32 => Key::Char('U'),
            34 => Key::Char('I'),
            35 => Key::Char('P'),
            36 | 76 => Key::Enter,
            37 => Key::Char('L'),
            38 => Key::Char('J'),
            40 => Key::Char('K'),
            45 => Key::Char('N'),
            46 => Key::Char('M'),
            48 => Key::Tab,
            49 => Key::Space,
            51 => Key::Backspace,
            53 => Key::Escape,
            56 | 60 => Key::Shift,
            57 => Key::CapsLock,
            58 | 61 => Key::Alt,
            59 | 62 => Key::Control,
            55 | 54 => Key::Logo,
            63 => Key::Function(0),
            114 => Key::Insert,
            115 => Key::Home,
            116 => Key::PageUp,
            117 => Key::Delete,
            119 => Key::End,
            121 => Key::PageDown,
            122 => Key::Function(1),
            120 => Key::Function(2),
            99 => Key::Function(3),
            118 => Key::Function(4),
            96 => Key::Function(5),
            97 => Key::Function(6),
            98 => Key::Function(7),
            100 => Key::Function(8),
            101 => Key::Function(9),
            109 => Key::Function(10),
            103 => Key::Function(11),
            111 => Key::Function(12),
            123 => Key::ArrowLeft,
            124 => Key::ArrowRight,
            125 => Key::ArrowDown,
            126 => Key::ArrowUp,
            _ => Key::Unknown(keycode),
        }
    }
}

/// Reading a Windows virtual-key code as a key and taking that key's code gives
/// back the code: every code the system reports lands in its own slot of the
/// key table, so no two codes share a key.
pub proof fn lemma_windows_vk_round_trip(vk: u16)
    ensures
        vk_code_spec(from_windows_vk_spec(vk)) == vk,
{
}

/// Two Windows virtual-key codes that read as the same key are the same code.
pub proof fn lemma_windows_vk_injective(a: u16, b: u16)
    requires
        from_windows_vk_spec(a) == from_windows_vk_spec(b),
    ensures
        a == b,
{
    lemma_windows_vk_round_trip(a);
    lemma_windows_vk_round_trip(b);
}

/// A letter key has the same code whether it is given in lower or upper case.
pub proof fn lemma_char_code_ignores_case(c: char)
    requires
        'a' <= c <= 'z',
    ensures
        vk_code_spec(Key::Char(c)) == vk_code_spec(Key::Char(((c as u32) - 0x20) as char)),
{
}

/// Every macOS key code maps either to a key whose code has a slot in the
/// 256-entry key table, or to `Unknown` carrying the key code itself.
pub proof fn lemma_macos_keycode_slot(keycode: u16)
    ensures
        from_macos_keycode_spec(keycode) is Unknown ==> from_macos_keycode_spec(keycode)
            == Key::Unknown(keycode),
        !(from_macos_keycode_spec(keycode) is Unknown) ==> vk_code_spec(
            from_macos_keycode_spec(keycode),
        ) < 256,
{
}

/// The letter and digit keys of a Mac keyboard, by their hardware key codes (the
/// `kVK_ANSI_*` positions of the ANSI layout): each code gives the key printed at
/// that position.
pub proof fn lemma_macos_letter_and_digit_codes()
    ensures
        from_macos_keycode_spec(0) == Key::Char('A'),
        from_macos_keycode_spec(1) == Key::Char('S'),
        from_macos_keycode_spec(2) == Key::Char('D'),
        from_macos_keycode_spec(3) == Key::Char('F'),
        from_macos_keycode_spec(4) == Key::Char('H'),
        from_macos_keycode_spec(5) == Key::Char('G'),
        from_macos_keycode_spec(6) == Key::Char('Z'),
        from_macos_keycode_spec(7) == Key::Char('X'),
        from_macos_keycode_spec(8) == Key::Char('C'),
        from_macos_keycode_spec(9) == Key::Char('V'),
        from_macos_keycode_spec(11) == Key::Char('B'),
        from_macos_keycode_spec(12) == Key::Char('Q'),
        from_macos_keycode_spec(13) == Key::Char('W'),
        from_macos_keycode_spec(14) == Key::Char('E'),
        from_macos_keycode_spec(15) == Key::Char('R'),
        from_macos_keycode_spec(16) == Key::Char('Y'),
        from_macos_keycode_spec(17) == Key::Char('T'),
        from_macos_keycode_spec(18) == Key::Char('1'),
        from_macos_keycode_spec(19) == Key::Char('2'),
        from_macos_keycode_spec(20) == Key::Char('3'),
        from_macos_keycode_spec(21) == Key::Char('4'),
        from_macos_keycode_spec(22) == Key::Char('6'),
        from_macos_keycode_spec(23) == Key::Char('5'),
        from_macos_keycode_spec(25) == Key::Char('9'),
        from_macos_keycode_spec(26) == Key::Char('7'),
        from_macos_keycode_spec(28) == Key::Char('8'),
        from_macos_keycode_spec(29) == Key::Char('0'),
        from_macos_keycode_spec(31) == Key::Char('O'),
        from_macos_keycode_spec(32) == Key::Char('U'),
        from_macos_keycode_spec(34) == Key::Char('I'),
        from_macos_keycode_spec(35) == Key::Char('P'),
        from_macos_keycode_spec(37) == Key::Char('L'),
        from_macos_keycode_spec(38) == Key::Char('J'),
        from_macos_keycode_spec(40) == Key::Char('K'),
        from_macos_keycode_spec(45) == Key::Char('N'),
        from_macos_keycode_spec(46) == Key::Char('M'),
{
}

/// Distinct hardware key codes give distinct character keys, and every character
/// key a code gives is an upper-case letter or a digit.
pub proof fn lemma_macos_character_keys(a: u16, b: u16)
    ensures
        from_macos_keycode_spec(a) is Char && from_macos_keycode_spec(a) == from_macos_keycode_spec(b)
            ==> a == b,
        from_macos_keycode_spec(a) is Char ==> ('A' <= from_macos_keycode_spec(a)->Char_0 <= 'Z'
            || '0' <= from_macos_keycode_spec(a)->Char_0 <= '9'),
{
}

/// The named keys of a Mac keyboard by their hardware key codes (the `kVK_*`
/// values): Return and keypad Enter, Tab, Space, Delete, Escape, left and right
/// Command, Shift, Option and Control, Caps Lock, the navigation and arrow keys,
/// Fn, and F1 to F12.
pub proof fn lemma_macos_named_key_codes()
    ensures
        from_macos_keycode_spec(36) == Key::Enter,
        from_macos_keycode_spec(76) == Key::Enter,
        from_macos_keycode_spec(48) == Key::Tab,
        from_macos_keycode_spec(49) == Key::Space,
        from_macos_keycode_spec(51) == Key::Backspace,
        from_macos_keycode_spec(53) == Key::Escape,
        from_macos_keycode_spec(55) == Key::Logo,
        from_macos_keycode_spec(54) == Key::Logo,
        from_macos_keycode_spec(56) == Key::Shift,
        from_macos_keycode_spec(60) == Key::Shift,
        from_macos_keycode_spec(57) == Key::CapsLock,
        from_macos_keycode_spec(58) == Key::Alt,
        from_macos_keycode_spec(61) == Key::Alt,
        from_macos_keycode_spec(59) == Key::Control,
        from_macos_keycode_spec(62) == Key::Control,
        from_macos_keycode_spec(114) == Key::Insert,
        from_macos_keycode_spec(115) == Key::Home,
        from_macos_keycode_spec(116) == Key::PageUp,
        from_macos_keycode_spec(117) == Key::Delete,
        from_macos_keycode_spec(119) == Key::End,
        from_macos_keycode_spec(121) == Key::PageDown,
        from_macos_keycode_spec(123) == Key::ArrowLeft,
        from_macos_keycode_spec(124) == Key::ArrowRight,
        from_macos_keycode_spec(125) == Key::ArrowDown,
        from_macos_keycode_spec(126) == Key::ArrowUp,
        from_macos_keycode_spec(63) == Key::Function(0),
        from_macos_keycode_spec(122) == Key::Function(1),
        from_macos_keycode_spec(120) == Key::Function(2),
        from_macos_keycode_spec(99) == Key::Function(3),
        from_macos_keycode_spec(118) == Key::Function(4),
        from_macos_keycode_spec(96) == Key::Function(5),
        from_macos_keycode_spec(97) == Key::Function(6),
        from_macos_keycode_spec(98) == Key::Function(7),
        from_macos_keycode_spec(100) == Key::Function(8),
        from_macos_keycode_spec(101) == Key::Function(9),
        from_macos_keycode_spec(109) == Key::Function(10),
        from_macos_keycode_spec(103) == Key::Function(11),
        from_macos_keycode_spec(111) == Key::Function(12),
{
}

/// The named keys and their Windows virtual-key codes (the `VK_*` values), both
/// ways: each code gives its key, and the key gives its code back.
pub proof fn lemma_windows_named_key_codes()
    ensures
        from_windows_vk_spec(0x08) == Key::Backspace,
        vk_code_spec(Key::Backspace) == 0x08,
        from_windows_vk_spec(0x09) == Key::Tab,
        vk_code_spec(Key::Tab) == 0x09,
        from_windows_vk_spec(0x0D) == Key::Enter,
        vk_code_spec(Key::Enter) == 0x0D,
        from_windows_vk_spec(0x10) == Key::Shift,
        vk_code_spec(Key::Shift) == 0x10,
        from_windows_vk_spec(0x11) == Key::Control,
        vk_code_spec(Key::Control) == 0x11,
        from_windows_vk_spec(0x12) == Key::Alt,
        vk_code_spec(Key::Alt) == 0x12,
        from_windows_vk_spec(0x13) == Key::PauseBreak,
        vk_code_spec(Key::PauseBreak) == 0x13,
        from_windows_vk_spec(0x14) == Key::CapsLock,
        vk_code_spec(Key::CapsLock) == 0x14,
        from_windows_vk_spec(0x1B) == Key::Escape,
        vk_code_spec(Key::Escape) == 0x1B,
        from_windows_vk_spec(0x20) == Key::Space,
        vk_code_spec(Key::Space) == 0x20,
        from_windows_vk_spec(0x21) == Key::PageUp,
        vk_code_spec(Key::PageUp) == 0x21,
        from_windows_vk_spec(0x22) == Key::PageDown,
        vk_code_spec(Key::PageDown) == 0x22,
        from_windows_vk_spec(0x23) == Key::End,
        vk_code_spec(Key::End) == 0x23,
        from_windows_vk_spec(0x24) == Key::Home,
        vk_code_spec(Key::Home) == 0x24,
        from_windows_vk_spec(0x25) == Key::ArrowLeft,
        vk_code_spec(Key::ArrowLeft) == 0x25,
        from_windows_vk_spec(0x26) == Key::ArrowUp,
        vk_code_spec(Key::ArrowUp) == 0x26,
        from_windows_vk_spec(0x27) == Key::ArrowRight,
        vk_code_spec(Key::ArrowRight) == 0x27,
        from_windows_vk_spec(0x28) == Key::ArrowDown,
        vk_code_spec(Key::ArrowDown) == 0x28,
        from_windows_vk_spec(0x2D) == Key::Insert,
        vk_code_spec(Key::Insert) == 0x2D,
        from_windows_vk_spec(0x2E) == Key::Delete,
        vk_code_spec(Key::Delete) == 0x2E,
        from_windows_vk_spec(0x5B) == Key::LeftWindows,
        vk_code_spec(Key::LeftWindows) == 0x5B,
        from_windows_vk_spec(0x5C) == Key::RightWindows,
        vk_code_spec(Key::RightWindows) == 0x5C,
        from_windows_vk_spec(0x5D) == Key::Menu,
        vk_code_spec(Key::Menu) == 0x5D,
        from_windows_vk_spec(0x91) == Key::ScrollLock,
        vk_code_spec(Key::ScrollLock) == 0x91,
{
}

/// A letter or digit key's Windows virtual-key code is the ASCII code of the
/// upper-case letter or the digit (`'A'` is `0x41`, `'0'` is `0x30`), and that
/// code gives the key back; a lower-case letter has the code of its upper case.
/// `F1` to `F24` are the codes `0x70` to `0x87`.
pub proof fn lemma_windows_character_codes(c: char, n: u8)
    ensures
        ('A' <= c <= 'Z' || '0' <= c <= '9') ==> vk_code_spec(Key::Char(c)) == c as u32
            && from_windows_vk_spec(c as u16) == Key::Char(c),
        'a' <= c <= 'z' ==> vk_code_spec(Key::Char(c)) == (c as u32) - 0x20,
        1 <= n <= 24 ==> vk_code_spec(Key::Function(n)) == 0x6F + n && from_windows_vk_spec(
            (0x6F + n) as u16,
        ) == Key::Function(n),
{
    if 'A' <= c <= 'Z' || '0' <= c <= '9' {
        lemma_windows_vk_round_trip(c as u16);
    }
}

} // verus!
