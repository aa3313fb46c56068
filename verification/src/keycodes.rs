//! Key codes, by their canonical USB HID usage values. The code value
//! orders the keys: the modifier block and the navigation cluster of the
//! color policy are ranges of it.

use vstd::prelude::*;

verus! {

/// A key that a physical position can be bound to, named after its legend.
#[derive(Clone, Copy, PartialEq, Eq, Structural, Debug)]
pub enum KeyCode {
    No,
    A,
    B,
    C,
    D,
    E,
    F,
    G,
    H,
    I,
    J,
    K,
    L,
    M,
    N,
    O,
    P,
    Q,
    R,
    S,
    T,
    U,
    V,
    W,
    X,
    Y,
    Z,
    N1,
    N2,
    N3,
    N4,
    N5,
    N6,
    N7,
    N8,
    N9,
    N0,
    Enter,
    Escape,
    BSpace,
    Tab,
    Space,
    Minus,
    Equal,
    LBracket,
    RBracket,
    BSlash,
    SColon,
    Quote,
    Grave,
    Comma,
    Dot,
    Slash,
    Caps,
    F1,
    F2,
    F3,
    F4,
    F5,
    F6,
    F7,
    F8,
    F9,
    F10,
    F11,
    F12,
    PScreen,
    ScrollLock,
    Pause,
    Insert,
    Home,
    PgUp,
    Delete,
    End,
    PgDown,
    Right,
    Left,
    Down,
    Up,
    Numlock,
    KpSlash,
    KpAsterisk,
    KpMinus,
    KpPlus,
    KpEnter,
    Kp1,
    Kp2,
    Kp3,
    Kp4,
    Kp5,
    Kp6,
    Kp7,
    Kp8,
    Kp9,
    Kp0,
    KpDot,
    LCtrl,
    LShift,
    LAlt,
    LMeta,
    RCtrl,
    RShift,
    RAlt,
    RMeta,
}

/// First code value of the modifier block (left control).
pub const MODIFIER_FIRST: u8 = 224;

/// Last code value of the modifier block (right meta).
pub const MODIFIER_LAST: u8 = 231;

/// First code value of the navigation cluster (print screen).
pub const NAV_CLUSTER_FIRST: u8 = 70;

/// Last code value of the navigation cluster (arrow up).
pub const NAV_CLUSTER_LAST: u8 = 82;

impl KeyCode {
    /// The key's canonical code value.
    pub open spec fn code_spec(self) -> u8 {
        match self {
            KeyCode::No => 0,
            KeyCode::A => 4,
            KeyCode::B => 5,
            KeyCode::C => 6,
            KeyCode::D => 7,
            KeyCode::E => 8,
            KeyCode::F => 9,
            KeyCode::G => 10,
            KeyCode::H => 11,
            KeyCode::I => 12,
            KeyCode::J => 13,
            KeyCode::K => 14,
            KeyCode::L => 15,
            KeyCode::M => 16,
            KeyCode::N => 17,
            KeyCode::O => 18,
            KeyCode::P => 19,
            KeyCode::Q => 20,
            KeyCode::R => 21,
            KeyCode::S => 22,
            KeyCode::T => 23,
            KeyCode::U => 24,
            KeyCode::V => 25,
            KeyCode::W => 26,
            KeyCode::X => 27,
            KeyCode::Y => 28,
            KeyCode::Z => 29,
            KeyCode::N1 => 30,
            KeyCode::N2 => 31,
            KeyCode::N3 => 32,
            KeyCode::N4 => 33,
            KeyCode::N5 => 34,
            KeyCode::N6 => 35,
            KeyCode::N7 => 36,
            KeyCode::N8 => 37,
            KeyCode::N9 => 38,
            KeyCode::N0 => 39,
            KeyCode::Enter => 40,
            KeyCode::Escape => 41,
            KeyCode::BSpace => 42,
            KeyCode::Tab => 43,
            KeyCode::Space => 44,
            KeyCode::Minus => 45,
            KeyCode::Equal => 46,
            KeyCode::LBracket => 47,
            KeyCode::RBracket => 48,
            KeyCode::BSlash => 49,
            KeyCode::SColon => 51,
            KeyCode::Quote => 52,
            KeyCode::Grave => 53,
            KeyCode::Comma => 54,
            KeyCode::Dot => 55,
            KeyCode::Slash => 56,
            KeyCode::Caps => 57,
            KeyCode::F1 => 58,
            KeyCode::F2 => 59,
            KeyCode::F3 => 60,
            KeyCode::F4 => 61,
            KeyCode::F5 => 62,
            KeyCode::F6 => 63,
            KeyCode::F7 => 64,
            KeyCode::F8 => 65,
            KeyCode::F9 => 66,
            KeyCode::F10 => 67,
            KeyCode::F11 => 68,
            KeyCode::F12 => 69,
            KeyCode::PScreen => 70,
            KeyCode::ScrollLock => 71,
            KeyCode::Pause => 72,
            KeyCode::Insert => 73,
            KeyCode::Home => 74,
            KeyCode::PgUp => 75,
            KeyCode::Delete => 76,
            KeyCode::End => 77,
            KeyCode::PgDown => 78,
            KeyCode::Right => 79,
            KeyCode::Left => 80,
            KeyCode::Down => 81,
            KeyCode::Up => 82,
            KeyCode::Numlock => 83,
            KeyCode::KpSlash => 84,
            KeyCode::KpAsterisk => 85,
            KeyCode::KpMinus => 86,
            KeyCode::KpPlus => 87,
            KeyCode::KpEnter => 88,
            KeyCode::Kp1 => 89,
            KeyCode::Kp2 => 90,
            KeyCode::Kp3 => 91,
            KeyCode::Kp4 => 92,
            KeyCode::Kp5 => 93,
            KeyCode::Kp6 => 94,
            KeyCode::Kp7 => 95,
            KeyCode::Kp8 => 96,
            KeyCode::Kp9 => 97,
            KeyCode::Kp0 => 98,
            KeyCode::KpDot => 99,
            KeyCode::LCtrl => 224,
            KeyCode::LShift => 225,
            KeyCode::LAlt => 226,
            KeyCode::LMeta => 227,
            KeyCode::RCtrl => 228,
            KeyCode::RShift => 229,
            KeyCode::RAlt => 230,
            KeyCode::RMeta => 231,
        }
    }

    /// The key's canonical code value.
    pub fn code(self) -> (c: u8)
        ensures
            c == self.code_spec(),
    {
        match self {
            KeyCode::No => 0,
            KeyCode::A => 4,
            KeyCode::B => 5,
            KeyCode::C => 6,
            KeyCode::D => 7,
            KeyCode::E => 8,
            KeyCode::F => 9,
            KeyCode::G => 10,
            KeyCode::H => 11,
            KeyCode::I => 12,
            KeyCode::J => 13,
            KeyCode::K => 14,
            KeyCode::L => 15,
            KeyCode::M => 16,
            KeyCode::N => 17,
            KeyCode::O => 18,
            KeyCode::P => 19,
            KeyCode::Q => 20,
            KeyCode::R => 21,
            KeyCode::S => 22,
            KeyCode::T => 23,
            KeyCode::U => 24,
            KeyCode::V => 25,
            KeyCode::W => 26,
            KeyCode::X => 27,
            KeyCode::Y => 28,
            KeyCode::Z => 29,
            KeyCode::N1 => 30,
            KeyCode::N2 => 31,
            KeyCode::N3 => 32,
            KeyCode::N4 => 33,
            KeyCode::N5 => 34,
            KeyCode::N6 => 35,
            KeyCode::N7 => 36,
            KeyCode::N8 => 37,
            KeyCode::N9 => 38,
            KeyCode::N0 => 39,
            KeyCode::Enter => 40,
            KeyCode::Escape => 41,
            KeyCode::BSpace => 42,
            KeyCode::Tab => 43,
            KeyCode::Space => 44,
            KeyCode::Minus => 45,
            KeyCode::Equal => 46,
            KeyCode::LBracket => 47,
            KeyCode::RBracket => 48,
            KeyCode::BSlash => 49,
            KeyCode::SColon => 51,
            KeyCode::Quote => 52,
            KeyCode::Grave => 53,
            KeyCode::Comma => 54,
            KeyCode::Dot => 55,
            KeyCode::Slash => 56,
            KeyCode::Caps => 57,
            KeyCode::F1 => 58,
            KeyCode::F2 => 59,
            KeyCode::F3 => 60,
            KeyCode::F4 => 61,
            KeyCode::F5 => 62,
            KeyCode::F6 => 63,
            KeyCode::F7 => 64,
            KeyCode::F8 => 65,
            KeyCode::F9 => 66,
            KeyCode::F10 => 67,
            KeyCode::F11 => 68,
            KeyCode::F12 => 69,
            KeyCode::PScreen => 70,
            KeyCode::ScrollLock => 71,
            KeyCode::Pause => 72,
            KeyCode::Insert => 73,
            KeyCode::Home => 74,
            KeyCode::PgUp => 75,
            KeyCode::Delete => 76,
            KeyCode::End => 77,
            KeyCode::PgDown => 78,
            KeyCode::Right => 79,
            KeyCode::Left => 80,
            KeyCode::Down => 81,
            KeyCode::Up => 82,
            KeyCode::Numlock => 83,
            KeyCode::KpSlash => 84,
            KeyCode::KpAsterisk => 85,
            KeyCode::KpMinus => 86,
            KeyCode::KpPlus => 87,
            KeyCode::KpEnter => 88,
            KeyCode::Kp1 => 89,
            KeyCode::Kp2 => 90,
            KeyCode::Kp3 => 91,
            KeyCode::Kp4 => 92,
            KeyCode::Kp5 => 93,
            KeyCode::Kp6 => 94,
            KeyCode::Kp7 => 95,
            KeyCode::Kp8 => 96,
            KeyCode::Kp9 => 97,
            KeyCode::Kp0 => 98,
            KeyCode::KpDot => 99,
            KeyCode::LCtrl => 224,
            KeyCode::LShift => 225,
            KeyCode::LAlt => 226,
            KeyCode::LMeta => 227,
            KeyCode::RCtrl => 228,
            KeyCode::RShift => 229,
            KeyCode::RAlt => 230,
            KeyCode::RMeta => 231,
        }
    }

    /// Whether the key is a modifier: its code lies in the modifier block.
    pub open spec fn is_modifier_spec(self) -> bool {
        MODIFIER_FIRST <= self.code_spec() <= MODIFIER_LAST
    }

    /// Whether the key is a modifier: its code lies in the modifier block.
    pub fn is_modifier(self) -> (r: bool)
        ensures
            r == self.is_modifier_spec(),
    {
        let c = self.code();
        MODIFIER_FIRST <= c && c <= MODIFIER_LAST
    }

    /// Whether the key belongs to the navigation cluster, print screen
    /// through arrow up by code value.
    pub open spec fn is_nav_cluster_spec(self) -> bool {
        NAV_CLUSTER_FIRST <= self.code_spec() <= NAV_CLUSTER_LAST
    }

    /// Whether the key belongs to the navigation cluster, print screen
    /// through arrow up by code value.
    pub fn is_nav_cluster(self) -> (r: bool)
        ensures
            r == self.is_nav_cluster_spec(),
    {
        let c = self.code();
        NAV_CLUSTER_FIRST <= c && c <= NAV_CLUSTER_LAST
    }
}

} // verus!
