//! Keyboard keys and their virtual-key codes.

use vstd::prelude::*;

verus! {

/// A key that a binding can name.
#[derive(Clone, Copy, Debug, PartialEq, Eq, Structural)]
pub enum HostKey {
    A,
    B,
    C,
    D,
    E,
    F,
    G,
    H,
    I,
    J,
    K,
    L,
    M,
    N,
    O,
    P,
    Q,
    R,
    S,
    T,
    U,
    V,
    W,
    X,
    Y,
    Z,
    Num0,
    Num1,
    Num2,
    Num3,
    Num4,
    Num5,
    Num6,
    Num7,
    Num8,
    Num9,
    F1,
    F2,
    F3,
    F4,
    F5,
    F6,
    F7,
    F8,
    F9,
    F10,
    F11,
    F12,
    Escape,
    Tab,
    Backspace,
    Enter,
    Space,
    Insert,
    Delete,
    Home,
    End,
    PageUp,
    PageDown,
    ArrowLeft,
    ArrowUp,
    ArrowRight,
    ArrowDown,
    Semicolon,
    Plus,
    Equals,
    Comma,
    Minus,
    Period,
    Slash,
    Questionmark,
    Backtick,
    OpenBracket,
    OpenCurlyBracket,
    Backslash,
    Pipe,
    CloseBracket,
    CloseCurlyBracket,
    Quote,
    /// A key without a virtual-key code of its own.
    Other,
}

/// The virtual-key code of a key; two keys that share a cap share a code.
pub open spec fn code_of(key: HostKey) -> Option<u16> {
    match key {
        HostKey::A => Some(0x41),
        HostKey::B => Some(0x42),
        HostKey::C => Some(0x43),
        HostKey::D => Some(0x44),
        HostKey::E => Some(0x45),
        HostKey::F => Some(0x46),
        HostKey::G => Some(0x47),
        HostKey::H => Some(0x48),
        HostKey::I => Some(0x49),
        HostKey::J => Some(0x4A),
        HostKey::K => Some(0x4B),
        HostKey::L => Some(0x4C),
        HostKey::M => Some(0x4D),
        HostKey::N => Some(0x4E),
        HostKey::O => Some(0x4F),
        HostKey::P => Some(0x50),
        HostKey::Q => Some(0x51),
        HostKey::R => Some(0x52),
        HostKey::S => Some(0x53),
        HostKey::T => Some(0x54),
        HostKey::U => Some(0x55),
        HostKey::V => Some(0x56),
        HostKey::W => Some(0x57),
        HostKey::X => Some(0x58),
        HostKey::Y => Some(0x59),
        HostKey::Z => Some(0x5A),
        HostKey::Num0 => Some(0x30),
        HostKey::Num1 => Some(0x31),
        HostKey::Num2 => Some(0x32),
        HostKey::Num3 => Some(0x33),
        HostKey::Num4 => Some(0x34),
        HostKey::Num5 => Some(0x35),
        HostKey::Num6 => Some(0x36),
        HostKey::Num7 => Some(0x37),
        HostKey::Num8 => Some(0x38),
        HostKey::Num9 => Some(0x39),
        HostKey::F1 => Some(0x70),
        HostKey::F2 => Some(0x71),
        HostKey::F3 => Some(0x72),
        HostKey::F4 => Some(0x73),
        HostKey::F5 => Some(0x74),
        HostKey::F6 => Some(0x75),
        HostKey::F7 => Some(0x76),
        HostKey::F8 => Some(0x77),
        HostKey::F9 => Some(0x78),
        HostKey::F10 => Some(0x79),
        HostKey::F11 => Some(0x7A),
        HostKey::F12 => Some(0x7B),
        HostKey::Escape => Some(0x1B),
        HostKey::Tab => Some(0x09),
        HostKey::Backspace => Some(0x08),
        HostKey::Enter => Some(0x0D),
        HostKey::Space => Some(0x20),
        HostKey::Insert => Some(0x2D),
        HostKey::Delete => Some(0x2E),
        HostKey::Home => Some(0x24),
        HostKey::End => Some(0x23),
        HostKey::PageUp => Some(0x21),
        HostKey::PageDown => Some(0x22),
        HostKey::ArrowLeft => Some(0x25),
        HostKey::ArrowUp => Some(0x26),
        HostKey::ArrowRight => Some(0x27),
        HostKey::ArrowDown => Some(0x28),
        HostKey::Semicolon => Some(0xBA),
        HostKey::Plus | HostKey::Equals => Some(0xBB),
        HostKey::Comma => Some(0xBC),
        HostKey::Minus => Some(0xBD),
        HostKey::Period => Some(0xBE),
        HostKey::Slash | HostKey::Questionmark => Some(0xBF),
        HostKey::Backtick => Some(0xC0),
        HostKey::OpenBracket | HostKey::OpenCurlyBracket => Some(0xDB),
        HostKey::Backslash | HostKey::Pipe => Some(0xDC),
        HostKey::CloseBracket | HostKey::CloseCurlyBracket => Some(0xDD),
        HostKey::Quote => Some(0xDE),
        HostKey::Other => None,
    }
}

/// The virtual-key code of a key, if it has one.
pub fn vk_from_host_key(key: HostKey) -> (r: Option<u16>)
    ensures
        r == code_of(key),
{
    let code: u16 = match key {
        HostKey::A => 0x41,
        HostKey::B => 0x42,
        HostKey::C => 0x43,
        HostKey::D => 0x44,
        HostKey::E => 0x45,
        HostKey::F => 0x46,
        HostKey::G => 0x47,
        HostKey::H => 0x48,
        HostKey::I => 0x49,
        HostKey::J => 0x4A,
        HostKey::K => 0x4B,
        HostKey::L => 0x4C,
        HostKey::M => 0x4D,
        HostKey::N => 0x4E,
        HostKey::O => 0x4F,
        HostKey::P => 0x50,
        HostKey::Q => 0x51,
        HostKey::R => 0x52,
        HostKey::S => 0x53,
        HostKey::T => 0x54,
        HostKey::U => 0x55,
        HostKey::V => 0x56,
        HostKey::W => 0x57,
        HostKey::X => 0x58,
        HostKey::Y => 0x59,
        HostKey::Z => 0x5A,
        HostKey::Num0 => 0x30,
        HostKey::Num1 => 0x31,
        HostKey::Num2 => 0x32,
        HostKey::Num3 => 0x33,
        HostKey::Num4 => 0x34,
        HostKey::Num5 => 0x35,
        HostKey::Num6 => 0x36,
        HostKey::Num7 => 0x37,
        HostKey::Num8 => 0x38,
        HostKey::Num9 => 0x39,
        HostKey::F1 => 0x70,
        HostKey::F2 => 0x71,
        HostKey::F3 => 0x72,
        HostKey::F4 => 0x73,
        HostKey::F5 => 0x74,
        HostKey::F6 => 0x75,
        HostKey::F7 => 0x76,
        HostKey::F8 => 0x77,
        HostKey::F9 => 0x78,
        HostKey::F10 => 0x79,
        HostKey::F11 => 0x7A,
        HostKey::F12 => 0x7B,
        HostKey::Escape => 0x1B,
        HostKey::Tab => 0x09,
        HostKey::Backspace => 0x08,
        HostKey::Enter => 0x0D,
        HostKey::Space => 0x20,
        HostKey::Insert => 0x2D,
        HostKey::Delete => 0x2E,
        HostKey::Home => 0x24,
        HostKey::End => 0x23,
        HostKey::PageUp => 0x21,
        HostKey::PageDown => 0x22,
        HostKey::ArrowLeft => 0x25,
        HostKey::ArrowUp => 0x26,
        HostKey::ArrowRight => 0x27,
        HostKey::ArrowDown => 0x28,
        HostKey::Semicolon => 0xBA,
        HostKey::Plus | HostKey::Equals => 0xBB,
        HostKey::Comma => 0xBC,
        HostKey::Minus => 0xBD,
        HostKey::Period => 0xBE,
        HostKey::Slash | HostKey::Questionmark => 0xBF,
        HostKey::Backtick => 0xC0,
        HostKey::OpenBracket | HostKey::OpenCurlyBracket => 0xDB,
        HostKey::Backslash | HostKey::Pipe => 0xDC,
        HostKey::CloseBracket | HostKey::CloseCurlyBracket => 0xDD,
        HostKey::Quote => 0xDE,
        HostKey::Other => return None,
    };
    Some(code)
}

/// Whether two keys share a cap: one is typed as the other with a modifier.
pub open spec fn share_a_cap(a: HostKey, b: HostKey) -> bool {
    let cap = |k: HostKey| match k {
        HostKey::Equals => HostKey::Plus,
        HostKey::Questionmark => HostKey::Slash,
        HostKey::OpenCurlyBracket => HostKey::OpenBracket,
        HostKey::Pipe => HostKey::Backslash,
        HostKey::CloseCurlyBracket => HostKey::CloseBracket,
        other => other,
    };
    cap(a) == cap(b)
}

/// Codes fit a byte, and two keys have the same code exactly where they share a cap.
pub proof fn codes_tell_caps_apart(a: HostKey, b: HostKey)
    ensures
        code_of(a) matches Some(vk) ==> vk <= 0xFF,
        code_of(a) == code_of(b) <==> share_a_cap(a, b),
{
}

/// Letters, figures and function keys follow each other in their codes; the arrows go around from
/// the left; letters and figures have the codes of their ASCII characters.
pub proof fn codes_run_in_rows()
    ensures
        code_of(HostKey::A) == Some(0x41u16) && code_of(HostKey::Num0) == Some(0x30u16),
        code_of(HostKey::F1) == Some(0x70u16),
        rows_on(HostKey::A, HostKey::B) && rows_on(HostKey::B, HostKey::C) && rows_on(
            HostKey::C,
            HostKey::D,
        ) && rows_on(HostKey::D, HostKey::E) && rows_on(HostKey::E, HostKey::F) && rows_on(
            HostKey::F,
            HostKey::G,
        ) && rows_on(HostKey::G, HostKey::H) && rows_on(HostKey::H, HostKey::I) && rows_on(
            HostKey::I,
            HostKey::J,
        ) && rows_on(HostKey::J, HostKey::K) && rows_on(HostKey::K, HostKey::L) && rows_on(
            HostKey::L,
            HostKey::M,
        ) && rows_on(HostKey::M, HostKey::N) && rows_on(HostKey::N, HostKey::O) && rows_on(
            HostKey::O,
            HostKey::P,
        ) && rows_on(HostKey::P, HostKey::Q) && rows_on(HostKey::Q, HostKey::R) && rows_on(
            HostKey::R,
            HostKey::S,
        ) && rows_on(HostKey::S, HostKey::T) && rows_on(HostKey::T, HostKey::U) && rows_on(
            HostKey::U,
            HostKey::V,
        ) && rows_on(HostKey::V, HostKey::W) && rows_on(HostKey::W, HostKey::X) && rows_on(
            HostKey::X,
            HostKey::Y,
        ) && rows_on(HostKey::Y, HostKey::Z),
        rows_on(HostKey::Num0, HostKey::Num1) && rows_on(HostKey::Num1, HostKey::Num2) && rows_on(
            HostKey::Num2,
            HostKey::Num3,
        ) && rows_on(HostKey::Num3, HostKey::Num4) && rows_on(HostKey::Num4, HostKey::Num5)
            && rows_on(HostKey::Num5, HostKey::Num6) && rows_on(HostKey::Num6, HostKey::Num7)
            && rows_on(HostKey::Num7, HostKey::Num8) && rows_on(HostKey::Num8, HostKey::Num9),
        rows_on(HostKey::F1, HostKey::F2) && rows_on(HostKey::F2, HostKey::F3) && rows_on(
            HostKey::F3,
            HostKey::F4,
        ) && rows_on(HostKey::F4, HostKey::F5) && rows_on(HostKey::F5, HostKey::F6) && rows_on(
            HostKey::F6,
            HostKey::F7,
        ) && rows_on(HostKey::F7, HostKey::F8) && rows_on(HostKey::F8, HostKey::F9) && rows_on(
            HostKey::F9,
            HostKey::F10,
        ) && rows_on(HostKey::F10, HostKey::F11) && rows_on(HostKey::F11, HostKey::F12),
        code_of(HostKey::ArrowLeft) == Some(0x25u16),
        rows_on(HostKey::ArrowLeft, HostKey::ArrowUp),
        rows_on(HostKey::ArrowUp, HostKey::ArrowRight),
        rows_on(HostKey::ArrowRight, HostKey::ArrowDown),
        code_of(HostKey::Space) == Some(0x20u16),
        rows_on(HostKey::Space, HostKey::PageUp) && rows_on(HostKey::PageUp, HostKey::PageDown),
        rows_on(HostKey::PageDown, HostKey::End) && rows_on(HostKey::End, HostKey::Home),
        rows_on(HostKey::Home, HostKey::ArrowLeft),
        rows_on(HostKey::Insert, HostKey::Delete) && code_of(HostKey::Insert) == Some(0x2Du16),
        rows_on(HostKey::Backspace, HostKey::Tab) && code_of(HostKey::Tab) == Some(9u16),
        code_of(HostKey::Enter) == Some(13u16) && code_of(HostKey::Escape) == Some(27u16),
        code_of(HostKey::Semicolon) == Some(0xBAu16),
        rows_on(HostKey::Semicolon, HostKey::Plus) && rows_on(HostKey::Equals, HostKey::Comma),
        rows_on(HostKey::Comma, HostKey::Minus) && rows_on(HostKey::Minus, HostKey::Period),
        rows_on(HostKey::Period, HostKey::Slash) && rows_on(
            HostKey::Questionmark,
            HostKey::Backtick,
        ),
        code_of(HostKey::OpenBracket) == Some(0xDBu16),
        rows_on(HostKey::OpenCurlyBracket, HostKey::Backslash),
        rows_on(HostKey::Pipe, HostKey::CloseBracket),
        rows_on(HostKey::CloseCurlyBracket, HostKey::Quote),
        code_of(HostKey::Other) is None,
{
}

/// Whether the code of `b` follows that of `a`.
pub open spec fn rows_on(a: HostKey, b: HostKey) -> bool {
    code_of(a) matches Some(x) && code_of(b) matches Some(y) && y == x + 1
}

} // verus!
