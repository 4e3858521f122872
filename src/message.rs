//! Decoding of raw window messages into tagged variants.

use vstd::prelude::*;

verus! {

pub const WM_DESTROY: u32 = 0x0002;
pub const WM_KILLFOCUS: u32 = 0x0008;
pub const WM_CLOSE: u32 = 0x0010;
pub const WM_QUIT: u32 = 0x0012;
pub const WM_KEYDOWN: u32 = 0x0100;
pub const WM_KEYUP: u32 = 0x0101;
pub const WM_CHAR: u32 = 0x0102;
pub const WM_SYSKEYDOWN: u32 = 0x0104;
pub const WM_SYSKEYUP: u32 = 0x0105;
pub const WM_MOUSEMOVE: u32 = 0x0200;
pub const WM_LBUTTONDOWN: u32 = 0x0201;
pub const WM_LBUTTONUP: u32 = 0x0202;
pub const WM_RBUTTONDOWN: u32 = 0x0204;
pub const WM_RBUTTONUP: u32 = 0x0205;
pub const WM_MBUTTONDOWN: u32 = 0x0207;
pub const WM_MBUTTONUP: u32 = 0x0208;
pub const WM_MOUSEWHEEL: u32 = 0x020A;

/// Mouse-move flags of the left, right and middle buttons (`MK_LBUTTON`,
/// `MK_RBUTTON`, `MK_MBUTTON`).
pub const MK_ANY_BUTTON: usize = 0x0013;

/// A pair of signed 16-bit client coordinates.
#[derive(Debug, Clone, Copy, PartialEq, Eq, Structural)]
pub struct Points {
    pub x: i16,
    pub y: i16,
}

/// The 16-bit word `w` (`0..=0xFFFF`) read as a two's-complement number.
pub open spec fn signed_word(w: int) -> int {
    if w >= 0x8000 {
        w - 0x10000
    } else {
        w
    }
}

/// The low word of the low 32 bits of `v`.
pub open spec fn low_word(v: int) -> int {
    (v % 0x1_0000_0000) % 0x10000
}

/// The high word of the low 32 bits of `v`.
pub open spec fn high_word(v: int) -> int {
    (v % 0x1_0000_0000) / 0x10000
}

fn word_as_i16(w: u32) -> (r: i16)
    requires
        w <= 0xFFFF,
    ensures
        r as int == signed_word(w as int),
{
    if w >= 0x8000 {
        (w as i32 - 0x10000) as i16
    } else {
        w as i16
    }
}

fn low_dword(v: u64) -> (r: u32)
    ensures
        r as int == v as int % 0x1_0000_0000,
{
    (v % 0x1_0000_0000) as u32
}

fn isize_bits(v: isize) -> (r: u64)
    ensures
        r as int % 0x1_0000_0000 == v as int % 0x1_0000_0000,
{
    if v >= 0 {
        v as u64
    } else {
        let r = (0x1_0000_0000_0000_0000i128 + v as i128) as u64;
        assert((0x1_0000_0000_0000_0000int + v as int) % 0x1_0000_0000 == v as int % 0x1_0000_0000)
            by (nonlinear_arith);
        r
    }
}

/// Unpacks the client coordinates of a mouse message: signed x in the low
/// word, signed y in the high word of the low 32 bits.
pub fn make_points(lparam: isize) -> (r: Points)
    ensures
        r.x as int == signed_word(low_word(lparam as int)),
        r.y as int == signed_word(high_word(lparam as int)),
{
    let coords = low_dword(isize_bits(lparam));
    Points { x: word_as_i16(coords % 0x10000), y: word_as_i16(coords / 0x10000) }
}

/// The signed wheel rotation of a wheel message: the high word of its
/// low 32 bits.
pub fn get_wheel_delta_wparam(wparam: usize) -> (r: i16)
    ensures
        r as int == signed_word(high_word(wparam as int)),
{
    let info = low_dword(wparam as u64);
    word_as_i16(info / 0x10000)
}

/// Bit 30 of the low 32 bits of `lparam`: set on a key-down that repeats.
pub open spec fn repeat_flag(lparam: int) -> bool {
    (lparam % 0x1_0000_0000) / 0x4000_0000 % 2 == 1
}

/// A window message, decoded from its kind and two parameters.
#[derive(Debug, Clone, Copy, PartialEq, Eq, Structural)]
pub enum WindowMessage {
    FocusLost,
    Close,
    Destroy,
    /// The quit request with its exit code.
    Quit(usize),
    /// A typed character code.
    Char(usize),
    KeyDown { code: usize, repeat: bool },
    KeyUp { code: usize },
    MouseMove { point: Points, buttons_held: bool },
    LeftDown,
    LeftUp,
    RightDown,
    RightUp,
    MiddleDown,
    MiddleUp,
    Wheel { point: Points, delta: i16 },
    /// Any kind this window does not handle itself.
    Other,
}

/// The decoded form of message `msg` with parameters `wparam` and `lparam`.
pub open spec fn decoded(msg: u32, wparam: usize, lparam: isize, m: WindowMessage) -> bool {
    if msg == WM_KILLFOCUS {
        m == WindowMessage::FocusLost
    } else if msg == WM_CLOSE {
        m == WindowMessage::Close
    } else if msg == WM_DESTROY {
        m == WindowMessage::Destroy
    } else if msg == WM_QUIT {
        m == WindowMessage::Quit(wparam)
    } else if msg == WM_CHAR {
        m == WindowMessage::Char(wparam)
    } else if msg == WM_KEYDOWN || msg == WM_SYSKEYDOWN {
        m == (WindowMessage::KeyDown { code: wparam, repeat: repeat_flag(lparam as int) })
    } else if msg == WM_KEYUP || msg == WM_SYSKEYUP {
        m == (WindowMessage::KeyUp { code: wparam })
    } else if msg == WM_MOUSEMOVE {
        m matches WindowMessage::MouseMove { point, buttons_held } && point.x as int
            == signed_word(low_word(lparam as int)) && point.y as int == signed_word(
            high_word(lparam as int),
        ) && buttons_held == (wparam & MK_ANY_BUTTON != 0)
    } else if msg == WM_LBUTTONDOWN {
        m == WindowMessage::LeftDown
    } else if msg == WM_LBUTTONUP {
        m == WindowMessage::LeftUp
    } else if msg == WM_RBUTTONDOWN {
        m == WindowMessage::RightDown
    } else if msg == WM_RBUTTONUP {
        m == WindowMessage::RightUp
    } else if msg == WM_MBUTTONDOWN {
        m == WindowMessage::MiddleDown
    } else if msg == WM_MBUTTONUP {
        m == WindowMessage::MiddleUp
    } else if msg == WM_MOUSEWHEEL {
        m matches WindowMessage::Wheel { point, delta } && point.x as int == signed_word(
            low_word(lparam as int),
        ) && point.y as int == signed_word(high_word(lparam as int)) && delta as int
            == signed_word(high_word(wparam as int))
    } else {
        m == WindowMessage::Other
    }
}

/// Decodes message `msg` and unpacks what its parameters carry.
pub fn decode(msg: u32, wparam: usize, lparam: isize) -> (r: WindowMessage)
    ensures
        decoded(msg, wparam, lparam, r),
{
    if msg == WM_KILLFOCUS {
        WindowMessage::FocusLost
    } else if msg == WM_CLOSE {
        WindowMessage::Close
    } else if msg == WM_DESTROY {
        WindowMessage::Destroy
    } else if msg == WM_QUIT {
        WindowMessage::Quit(wparam)
    } else if msg == WM_CHAR {
        WindowMessage::Char(wparam)
    } else if msg == WM_KEYDOWN || msg == WM_SYSKEYDOWN {
        let bits = low_dword(isize_bits(lparam));
        WindowMessage::KeyDown { code: wparam, repeat: bits / 0x4000_0000 % 2 == 1 }
    } else if msg == WM_KEYUP || msg == WM_SYSKEYUP {
        WindowMessage::KeyUp { code: wparam }
    } else if msg == WM_MOUSEMOVE {
        WindowMessage::MouseMove {
            point: make_points(lparam),
            buttons_held: wparam & MK_ANY_BUTTON != 0,
        }
    } else if msg == WM_LBUTTONDOWN {
        WindowMessage::LeftDown
    } else if msg == WM_LBUTTONUP {
        WindowMessage::LeftUp
    } else if msg == WM_RBUTTONDOWN {
        WindowMessage::RightDown
    } else if msg == WM_RBUTTONUP {
        WindowMessage::RightUp
    } else if msg == WM_MBUTTONDOWN {
        WindowMessage::MiddleDown
    } else if msg == WM_MBUTTONUP {
        WindowMessage::MiddleUp
    } else if msg == WM_MOUSEWHEEL {
        WindowMessage::Wheel { point: make_points(lparam), delta: get_wheel_delta_wparam(wparam) }
    } else {
        WindowMessage::Other
    }
}

/// The exit code a message pump stops with: the payload of a quit message,
/// and nothing for any other message.
pub fn quit_code(m: &WindowMessage) -> (r: Option<usize>)
    ensures
        r == (match *m {
            WindowMessage::Quit(code) => Some(code),
            _ => None,
        }),
{
    match m {
        WindowMessage::Quit(code) => Some(*code),
        _ => None,
    }
}

} // verus!
