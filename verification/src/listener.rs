//! How the listener reads a received datagram: which input event to replay.
use vstd::prelude::*;
use crate::win_key_codes::{
    VK_BACK, VK_CONTROL, VK_DELETE, VK_DOWN, VK_ESCAPE, VK_HOME, VK_LBUTTON, VK_LCONTROL, VK_LEFT, VK_LMENU, VK_LSHIFT, VK_MBUTTON, VK_MENU, VK_NEXT, VK_NUMPAD0, VK_NUMPAD9, VK_OEM_1, VK_OEM_2, VK_OEM_3, VK_OEM_4, VK_OEM_5, VK_OEM_6, VK_OEM_7, VK_OEM_COMMA, VK_OEM_MINUS, VK_OEM_PERIOD, VK_OEM_PLUS, VK_PRIOR, VK_RBUTTON, VK_RCONTROL, VK_RETURN, VK_RIGHT, VK_RMENU, VK_RSHIFT, VK_SHIFT, VK_SPACE, VK_TAB, VK_UP,
};

verus! {

/// A mouse button (or wheel direction) to press, release or click.
#[derive(Debug, Clone, Copy, PartialEq, Eq, Structural)]
pub enum MouseButton {
    Left,
    Right,
    Middle,
    ScrollUp,
    ScrollDown,
}

/// A key to press or release.
#[derive(Debug, Clone, Copy, PartialEq, Eq, Structural)]
pub enum Key {
    /// The key that types this character on the current layout.
    Layout(char),
    Space,
    Backspace,
    Tab,
    Escape,
    Return,
    LeftArrow,
    RightArrow,
    UpArrow,
    DownArrow,
    Shift,
    Control,
    Alt,
    Home,
    Delete,
    PageUp,
    PageDown,
}

/// The input event that a datagram asks the listener to replay.
#[derive(Debug, Clone, Copy, PartialEq, Eq, Structural)]
pub enum ListenerCommand {
    /// Nothing to do.
    Ignore,
    MouseDown(MouseButton),
    MouseUp(MouseButton),
    MouseClick(MouseButton),
    /// Move the pointer by this many pixels.
    MoveRelative(i32, i32),
    KeyDown(Key),
    KeyUp(Key),
    /// A key code that the listener cannot replay.
    UnsupportedKey(u8),
}

/// The byte read as a two's complement `i8`.
pub open spec fn signed_byte(b: u8) -> int {
    if b >= 128 {
        b - 256
    } else {
        b as int
    }
}

/// The key that a virtual-key code stands for, where the listener knows one.
pub open spec fn key_of_code(c: u8) -> Option<Key> {
    if 0x30 <= c <= 0x39 {
        Some(Key::Layout(c as char))
    } else if 0x41 <= c <= 0x5A {
        Some(Key::Layout((c + 0x20) as char))
    } else if VK_NUMPAD0 <= c <= VK_NUMPAD9 {
        Some(Key::Layout((c - 0x30) as char))
    } else if c == VK_SPACE {
        Some(Key::Space)
    } else if c == VK_BACK {
        Some(Key::Backspace)
    } else if c == VK_TAB {
        Some(Key::Tab)
    } else if c == VK_ESCAPE {
        Some(Key::Escape)
    } else if c == VK_RETURN {
        Some(Key::Return)
    } else if c == VK_LEFT {
        Some(Key::LeftArrow)
    } else if c == VK_RIGHT {
        Some(Key::RightArrow)
    } else if c == VK_UP {
        Some(Key::UpArrow)
    } else if c == VK_DOWN {
        Some(Key::DownArrow)
    } else if c == VK_LSHIFT || c == VK_SHIFT || c == VK_RSHIFT {
        Some(Key::Shift)
    } else if c == VK_LCONTROL || c == VK_CONTROL || c == VK_RCONTROL {
        Some(Key::Control)
    } else if c == VK_LMENU || c == VK_MENU || c == VK_RMENU {
        Some(Key::Alt)
    } else if c == VK_HOME {
        Some(Key::Home)
    } else if c == VK_DELETE {
        Some(Key::Delete)
    } else if c == VK_PRIOR {
        Some(Key::PageUp)
    } else if c == VK_NEXT {
        Some(Key::PageDown)
    } else if c == VK_OEM_1 {
        Some(Key::Layout(';'))
    } else if c == VK_OEM_2 {
        Some(Key::Layout('/'))
    } else if c == VK_OEM_3 {
        Some(Key::Layout('`'))
    } else if c == VK_OEM_4 {
        Some(Key::Layout('['))
    } else if c == VK_OEM_5 {
        Some(Key::Layout('\\'))
    } else if c == VK_OEM_6 {
        Some(Key::Layout(']'))
    } else if c == VK_OEM_7 {
        Some(Key::Layout('\''))
    } else if c == VK_OEM_PLUS {
        Some(Key::Layout('='))
    } else if c == VK_OEM_MINUS {
        Some(Key::Layout('-'))
    } else if c == VK_OEM_COMMA {
        Some(Key::Layout(','))
    } else if c == VK_OEM_PERIOD {
        Some(Key::Layout('.'))
    } else {
        None
    }
}

/// The mouse button that a button code stands for.
pub open spec fn button_of_code(c: u8) -> Option<MouseButton> {
    if c == VK_LBUTTON {
        Some(MouseButton::Left)
    } else if c == VK_RBUTTON {
        Some(MouseButton::Right)
    } else if c == VK_MBUTTON {
        Some(MouseButton::Middle)
    } else {
        None
    }
}

/// What the listener replays for the datagram bytes `d` (three of them).
///
/// - a first byte up to 6 is a mouse button: press it when the second byte
///   is 0, release it otherwise; codes that name no button are ignored;
/// - 7 is the wheel: one click up when the second byte, read as an `i8`, is
///   positive, one click down otherwise;
/// - 0xFF moves the pointer by the second and third bytes read as `i8`;
/// - any other first byte is a key: release it when the second byte is 1,
///   press it otherwise; codes that name no key are reported unsupported.
pub open spec fn decode_spec(d: Seq<u8>) -> ListenerCommand {
    let c = d[0];
    if c <= 6 {
        match button_of_code(c) {
            Some(b) => if d[1] == 0 {
                ListenerCommand::MouseDown(b)
            } else {
                ListenerCommand::MouseUp(b)
            },
            None => ListenerCommand::Ignore,
        }
    } else if c == 7 {
        if signed_byte(d[1]) > 0 {
            ListenerCommand::MouseClick(MouseButton::ScrollUp)
        } else {
            ListenerCommand::MouseClick(MouseButton::ScrollDown)
        }
    } else if c == 0xFF {
        ListenerCommand::MoveRelative(signed_byte(d[1]) as i32, signed_byte(d[2]) as i32)
    } else {
        match key_of_code(c) {
            Some(k) => if d[1] == 1 {
                ListenerCommand::KeyUp(k)
            } else {
                ListenerCommand::KeyDown(k)
            },
            None => ListenerCommand::UnsupportedKey(c),
        }
    }
}

/// Reads a byte as a two's complement `i8`, widened.
fn signed_of(b: u8) -> (v: i32)
    ensures
        v == signed_byte(b),
{
    if b >= 128 {
        b as i32 - 256
    } else {
        b as i32
    }
}

/// The key that a virtual-key code stands for (see `key_of_code`).
pub fn key_for_code(c: u8) -> (k: Option<Key>)
    ensures
        k == key_of_code(c),
{
    if 0x30 <= c && c <= 0x39 {
        Some(Key::Layout(c as char))
    } else if 0x41 <= c && c <= 0x5A {
        Some(Key::Layout((c + 0x20) as char))
    } else if VK_NUMPAD0 <= c && c <= VK_NUMPAD9 {
        Some(Key::Layout((c - 0x30) as char))
    } else if c == VK_SPACE {
        Some(Key::Space)
    } else if c == VK_BACK {
        Some(Key::Backspace)
    } else if c == VK_TAB {
        Some(Key::Tab)
    } else if c == VK_ESCAPE {
        Some(Key::Escape)
    } else if c == VK_RETURN {
        Some(Key::Return)
    } else if c == VK_LEFT {
        Some(Key::LeftArrow)
    } else if c == VK_RIGHT {
        Some(Key::RightArrow)
    } else if c == VK_UP {
        Some(Key::UpArrow)
    } else if c == VK_DOWN {
        Some(Key::DownArrow)
    } else if c == VK_LSHIFT || c == VK_SHIFT || c == VK_RSHIFT {
        Some(Key::Shift)
    } else if c == VK_LCONTROL || c == VK_CONTROL || c == VK_RCONTROL {
        Some(Key::Control)
    } else if c == VK_LMENU || c == VK_MENU || c == VK_RMENU {
        Some(Key::Alt)
    } else if c == VK_HOME {
        Some(Key::Home)
    } else if c == VK_DELETE {
        Some(Key::Delete)
    } else if c == VK_PRIOR {
        Some(Key::PageUp)
    } else if c == VK_NEXT {
        Some(Key::PageDown)
    } else if c == VK_OEM_1 {
        Some(Key::Layout(';'))
    } else if c == VK_OEM_2 {
        Some(Key::Layout('/'))
    } else if c == VK_OEM_3 {
        Some(Key::Layout('`'))
    } else if c == VK_OEM_4 {
        Some(Key::Layout('['))
    } else if c == VK_OEM_5 {
        Some(Key::Layout('\\'))
    } else if c == VK_OEM_6 {
        Some(Key::Layout(']'))
    } else if c == VK_OEM_7 {
        Some(Key::Layout('\''))
    } else if c == VK_OEM_PLUS {
        Some(Key::Layout('='))
    } else if c == VK_OEM_MINUS {
        Some(Key::Layout('-'))
    } else if c == VK_OEM_COMMA {
        Some(Key::Layout(','))
    } else if c == VK_OEM_PERIOD {
        Some(Key::Layout('.'))
    } else {
        None
    }
}

/// What the listener replays for a received datagram (see `decode_spec`).
pub fn decode_command(data: &[u8; 3]) -> (c: ListenerCommand)
    ensures
        c == decode_spec(data@),
{
    let code = data[0];
    if code <= 6 {
        let button = if code == VK_LBUTTON {
            MouseButton::Left
        } else if code == VK_RBUTTON {
            MouseButton::Right
        } else if code == VK_MBUTTON {
            MouseButton::Middle
        } else {
            return ListenerCommand::Ignore;
        };
        if data[1] == 0 {
            ListenerCommand::MouseDown(button)
        } else {
            ListenerCommand::MouseUp(button)
        }
    } else if code == 7 {
        if signed_of(data[1]) > 0 {
            ListenerCommand::MouseClick(MouseButton::ScrollUp)
        } else {
            ListenerCommand::MouseClick(MouseButton::ScrollDown)
        }
    } else if code == 0xFF {
        ListenerCommand::MoveRelative(signed_of(data[1]), signed_of(data[2]))
    } else {
        match key_for_code(code) {
            Some(k) => if data[1] == 1 {
                ListenerCommand::KeyUp(k)
            } else {
                ListenerCommand::KeyDown(k)
            },
            None => ListenerCommand::UnsupportedKey(code),
        }
    }
}

/// Digit keys (codes 0x30 to 0x39) are the keys that type the digit with
/// the same character code, and a datagram carrying one with 0 as its second
/// byte presses it, with 1 releases it.
pub proof fn lemma_digit_keys_decode(c: u8, x: u8)
    requires
        0x30 <= c <= 0x39,
    ensures
        key_of_code(c) matches Some(Key::Layout(ch)) && ch as u32 == c as u32 && '0' <= ch <= '9',
        decode_spec(seq![c, 0u8, x]) == ListenerCommand::KeyDown(Key::Layout(c as char)),
        decode_spec(seq![c, 1u8, x]) == ListenerCommand::KeyUp(Key::Layout(c as char)),
{
    assert(seq![c, 0u8, x][0] == c && seq![c, 0u8, x][1] == 0u8);
    assert(seq![c, 1u8, x][0] == c && seq![c, 1u8, x][1] == 1u8);
}

/// Letter keys (codes 0x41 to 0x5A, the upper-case letters) are the keys that
/// type the lower-case letter: character code 0x20 above the key code.
pub proof fn lemma_letter_keys_decode(c: u8, x: u8)
    requires
        0x41 <= c <= 0x5A,
    ensures
        key_of_code(c) matches Some(Key::Layout(ch)) && ch as u32 == c as u32 + 0x20 && 'a' <= ch
            <= 'z',
        decode_spec(seq![c, 0u8, x]) == ListenerCommand::KeyDown(key_of_code(c)->0),
        decode_spec(seq![c, 1u8, x]) == ListenerCommand::KeyUp(key_of_code(c)->0),
{
    assert(seq![c, 0u8, x][0] == c && seq![c, 0u8, x][1] == 0u8);
    assert(seq![c, 1u8, x][0] == c && seq![c, 1u8, x][1] == 1u8);
}

/// A number-pad digit (codes 0x60 to 0x69) is replayed as the same key as the
/// digit on the main row.
pub proof fn lemma_numpad_digit_is_main_digit(d: u8)
    requires
        d < 10,
    ensures
        key_of_code((0x60 + d) as u8) == key_of_code((0x30 + d) as u8),
        key_of_code((0x30 + d) as u8) is Some,
{
}

/// Every code that the listener knows a key for is replayed: 0 as the second
/// byte presses the key, 1 releases it.
pub proof fn lemma_known_keys_replay(c: u8, x: u8)
    requires
        key_of_code(c) is Some,
    ensures
        decode_spec(seq![c, 0u8, x]) == ListenerCommand::KeyDown(key_of_code(c)->0),
        decode_spec(seq![c, 1u8, x]) == ListenerCommand::KeyUp(key_of_code(c)->0),
{
    assert(seq![c, 0u8, x][0] == c && seq![c, 0u8, x][1] == 0u8);
    assert(seq![c, 1u8, x][0] == c && seq![c, 1u8, x][1] == 1u8);
}

/// The left, right and generic codes of each modifier (Shift 0xA0, 0xA1,
/// 0x10; Control 0xA2, 0xA3, 0x11; Alt 0xA4, 0xA5, 0x12) are replayed as the
/// same key, and the three modifiers as three different keys.
pub proof fn lemma_modifier_codes_share_a_key()
    ensures
        key_of_code(0xA0) == key_of_code(0xA1) && key_of_code(0xA1) == key_of_code(0x10),
        key_of_code(0xA2) == key_of_code(0xA3) && key_of_code(0xA3) == key_of_code(0x11),
        key_of_code(0xA4) == key_of_code(0xA5) && key_of_code(0xA5) == key_of_code(0x12),
        key_of_code(0x10) is Some && key_of_code(0x11) is Some && key_of_code(0x12) is Some,
        key_of_code(0x10) != key_of_code(0x11) && key_of_code(0x11) != key_of_code(0x12)
            && key_of_code(0x10) != key_of_code(0x12),
{
}

/// Reading a byte as an `i8` gives a value in `-128..=127` whose low byte is
/// the byte again.
pub proof fn lemma_signed_byte_round_trip(b: u8)
    ensures
        -128 <= signed_byte(b) <= 127,
        (signed_byte(b) % 256) as u8 == b,
        b < 128 ==> signed_byte(b) == b,
{
}

} // verus!
