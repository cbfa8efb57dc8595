//! What the listener replays of what the server's hooks send.
use vstd::prelude::*;
use crate::geometry::Vector2;
use crate::keyboard::{KeyHookAction, KeyTransition, TRACKED_KEYS, key_step};
use crate::listener::{ListenerCommand, MouseButton, decode_spec, key_of_code, signed_byte};
use crate::mouse::{MouseMessage, low_byte, transfer_packet_spec, wheel_steps};

verus! {

/// A key event that the keyboard hook forwards is replayed by the listener
/// as the same press or release of the same key, whenever the listener knows
/// the key; `x` is whatever the listener's third buffer byte still holds.
pub proof fn lemma_forwarded_key_replays(
    s: Seq<bool>,
    code: i32,
    kind: KeyTransition,
    vk: u32,
    transferring: bool,
    b: u8,
    f: u8,
    x: u8,
)
    requires
        s.len() == TRACKED_KEYS,
        code < 0 || vk < TRACKED_KEYS,
        key_step(s, code, kind, vk, transferring).1 == KeyHookAction::Forward(b, f),
        key_of_code(b) is Some,
    ensures
        kind == KeyTransition::Down ==> decode_spec(seq![b, f, x]) == ListenerCommand::KeyDown(
            key_of_code(b)->0,
        ),
        kind == KeyTransition::Up ==> decode_spec(seq![b, f, x]) == ListenerCommand::KeyUp(
            key_of_code(b)->0,
        ),
        kind != KeyTransition::Other,
{
    assert(seq![b, f, x][0] == b);
    assert(seq![b, f, x][1] == f);
}

/// A button event that the mouse hook forwards is replayed by the listener
/// as the same press or release of the same button.
pub proof fn lemma_forwarded_button_replays(msg: MouseMessage, pt: Vector2, mouse_data: u32, x: u8)
    ensures
        ({
            let cmd = |p: Option<Seq<u8>>| decode_spec(p->0.push(x));
            let p = transfer_packet_spec(msg, pt, mouse_data);
            &&& msg == MouseMessage::LeftDown ==> cmd(p) == ListenerCommand::MouseDown(
                MouseButton::Left,
            )
            &&& msg == MouseMessage::LeftUp ==> cmd(p) == ListenerCommand::MouseUp(MouseButton::Left)
            &&& msg == MouseMessage::RightDown ==> cmd(p) == ListenerCommand::MouseDown(
                MouseButton::Right,
            )
            &&& msg == MouseMessage::RightUp ==> cmd(p) == ListenerCommand::MouseUp(
                MouseButton::Right,
            )
            &&& msg == MouseMessage::MiddleDown ==> cmd(p) == ListenerCommand::MouseDown(
                MouseButton::Middle,
            )
            &&& msg == MouseMessage::MiddleUp ==> cmd(p) == ListenerCommand::MouseUp(
                MouseButton::Middle,
            )
        }),
{
    let p = transfer_packet_spec(msg, pt, mouse_data);
    if p is Some {
        let q = p->0.push(x);
        assert(q[0] == p->0[0]);
        assert(q[1] == p->0[1]);
    }
}

/// A wheel event of at most 127 notches either way that the mouse hook
/// forwards is replayed by the listener as one click up when the wheel
/// turned up, one click down otherwise.
pub proof fn lemma_forwarded_wheel_replays(pt: Vector2, mouse_data: u32, x: u8)
    requires
        -128 <= wheel_steps(mouse_data) <= 127,
    ensures
        decode_spec(transfer_packet_spec(MouseMessage::Wheel, pt, mouse_data)->0.push(x)) == (
        if wheel_steps(mouse_data) > 0 {
            ListenerCommand::MouseClick(MouseButton::ScrollUp)
        } else {
            ListenerCommand::MouseClick(MouseButton::ScrollDown)
        }),
{
    let s = wheel_steps(mouse_data);
    let q = transfer_packet_spec(MouseMessage::Wheel, pt, mouse_data)->0.push(x);
    assert(q[0] == 7u8);
    assert(q[1] == low_byte(s));
    if s >= 0 {
        assert(s % 256 == s);
    } else {
        assert(s % 256 == s + 256);
    }
    assert(signed_byte(low_byte(s)) == s);
}

} // verus!
