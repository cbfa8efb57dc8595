//! What the server's low-level mouse hook sends, and which screen edges the
//! pointer has crossed.
use vstd::prelude::*;
use crate::geometry::Vector2;
use crate::protocol::{CmdCode, cmd_code};
use crate::screen::ConnectionInfo;
use crate::win_key_codes::{VK_LBUTTON, VK_MBUTTON, VK_RBUTTON};

verus! {

/// The kind of a mouse message.
#[derive(Debug, Clone, Copy, PartialEq, Eq, Structural)]
pub enum MouseMessage {
    Move,
    LeftDown,
    LeftUp,
    RightDown,
    RightUp,
    Wheel,
    MiddleDown,
    MiddleUp,
    /// Any other mouse message.
    Other,
}

/// `v` limited to `-127..=127`.
pub open spec fn clamp_axis(v: int) -> int {
    let m = if v < 127 {
        v
    } else {
        127
    };
    if m > -127 {
        m
    } else {
        -127
    }
}

/// The low eight bits of `v`, as a byte (two's complement for negatives).
pub open spec fn low_byte(v: int) -> u8 {
    (v % 256) as u8
}

/// The signed wheel rotation carried in the high word of a wheel message's
/// data, in notches of 120, rounded towards zero.
pub open spec fn wheel_steps(mouse_data: u32) -> int {
    let hi = mouse_data as int / 65536;
    let delta = if hi >= 32768 {
        hi - 65536
    } else {
        hi
    };
    if delta < 0 {
        -((-delta) / 120)
    } else {
        delta / 120
    }
}

/// The datagram that the hook sends for a mouse message while input is
/// handed over, or `None` for messages it does not forward.
///
/// A move sends the move code and the pointer coordinates, each limited to
/// `-127..=127`, as bytes; a button sends its button code and 0 for a press,
/// 1 for a release; the wheel sends the scroll code and the number of notches
/// as a byte.
pub open spec fn transfer_packet_spec(msg: MouseMessage, pt: Vector2, mouse_data: u32) -> Option<
    Seq<u8>,
> {
    match msg {
        MouseMessage::Move => Some(
            seq![
                cmd_code(CmdCode::MouseMove),
                low_byte(clamp_axis(pt.x as int)),
                low_byte(clamp_axis(pt.y as int)),
            ],
        ),
        MouseMessage::LeftDown => Some(seq![VK_LBUTTON, 0u8]),
        MouseMessage::LeftUp => Some(seq![VK_LBUTTON, 1u8]),
        MouseMessage::RightDown => Some(seq![VK_RBUTTON, 0u8]),
        MouseMessage::RightUp => Some(seq![VK_RBUTTON, 1u8]),
        MouseMessage::Wheel => Some(
            seq![cmd_code(CmdCode::MouseScroll), low_byte(wheel_steps(mouse_data))],
        ),
        MouseMessage::MiddleDown => Some(seq![VK_MBUTTON, 0u8]),
        MouseMessage::MiddleUp => Some(seq![VK_MBUTTON, 1u8]),
        MouseMessage::Other => None,
    }
}

/// The low byte of a value in `-512..512`.
fn low_byte_of(v: i32) -> (b: u8)
    requires
        -512 <= v < 512,
    ensures
        b == low_byte(v as int),
{
    let shifted: i32 = v + 512;
    let r: i32 = shifted % 256;
    assert(r == (v as int) % 256);
    r as u8
}

/// `v` limited to `-127..=127`.
fn clamp_axis_of(v: i32) -> (c: i32)
    ensures
        c == clamp_axis(v as int),
{
    let m = if v < 127 {
        v
    } else {
        127
    };
    if m > -127 {
        m
    } else {
        -127
    }
}

/// The signed number of wheel notches in a wheel message's data.
fn wheel_steps_of(mouse_data: u32) -> (s: i32)
    ensures
        s == wheel_steps(mouse_data),
        -274 < s < 274,
{
    let hi: u32 = mouse_data / 65536;
    let delta: i32 = if hi >= 32768 {
        hi as i32 - 65536
    } else {
        hi as i32
    };
    if delta < 0 {
        -((-delta) / 120)
    } else {
        delta / 120
    }
}

/// The datagram that the hook sends for a mouse message while input is
/// handed over (see `transfer_packet_spec`).
pub fn transfer_packet(msg: MouseMessage, pt: Vector2, mouse_data: u32) -> (r: Option<Vec<u8>>)
    ensures
        match transfer_packet_spec(msg, pt, mouse_data) {
            Some(s) => r matches Some(v) && v@ == s,
            None => r is None,
        },
{
    match msg {
        MouseMessage::Move => {
            let x = low_byte_of(clamp_axis_of(pt.x));
            let y = low_byte_of(clamp_axis_of(pt.y));
            Some(vec![CmdCode::MouseMove.code(), x, y])
        },
        MouseMessage::LeftDown => Some(vec![VK_LBUTTON, 0]),
        MouseMessage::LeftUp => Some(vec![VK_LBUTTON, 1]),
        MouseMessage::RightDown => Some(vec![VK_RBUTTON, 0]),
        MouseMessage::RightUp => Some(vec![VK_RBUTTON, 1]),
        MouseMessage::Wheel => {
            let steps = wheel_steps_of(mouse_data);
            Some(vec![CmdCode::MouseScroll.code(), low_byte_of(steps)])
        },
        MouseMessage::MiddleDown => Some(vec![VK_MBUTTON, 0]),
        MouseMessage::MiddleUp => Some(vec![VK_MBUTTON, 1]),
        MouseMessage::Other => None,
    }
}

/// Every edge can be tested against `pt` without overflow.
pub open spec fn edges_testable(edges: Seq<ConnectionInfo>, pt: Vector2) -> bool {
    forall|i: int| 0 <= i < edges.len() ==> (#[trigger] edges[i]).side.outside_defined(pt)
}

/// `r` holds, in increasing order, exactly the indices of the edges that `pt`
/// lies just beyond.
pub open spec fn crossed_exactly(edges: Seq<ConnectionInfo>, pt: Vector2, r: Seq<usize>) -> bool {
    &&& forall|j: int|
        0 <= j < r.len() ==> #[trigger] r[j] < edges.len() && edges[r[j] as int].side.outside_spec(pt)
    &&& forall|j: int, k: int| 0 <= j < k < r.len() ==> #[trigger] r[j] < #[trigger] r[k]
    &&& forall|i: int|
        0 <= i < edges.len() && (#[trigger] edges[i]).side.outside_spec(pt) ==> r.contains(i as usize)
}

/// The indices, in increasing order, of the edges that the pointer at `pt`
/// lies just beyond.
pub fn crossed_edges(edges: &Vec<ConnectionInfo>, pt: Vector2) -> (r: Vec<usize>)
    requires
        edges_testable(edges@, pt),
    ensures
        crossed_exactly(edges@, pt, r@),
{
    let mut r: Vec<usize> = Vec::new();
    let n = edges.len();
    let mut i: usize = 0;
    while i < n
        invariant
            n == edges@.len(),
            i <= n,
            edges_testable(edges@, pt),
            forall|j: int|
                0 <= j < r@.len() ==> #[trigger] r@[j] < i && edges@[r@[j] as int].side.outside_spec(
                    pt,
                ),
            forall|j: int, k: int| 0 <= j < k < r@.len() ==> #[trigger] r@[j] < #[trigger] r@[k],
            forall|m: int|
                0 <= m < i && (#[trigger] edges@[m]).side.outside_spec(pt) ==> r@.contains(
                    m as usize,
                ),
        decreases n - i,
    {
        if edges[i].side.is_point_outside(pt) {
            let ghost before = r@;
            r.push(i);
            assert forall|m: int|
                0 <= m < i && (#[trigger] edges@[m]).side.outside_spec(pt) implies r@.contains(
                m as usize,
            ) by {
                let w = choose|w: int| 0 <= w < before.len() && before[w] == m as usize;
                assert(r@[w] == m as usize);
            }
            assert(r@[r@.len() - 1] == i);
        }
        i = i + 1;
    }
    r
}

/// What the mouse hook does with a mouse event.
#[derive(Debug, Clone)]
pub enum MouseHookAction {
    /// Swallow the event, first sending this datagram to the listener if
    /// there is one.
    Swallow(Option<Vec<u8>>),
    /// Hand the pointer over through each of these edges (indices into the
    /// edge list, in order), then pass the event on.
    HandOver(Vec<usize>),
    /// Pass the event on to the next hook.
    PassThrough,
}

/// The mouse hook's step, from the hook code, whether input is being handed
/// over, the message, the pointer, the message's data and the connected edges,
/// to the action.
///
/// A negative hook code is passed on. While input is handed over, every event
/// is swallowed, and those that `transfer_packet_spec` covers are forwarded.
/// Otherwise a move hands the pointer over through every edge it lies just
/// beyond and is passed on; every other event is passed on.
pub fn mouse_hook_step(
    code: i32,
    transferring: bool,
    msg: MouseMessage,
    pt: Vector2,
    mouse_data: u32,
    edges: &Vec<ConnectionInfo>,
) -> (a: MouseHookAction)
    requires
        code >= 0 && !transferring && msg == MouseMessage::Move ==> edges_testable(edges@, pt),
    ensures
        code >= 0 && transferring ==> (a matches MouseHookAction::Swallow(p) && match transfer_packet_spec(
            msg,
            pt,
            mouse_data,
        ) {
            Some(s) => p matches Some(v) && v@ == s,
            None => p is None,
        }),
        code >= 0 && !transferring && msg == MouseMessage::Move ==> (a matches MouseHookAction::HandOver(
            ix,
        ) && crossed_exactly(edges@, pt, ix@)),
        code < 0 || (!transferring && msg != MouseMessage::Move) ==> a is PassThrough,
{
    if code < 0 {
        MouseHookAction::PassThrough
    } else if transferring {
        MouseHookAction::Swallow(transfer_packet(msg, pt, mouse_data))
    } else if msg == MouseMessage::Move {
        MouseHookAction::HandOver(crossed_edges(edges, pt))
    } else {
        MouseHookAction::PassThrough
    }
}

} // verus!
