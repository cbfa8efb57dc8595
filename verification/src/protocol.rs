//! Command codes and the small messages that the server and the listener exchange.
use vstd::prelude::*;
use crate::geometry::{Direction, direction_code};
use crate::screen::ClientInfo;

verus! {

/// The listener's answer to an `Init` request.
pub const RESP_INIT: u8 = 0x0F;

/// The listener's notice that the pointer came back to the server.
pub const RESP_CROSSBACK: u8 = 0xF1;

/// First bytes of the server's commands.
#[derive(Debug, Clone, Copy, PartialEq, Eq, Structural)]
pub enum CmdCode {
    Init,
    MouseMove,
    MouseScroll,
    MousePos,
}

/// The byte that stands for a command.
pub open spec fn cmd_code(c: CmdCode) -> u8 {
    match c {
        CmdCode::Init => 0xFF,
        CmdCode::MouseMove => 0xF0,
        CmdCode::MouseScroll => 0x07,
        CmdCode::MousePos => 0xF1,
    }
}

impl CmdCode {
    /// The byte that stands for this command on the wire.
    pub fn code(&self) -> (b: u8)
        ensures
            b == cmd_code(*self),
    {
        match self {
            CmdCode::Init => 0xFF,
            CmdCode::MouseMove => 0xF0,
            CmdCode::MouseScroll => 0x07,
            CmdCode::MousePos => 0xF1,
        }
    }
}

/// Why a connection attempt was refused.
#[derive(Debug, Clone, Copy, PartialEq, Eq, Structural)]
pub enum HandshakeError {
    /// The listener answered with something other than `RESP_INIT`.
    WrongAck,
}

/// The datagram that opens a connection: the `Init` code three times.
pub fn init_request() -> (p: [u8; 3])
    ensures
        p@ == seq![cmd_code(CmdCode::Init), cmd_code(CmdCode::Init), cmd_code(CmdCode::Init)],
{
    let c = CmdCode::Init.code();
    [c, c, c]
}

/// Accepts the listener's reply to `init_request` when its acknowledgement
/// byte is `RESP_INIT`, and hands back the client's screen information.
pub fn check_init_reply(ack: u8, info: ClientInfo) -> (r: Result<ClientInfo, HandshakeError>)
    ensures
        ack == RESP_INIT ==> r == Ok::<ClientInfo, HandshakeError>(info),
        ack != RESP_INIT ==> r == Err::<ClientInfo, HandshakeError>(HandshakeError::WrongAck),
{
    if ack != RESP_INIT {
        return Err(HandshakeError::WrongAck);
    }
    Ok(info)
}

/// Whether a reply from the listener says that the pointer came back.
pub fn is_crossback(reply: &[u8; 3]) -> (b: bool)
    ensures
        b == (reply@[0] == RESP_CROSSBACK),
{
    reply[0] == RESP_CROSSBACK
}

/// The datagram that hands the pointer over through the side facing `dir`,
/// at `frac` 255ths along it.
pub fn position_packet(frac: u8, dir: Direction) -> (p: [u8; 3])
    ensures
        p@ == seq![cmd_code(CmdCode::MousePos), frac, direction_code(dir)],
{
    [CmdCode::MousePos.code(), frac, dir.code()]
}

} // verus!
