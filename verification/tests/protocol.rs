use shared_consts::geometry::Direction;
use shared_consts::geometry::Vector2;
use shared_consts::protocol::{
    check_init_reply, init_request, is_crossback, position_packet, CmdCode, HandshakeError, RESP_CROSSBACK,
    RESP_INIT,
};
use shared_consts::screen::ClientInfo;

#[test]
fn command_codes() {
    assert_eq!(CmdCode::Init.code(), 0xFF);
    assert_eq!(CmdCode::MouseMove.code(), 0xF0);
    assert_eq!(CmdCode::MouseScroll.code(), 0x07);
    assert_eq!(CmdCode::MousePos.code(), 0xF1);
    assert_eq!(RESP_INIT, 0x0F);
    assert_eq!(RESP_CROSSBACK, 0xF1);
}

#[test]
fn handshake() {
    assert_eq!(init_request(), [0xFF, 0xFF, 0xFF]);
    let info = ClientInfo { scrn_size: Vector2::new(1366, 768) };
    assert_eq!(check_init_reply(0x0F, info), Ok(info));
    assert_eq!(check_init_reply(0x0E, info), Err(HandshakeError::WrongAck));
    assert_eq!(check_init_reply(0xFF, info), Err(HandshakeError::WrongAck));
}

#[test]
fn crossback_reply() {
    assert!(is_crossback(&[0xF1, 0, 0]));
    assert!(!is_crossback(&[0x0F, 0xF1, 0xF1]));
}

#[test]
fn position_packets() {
    assert_eq!(position_packet(128, Direction::Right), [0xF1, 128, 3]);
    assert_eq!(position_packet(0, Direction::Left), [0xF1, 0, 0]);
}
