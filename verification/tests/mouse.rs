use shared_consts::geometry::{Direction, RectSide, Vector2};
use shared_consts::mouse::{crossed_edges, mouse_hook_step, transfer_packet, MouseHookAction, MouseMessage};
use shared_consts::screen::ConnectionInfo;

fn packet(msg: MouseMessage, x: i32, y: i32, data: u32) -> Option<Vec<u8>> {
    transfer_packet(msg, Vector2::new(x, y), data)
}

#[test]
fn move_packets_clamp_coordinates() {
    assert_eq!(packet(MouseMessage::Move, 5, -3, 0), Some(vec![0xF0, 5, 253]));
    assert_eq!(packet(MouseMessage::Move, 500, -500, 0), Some(vec![0xF0, 127, 129]));
    assert_eq!(packet(MouseMessage::Move, 127, -127, 0), Some(vec![0xF0, 127, 129]));
    assert_eq!(packet(MouseMessage::Move, i32::MIN, i32::MAX, 0), Some(vec![0xF0, 129, 127]));
}

#[test]
fn button_packets() {
    assert_eq!(packet(MouseMessage::LeftDown, 0, 0, 0), Some(vec![1, 0]));
    assert_eq!(packet(MouseMessage::LeftUp, 0, 0, 0), Some(vec![1, 1]));
    assert_eq!(packet(MouseMessage::RightDown, 0, 0, 0), Some(vec![2, 0]));
    assert_eq!(packet(MouseMessage::RightUp, 0, 0, 0), Some(vec![2, 1]));
    assert_eq!(packet(MouseMessage::MiddleDown, 0, 0, 0), Some(vec![4, 0]));
    assert_eq!(packet(MouseMessage::MiddleUp, 0, 0, 0), Some(vec![4, 1]));
    assert_eq!(packet(MouseMessage::Other, 0, 0, 0), None);
}

#[test]
fn wheel_packets() {
    assert_eq!(packet(MouseMessage::Wheel, 0, 0, 120 << 16), Some(vec![7, 1]));
    assert_eq!(packet(MouseMessage::Wheel, 0, 0, 240 << 16), Some(vec![7, 2]));
    assert_eq!(packet(MouseMessage::Wheel, 0, 0, 0xFF88_0000), Some(vec![7, 255]));
    assert_eq!(packet(MouseMessage::Wheel, 0, 0, 0xFE98_0000), Some(vec![7, 253]));
    // rounded towards zero
    assert_eq!(packet(MouseMessage::Wheel, 0, 0, 0xFF87_0000), Some(vec![7, 255]));
    assert_eq!(packet(MouseMessage::Wheel, 0, 0, 0xFF89_0000), Some(vec![7, 0]));
    assert_eq!(packet(MouseMessage::Wheel, 0, 0, (119 << 16) | 0xFFFF), Some(vec![7, 0]));
    // more than 127 notches wrap around
    assert_eq!(packet(MouseMessage::Wheel, 0, 0, 0x4000_0000), Some(vec![7, 136]));
}

fn edge(d: Direction, len: i32, x: i32, y: i32) -> ConnectionInfo {
    ConnectionInfo { ip_and_port: String::from("10.0.0.2:13111"), side: RectSide::from_parts(d, len, Vector2::new(x, y)) }
}

#[test]
fn crossed_edges_in_order() {
    let edges = vec![
        edge(Direction::Right, 1080, 1920, 0),
        edge(Direction::Left, 1080, 0, 1080),
        edge(Direction::Right, 500, 1920, 0),
        edge(Direction::Up, 1920, 0, 0),
    ];
    assert_eq!(crossed_edges(&edges, Vector2::new(1921, 400)), vec![0, 2]);
    assert_eq!(crossed_edges(&edges, Vector2::new(1921, 700)), vec![0]);
    assert_eq!(crossed_edges(&edges, Vector2::new(-1, 700)), vec![1]);
    assert_eq!(crossed_edges(&edges, Vector2::new(960, 540)), Vec::<usize>::new());
    assert_eq!(crossed_edges(&Vec::new(), Vector2::new(0, 0)), Vec::<usize>::new());
}

fn hook(code: i32, transferring: bool, msg: MouseMessage, x: i32, y: i32, edges: &Vec<ConnectionInfo>) -> MouseHookAction {
    mouse_hook_step(code, transferring, msg, Vector2::new(x, y), 120 << 16, edges)
}

#[test]
fn mouse_hook_decisions() {
    let edges = vec![edge(Direction::Right, 1080, 1920, 0), edge(Direction::Left, 1080, 0, 1080)];
    // negative hook codes are passed on
    assert!(matches!(hook(-1, true, MouseMessage::LeftDown, 0, 0, &edges), MouseHookAction::PassThrough));
    assert!(matches!(hook(-1, false, MouseMessage::Move, 1921, 5, &edges), MouseHookAction::PassThrough));
    // while handing over, everything is swallowed; known messages are forwarded
    match hook(0, true, MouseMessage::Wheel, 0, 0, &edges) {
        MouseHookAction::Swallow(Some(p)) => assert_eq!(p, vec![7, 1]),
        other => panic!("unexpected {:?}", other),
    }
    match hook(0, true, MouseMessage::Move, 500, -2, &edges) {
        MouseHookAction::Swallow(Some(p)) => assert_eq!(p, vec![0xF0, 127, 254]),
        other => panic!("unexpected {:?}", other),
    }
    assert!(matches!(hook(0, true, MouseMessage::Other, 0, 0, &edges), MouseHookAction::Swallow(None)));
    // otherwise a move hands over through the crossed edges
    match hook(0, false, MouseMessage::Move, 1921, 5, &edges) {
        MouseHookAction::HandOver(ix) => assert_eq!(ix, vec![0]),
        other => panic!("unexpected {:?}", other),
    }
    match hook(0, false, MouseMessage::Move, 960, 5, &edges) {
        MouseHookAction::HandOver(ix) => assert!(ix.is_empty()),
        other => panic!("unexpected {:?}", other),
    }
    // and other messages are passed on
    assert!(matches!(hook(0, false, MouseMessage::LeftDown, 1921, 5, &edges), MouseHookAction::PassThrough));
}
