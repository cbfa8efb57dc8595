use shared_consts::keyboard::{KeyHookAction, KeyStates, KeyTransition};
use shared_consts::win_key_codes::{VK_LCONTROL, VK_LMENU, VK_LSHIFT, VK_RSHIFT};

#[test]
fn fresh_states_hold_nothing() {
    let k = KeyStates::new();
    for vk in 0u8..255 {
        assert!(!k.is_pressed(vk));
    }
}

#[test]
fn press_and_release_pass_through_when_not_transferring() {
    let mut k = KeyStates::new();
    assert_eq!(k.on_key_event(0, KeyTransition::Down, 0x41, false), KeyHookAction::PassThrough);
    assert!(k.is_pressed(0x41));
    assert_eq!(k.on_key_event(0, KeyTransition::Up, 0x41, false), KeyHookAction::PassThrough);
    assert!(!k.is_pressed(0x41));
}

#[test]
fn press_and_release_forwarded_when_transferring() {
    let mut k = KeyStates::new();
    assert_eq!(k.on_key_event(0, KeyTransition::Down, 0x41, true), KeyHookAction::Forward(0x41, 0));
    // auto-repeat is not forwarded
    assert_eq!(k.on_key_event(0, KeyTransition::Down, 0x41, true), KeyHookAction::PassThrough);
    assert_eq!(k.on_key_event(0, KeyTransition::Up, 0x41, true), KeyHookAction::Forward(0x41, 1));
    // releasing a key that is not held is passed on
    assert_eq!(k.on_key_event(0, KeyTransition::Up, 0x41, true), KeyHookAction::PassThrough);
}

#[test]
fn negative_code_and_other_messages_pass_through() {
    let mut k = KeyStates::new();
    assert_eq!(k.on_key_event(-1, KeyTransition::Down, 0x41, true), KeyHookAction::PassThrough);
    assert!(!k.is_pressed(0x41));
    assert_eq!(k.on_key_event(0, KeyTransition::Other, 0x41, true), KeyHookAction::PassThrough);
    assert!(!k.is_pressed(0x41));
}

#[test]
fn hotkey_toggles_transfer() {
    let mut k = KeyStates::new();
    k.on_key_event(0, KeyTransition::Down, VK_LMENU as u32, false);
    k.on_key_event(0, KeyTransition::Down, VK_LCONTROL as u32, false);
    k.on_key_event(0, KeyTransition::Down, VK_RSHIFT as u32, false);
    assert_eq!(k.on_key_event(0, KeyTransition::Down, 49, false), KeyHookAction::Suppress);
    assert!(!k.is_pressed(49));
    assert_eq!(k.on_key_event(0, KeyTransition::Up, 49, false), KeyHookAction::ToggleTransfer);
    assert_eq!(k.on_key_event(0, KeyTransition::Up, 49, true), KeyHookAction::ToggleTransfer);
    // without shift, the `1` key is an ordinary key
    k.on_key_event(0, KeyTransition::Up, VK_RSHIFT as u32, false);
    assert!(!k.is_pressed(VK_LSHIFT));
    assert_eq!(k.on_key_event(0, KeyTransition::Down, 49, true), KeyHookAction::Forward(49, 0));
}

#[test]
fn events_touch_only_their_key() {
    let mut k = KeyStates::new();
    k.on_key_event(0, KeyTransition::Down, 0x20, false);
    k.on_key_event(0, KeyTransition::Down, 0x21, false);
    k.on_key_event(0, KeyTransition::Up, 0x20, false);
    assert!(!k.is_pressed(0x20));
    assert!(k.is_pressed(0x21));
    assert!(!k.is_pressed(0x22));
}

#[test]
fn highest_tracked_code() {
    let mut k = KeyStates::new();
    assert_eq!(k.on_key_event(0, KeyTransition::Down, 254, true), KeyHookAction::Forward(254, 0));
    assert!(k.is_pressed(254));
}
