//! What the server's low-level keyboard hook decides for each key event.
use vstd::prelude::*;
use crate::win_key_codes::{
    VK_CONTROL, VK_LCONTROL, VK_LMENU, VK_LSHIFT, VK_MENU, VK_RCONTROL, VK_RMENU, VK_RSHIFT, VK_SHIFT,
};

verus! {

/// The virtual-key code that, pressed with Alt, Control and Shift held,
/// toggles handing input over to the listener (the `1` key).
pub const HOTKEY_VK: u32 = 49;

/// The number of virtual-key codes whose state is tracked.
pub const TRACKED_KEYS: usize = 255;

/// The kind of a keyboard message.
#[derive(Debug, Clone, Copy, PartialEq, Eq, Structural)]
pub enum KeyTransition {
    /// A key (or system key) was released.
    Up,
    /// A key (or system key) was pressed.
    Down,
    /// Any other keyboard message.
    Other,
}

/// What the hook does with a key event.
#[derive(Debug, Clone, Copy, PartialEq, Eq, Structural)]
pub enum KeyHookAction {
    /// Toggle handing input over, and swallow the event.
    ToggleTransfer,
    /// Swallow the event.
    Suppress,
    /// Send the two bytes `[key code, 1 if released else 0]` to the listener
    /// and swallow the event.
    Forward(u8, u8),
    /// Hand the event on to the next hook.
    PassThrough,
}

/// Which keys are held down, as last seen by the hook.
pub struct KeyStates {
    pressed: Vec<bool>,
}

impl View for KeyStates {
    type V = Seq<bool>;

    closed spec fn view(&self) -> Seq<bool> {
        self.pressed@
    }
}

pub open spec fn alt_held(s: Seq<bool>) -> bool {
    s[VK_LMENU as int] || s[VK_RMENU as int] || s[VK_MENU as int]
}

pub open spec fn control_held(s: Seq<bool>) -> bool {
    s[VK_LCONTROL as int] || s[VK_RCONTROL as int] || s[VK_CONTROL as int]
}

pub open spec fn shift_held(s: Seq<bool>) -> bool {
    s[VK_LSHIFT as int] || s[VK_RSHIFT as int] || s[VK_SHIFT as int]
}

/// The event concerns the hotkey: its key with Alt, Control and Shift held.
pub open spec fn is_hotkey(s: Seq<bool>, vk: u32) -> bool {
    vk == HOTKEY_VK && alt_held(s) && control_held(s) && shift_held(s)
}

/// The hook's step: from the key states `s`, the hook code, the event's kind
/// and key, and whether input is being handed over, to the new key states and
/// the action.
///
/// A negative hook code is passed on untouched. The hotkey toggles handing
/// over when released and is swallowed when pressed; neither changes the key
/// states. Otherwise a release of a held key or a press of a released key
/// records the change and, while input is being handed over, is forwarded;
/// every other event is passed on.
pub open spec fn key_step(s: Seq<bool>, code: i32, kind: KeyTransition, vk: u32, transferring: bool) -> (
    Seq<bool>,
    KeyHookAction,
) {
    if code < 0 {
        (s, KeyHookAction::PassThrough)
    } else {
        match kind {
            KeyTransition::Up => if is_hotkey(s, vk) {
                (s, KeyHookAction::ToggleTransfer)
            } else if s[vk as int] {
                (
                    s.update(vk as int, false),
                    if transferring {
                        KeyHookAction::Forward(vk as u8, 1)
                    } else {
                        KeyHookAction::PassThrough
                    },
                )
            } else {
                (s, KeyHookAction::PassThrough)
            },
            KeyTransition::Down => if is_hotkey(s, vk) {
                (s, KeyHookAction::Suppress)
            } else if !s[vk as int] {
                (
                    s.update(vk as int, true),
                    if transferring {
                        KeyHookAction::Forward(vk as u8, 0)
                    } else {
                        KeyHookAction::PassThrough
                    },
                )
            } else {
                (s, KeyHookAction::PassThrough)
            },
            KeyTransition::Other => (s, KeyHookAction::PassThrough),
        }
    }
}

impl KeyStates {
    /// Well formed: one entry for each tracked key code.
    pub open spec fn wf(&self) -> bool {
        self@.len() == TRACKED_KEYS
    }

    /// No key held.
    pub fn new() -> (k: KeyStates)
        ensures
            k.wf(),
            forall|i: int| 0 <= i < TRACKED_KEYS ==> !#[trigger] k@[i],
    {
        let mut pressed: Vec<bool> = Vec::new();
        let mut i: usize = 0;
        while i < TRACKED_KEYS
            invariant
                i <= TRACKED_KEYS,
                pressed@.len() == i,
                forall|j: int| 0 <= j < i ==> !#[trigger] pressed@[j],
            decreases TRACKED_KEYS - i,
        {
            pressed.push(false);
            i = i + 1;
        }
        KeyStates { pressed }
    }

    /// Whether the key with code `vk` is held.
    pub fn is_pressed(&self, vk: u8) -> (b: bool)
        requires
            self.wf(),
            vk < TRACKED_KEYS,
        ensures
            b == self@[vk as int],
    {
        self.pressed[vk as usize]
    }

    /// Runs the hook's step (see `key_step`) on these key states.
    pub fn on_key_event(&mut self, code: i32, kind: KeyTransition, vk: u32, transferring: bool) -> (a:
        KeyHookAction)
        requires
            old(self).wf(),
            code < 0 || vk < TRACKED_KEYS,
        ensures
            final(self).wf(),
            final(self)@ == key_step(old(self)@, code, kind, vk, transferring).0,
            a == key_step(old(self)@, code, kind, vk, transferring).1,
    {
        if code < 0 {
            return KeyHookAction::PassThrough;
        }
        let alt_down = self.pressed[VK_LMENU as usize] || self.pressed[VK_RMENU as usize]
            || self.pressed[VK_MENU as usize];
        let control_down = self.pressed[VK_LCONTROL as usize] || self.pressed[VK_RCONTROL as usize]
            || self.pressed[VK_CONTROL as usize];
        let shift_down = self.pressed[VK_LSHIFT as usize] || self.pressed[VK_RSHIFT as usize]
            || self.pressed[VK_SHIFT as usize];
        let hotkey = vk == HOTKEY_VK && alt_down && control_down && shift_down;
        let idx = vk as usize;
        match kind {
            KeyTransition::Up => {
                if hotkey {
                    return KeyHookAction::ToggleTransfer;
                }
                if self.pressed[idx] {
                    self.pressed.set(idx, false);
                    if transferring {
                        return KeyHookAction::Forward(vk as u8, 1);
                    }
                }
                KeyHookAction::PassThrough
            },
            KeyTransition::Down => {
                if hotkey {
                    return KeyHookAction::Suppress;
                }
                if !self.pressed[idx] {
                    self.pressed.set(idx, true);
                    if transferring {
                        return KeyHookAction::Forward(vk as u8, 0);
                    }
                }
                KeyHookAction::PassThrough
            },
            KeyTransition::Other => KeyHookAction::PassThrough,
        }
    }
}

/// A key event changes the recorded state of its own key only.
pub proof fn lemma_key_step_changes_own_key_only(
    s: Seq<bool>,
    code: i32,
    kind: KeyTransition,
    vk: u32,
    transferring: bool,
    i: int,
)
    requires
        s.len() == TRACKED_KEYS,
        code < 0 || vk < TRACKED_KEYS,
        0 <= i < TRACKED_KEYS,
        i != vk,
    ensures
        key_step(s, code, kind, vk, transferring).0.len() == TRACKED_KEYS,
        key_step(s, code, kind, vk, transferring).0[i] == s[i],
{
}

/// Auto-repeat is not forwarded: pressing a key that the previous event
/// pressed changes nothing and is passed on.
pub proof fn lemma_repeated_press_passes_through(
    s: Seq<bool>,
    code: i32,
    vk: u32,
    t1: bool,
    t2: bool,
)
    requires
        s.len() == TRACKED_KEYS,
        code >= 0,
        vk < TRACKED_KEYS,
        !is_hotkey(s, vk),
    ensures
        ({
            let s1 = key_step(s, code, KeyTransition::Down, vk, t1).0;
            key_step(s1, code, KeyTransition::Down, vk, t2) == (s1, KeyHookAction::PassThrough)
        }),
{
    let s1 = key_step(s, code, KeyTransition::Down, vk, t1).0;
    if vk == HOTKEY_VK {
        assert(alt_held(s1) == alt_held(s));
        assert(control_held(s1) == control_held(s));
        assert(shift_held(s1) == shift_held(s));
    }
}

/// While input is handed over, pressing and then releasing a key that is not
/// held (and is not the hotkey) forwards the press, then the release, and
/// leaves the key states as they were.
pub proof fn lemma_press_release_forwarded(s: Seq<bool>, code: i32, vk: u32)
    requires
        s.len() == TRACKED_KEYS,
        code >= 0,
        vk < TRACKED_KEYS,
        !s[vk as int],
        !is_hotkey(s, vk),
    ensures
        ({
            let (s1, a1) = key_step(s, code, KeyTransition::Down, vk, true);
            let (s2, a2) = key_step(s1, code, KeyTransition::Up, vk, true);
            &&& a1 == KeyHookAction::Forward(vk as u8, 0)
            &&& a2 == KeyHookAction::Forward(vk as u8, 1)
            &&& s2 == s
        }),
{
    let s1 = key_step(s, code, KeyTransition::Down, vk, true).0;
    if vk == HOTKEY_VK {
        assert(alt_held(s1) == alt_held(s));
        assert(control_held(s1) == control_held(s));
        assert(shift_held(s1) == shift_held(s));
    }
    let s2 = key_step(s1, code, KeyTransition::Up, vk, true).0;
    assert(s2 =~= s);
}

/// The hotkey never reaches the listener and never changes the key states:
/// its release toggles handing over, its press is swallowed.
pub proof fn lemma_hotkey_toggles_on_release(s: Seq<bool>, code: i32, vk: u32, transferring: bool)
    requires
        s.len() == TRACKED_KEYS,
        code >= 0,
        is_hotkey(s, vk),
    ensures
        key_step(s, code, KeyTransition::Up, vk, transferring) == (s, KeyHookAction::ToggleTransfer),
        key_step(s, code, KeyTransition::Down, vk, transferring) == (s, KeyHookAction::Suppress),
{
}

/// Any Alt key (left 0xA4, right 0xA5 or generic 0x12), any Control key
/// (0xA2, 0xA3, 0x11) and any Shift key (0xA0, 0xA1, 0x10) held together make
/// the `1` key (49) the hotkey: releasing it toggles handing over, pressing it
/// is swallowed, and neither changes the key states.
pub proof fn lemma_any_modifier_keys_make_hotkey(s: Seq<bool>, code: i32, transferring: bool)
    requires
        s.len() == TRACKED_KEYS,
        code >= 0,
        s[0xA4] || s[0xA5] || s[0x12],
        s[0xA2] || s[0xA3] || s[0x11],
        s[0xA0] || s[0xA1] || s[0x10],
    ensures
        key_step(s, code, KeyTransition::Up, 49, transferring) == (s, KeyHookAction::ToggleTransfer),
        key_step(s, code, KeyTransition::Down, 49, transferring) == (s, KeyHookAction::Suppress),
{
}

/// Without some Alt, some Control and some Shift key held, the `1` key is an
/// ordinary key: its release never toggles handing over and its press is
/// never swallowed.
pub proof fn lemma_one_key_without_modifiers_is_ordinary(s: Seq<bool>, code: i32, transferring: bool)
    requires
        s.len() == TRACKED_KEYS,
        code >= 0,
        !(s[0xA4] || s[0xA5] || s[0x12]) || !(s[0xA2] || s[0xA3] || s[0x11]) || !(s[0xA0]
            || s[0xA1] || s[0x10]),
    ensures
        key_step(s, code, KeyTransition::Up, 49, transferring).1 != KeyHookAction::ToggleTransfer,
        key_step(s, code, KeyTransition::Down, 49, transferring).1 != KeyHookAction::Suppress,
{
}

/// Only the `1` key can be the hotkey: no other key's event toggles handing
/// over or is swallowed.
pub proof fn lemma_only_one_key_is_hotkey(
    s: Seq<bool>,
    code: i32,
    kind: KeyTransition,
    vk: u32,
    transferring: bool,
)
    requires
        s.len() == TRACKED_KEYS,
        vk < TRACKED_KEYS,
        vk != 49,
    ensures
        key_step(s, code, kind, vk, transferring).1 != KeyHookAction::ToggleTransfer,
        key_step(s, code, kind, vk, transferring).1 != KeyHookAction::Suppress,
{
}

} // verus!
