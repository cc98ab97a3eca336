use vstd::prelude::*;

verus! {

/// The key code this library binds: the space bar, as its USB HID usage number.
pub const KEY_SPACE: u32 = 44;

/// A global key combination, as plain values: four modifier flags and a key
/// code. The OS recognises it whatever application has focus.
#[derive(PartialEq, Eq, Structural, Clone, Copy, Debug)]
pub struct Hotkey {
    pub ctrl: bool,
    pub alt: bool,
    pub shift: bool,
    pub meta: bool,
    pub key: u32,
}

/// The fixed push-to-talk binding: Control + Space, not user-configurable.
pub open spec fn spec_ptt_hotkey() -> Hotkey {
    Hotkey { ctrl: true, alt: false, shift: false, meta: false, key: KEY_SPACE }
}

/// The fixed push-to-talk binding: Control + Space, not user-configurable.
pub fn ptt_hotkey() -> (h: Hotkey)
    ensures
        h == spec_ptt_hotkey(),
{
    Hotkey { ctrl: true, alt: false, shift: false, meta: false, key: KEY_SPACE }
}

/// The edge the OS reports for a registered combination: the key went down,
/// or it came back up.
#[derive(PartialEq, Eq, Structural, Clone, Copy, Debug)]
pub enum HotkeyState {
    Pressed,
    Released,
}

/// One hotkey notification from the OS: which combination, and which edge.
#[derive(PartialEq, Eq, Structural, Clone, Copy, Debug)]
pub struct Event {
    pub hotkey: Hotkey,
    pub state: HotkeyState,
}

} // verus!
