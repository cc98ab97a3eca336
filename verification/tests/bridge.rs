use voicelab::bridge::{bridge_events, event_name, signal_for, Signal};
use voicelab::hotkey::{ptt_hotkey, Event, Hotkey, HotkeyState, KEY_SPACE};

fn other_hotkey() -> Hotkey {
    Hotkey { ctrl: false, alt: true, shift: false, meta: false, key: 7 }
}

#[test]
fn ptt_binding_is_control_space() {
    let ptt = ptt_hotkey();
    assert!(ptt.ctrl);
    assert!(!ptt.alt);
    assert!(!ptt.shift);
    assert!(!ptt.meta);
    assert_eq!(ptt.key, KEY_SPACE);
}

#[test]
fn press_of_bound_hotkey_starts() {
    let ptt = ptt_hotkey();
    let signal = signal_for(ptt, Event { hotkey: ptt, state: HotkeyState::Pressed });
    assert_eq!(signal, Some(Signal::PttStart));
}

#[test]
fn release_of_bound_hotkey_stops() {
    let ptt = ptt_hotkey();
    let signal = signal_for(ptt, Event { hotkey: ptt, state: HotkeyState::Released });
    assert_eq!(signal, Some(Signal::PttStop));
}

#[test]
fn other_hotkey_is_ignored() {
    let ptt = ptt_hotkey();
    let pressed = signal_for(ptt, Event { hotkey: other_hotkey(), state: HotkeyState::Pressed });
    let released = signal_for(ptt, Event { hotkey: other_hotkey(), state: HotkeyState::Released });
    assert_eq!(pressed, None);
    assert_eq!(released, None);
}

#[test]
fn gesture_yields_one_start_then_one_stop() {
    let ptt = ptt_hotkey();
    let events = vec![
        Event { hotkey: ptt, state: HotkeyState::Pressed },
        Event { hotkey: ptt, state: HotkeyState::Released },
    ];
    let signals = bridge_events(ptt, &events);
    assert_eq!(signals, vec![Signal::PttStart, Signal::PttStop]);
}

#[test]
fn no_events_yield_no_signals() {
    let ptt = ptt_hotkey();
    let signals = bridge_events(ptt, &Vec::new());
    assert!(signals.is_empty());
}

#[test]
fn presses_alone_yield_no_stop() {
    let ptt = ptt_hotkey();
    let events = vec![
        Event { hotkey: ptt, state: HotkeyState::Pressed },
        Event { hotkey: ptt, state: HotkeyState::Pressed },
    ];
    let signals = bridge_events(ptt, &events);
    assert_eq!(signals, vec![Signal::PttStart, Signal::PttStart]);
    assert!(!signals.contains(&Signal::PttStop));
}

#[test]
fn foreign_release_yields_no_stop() {
    let ptt = ptt_hotkey();
    let events = vec![Event { hotkey: other_hotkey(), state: HotkeyState::Released }];
    let signals = bridge_events(ptt, &events);
    assert!(signals.is_empty());
}

#[test]
fn repeated_gestures_keep_order() {
    let ptt = ptt_hotkey();
    let events = vec![
        Event { hotkey: ptt, state: HotkeyState::Pressed },
        Event { hotkey: ptt, state: HotkeyState::Released },
        Event { hotkey: other_hotkey(), state: HotkeyState::Pressed },
        Event { hotkey: ptt, state: HotkeyState::Pressed },
        Event { hotkey: ptt, state: HotkeyState::Released },
    ];
    let signals = bridge_events(ptt, &events);
    assert_eq!(
        signals,
        vec![Signal::PttStart, Signal::PttStop, Signal::PttStart, Signal::PttStop]
    );
}

#[test]
fn signal_wire_names() {
    assert_eq!(event_name(Signal::PttStart), "ptt-start");
    assert_eq!(event_name(Signal::PttStop), "ptt-stop");
}
