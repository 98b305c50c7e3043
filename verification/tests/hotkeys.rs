use ai_voice_server::hotkey::{
    parse_hold_args, parse_plugin_args, Disposition, HoldState, HotkeyConfig, InputEvent,
    InterceptState, Signal,
};
use ai_voice_server::keys::parse_key;

const CTRL: u16 = 29;
const RCTRL: u16 = 97;
const SPACE: u16 = 57;

fn key(code: u16, value: i32) -> InputEvent {
    InputEvent { type_: 1, code, value }
}

fn args(list: &[&str]) -> Vec<String> {
    list.iter().map(|s| s.to_string()).collect()
}

#[test]
fn parse_key_reads_codes_and_none() {
    assert_eq!(parse_key("57"), Some(57));
    assert_eq!(parse_key("+29"), Some(29));
    assert_eq!(parse_key("65535"), Some(65535));
    assert_eq!(parse_key("NONE"), None);
    assert_eq!(parse_key("-1"), None);
    assert_eq!(parse_key("65536"), None);
    assert_eq!(parse_key(""), None);
    assert_eq!(parse_key("KEY_SPACE"), None);
    assert_eq!(parse_key(" 57"), None);
}

#[test]
fn ctrl_space_starts_and_stops_recording() {
    let cfg = HotkeyConfig::new();
    let mut st = InterceptState::new();

    let out = st.on_event(&cfg, key(CTRL, 1));
    assert_eq!(out.disposition, Disposition::Forward);
    assert!(out.signals.is_empty());

    let out = st.on_event(&cfg, key(SPACE, 1));
    assert_eq!(out.signals, vec![Signal::Press]);
    assert_eq!(out.disposition, Disposition::Swallow);
    assert!(st.recording);

    // the release of the swallowed space is swallowed too
    let out = st.on_event(&cfg, key(SPACE, 0));
    assert_eq!(out.disposition, Disposition::Swallow);
    assert!(out.signals.is_empty());

    // second press stops; Ctrl is still held so MODIFIER_UP waits
    let out = st.on_event(&cfg, key(SPACE, 1));
    assert_eq!(out.signals, vec![Signal::Release]);
    assert!(!st.recording);
    assert!(st.waiting_for_mod_release);

    let out = st.on_event(&cfg, key(CTRL, 0));
    assert_eq!(out.signals, vec![Signal::ModifierUp]);
    assert_eq!(out.disposition, Disposition::Forward);
    assert!(!st.waiting_for_mod_release);
}

#[test]
fn stop_without_modifier_held_sends_modifier_up_at_once() {
    let cfg = HotkeyConfig { target_key: SPACE, target_mod: None, toggle_key: 30, toggle_mod: Some(RCTRL) };
    let mut st = InterceptState::new();
    assert_eq!(st.on_event(&cfg, key(SPACE, 1)).signals, vec![Signal::Press]);
    assert_eq!(st.on_event(&cfg, key(SPACE, 0)).disposition, Disposition::Swallow);
    assert_eq!(st.on_event(&cfg, key(SPACE, 1)).signals, vec![Signal::Release, Signal::ModifierUp]);
}

#[test]
fn right_ctrl_space_toggles_mode() {
    let cfg = HotkeyConfig::new();
    let mut st = InterceptState::new();
    assert_eq!(st.on_event(&cfg, key(RCTRL, 1)).disposition, Disposition::Forward);
    let out = st.on_event(&cfg, key(SPACE, 1));
    assert_eq!(out.signals, vec![Signal::ToggleMode]);
    assert_eq!(out.disposition, Disposition::Swallow);
    assert!(!st.recording);
    assert_eq!(st.on_event(&cfg, key(SPACE, 0)).disposition, Disposition::Swallow);
}

#[test]
fn plain_space_and_other_events_pass() {
    let cfg = HotkeyConfig::new();
    let mut st = InterceptState::new();
    let out = st.on_event(&cfg, key(SPACE, 1));
    assert!(out.signals.is_empty());
    assert_eq!(out.disposition, Disposition::Forward);
    assert_eq!(st.on_event(&cfg, key(SPACE, 0)).disposition, Disposition::Forward);
    let before = st;
    let out = st.on_event(&cfg, InputEvent { type_: 4, code: 4, value: 458796 });
    assert_eq!(out.disposition, Disposition::Forward);
    assert_eq!(st, before);
    assert_eq!(st.on_event(&cfg, key(30, 1)).disposition, Disposition::Forward);
}

#[test]
fn repeats_of_the_hotkey_are_swallowed() {
    let cfg = HotkeyConfig::new();
    let mut st = InterceptState::new();
    st.on_event(&cfg, key(CTRL, 1));
    st.on_event(&cfg, key(SPACE, 1));
    assert_eq!(st.on_event(&cfg, key(SPACE, 2)).disposition, Disposition::Swallow);
    assert_eq!(st.on_event(&cfg, key(CTRL, 2)).disposition, Disposition::Forward);
}

#[test]
fn press_and_release_alternate_over_a_session() {
    let cfg = HotkeyConfig::new();
    let mut st = InterceptState::new();
    let events = [
        key(CTRL, 1), key(SPACE, 1), key(SPACE, 0), key(SPACE, 1), key(SPACE, 0), key(CTRL, 0),
        key(CTRL, 1), key(SPACE, 1), key(CTRL, 0), key(SPACE, 0), key(CTRL, 1), key(SPACE, 1),
    ];
    let mut rec = Vec::new();
    for ev in events {
        for s in st.on_event(&cfg, ev).signals {
            if s == Signal::Press || s == Signal::Release {
                rec.push(s);
            }
        }
    }
    assert_eq!(rec, vec![Signal::Press, Signal::Release, Signal::Press, Signal::Release]);
}

#[test]
fn hold_interceptor_early_modifier_release_still_releases() {
    let mut st = HoldState::new();
    assert_eq!(st.on_event(CTRL, SPACE, key(CTRL, 1)).disposition, Disposition::Forward);
    let out = st.on_event(CTRL, SPACE, key(SPACE, 1));
    assert_eq!(out.signals, vec![Signal::Press]);
    assert_eq!(out.disposition, Disposition::Swallow);
    assert_eq!(st.on_event(CTRL, SPACE, key(CTRL, 0)).disposition, Disposition::Forward);
    assert!(!st.mod_down);
    let out = st.on_event(CTRL, SPACE, key(SPACE, 0));
    assert_eq!(out.signals, vec![Signal::Release]);
    assert_eq!(out.disposition, Disposition::Swallow);
    assert!(!st.active);
}

#[test]
fn hold_interceptor_ignores_space_without_modifier() {
    let mut st = HoldState::new();
    let out = st.on_event(CTRL, SPACE, key(SPACE, 1));
    assert!(out.signals.is_empty());
    assert_eq!(out.disposition, Disposition::Forward);
    assert_eq!(st.on_event(CTRL, SPACE, key(SPACE, 2)).disposition, Disposition::Forward);
}

#[test]
fn plugin_arguments() {
    let cfg = parse_plugin_args(&args(&["interceptor"]));
    assert_eq!(cfg, HotkeyConfig { target_key: 57, target_mod: Some(29), toggle_key: 57, toggle_mod: Some(97) });
    let cfg = parse_plugin_args(&args(&[
        "interceptor", "--key", "30", "--modifier", "-1", "--toggle-key", "x", "--toggle-modifier", "65565",
    ]));
    assert_eq!(cfg, HotkeyConfig { target_key: 30, target_mod: None, toggle_key: 57, toggle_mod: Some(29) });
    let cfg = parse_plugin_args(&args(&["interceptor", "--modifier", "bogus", "--other", "--key"]));
    assert_eq!(cfg, HotkeyConfig { target_key: 57, target_mod: None, toggle_key: 57, toggle_mod: Some(97) });
}

#[test]
fn hold_arguments() {
    assert_eq!(parse_hold_args(&args(&["i"])), (29, 57));
    assert_eq!(parse_hold_args(&args(&["i", "97", "44"])), (97, 44));
    assert_eq!(parse_hold_args(&args(&["i", "no"])), (29, 57));
}

#[test]
fn datagrams_round_trip() {
    for s in [Signal::Press, Signal::Release, Signal::ModifierUp, Signal::ToggleMode] {
        assert_eq!(Signal::from_datagram(&s.datagram()), Some(s));
    }
    assert_eq!(Signal::Press.datagram(), b"PRESS".to_vec());
    assert_eq!(Signal::ModifierUp.datagram(), b"MODIFIER_UP".to_vec());
    assert_eq!(Signal::from_datagram(b"TOGGLE_MODE"), Some(Signal::ToggleMode));
    assert_eq!(Signal::from_datagram(b"PRESS\n"), None);
    assert_eq!(Signal::from_datagram(b""), None);
}
