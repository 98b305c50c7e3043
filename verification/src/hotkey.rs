//! Push-to-talk hotkey recognition on raw keyboard events.
//!
//! Two recognisers stand here: the interception plugin (a record key with an
//! optional modifier, pressed once to start and once to stop, plus a separate
//! toggle hotkey that switches the output mode), and the simpler hold-to-talk
//! interceptor. Each takes one kernel input event at a time, says whether the
//! event goes on to the desktop or is swallowed, and which signals go to the
//! daemon.
use vstd::prelude::*;
use crate::text::{parse_i32, parse_i32_str, parse_u16, parse_unsigned, str_equals};

verus! {

/// Event type of key events (`EV_KEY` in `linux/input.h`).
pub const EV_KEY: u16 = 1;

/// Key event value of a press.
pub const KEY_PRESS: i32 = 1;

/// Key event value of a release.
pub const KEY_RELEASE: i32 = 0;

/// Key event value of an auto-repeat.
pub const KEY_REPEAT: i32 = 2;

/// The fields of a kernel `input_event` that the recognisers read.
#[derive(Clone, Copy, Debug, PartialEq, Eq, Structural)]
pub struct InputEvent {
    pub type_: u16,
    pub code: u16,
    pub value: i32,
}

/// What the recogniser tells the daemon over its datagram socket.
#[derive(Clone, Copy, Debug, PartialEq, Eq, Structural)]
pub enum Signal {
    Press,
    Release,
    ModifierUp,
    ToggleMode,
}

/// Whether an event goes on to the desktop or is kept from it.
#[derive(Clone, Copy, Debug, PartialEq, Eq, Structural)]
pub enum Disposition {
    Forward,
    Swallow,
}

/// The hotkeys of the interception plugin.
#[derive(Clone, Copy, Debug, PartialEq, Eq, Structural)]
pub struct HotkeyConfig {
    pub target_key: u16,
    pub target_mod: Option<u16>,
    pub toggle_key: u16,
    pub toggle_mod: Option<u16>,
}

/// What the interception plugin remembers between events.
#[derive(Clone, Copy, Debug, PartialEq, Eq, Structural)]
pub struct InterceptState {
    pub modifier_pressed: bool,
    pub toggle_modifier_pressed: bool,
    pub recording: bool,
    pub key_was_swallowed: bool,
    pub waiting_for_mod_release: bool,
}

/// The signals and the disposition of one event.
pub struct StepOutcome {
    pub signals: Vec<Signal>,
    pub disposition: Disposition,
}

// ---------------------------------------------------------------------------
// The interception plugin, as a transition function
// ---------------------------------------------------------------------------

/// The default hotkeys: Left Ctrl + Space records, Right Ctrl + Space
/// toggles the output mode.
pub open spec fn default_config() -> HotkeyConfig {
    HotkeyConfig { target_key: 57, target_mod: Some(29u16), toggle_key: 57, toggle_mod: Some(97u16) }
}

pub open spec fn initial_state() -> InterceptState {
    InterceptState {
        modifier_pressed: false,
        toggle_modifier_pressed: false,
        recording: false,
        key_was_swallowed: false,
        waiting_for_mod_release: false,
    }
}

pub open spec fn is_held(value: i32) -> bool {
    value == KEY_PRESS || value == KEY_REPEAT
}

/// `ev` is a key event of the record modifier.
pub open spec fn is_target_mod_event(cfg: HotkeyConfig, ev: InputEvent) -> bool {
    cfg.target_mod == Some(ev.code)
}

/// `ev` is a key event of the toggle modifier.
pub open spec fn is_toggle_mod_event(cfg: HotkeyConfig, ev: InputEvent) -> bool {
    cfg.toggle_mod == Some(ev.code)
}

/// The modifier bookkeeping of a key event of either modifier.
pub open spec fn track_modifiers(cfg: HotkeyConfig, st: InterceptState, ev: InputEvent) -> (
    InterceptState,
    Seq<Signal>,
) {
    let (s1, sig) = if is_target_mod_event(cfg, ev) {
        if is_held(ev.value) {
            (InterceptState { modifier_pressed: true, ..st }, Seq::<Signal>::empty())
        } else if ev.value == KEY_RELEASE {
            (
                InterceptState { modifier_pressed: false, waiting_for_mod_release: false, ..st },
                if st.waiting_for_mod_release {
                    seq![Signal::ModifierUp]
                } else {
                    Seq::<Signal>::empty()
                },
            )
        } else {
            (st, Seq::<Signal>::empty())
        }
    } else {
        (st, Seq::<Signal>::empty())
    };
    let s2 = if is_toggle_mod_event(cfg, ev) {
        if is_held(ev.value) {
            InterceptState { toggle_modifier_pressed: true, ..s1 }
        } else if ev.value == KEY_RELEASE {
            InterceptState { toggle_modifier_pressed: false, ..s1 }
        } else {
            s1
        }
    } else {
        s1
    };
    (s2, sig)
}

/// The record modifier is down, or none is configured.
pub open spec fn mod_ok(cfg: HotkeyConfig, st: InterceptState) -> bool {
    if cfg.target_mod is Some {
        st.modifier_pressed
    } else {
        true
    }
}

/// The toggle modifier is down, or none is configured.
pub open spec fn toggle_mod_ok(cfg: HotkeyConfig, st: InterceptState) -> bool {
    if cfg.toggle_mod is Some {
        st.toggle_modifier_pressed
    } else {
        true
    }
}

/// Stops a recording: `RELEASE`, then `MODIFIER_UP` at once unless the
/// record modifier is still held, in which case it follows on its release.
pub open spec fn stop_recording(cfg: HotkeyConfig, st: InterceptState) -> (
    InterceptState,
    Seq<Signal>,
    Disposition,
) {
    if cfg.target_mod is Some && st.modifier_pressed {
        (
            InterceptState {
                recording: false,
                key_was_swallowed: true,
                waiting_for_mod_release: true,
                ..st
            },
            seq![Signal::Release],
            Disposition::Swallow,
        )
    } else {
        (
            InterceptState { recording: false, key_was_swallowed: true, ..st },
            seq![Signal::Release, Signal::ModifierUp],
            Disposition::Swallow,
        )
    }
}

/// A release that follows a swallowed press is swallowed too, so that the
/// desktop never sees a key stuck down.
pub open spec fn release_after_swallow(st: InterceptState) -> (
    InterceptState,
    Seq<Signal>,
    Disposition,
) {
    if st.key_was_swallowed {
        (InterceptState { key_was_swallowed: false, ..st }, Seq::<Signal>::empty(), Disposition::Swallow)
    } else {
        (st, Seq::<Signal>::empty(), Disposition::Forward)
    }
}

/// A key event of the record key (which may also be the toggle key).
pub open spec fn record_key_event(cfg: HotkeyConfig, st: InterceptState, ev: InputEvent) -> (
    InterceptState,
    Seq<Signal>,
    Disposition,
) {
    let pass = (st, Seq::<Signal>::empty(), Disposition::Forward);
    if ev.value == KEY_PRESS {
        if toggle_mod_ok(cfg, st) && ev.code == cfg.toggle_key && !st.recording {
            (
                InterceptState { key_was_swallowed: true, ..st },
                seq![Signal::ToggleMode],
                Disposition::Swallow,
            )
        } else if mod_ok(cfg, st) {
            if !st.recording {
                (
                    InterceptState { recording: true, key_was_swallowed: true, ..st },
                    seq![Signal::Press],
                    Disposition::Swallow,
                )
            } else {
                stop_recording(cfg, st)
            }
        } else {
            pass
        }
    } else if ev.value == KEY_RELEASE {
        release_after_swallow(st)
    } else if ev.value == KEY_REPEAT {
        if mod_ok(cfg, st) || (toggle_mod_ok(cfg, st) && ev.code == cfg.toggle_key) {
            (st, Seq::<Signal>::empty(), Disposition::Swallow)
        } else {
            pass
        }
    } else {
        pass
    }
}

/// A key event of the toggle key, when it differs from the record key.
pub open spec fn toggle_key_event(cfg: HotkeyConfig, st: InterceptState, ev: InputEvent) -> (
    InterceptState,
    Seq<Signal>,
    Disposition,
) {
    let pass = (st, Seq::<Signal>::empty(), Disposition::Forward);
    if ev.value == KEY_PRESS {
        if toggle_mod_ok(cfg, st) && !st.recording {
            (
                InterceptState { key_was_swallowed: true, ..st },
                seq![Signal::ToggleMode],
                Disposition::Swallow,
            )
        } else {
            pass
        }
    } else if ev.value == KEY_RELEASE {
        release_after_swallow(st)
    } else if ev.value == KEY_REPEAT {
        if toggle_mod_ok(cfg, st) {
            (st, Seq::<Signal>::empty(), Disposition::Swallow)
        } else {
            pass
        }
    } else {
        pass
    }
}

/// One event through the interception plugin: the state after it, the
/// signals it sends, and whether the event reaches the desktop.
pub open spec fn step(cfg: HotkeyConfig, st: InterceptState, ev: InputEvent) -> (
    InterceptState,
    Seq<Signal>,
    Disposition,
) {
    if ev.type_ != EV_KEY {
        (st, Seq::<Signal>::empty(), Disposition::Forward)
    } else if is_target_mod_event(cfg, ev) || is_toggle_mod_event(cfg, ev) {
        let (s, sig) = track_modifiers(cfg, st, ev);
        (s, sig, Disposition::Forward)
    } else if ev.code == cfg.target_key {
        record_key_event(cfg, st, ev)
    } else if ev.code == cfg.toggle_key {
        toggle_key_event(cfg, st, ev)
    } else {
        (st, Seq::<Signal>::empty(), Disposition::Forward)
    }
}

/// The state after a sequence of events, and every signal sent on the way.
pub open spec fn run(cfg: HotkeyConfig, st: InterceptState, evs: Seq<InputEvent>) -> (
    InterceptState,
    Seq<Signal>,
)
    decreases evs.len(),
{
    if evs.len() == 0 {
        (st, Seq::<Signal>::empty())
    } else {
        let (s, sig) = run(cfg, st, evs.drop_last());
        let (s2, sig2, _d) = step(cfg, s, evs.last());
        (s2, sig + sig2)
    }
}

/// The recording signals (`PRESS` and `RELEASE`) among `sig`, in order.
pub open spec fn recording_signals(sig: Seq<Signal>) -> Seq<Signal> {
    sig.filter(|s: Signal| s == Signal::Press || s == Signal::Release)
}

/// `n` recording signals that alternate, beginning with `RELEASE` when a
/// recording is under way and with `PRESS` otherwise.
pub open spec fn alternating(recording: bool, n: nat) -> Seq<Signal> {
    Seq::new(
        n,
        |i: int|
            if (i % 2 == 0) != recording {
                Signal::Press
            } else {
                Signal::Release
            },
    )
}

// ---------------------------------------------------------------------------
// The interception plugin, executable
// ---------------------------------------------------------------------------

impl HotkeyConfig {
    /// The default hotkeys.
    pub fn new() -> (c: HotkeyConfig)
        ensures
            c == default_config(),
    {
        HotkeyConfig { target_key: 57, target_mod: Some(29), toggle_key: 57, toggle_mod: Some(97) }
    }
}

impl InterceptState {
    /// Nothing held, nothing recording.
    pub fn new() -> (s: InterceptState)
        ensures
            s == initial_state(),
    {
        InterceptState {
            modifier_pressed: false,
            toggle_modifier_pressed: false,
            recording: false,
            key_was_swallowed: false,
            waiting_for_mod_release: false,
        }
    }

    /// The modifier bookkeeping of a key event of either modifier.
    fn on_modifier_event(&mut self, cfg: &HotkeyConfig, ev: InputEvent) -> (signals: Vec<Signal>)
        ensures
            (*final(self), signals@) == track_modifiers(*cfg, *old(self), ev),
    {
        let mut signals: Vec<Signal> = Vec::new();
        let is_target_mod = match cfg.target_mod {
            Some(m) => ev.code == m,
            None => false,
        };
        let is_toggle_mod = match cfg.toggle_mod {
            Some(m) => ev.code == m,
            None => false,
        };
        if is_target_mod {
            if ev.value == KEY_PRESS || ev.value == KEY_REPEAT {
                self.modifier_pressed = true;
            } else if ev.value == KEY_RELEASE {
                self.modifier_pressed = false;
                if self.waiting_for_mod_release {
                    signals.push(Signal::ModifierUp);
                    self.waiting_for_mod_release = false;
                }
            }
        }
        if is_toggle_mod {
            if ev.value == KEY_PRESS || ev.value == KEY_REPEAT {
                self.toggle_modifier_pressed = true;
            } else if ev.value == KEY_RELEASE {
                self.toggle_modifier_pressed = false;
            }
        }
        assert(signals@ =~= track_modifiers(*cfg, *old(self), ev).1);
        signals
    }

    fn swallowed_release(&mut self) -> (out: StepOutcome)
        ensures
            (*final(self), out.signals@, out.disposition) == release_after_swallow(*old(self)),
    {
        let signals: Vec<Signal> = Vec::new();
        assert(signals@ =~= Seq::<Signal>::empty());
        if self.key_was_swallowed {
            self.key_was_swallowed = false;
            StepOutcome { signals, disposition: Disposition::Swallow }
        } else {
            StepOutcome { signals, disposition: Disposition::Forward }
        }
    }

    fn on_record_key(&mut self, cfg: &HotkeyConfig, ev: InputEvent) -> (out: StepOutcome)
        ensures
            (*final(self), out.signals@, out.disposition) == record_key_event(*cfg, *old(self), ev),
    {
        let mut signals: Vec<Signal> = Vec::new();
        let mod_ok = match cfg.target_mod {
            Some(_) => self.modifier_pressed,
            None => true,
        };
        let toggle_ok = match cfg.toggle_mod {
            Some(_) => self.toggle_modifier_pressed,
            None => true,
        };
        assert(signals@ =~= Seq::<Signal>::empty());
        if ev.value == KEY_PRESS {
            if toggle_ok && ev.code == cfg.toggle_key && !self.recording {
                signals.push(Signal::ToggleMode);
                self.key_was_swallowed = true;
                assert(signals@ =~= seq![Signal::ToggleMode]);
                StepOutcome { signals, disposition: Disposition::Swallow }
            } else if mod_ok {
                if !self.recording {
                    signals.push(Signal::Press);
                    self.recording = true;
                    assert(signals@ =~= seq![Signal::Press]);
                } else {
                    signals.push(Signal::Release);
                    self.recording = false;
                    if cfg.target_mod.is_some() && self.modifier_pressed {
                        self.waiting_for_mod_release = true;
                        assert(signals@ =~= seq![Signal::Release]);
                    } else {
                        signals.push(Signal::ModifierUp);
                        assert(signals@ =~= seq![Signal::Release, Signal::ModifierUp]);
                    }
                }
                self.key_was_swallowed = true;
                StepOutcome { signals, disposition: Disposition::Swallow }
            } else {
                StepOutcome { signals, disposition: Disposition::Forward }
            }
        } else if ev.value == KEY_RELEASE {
            self.swallowed_release()
        } else if ev.value == KEY_REPEAT && (mod_ok || (toggle_ok && ev.code == cfg.toggle_key)) {
            StepOutcome { signals, disposition: Disposition::Swallow }
        } else {
            StepOutcome { signals, disposition: Disposition::Forward }
        }
    }

    fn on_toggle_key(&mut self, cfg: &HotkeyConfig, ev: InputEvent) -> (out: StepOutcome)
        ensures
            (*final(self), out.signals@, out.disposition) == toggle_key_event(*cfg, *old(self), ev),
    {
        let mut signals: Vec<Signal> = Vec::new();
        let toggle_ok = match cfg.toggle_mod {
            Some(_) => self.toggle_modifier_pressed,
            None => true,
        };
        assert(signals@ =~= Seq::<Signal>::empty());
        if ev.value == KEY_PRESS {
            if toggle_ok && !self.recording {
                signals.push(Signal::ToggleMode);
                self.key_was_swallowed = true;
                assert(signals@ =~= seq![Signal::ToggleMode]);
                StepOutcome { signals, disposition: Disposition::Swallow }
            } else {
                StepOutcome { signals, disposition: Disposition::Forward }
            }
        } else if ev.value == KEY_RELEASE {
            self.swallowed_release()
        } else if ev.value == KEY_REPEAT && toggle_ok {
            StepOutcome { signals, disposition: Disposition::Swallow }
        } else {
            StepOutcome { signals, disposition: Disposition::Forward }
        }
    }

    /// Takes one event: updates the state and gives the signals to send and
    /// whether the event reaches the desktop.
    pub fn on_event(&mut self, cfg: &HotkeyConfig, ev: InputEvent) -> (out: StepOutcome)
        ensures
            (*final(self), out.signals@, out.disposition) == step(*cfg, *old(self), ev),
    {
        let is_target_mod = match cfg.target_mod {
            Some(m) => ev.code == m,
            None => false,
        };
        let is_toggle_mod = match cfg.toggle_mod {
            Some(m) => ev.code == m,
            None => false,
        };
        if ev.type_ != EV_KEY {
            let signals: Vec<Signal> = Vec::new();
            assert(signals@ =~= Seq::<Signal>::empty());
            StepOutcome { signals, disposition: Disposition::Forward }
        } else if is_target_mod || is_toggle_mod {
            let signals = self.on_modifier_event(cfg, ev);
            StepOutcome { signals, disposition: Disposition::Forward }
        } else if ev.code == cfg.target_key {
            self.on_record_key(cfg, ev)
        } else if ev.code == cfg.toggle_key {
            self.on_toggle_key(cfg, ev)
        } else {
            let signals: Vec<Signal> = Vec::new();
            assert(signals@ =~= Seq::<Signal>::empty());
            StepOutcome { signals, disposition: Disposition::Forward }
        }
    }
}

// ---------------------------------------------------------------------------
// Laws of the interception plugin
// ---------------------------------------------------------------------------

/// Events that are not key events reach the desktop unchanged, send nothing
/// and change nothing.
pub proof fn law_non_key_events_pass(cfg: HotkeyConfig, st: InterceptState, ev: InputEvent)
    requires
        ev.type_ != EV_KEY,
    ensures
        step(cfg, st, ev) == (st, Seq::<Signal>::empty(), Disposition::Forward),
{
}

/// Modifier key events always reach the desktop, so that the desktop's own
/// shortcuts keep working; at most a deferred `MODIFIER_UP` is sent.
pub proof fn law_modifiers_pass_through(cfg: HotkeyConfig, st: InterceptState, ev: InputEvent)
    requires
        ev.type_ == EV_KEY,
        is_target_mod_event(cfg, ev) || is_toggle_mod_event(cfg, ev),
    ensures
        step(cfg, st, ev).2 == Disposition::Forward,
        step(cfg, st, ev).1 == Seq::<Signal>::empty() || step(cfg, st, ev).1 == seq![
            Signal::ModifierUp,
        ],
        step(cfg, st, ev).0.recording == st.recording,
{
}

/// The plugin holds a modifier exactly as long as the key is down: a press
/// or auto-repeat of the record or toggle modifier marks it held, its
/// release marks it up, and an event of one modifier leaves the other alone.
pub proof fn law_modifiers_follow_their_keys(cfg: HotkeyConfig, st: InterceptState, ev: InputEvent)
    requires
        ev.type_ == EV_KEY,
    ensures
        cfg.target_mod == Some(ev.code) && ev.value == KEY_RELEASE ==> !step(cfg, st, ev).0.modifier_pressed,
        cfg.toggle_mod == Some(ev.code) && ev.value == KEY_RELEASE ==> !step(cfg, st, ev).0.toggle_modifier_pressed,
        cfg.target_mod == Some(ev.code) && (ev.value == KEY_PRESS || ev.value == KEY_REPEAT) ==> step(
            cfg,
            st,
            ev,
        ).0.modifier_pressed,
        cfg.toggle_mod == Some(ev.code) && (ev.value == KEY_PRESS || ev.value == KEY_REPEAT) ==> step(
            cfg,
            st,
            ev,
        ).0.toggle_modifier_pressed,
        cfg.target_mod == Some(ev.code) && cfg.toggle_mod != Some(ev.code) ==> step(cfg, st, ev).0.toggle_modifier_pressed
            == st.toggle_modifier_pressed,
        cfg.toggle_mod == Some(ev.code) && cfg.target_mod != Some(ev.code) ==> step(cfg, st, ev).0.modifier_pressed
            == st.modifier_pressed,
{
}

/// With both hotkeys needing a modifier and neither modifier held, no key
/// press is a hotkey: it reaches the desktop, sends nothing and changes
/// nothing.
pub proof fn law_no_modifier_no_hotkey(cfg: HotkeyConfig, st: InterceptState, ev: InputEvent)
    requires
        cfg.target_mod is Some,
        cfg.toggle_mod is Some,
        !st.modifier_pressed,
        !st.toggle_modifier_pressed,
        ev.type_ == EV_KEY,
        ev.value == KEY_PRESS,
        cfg.target_mod != Some(ev.code),
        cfg.toggle_mod != Some(ev.code),
    ensures
        step(cfg, st, ev) == (st, Seq::<Signal>::empty(), Disposition::Forward),
{
}

/// Pressing and then releasing a modifier, with no other key in between,
/// leaves it up again: a hotkey needs its modifier held at the time.
pub proof fn law_released_modifier_is_up(
    cfg: HotkeyConfig,
    st: InterceptState,
    press: InputEvent,
    release: InputEvent,
)
    requires
        press.type_ == EV_KEY,
        press.value == KEY_PRESS,
        release.type_ == EV_KEY,
        release.code == press.code,
        release.value == KEY_RELEASE,
        cfg.target_mod == Some(press.code) || cfg.toggle_mod == Some(press.code),
    ensures
        cfg.target_mod == Some(press.code) ==> !step(cfg, step(cfg, st, press).0, release).0.modifier_pressed,
        cfg.toggle_mod == Some(press.code) ==> !step(
            cfg,
            step(cfg, st, press).0,
            release,
        ).0.toggle_modifier_pressed,
        step(cfg, step(cfg, st, press).0, release).0.recording == st.recording,
{
}

/// A hotkey signal needs its key pressed with its modifier held:
/// `TOGGLE_MODE` comes only from a press of the toggle key while the toggle
/// modifier is down (or none is configured) and no recording runs; `PRESS`
/// only from a press of the record key while the record modifier is down
/// (or none is configured) and no recording runs.
pub proof fn law_hotkeys_need_their_modifiers(cfg: HotkeyConfig, st: InterceptState, ev: InputEvent)
    ensures
        step(cfg, st, ev).1.contains(Signal::ToggleMode) ==> ev.type_ == EV_KEY && ev.value
            == KEY_PRESS && ev.code == cfg.toggle_key && !st.recording && (cfg.toggle_mod is None
            || st.toggle_modifier_pressed),
        step(cfg, st, ev).1.contains(Signal::Press) ==> ev.type_ == EV_KEY && ev.value == KEY_PRESS
            && ev.code == cfg.target_key && !st.recording && (cfg.target_mod is None
            || st.modifier_pressed),
{
    let sig = step(cfg, st, ev).1;
    assert(seq![Signal::ToggleMode][0] == Signal::ToggleMode);
    assert(seq![Signal::Press][0] == Signal::Press);
    assert(seq![Signal::Release][0] == Signal::Release);
    assert(seq![Signal::ModifierUp][0] == Signal::ModifierUp);
    assert(seq![Signal::Release, Signal::ModifierUp][0] == Signal::Release);
    assert(seq![Signal::Release, Signal::ModifierUp][1] == Signal::ModifierUp);
    if sig.contains(Signal::ToggleMode) || sig.contains(Signal::Press) {
        assert(sig.len() > 0);
    }
}

/// A release of the record or toggle key that follows a swallowed press is
/// swallowed as well, so no key is left stuck down on the desktop.
pub proof fn law_swallowed_press_swallows_release(
    cfg: HotkeyConfig,
    st: InterceptState,
    press: InputEvent,
    release: InputEvent,
)
    requires
        press.type_ == EV_KEY,
        press.value == KEY_PRESS,
        step(cfg, st, press).2 == Disposition::Swallow,
        release.type_ == EV_KEY,
        release.code == press.code,
        release.value == KEY_RELEASE,
    ensures
        step(cfg, step(cfg, st, press).0, release).2 == Disposition::Swallow,
        !step(cfg, step(cfg, st, press).0, release).0.key_was_swallowed,
{
}

/// One event sends at most one recording signal: `PRESS` only when no
/// recording was under way, and it starts one; `RELEASE` only during a
/// recording, and it ends it; without either the recording state holds.
pub proof fn law_step_recording(cfg: HotkeyConfig, st: InterceptState, ev: InputEvent)
    ensures
        ({
            let (s2, sig, _d) = step(cfg, st, ev);
            &&& recording_signals(sig) == (if s2.recording == st.recording {
                Seq::<Signal>::empty()
            } else if st.recording {
                seq![Signal::Release]
            } else {
                seq![Signal::Press]
            })
        }),
{
    reveal_with_fuel(Seq::filter, 3);
    let (s2, sig, _d) = step(cfg, st, ev);
    assert(seq![Signal::Press].drop_last() =~= Seq::<Signal>::empty());
    assert(seq![Signal::Release].drop_last() =~= Seq::<Signal>::empty());
    assert(seq![Signal::ToggleMode].drop_last() =~= Seq::<Signal>::empty());
    assert(seq![Signal::ModifierUp].drop_last() =~= Seq::<Signal>::empty());
    assert(seq![Signal::Release, Signal::ModifierUp].drop_last() =~= seq![Signal::Release]);
}

/// Over any sequence of events, the `PRESS` and `RELEASE` signals that the
/// plugin sends alternate, each `PRESS` starting a recording and each
/// `RELEASE` ending it; the recording flag tells which one comes next.
pub proof fn law_press_release_alternate(
    cfg: HotkeyConfig,
    st: InterceptState,
    evs: Seq<InputEvent>,
)
    ensures
        recording_signals(run(cfg, st, evs).1) == alternating(
            st.recording,
            recording_signals(run(cfg, st, evs).1).len(),
        ),
        run(cfg, st, evs).0.recording == (st.recording != (recording_signals(
            run(cfg, st, evs).1,
        ).len() % 2 == 1)),
    decreases evs.len(),
{
    if evs.len() == 0 {
        assert(recording_signals(Seq::<Signal>::empty()) =~= Seq::<Signal>::empty());
        assert(alternating(st.recording, 0) =~= Seq::<Signal>::empty());
    } else {
        let (s, sig) = run(cfg, st, evs.drop_last());
        law_press_release_alternate(cfg, st, evs.drop_last());
        let (s2, sig2, _d) = step(cfg, s, evs.last());
        law_step_recording(cfg, s, evs.last());
        let pred = |x: Signal| x == Signal::Press || x == Signal::Release;
        Seq::filter_distributes_over_add(sig, sig2, pred);
        assert(recording_signals(sig + sig2) == recording_signals(sig) + recording_signals(sig2));
        let n = recording_signals(sig).len();
        let a = recording_signals(sig + sig2);
        if s2.recording == s.recording {
            assert(recording_signals(sig2) =~= Seq::<Signal>::empty());
            assert(a =~= recording_signals(sig));
        } else {
            assert(a =~= alternating(st.recording, n + 1));
        }
    }
}

// ---------------------------------------------------------------------------
// The hold-to-talk interceptor
// ---------------------------------------------------------------------------

/// What the hold-to-talk interceptor remembers between events.
#[derive(Clone, Copy, Debug, PartialEq, Eq, Structural)]
pub struct HoldState {
    pub mod_down: bool,
    pub active: bool,
}

/// One event through the hold-to-talk interceptor: the modifier is tracked
/// and always passed on; the record key starts a recording when pressed
/// with the modifier down and ends it when released.
pub open spec fn hold_step(modifier_key: u16, target_key: u16, st: HoldState, ev: InputEvent) -> (
    HoldState,
    Seq<Signal>,
    Disposition,
) {
    let pass = (st, Seq::<Signal>::empty(), Disposition::Forward);
    if ev.type_ != EV_KEY {
        pass
    } else if ev.code == modifier_key {
        (HoldState { mod_down: is_held(ev.value), ..st }, Seq::<Signal>::empty(), Disposition::Forward)
    } else if ev.code == target_key {
        if ev.value == KEY_PRESS {
            if st.mod_down {
                (HoldState { active: true, ..st }, seq![Signal::Press], Disposition::Swallow)
            } else {
                pass
            }
        } else if ev.value == KEY_RELEASE {
            if st.active {
                (HoldState { active: false, ..st }, seq![Signal::Release], Disposition::Swallow)
            } else {
                pass
            }
        } else if ev.value == KEY_REPEAT {
            if st.active {
                (st, Seq::<Signal>::empty(), Disposition::Swallow)
            } else {
                pass
            }
        } else {
            pass
        }
    } else {
        pass
    }
}

impl HoldState {
    pub fn new() -> (s: HoldState)
        ensures
            s == (HoldState { mod_down: false, active: false }),
    {
        HoldState { mod_down: false, active: false }
    }

    /// Takes one event of the hold-to-talk interceptor.
    pub fn on_event(&mut self, modifier_key: u16, target_key: u16, ev: InputEvent) -> (out:
        StepOutcome)
        ensures
            (*final(self), out.signals@, out.disposition) == hold_step(
                modifier_key,
                target_key,
                *old(self),
                ev,
            ),
    {
        let mut signals: Vec<Signal> = Vec::new();
        let mut swallow = false;
        if ev.type_ == EV_KEY {
            if ev.code == modifier_key {
                self.mod_down = ev.value == KEY_PRESS || ev.value == KEY_REPEAT;
            } else if ev.code == target_key {
                if ev.value == KEY_PRESS {
                    if self.mod_down {
                        signals.push(Signal::Press);
                        self.active = true;
                        swallow = true;
                    }
                } else if ev.value == KEY_RELEASE {
                    if self.active {
                        signals.push(Signal::Release);
                        self.active = false;
                        swallow = true;
                    }
                } else if ev.value == KEY_REPEAT {
                    if self.active {
                        swallow = true;
                    }
                }
            }
        }
        assert(signals@ =~= hold_step(modifier_key, target_key, *old(self), ev).1);
        StepOutcome {
            signals,
            disposition: if swallow {
                Disposition::Swallow
            } else {
                Disposition::Forward
            },
        }
    }
}

/// Releasing the record key during a recording always ends it with
/// `RELEASE`, even when the modifier was let go first, so the daemon never
/// stays stuck recording.
pub proof fn law_hold_release_always_ends(
    modifier_key: u16,
    target_key: u16,
    st: HoldState,
    ev: InputEvent,
)
    requires
        st.active,
        ev.type_ == EV_KEY,
        ev.code == target_key,
        ev.code != modifier_key,
        ev.value == KEY_RELEASE,
    ensures
        hold_step(modifier_key, target_key, st, ev) == (
            HoldState { active: false, ..st },
            seq![Signal::Release],
            Disposition::Swallow,
        ),
{
}

/// While a hold-to-talk recording runs, the record key's auto-repeats are
/// kept from the desktop and change nothing; with no recording they reach
/// it.
pub proof fn law_hold_repeats_swallowed_while_active(
    modifier_key: u16,
    target_key: u16,
    st: HoldState,
    ev: InputEvent,
)
    requires
        ev.type_ == EV_KEY,
        ev.code == target_key,
        ev.code != modifier_key,
        ev.value == KEY_REPEAT,
    ensures
        st.active ==> hold_step(modifier_key, target_key, st, ev) == (
            st,
            Seq::<Signal>::empty(),
            Disposition::Swallow,
        ),
        !st.active ==> hold_step(modifier_key, target_key, st, ev) == (
            st,
            Seq::<Signal>::empty(),
            Disposition::Forward,
        ),
{
}

/// Once a hold-to-talk recording runs, the record key's repeats and its
/// release are kept from the desktop, so holding the key types nothing.
pub proof fn law_hold_record_key_never_leaks(
    modifier_key: u16,
    target_key: u16,
    st: HoldState,
    ev: InputEvent,
)
    requires
        st.active,
        ev.type_ == EV_KEY,
        ev.code == target_key,
        ev.code != modifier_key,
        ev.value == KEY_RELEASE || ev.value == KEY_REPEAT,
    ensures
        hold_step(modifier_key, target_key, st, ev).2 == Disposition::Swallow,
{
}

// ---------------------------------------------------------------------------
// Command-line arguments
// ---------------------------------------------------------------------------

/// The modifier that a `--modifier` style value selects: a negative or
/// unreadable value means none, any other is taken modulo 2^16 as `as u16`
/// does.
pub open spec fn modifier_arg(v: Seq<char>) -> Option<u16> {
    let n = match parse_i32(v) {
        Some(x) => x,
        None => -1,
    };
    if n >= 0 {
        Some((n % 0x10000) as u16)
    } else {
        None
    }
}

/// A key that a `--key` style value selects, keeping `current` when the
/// value is not a `u16`.
pub open spec fn key_arg(v: Seq<char>, current: u16) -> u16 {
    match parse_unsigned(v, 0xffff) {
        Some(k) => k as u16,
        None => current,
    }
}

/// The interception plugin's options, read from `args[i..]` on top of
/// `cfg`; an option without a value after it is ignored, as is every
/// unknown argument.
pub open spec fn options_from(args: Seq<Seq<char>>, i: int, cfg: HotkeyConfig) -> HotkeyConfig
    decreases args.len() - i,
{
    if i < 1 || i >= args.len() {
        cfg
    } else {
        let a = args[i];
        let has_value = i + 1 < args.len();
        if has_value && a == "--key"@ {
            options_from(args, i + 2, HotkeyConfig { target_key: key_arg(args[i + 1], cfg.target_key), ..cfg })
        } else if has_value && a == "--modifier"@ {
            options_from(args, i + 2, HotkeyConfig { target_mod: modifier_arg(args[i + 1]), ..cfg })
        } else if has_value && a == "--toggle-key"@ {
            options_from(args, i + 2, HotkeyConfig { toggle_key: key_arg(args[i + 1], cfg.toggle_key), ..cfg })
        } else if has_value && a == "--toggle-modifier"@ {
            options_from(args, i + 2, HotkeyConfig { toggle_mod: modifier_arg(args[i + 1]), ..cfg })
        } else {
            options_from(args, i + 1, cfg)
        }
    }
}

fn modifier_from(v: &str) -> (r: Option<u16>)
    ensures
        r == modifier_arg(v@),
{
    let n: i32 = match parse_i32_str(v) {
        Some(x) => x,
        None => -1,
    };
    if n >= 0 {
        Some((n % 0x10000) as u16)
    } else {
        None
    }
}

fn key_from(v: &str, current: u16) -> (r: u16)
    ensures
        r == key_arg(v@, current),
{
    match parse_u16(v) {
        Some(k) => k,
        None => current,
    }
}

/// Reads the interception plugin's hotkeys from its command line (the
/// program name first): `--key N`, `--modifier N`, `--toggle-key N`,
/// `--toggle-modifier N`, over the defaults.
pub fn parse_plugin_args(args: &Vec<String>) -> (cfg: HotkeyConfig)
    ensures
        cfg == options_from(args.deep_view(), 1, default_config()),
{
    let mut cfg = HotkeyConfig::new();
    let mut i: usize = 1;
    let ghost view = args.deep_view();
    while i < args.len()
        invariant
            view == args.deep_view(),
            view.len() == args.len(),
            1 <= i,
            options_from(view, i as int, cfg) == options_from(view, 1, default_config()),
        decreases args.len() - i,
    {
        let a = args[i].as_str();
        let has_value = i + 1 < args.len();
        assert(view[i as int] == args@[i as int]@);
        if has_value && str_equals(a, "--key") {
            assert(view[i + 1] == args@[i + 1]@);
            cfg.target_key = key_from(args[i + 1].as_str(), cfg.target_key);
            i = i + 1;
        } else if has_value && str_equals(a, "--modifier") {
            assert(view[i + 1] == args@[i + 1]@);
            cfg.target_mod = modifier_from(args[i + 1].as_str());
            i = i + 1;
        } else if has_value && str_equals(a, "--toggle-key") {
            assert(view[i + 1] == args@[i + 1]@);
            cfg.toggle_key = key_from(args[i + 1].as_str(), cfg.toggle_key);
            i = i + 1;
        } else if has_value && str_equals(a, "--toggle-modifier") {
            assert(view[i + 1] == args@[i + 1]@);
            cfg.toggle_mod = modifier_from(args[i + 1].as_str());
            i = i + 1;
        }
        i = i + 1;
    }
    cfg
}

/// The key that argument `idx` of the hold-to-talk interceptor names, or
/// `default` when it is missing or not a `u16`.
pub open spec fn positional_key(args: Seq<Seq<char>>, idx: int, default: u16) -> u16 {
    if 0 <= idx < args.len() {
        key_arg(args[idx], default)
    } else {
        default
    }
}

/// Reads the hold-to-talk interceptor's keys from its command line: the
/// modifier first (Left Ctrl, 29, by default), then the record key (Space,
/// 57, by default).
pub fn parse_hold_args(args: &Vec<String>) -> (keys: (u16, u16))
    ensures
        keys == (positional_key(args.deep_view(), 1, 29), positional_key(args.deep_view(), 2, 57)),
{
    let ghost view = args.deep_view();
    let modifier = if args.len() > 1 {
        assert(view[1] == args@[1]@);
        key_from(args[1].as_str(), 29)
    } else {
        29
    };
    let target = if args.len() > 2 {
        assert(view[2] == args@[2]@);
        key_from(args[2].as_str(), 57)
    } else {
        57
    };
    (modifier, target)
}

// ---------------------------------------------------------------------------
// The datagrams between the recognisers and the daemon
// ---------------------------------------------------------------------------

/// The bytes of a signal's datagram: its name in upper-case ASCII.
pub open spec fn signal_bytes(s: Signal) -> Seq<u8> {
    match s {
        Signal::Press => seq![80u8, 82, 69, 83, 83],
        Signal::Release => seq![82u8, 69, 76, 69, 65, 83, 69],
        Signal::ModifierUp => seq![77u8, 79, 68, 73, 70, 73, 69, 82, 95, 85, 80],
        Signal::ToggleMode => seq![84u8, 79, 71, 71, 76, 69, 95, 77, 79, 68, 69],
    }
}

/// The signal that a datagram carries, if it is one of the four.
pub open spec fn signal_of(b: Seq<u8>) -> Option<Signal> {
    if b == signal_bytes(Signal::Press) {
        Some(Signal::Press)
    } else if b == signal_bytes(Signal::Release) {
        Some(Signal::Release)
    } else if b == signal_bytes(Signal::ModifierUp) {
        Some(Signal::ModifierUp)
    } else if b == signal_bytes(Signal::ToggleMode) {
        Some(Signal::ToggleMode)
    } else {
        None
    }
}

fn bytes_equal(a: &[u8], b: &Vec<u8>) -> (r: bool)
    ensures
        r == (a@ == b@),
{
    if a.len() != b.len() {
        return false;
    }
    let mut i: usize = 0;
    while i < a.len()
        invariant
            a.len() == b.len(),
            i <= a.len(),
            forall|j: int| 0 <= j < i ==> a@[j] == b@[j],
        decreases a.len() - i,
    {
        if a[i] != b[i] {
            return false;
        }
        i = i + 1;
    }
    assert(a@ =~= b@);
    true
}

impl Signal {
    /// The datagram that carries this signal.
    pub fn datagram(&self) -> (b: Vec<u8>)
        ensures
            b@ == signal_bytes(*self),
    {
        let b = match self {
            Signal::Press => vec![80u8, 82, 69, 83, 83],
            Signal::Release => vec![82u8, 69, 76, 69, 65, 83, 69],
            Signal::ModifierUp => vec![77u8, 79, 68, 73, 70, 73, 69, 82, 95, 85, 80],
            Signal::ToggleMode => vec![84u8, 79, 71, 71, 76, 69, 95, 77, 79, 68, 69],
        };
        assert(b@ =~= signal_bytes(*self));
        b
    }

    /// Reads a datagram: one of the four signals, or `None` for anything
    /// else.
    pub fn from_datagram(msg: &[u8]) -> (r: Option<Signal>)
        ensures
            r == signal_of(msg@),
    {
        let press = Signal::Press.datagram();
        let release = Signal::Release.datagram();
        let up = Signal::ModifierUp.datagram();
        let toggle = Signal::ToggleMode.datagram();
        if bytes_equal(msg, &press) {
            Some(Signal::Press)
        } else if bytes_equal(msg, &release) {
            Some(Signal::Release)
        } else if bytes_equal(msg, &up) {
            Some(Signal::ModifierUp)
        } else if bytes_equal(msg, &toggle) {
            Some(Signal::ToggleMode)
        } else {
            None
        }
    }
}

/// Every signal that a recogniser sends reads back as itself at the daemon.
pub proof fn law_datagram_round_trip(s: Signal)
    ensures
        signal_of(signal_bytes(s)) == Some(s),
{
    let p = signal_bytes(Signal::Press);
    let r = signal_bytes(Signal::Release);
    let m = signal_bytes(Signal::ModifierUp);
    let t = signal_bytes(Signal::ToggleMode);
    assert(p.len() != r.len());
    assert(p.len() != m.len());
    assert(p.len() != t.len());
    assert(r.len() != m.len());
    assert(r.len() != t.len());
    assert(m[0] != t[0]);
}

} // verus!
