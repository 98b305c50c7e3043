//! The client daemon's decisions: where the server is, how the connection
//! status moves, what the hotkey and the server's status updates do to the
//! overlay, how the output mode toggles, and how text is injected.
use vstd::prelude::*;
use crate::hotkey::Signal;
use crate::text::{
    concat2, concat3, decimal, decimal_string, has_prefix, lowercase, lowercase_of, opt_chars,
    or_default, owned, replace_all, replace_str, starts_with, str_equals,
    strip_prefix_repeated, strip_repeated_prefix, uppercase, uppercase_of, value_or,
};

verus! {

// ---------------------------------------------------------------------------
// Where the server is
// ---------------------------------------------------------------------------

/// The WebSocket address: built from `SERVER_HOST` and `SERVER_PORT` when
/// both are set, otherwise `AI_VOICE_SERVER_WS_URL`, otherwise the local
/// default.
pub open spec fn ws_url_of(
    host: Option<Seq<char>>,
    port: Option<Seq<char>>,
    url: Option<Seq<char>>,
) -> Seq<char> {
    if host is Some && port is Some {
        "ws://"@ + host->0 + ":"@ + port->0 + "/stream"@
    } else {
        or_default(url, "ws://127.0.0.1:3000/stream"@)
    }
}

pub fn ws_url_from(host: &Option<String>, port: &Option<String>, url: &Option<String>) -> (r:
    String)
    ensures
        r@ == ws_url_of(opt_chars(*host), opt_chars(*port), opt_chars(*url)),
{
    match (host, port) {
        (Some(h), Some(p)) => {
            let mut r = concat3("ws://", h.as_str(), ":");
            r.append(p.as_str());
            r.append("/stream");
            r
        },
        _ => value_or(url, "ws://127.0.0.1:3000/stream"),
    }
}

/// The admin key, when it is set and not empty.
pub fn admin_key_from(v: &Option<String>) -> (r: Option<String>)
    ensures
        opt_chars(r) == (match opt_chars(*v) {
            Some(k) => if k.len() > 0 {
                Some(k)
            } else {
                None
            },
            None => None,
        }),
{
    match v {
        Some(k) => if k.as_str().is_empty() {
            None
        } else {
            Some(k.clone())
        },
        None => None,
    }
}

/// The output mode at start-up: `AI_VOICE_OUTPUT_MODE`, or `type`.
pub fn initial_output_mode(v: &Option<String>) -> (r: String)
    ensures
        r@ == or_default(opt_chars(*v), "type"@),
{
    value_or(v, "type")
}

/// The server's HTTP base address, derived from the WebSocket address.
pub open spec fn http_base_of(ws: Seq<char>) -> Seq<char> {
    replace_all(
        replace_all(replace_all(ws, "ws://"@, "http://"@), "wss://"@, "https://"@),
        "/stream"@,
        Seq::<char>::empty(),
    )
}

/// The address of the server's web page, derived from the WebSocket
/// address.
pub open spec fn admin_page_of(ws: Seq<char>) -> Seq<char> {
    replace_all(
        replace_all(replace_all(ws, "ws://"@, "http://"@), "wss://"@, "https://"@),
        "/stream"@,
        "/admin"@,
    )
}

pub fn http_base_url(ws: &str) -> (r: String)
    ensures
        r@ == http_base_of(ws@),
{
    proof {
        reveal_strlit("ws://");
        reveal_strlit("wss://");
        reveal_strlit("/stream");
        reveal_strlit("");
        assert(""@ =~= Seq::<char>::empty());
    }
    let a = replace_str(ws, "ws://", "http://");
    let b = replace_str(a.as_str(), "wss://", "https://");
    replace_str(b.as_str(), "/stream", "")
}

pub fn admin_page_url(ws: &str) -> (r: String)
    ensures
        r@ == admin_page_of(ws@),
{
    proof {
        reveal_strlit("ws://");
        reveal_strlit("wss://");
        reveal_strlit("/stream");
    }
    let a = replace_str(ws, "ws://", "http://");
    let b = replace_str(a.as_str(), "wss://", "https://");
    replace_str(b.as_str(), "/stream", "/admin")
}

/// The address of one of the server's endpoints (`/health`, `/restart`,
/// `/set_model`) under its base address.
pub fn endpoint_url(base: &str, path: &str) -> (r: String)
    ensures
        r@ == base@ + path@,
{
    concat2(base, path)
}

// ---------------------------------------------------------------------------
// Connection status
// ---------------------------------------------------------------------------

/// The server is known to be unreachable.
pub open spec fn is_offline(status: Seq<char>) -> bool {
    status == "Disconnected"@ || status == "Offline"@
}

fn offline(status: &str) -> (r: bool)
    ensures
        r == is_offline(status@),
{
    str_equals(status, "Disconnected") || str_equals(status, "Offline")
}

/// A stream is under way: a recording, a transcription in progress, or an
/// open WebSocket connection, which already shows that the server is up.
pub open spec fn is_streaming(status: Seq<char>) -> bool {
    status == "Recording"@ || status == "Processing"@ || status == "WS_Open"@
}

/// Whether the periodic health poll runs: it is skipped while a stream is
/// under way, and runs in every other status.
pub fn heartbeat_due(status: &str) -> (r: bool)
    ensures
        r == !is_streaming(status@),
{
    !(str_equals(status, "Recording") || str_equals(status, "Processing") || str_equals(
        status,
        "WS_Open",
    ))
}

/// The outcome of a health poll.
pub enum Heartbeat {
    /// The request failed or the server answered with an error.
    Unreachable,
    /// The server answered, but not with a health report.
    Unreadable,
    /// The server answered with a report.
    Report { active_device: Option<String>, loaded_model: Option<String> },
}

/// The status after a health poll: an unreachable server is
/// `Disconnected`; a report lifts `Disconnected`, `Offline`, `Connecting` and
/// `Restarting...` to `Connected` and leaves any other status (recording, an
/// open stream) alone; an unreadable answer changes nothing.
pub open spec fn status_after_poll(status: Seq<char>, reachable: bool, readable: bool) -> Seq<char> {
    if !reachable {
        "Disconnected"@
    } else if !readable {
        status
    } else if is_offline(status) || status == "Connecting"@ || status == "Restarting..."@ {
        "Connected"@
    } else {
        status
    }
}

/// The tray's state after a health poll, and the status update that
/// announces a server back online after a restart (`toast_online_` and the
/// compute device).
pub struct HeartbeatOutcome {
    pub status: String,
    pub device: String,
    pub model: String,
    pub announce: Option<String>,
}

/// The tray's status, device and model after a health poll.
pub fn after_heartbeat(status: &str, device: &str, model: &str, beat: Heartbeat) -> (r:
    HeartbeatOutcome)
    ensures
        r.status@ == status_after_poll(status@, !(beat is Unreachable), beat is Report),
        match beat {
            Heartbeat::Report { active_device, loaded_model } => r.device@ == or_default(
                opt_chars(active_device),
                device@,
            ) && r.model@ == or_default(opt_chars(loaded_model), model@),
            _ => r.device@ == device@ && r.model@ == model@,
        },
        opt_chars(r.announce) == (if status@ == "Restarting..."@ && beat is Report {
            Some("toast_online_"@ + r.device@)
        } else {
            None
        }),
{
    let restarting = str_equals(status, "Restarting...");
    match beat {
        Heartbeat::Unreachable => HeartbeatOutcome {
            status: owned("Disconnected"),
            device: owned(device),
            model: owned(model),
            announce: None,
        },
        Heartbeat::Unreadable => HeartbeatOutcome {
            status: owned(status),
            device: owned(device),
            model: owned(model),
            announce: None,
        },
        Heartbeat::Report { active_device, loaded_model } => {
            let s = if offline(status) || str_equals(status, "Connecting") || restarting {
                owned("Connected")
            } else {
                owned(status)
            };
            let d = match active_device {
                Some(d) => d,
                None => owned(device),
            };
            let m = match loaded_model {
                Some(m) => m,
                None => owned(model),
            };
            let announce = if restarting {
                Some(concat2("toast_online_", d.as_str()))
            } else {
                None
            };
            HeartbeatOutcome { status: s, device: d, model: m, announce }
        },
    }
}

/// How many times, a second apart, the server is polled after a restart
/// request.
pub const RESTART_POLL_ATTEMPTS: u32 = 30;

/// Whether polling goes on after `attempts` polls in the restart window:
/// until the server answers, at most `RESTART_POLL_ATTEMPTS` times.
pub fn restart_poll_continues(attempts: u32, answered: bool) -> (r: bool)
    ensures
        r == (!answered && attempts < RESTART_POLL_ATTEMPTS),
{
    !answered && attempts < RESTART_POLL_ATTEMPTS
}

/// A server that answers after a restart takes the tray back to
/// `Connected`, and the recovery is announced with the compute device it
/// reports.
pub proof fn law_restart_recovers()
    ensures
        status_after_poll("Restarting..."@, true, true) == "Connected"@,
{
}

/// A server that answers a health poll with a report is shown connected
/// again, whether the tray had it disconnected, offline, connecting or
/// restarting; a failed poll always shows it disconnected, and an
/// unreadable answer changes nothing.
pub proof fn law_answering_server_is_connected(status: Seq<char>)
    ensures
        (status == "Disconnected"@ || status == "Offline"@ || status == "Connecting"@ || status
            == "Restarting..."@) ==> status_after_poll(status, true, true) == "Connected"@,
        forall|readable: bool| #[trigger] status_after_poll(status, false, readable) == "Disconnected"@,
        status_after_poll(status, true, false) == status,
{
}

/// A health report never interrupts a stream: a recording, a transcription
/// or an open connection keeps its status.
pub proof fn law_poll_leaves_streams_alone(status: Seq<char>)
    requires
        status == "Recording"@ || status == "Processing"@ || status == "WS_Open"@,
    ensures
        status_after_poll(status, true, true) == status,
{
    reveal_strlit("Recording");
    reveal_strlit("Processing");
    reveal_strlit("WS_Open");
    reveal_strlit("Disconnected");
    reveal_strlit("Offline");
    reveal_strlit("Connecting");
    reveal_strlit("Restarting...");
    assert("Recording"@[0] != "Disconnected"@[0]);
    assert("Processing"@[0] != "Disconnected"@[0]);
    assert("WS_Open"@[0] != "Disconnected"@[0]);
    assert("Recording"@[0] != "Offline"@[0]);
    assert("Processing"@[0] != "Offline"@[0]);
    assert("WS_Open"@[0] != "Offline"@[0]);
    assert("Recording"@[0] != "Connecting"@[0]);
    assert("Processing"@[0] != "Connecting"@[0]);
    assert("WS_Open"@[0] != "Connecting"@[0]);
    assert("Recording"@.len() != "Restarting..."@.len());
    assert("Processing"@[0] != "Restarting..."@[0]);
    assert("WS_Open"@[0] != "Restarting..."@[0]);
}

// ---------------------------------------------------------------------------
// Hotkey
// ---------------------------------------------------------------------------

/// A hotkey event from the interception plugin.
#[derive(Clone, Copy, Debug, PartialEq, Eq, Structural)]
pub enum HotkeyEvent {
    Press,
    Release,
}

/// What the daemon does on a hotkey event.
#[derive(Clone, Copy, Debug, PartialEq, Eq, Structural)]
pub enum HotkeyReaction {
    /// Warn briefly that the server is unavailable; no recording starts.
    ServerUnavailable,
    /// Status `Recording`, show the recording overlay, start capturing.
    StartRecording,
    /// Status `Processing`, show the transcribing overlay, stop capturing.
    StopRecording,
    Ignore,
}

pub open spec fn hotkey_reaction_of(status: Seq<char>, ev: HotkeyEvent) -> HotkeyReaction {
    match ev {
        HotkeyEvent::Press => if is_offline(status) {
            HotkeyReaction::ServerUnavailable
        } else {
            HotkeyReaction::StartRecording
        },
        HotkeyEvent::Release => if is_offline(status) {
            HotkeyReaction::Ignore
        } else {
            HotkeyReaction::StopRecording
        },
    }
}

/// While the server is known to be down, no hotkey event starts or stops a
/// recording: a press only warns and a release is ignored. Otherwise a
/// press starts recording and a release stops it.
pub proof fn law_offline_hotkeys_do_nothing(status: Seq<char>)
    ensures
        (status == "Disconnected"@ || status == "Offline"@) ==> hotkey_reaction_of(
            status,
            HotkeyEvent::Press,
        ) == HotkeyReaction::ServerUnavailable && hotkey_reaction_of(status, HotkeyEvent::Release)
            == HotkeyReaction::Ignore,
        !(status == "Disconnected"@ || status == "Offline"@) ==> hotkey_reaction_of(
            status,
            HotkeyEvent::Press,
        ) == HotkeyReaction::StartRecording && hotkey_reaction_of(status, HotkeyEvent::Release)
            == HotkeyReaction::StopRecording,
{
}

/// Decides what a hotkey event does, given the connection status: while the
/// server is offline a press only warns, and no audio is captured.
pub fn hotkey_reaction(status: &str, ev: HotkeyEvent) -> (r: HotkeyReaction)
    ensures
        r == hotkey_reaction_of(status@, ev),
{
    let off = offline(status);
    match ev {
        HotkeyEvent::Press => if off {
            HotkeyReaction::ServerUnavailable
        } else {
            HotkeyReaction::StartRecording
        },
        HotkeyEvent::Release => if off {
            HotkeyReaction::Ignore
        } else {
            HotkeyReaction::StopRecording
        },
    }
}

impl HotkeyReaction {
    /// The connection status after the reaction, when it sets one.
    pub fn new_status(&self) -> (s: Option<String>)
        ensures
            match *self {
                HotkeyReaction::StartRecording => opt_chars(s) == Some("Recording"@),
                HotkeyReaction::StopRecording => opt_chars(s) == Some("Processing"@),
                _ => s is None,
            },
    {
        match self {
            HotkeyReaction::StartRecording => Some(owned("Recording")),
            HotkeyReaction::StopRecording => Some(owned("Processing")),
            _ => None,
        }
    }

    /// What the reaction does to the overlay: a warning shown for 1.5 s,
    /// the recording notice shown, or the text changed to say that the
    /// burst is being transcribed.
    pub fn overlay(&self) -> (o: Overlay)
        ensures
            overlay_view(o) == (match *self {
                HotkeyReaction::ServerUnavailable => OverlayView::ShowFor(
                    "⚠️ Server Unavailable"@,
                    1500,
                ),
                HotkeyReaction::StartRecording => OverlayView::Show("🎙️ Recording..."@),
                HotkeyReaction::StopRecording => OverlayView::SetText("⚙️ Transcribing..."@),
                HotkeyReaction::Ignore => OverlayView::Keep,
            }),
    {
        match self {
            HotkeyReaction::ServerUnavailable => Overlay::ShowFor(owned("⚠️ Server Unavailable"), 1500),
            HotkeyReaction::StartRecording => Overlay::Show(owned("🎙️ Recording...")),
            HotkeyReaction::StopRecording => Overlay::SetText(owned("⚙️ Transcribing...")),
            HotkeyReaction::Ignore => Overlay::Keep,
        }
    }

    /// Whether audio capture is switched on (`Some(true)`) or off
    /// (`Some(false)`).
    pub fn capture(&self) -> (c: Option<bool>)
        ensures
            c == (match *self {
                HotkeyReaction::StartRecording => Some(true),
                HotkeyReaction::StopRecording => Some(false),
                _ => None::<bool>,
            }),
    {
        match self {
            HotkeyReaction::StartRecording => Some(true),
            HotkeyReaction::StopRecording => Some(false),
            _ => None,
        }
    }
}

/// What a datagram from the interception plugin does in the daemon: the
/// hotkey event to handle, the new "modifier released" flag (text is only
/// typed once the modifier is up), and whether the output mode toggles.
pub struct SignalEffect {
    pub hotkey: Option<HotkeyEvent>,
    pub modifier_up: Option<bool>,
    pub toggle_mode: bool,
}

pub fn signal_effect(s: Signal) -> (e: SignalEffect)
    ensures
        match s {
            Signal::Press => e.hotkey == Some(HotkeyEvent::Press) && e.modifier_up is None
                && !e.toggle_mode,
            Signal::Release => e.hotkey == Some(HotkeyEvent::Release) && e.modifier_up == Some(
                false,
            ) && !e.toggle_mode,
            Signal::ModifierUp => e.hotkey is None && e.modifier_up == Some(true) && !e.toggle_mode,
            Signal::ToggleMode => e.hotkey is None && e.modifier_up is None && e.toggle_mode,
        },
{
    match s {
        Signal::Press => SignalEffect {
            hotkey: Some(HotkeyEvent::Press),
            modifier_up: None,
            toggle_mode: false,
        },
        Signal::Release => SignalEffect {
            hotkey: Some(HotkeyEvent::Release),
            modifier_up: Some(false),
            toggle_mode: false,
        },
        Signal::ModifierUp => SignalEffect { hotkey: None, modifier_up: Some(true), toggle_mode: false },
        Signal::ToggleMode => SignalEffect { hotkey: None, modifier_up: None, toggle_mode: true },
    }
}

/// The recorder: PipeWire's `pw-record`, writing 16 kHz mono signed 16-bit
/// PCM to its standard output, the format that the server reads.
pub fn capture_command() -> (c: Command)
    ensures
        c.program@ == "pw-record"@,
        c.args.deep_view() == seq!["--format"@, "s16"@, "--rate"@, "16000"@, "--channels"@, "1"@, "-"@],
{
    let mut args: Vec<String> = Vec::new();
    args.push(owned("--format"));
    args.push(owned("s16"));
    args.push(owned("--rate"));
    args.push(owned("16000"));
    args.push(owned("--channels"));
    args.push(owned("1"));
    args.push(owned("-"));
    assert(args.deep_view() =~= seq!["--format"@, "s16"@, "--rate"@, "16000"@, "--channels"@, "1"@, "-"@]);
    Command { program: owned("pw-record"), args }
}

/// What audio capture does on a control message: the recording flag, and
/// whether an empty chunk follows to mark the end of the burst (only when
/// capture stops).
pub fn capture_control(start: bool) -> (r: (bool, bool))
    ensures
        r == (start, !start),
{
    (start, !start)
}

// ---------------------------------------------------------------------------
// Status updates on the overlay
// ---------------------------------------------------------------------------

/// What happens to the overlay.
pub enum Overlay {
    Keep,
    /// Show the window with this text.
    Show(String),
    /// Show the window with this text, and hide it after this many
    /// milliseconds.
    ShowFor(String, u64),
    /// Change the text without showing or hiding the window.
    SetText(String),
    /// Show the download progress (the caller formats the percentage).
    ShowDownload,
    Hide,
}

pub enum OverlayView {
    Keep,
    Show(Seq<char>),
    ShowFor(Seq<char>, u64),
    SetText(Seq<char>),
    ShowDownload,
    Hide,
}

pub open spec fn overlay_view(o: Overlay) -> OverlayView {
    match o {
        Overlay::Keep => OverlayView::Keep,
        Overlay::Show(t) => OverlayView::Show(t@),
        Overlay::ShowFor(t, ms) => OverlayView::ShowFor(t@, ms),
        Overlay::SetText(t) => OverlayView::SetText(t@),
        Overlay::ShowDownload => OverlayView::ShowDownload,
        Overlay::Hide => OverlayView::Hide,
    }
}

/// The reaction to a status update: the tray status afterwards (`None`:
/// unchanged, no refresh), and the overlay.
pub struct StatusReaction {
    pub tray_status: Option<String>,
    pub overlay: Overlay,
}

/// An open stream or a finished model load lifts the tray to `target`,
/// unless it shows the server offline or a recording in progress.
pub open spec fn lift_status(status: Seq<char>, target: Seq<char>) -> Seq<char> {
    if is_offline(status) || status == "Recording"@ {
        status
    } else {
        target
    }
}

/// The reaction to status update `update`, with the tray showing `status`
/// and the overlay showing `label`.
pub open spec fn status_reaction_of(status: Seq<char>, update: Seq<char>, label: Seq<char>) -> (
    Option<Seq<char>>,
    OverlayView,
) {
    if update == "ws_connected"@ {
        (Some(lift_status(status, "WS_Open"@)), OverlayView::Keep)
    } else if update == "ws_disconnected"@ {
        (Some(lift_status(status, "Connected"@)), OverlayView::Keep)
    } else if update == "downloading"@ {
        (None, OverlayView::ShowDownload)
    } else if update == "ready"@ || update == "done"@ {
        (Some(lift_status(status, "WS_Open"@)), OverlayView::Hide)
    } else if update == "toast_clipboard"@ {
        (None, OverlayView::Show("📋 Mode: Clipboard"@))
    } else if update == "toast_type"@ {
        (None, OverlayView::Show("⌨️ Mode: Typing"@))
    } else if update == "toast_no_key"@ {
        (None, OverlayView::ShowFor("🔑 Admin Key Required"@, 2000))
    } else if update == "toast_swapping"@ {
        (None, OverlayView::Show("⚙️ Hot-Swapping Model..."@))
    } else if update == "toast_test_fail"@ {
        (None, OverlayView::ShowFor("❌ Server Connection Failed"@, 2000))
    } else if has_prefix(update, "toast_test_ok_"@) {
        (
            None,
            OverlayView::ShowFor(
                "✅ Server OK ("@ + strip_repeated_prefix(update, "toast_test_ok_"@) + "ms)"@,
                2000,
            ),
        )
    } else if has_prefix(update, "toast_online_"@) {
        (
            None,
            OverlayView::ShowFor(
                "✅ Server Online! Compute: "@ + uppercase_of(
                    strip_repeated_prefix(update, "toast_online_"@),
                ),
                2000,
            ),
        )
    } else if update == "toast_hide"@ {
        if has_prefix(label, "📋"@) || has_prefix(label, "⌨️"@) {
            (None, OverlayView::Hide)
        } else {
            (None, OverlayView::Keep)
        }
    } else {
        (None, OverlayView::Keep)
    }
}

fn lift(status: &str, target: &str) -> (r: String)
    ensures
        r@ == lift_status(status@, target@),
{
    if offline(status) || str_equals(status, "Recording") {
        owned(status)
    } else {
        owned(target)
    }
}

/// Reacts to a status update from the network client or the tray tasks.
pub fn status_reaction(status: &str, update: &str, label: &str) -> (r: StatusReaction)
    ensures
        (opt_chars(r.tray_status), overlay_view(r.overlay)) == status_reaction_of(
            status@,
            update@,
            label@,
        ),
{
    if str_equals(update, "ws_connected") {
        StatusReaction { tray_status: Some(lift(status, "WS_Open")), overlay: Overlay::Keep }
    } else if str_equals(update, "ws_disconnected") {
        StatusReaction { tray_status: Some(lift(status, "Connected")), overlay: Overlay::Keep }
    } else if str_equals(update, "downloading") {
        StatusReaction { tray_status: None, overlay: Overlay::ShowDownload }
    } else if str_equals(update, "ready") || str_equals(update, "done") {
        StatusReaction { tray_status: Some(lift(status, "WS_Open")), overlay: Overlay::Hide }
    } else if str_equals(update, "toast_clipboard") {
        StatusReaction { tray_status: None, overlay: Overlay::Show(owned("📋 Mode: Clipboard")) }
    } else if str_equals(update, "toast_type") {
        StatusReaction { tray_status: None, overlay: Overlay::Show(owned("⌨️ Mode: Typing")) }
    } else if str_equals(update, "toast_no_key") {
        StatusReaction {
            tray_status: None,
            overlay: Overlay::ShowFor(owned("🔑 Admin Key Required"), 2000),
        }
    } else if str_equals(update, "toast_swapping") {
        StatusReaction {
            tray_status: None,
            overlay: Overlay::Show(owned("⚙️ Hot-Swapping Model...")),
        }
    } else if str_equals(update, "toast_test_fail") {
        StatusReaction {
            tray_status: None,
            overlay: Overlay::ShowFor(owned("❌ Server Connection Failed"), 2000),
        }
    } else if starts_with(update, "toast_test_ok_") {
        proof {
            reveal_strlit("toast_test_ok_");
        }
        let ms = strip_prefix_repeated(update, "toast_test_ok_");
        let text = concat3("✅ Server OK (", ms.as_str(), "ms)");
        StatusReaction { tray_status: None, overlay: Overlay::ShowFor(text, 2000) }
    } else if starts_with(update, "toast_online_") {
        proof {
            reveal_strlit("toast_online_");
        }
        let device = strip_prefix_repeated(update, "toast_online_");
        let upper = uppercase(device.as_str());
        let text = concat2("✅ Server Online! Compute: ", upper.as_str());
        StatusReaction { tray_status: None, overlay: Overlay::ShowFor(text, 2000) }
    } else if str_equals(update, "toast_hide") {
        if starts_with(label, "📋") || starts_with(label, "⌨️") {
            StatusReaction { tray_status: None, overlay: Overlay::Hide }
        } else {
            StatusReaction { tray_status: None, overlay: Overlay::Keep }
        }
    } else {
        StatusReaction { tray_status: None, overlay: Overlay::Keep }
    }
}

// ---------------------------------------------------------------------------
// Output mode and text injection
// ---------------------------------------------------------------------------

/// The mode after a toggle: `type` becomes `clipboard`, anything else
/// becomes `type`.
pub open spec fn toggled(mode: Seq<char>) -> Seq<char> {
    if mode == "type"@ {
        "clipboard"@
    } else {
        "type"@
    }
}

pub fn toggle_output_mode(mode: &str) -> (r: String)
    ensures
        r@ == toggled(mode@),
{
    if str_equals(mode, "type") {
        owned("clipboard")
    } else {
        owned("type")
    }
}

/// The status update that announces the new mode.
pub fn mode_toast(mode: &str) -> (r: String)
    ensures
        r@ == (if mode@ == "clipboard"@ {
            "toast_clipboard"@
        } else {
            "toast_type"@
        }),
{
    if str_equals(mode, "clipboard") {
        owned("toast_clipboard")
    } else {
        owned("toast_type")
    }
}

/// Toggling twice gives back the typing mode, and the clipboard mode from
/// the typing mode; the two toggles of a hotkey pair cancel out.
pub proof fn law_toggle_twice(mode: Seq<char>)
    requires
        mode == "type"@ || mode == "clipboard"@,
    ensures
        toggled(toggled(mode)) == mode,
{
    reveal_strlit("type");
    reveal_strlit("clipboard");
    assert("type"@.len() != "clipboard"@.len());
}

/// A program to run, with its arguments.
pub struct Command {
    pub program: String,
    pub args: Vec<String>,
}

/// How the transcript is injected: copied with `wl-copy` in clipboard mode
/// (the mode read without regard to case), otherwise typed with `ydotool`
/// with the key delay and hold times (2 ms each by default).
pub open spec fn injection_of(
    mode: Seq<char>,
    text: Seq<char>,
    delay: Option<Seq<char>>,
    hold: Option<Seq<char>>,
) -> (Seq<char>, Seq<Seq<char>>) {
    if lowercase_of(mode) == "clipboard"@ {
        ("wl-copy"@, seq![text])
    } else {
        (
            "ydotool"@,
            seq!["type"@, "-d"@, or_default(delay, "2"@), "-H"@, or_default(hold, "2"@), text],
        )
    }
}

pub fn injection_command(
    mode: &str,
    text: &str,
    delay: &Option<String>,
    hold: &Option<String>,
) -> (c: Command)
    ensures
        (c.program@, c.args.deep_view()) == injection_of(mode@, text@, opt_chars(*delay), opt_chars(*hold)),
{
    let lower = lowercase(mode);
    if str_equals(lower.as_str(), "clipboard") {
        let mut args: Vec<String> = Vec::new();
        args.push(owned(text));
        assert(args.deep_view() =~= seq![text@]);
        Command { program: owned("wl-copy"), args }
    } else {
        let mut args: Vec<String> = Vec::new();
        args.push(owned("type"));
        args.push(owned("-d"));
        args.push(value_or(delay, "2"));
        args.push(owned("-H"));
        args.push(value_or(hold, "2"));
        args.push(owned(text));
        assert(args.deep_view() =~= seq![
            "type"@,
            "-d"@,
            or_default(opt_chars(*delay), "2"@),
            "-H"@,
            or_default(opt_chars(*hold), "2"@),
            text@,
        ]);
        Command { program: owned("ydotool"), args }
    }
}

/// How long to wait, once the hotkey's modifier is up, before typing.
pub const MODIFIER_SETTLE_MS: u64 = 50;

/// Whether injecting a transcript waits for the hotkey's modifier to be
/// released first (so the typed text is not read as shortcuts).
pub fn injection_waits(modifier_up: bool) -> (r: bool)
    ensures
        r == !modifier_up,
{
    !modifier_up
}

// ---------------------------------------------------------------------------
// Administrative requests from the tray
// ---------------------------------------------------------------------------

/// The `Authorization` header for an administrative request, or the status
/// update that asks for a key when there is none.
pub fn admin_authorization(key: &Option<String>) -> (r: Result<String, String>)
    ensures
        match opt_chars(*key) {
            Some(k) => r matches Ok(h) && h@ == "Bearer "@ + k,
            None => r matches Err(t) && t@ == "toast_no_key"@,
        },
{
    match key {
        Some(k) => Ok(concat2("Bearer ", k.as_str())),
        None => Err(owned("toast_no_key")),
    }
}

/// The status update after a connection test: the round-trip time in
/// milliseconds when the server answered, a failure otherwise.
pub fn connection_test_toast(elapsed_ms: Option<u128>) -> (r: String)
    ensures
        match elapsed_ms {
            Some(ms) => r@ == "toast_test_ok_"@ + decimal(ms as nat),
            None => r@ == "toast_test_fail"@,
        },
{
    match elapsed_ms {
        Some(ms) => {
            let digits = decimal_string(ms);
            concat2("toast_test_ok_", digits.as_str())
        },
        None => owned("toast_test_fail"),
    }
}

} // verus!
