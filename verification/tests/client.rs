use ai_voice_server::client_config::config_file_update;
use ai_voice_server::daemon::{
    admin_authorization, admin_key_from, admin_page_url, after_heartbeat, capture_control,
    connection_test_toast, endpoint_url, heartbeat_due, hotkey_reaction, http_base_url,
    initial_output_mode, injection_command, injection_waits, mode_toast, restart_poll_continues,
    signal_effect, status_reaction, toggle_output_mode, ws_url_from, Heartbeat, HotkeyEvent,
    HotkeyReaction, Overlay, MODIFIER_SETTLE_MS, RESTART_POLL_ATTEMPTS,
};
use ai_voice_server::hotkey::Signal;
use ai_voice_server::network::{ClientMessage, Inbound, Link, NetworkClient, NetworkError, OutboundFrame};
use ai_voice_server::tray::{
    config_file_choice, hot_swap_models, icon_name, menu_labels, tool_tip_text, tray_id, tray_title,
};

fn s(x: &str) -> Option<String> {
    Some(x.to_string())
}

#[test]
fn network_client_keeps_its_url() {
    let c = NetworkClient::new("ws://127.0.0.1:3000/stream");
    assert_eq!(c.ws_url, "ws://127.0.0.1:3000/stream");
    assert_eq!(c.endpoint().ok(), s("ws://127.0.0.1:3000/stream"));
}

#[test]
fn endpoint_is_the_normalised_url() {
    let c = NetworkClient::new("WS://Example.COM:3000/stream");
    assert_eq!(c.endpoint().ok(), s("ws://example.com:3000/stream"));
    let c = NetworkClient::new("not a url");
    assert_eq!(c.endpoint().err(), Some(NetworkError::InvalidUrl));
}

#[test]
fn chunks_become_frames() {
    match NetworkClient::frame_for_chunk(vec![]) {
        OutboundFrame::EndStream(m) => {
            assert_eq!(m.action, "end_stream");
            assert_eq!(m.model, None);
        }
        _ => panic!("expected end_stream"),
    }
    match NetworkClient::frame_for_chunk(vec![0, 1]) {
        OutboundFrame::Audio(b) => assert_eq!(b, vec![0, 1]),
        _ => panic!("expected audio"),
    }
    let m = ClientMessage::end_stream();
    assert_eq!(m.action, "end_stream");
}

#[test]
fn server_messages_are_routed() {
    match NetworkClient::route_server_message(s("Hello world"), Some(true), None) {
        Inbound::Transcript(t) => assert_eq!(t, "Hello world"),
        _ => panic!("expected a transcript"),
    }
    match NetworkClient::route_server_message(None, None, s("downloading")) {
        Inbound::Status(t) => assert_eq!(t, "downloading"),
        _ => panic!("expected a status"),
    }
    match NetworkClient::route_server_message(s("partial"), Some(false), s("ready")) {
        Inbound::Status(t) => assert_eq!(t, "ready"),
        _ => panic!("expected a status"),
    }
    assert!(matches!(NetworkClient::route_server_message(None, Some(true), s("ready")), Inbound::Ignore));
    assert!(matches!(NetworkClient::route_server_message(s("x"), None, None), Inbound::Ignore));
}

#[test]
fn config_file_is_created_then_left_alone() {
    let created = config_file_update(&None).unwrap();
    assert!(created.starts_with("# AI Voice Client Configuration\n# Automatically generated configuration file.\n\n"));
    for key in ["SERVER_HOST", "SERVER_PORT", "AI_VOICE_SERVER_WS_URL", "AI_VOICE_OUTPUT_MODE",
                "AI_VOICE_ADMIN_API_KEY", "AI_VOICE_TYPING_DELAY", "AI_VOICE_TYPING_HOLD"] {
        assert!(created.contains(key));
    }
    assert!(created.ends_with("# AI_VOICE_TYPING_HOLD=2\n\n"));
    assert_eq!(config_file_update(&Some(created.clone())), None);
}

#[test]
fn config_file_gets_only_missing_settings() {
    let existing = "SERVER_HOST=10.0.0.2\nAI_VOICE_OUTPUT_MODE=clipboard\n".to_string();
    let extra = config_file_update(&Some(existing.clone())).unwrap();
    assert!(!extra.contains("# SERVER_HOST="));
    assert!(!extra.contains("AI_VOICE_OUTPUT_MODE"));
    assert!(extra.starts_with("# Remote AI Voice Server Port.\n# SERVER_PORT=\"3000\"\n\n"));
    let full = existing + &extra;
    assert_eq!(config_file_update(&Some(full)), None);
    assert!(config_file_update(&s("")).unwrap().starts_with("# Remote AI Voice Server IP/Hostname."));
}

#[test]
fn server_address_from_settings() {
    assert_eq!(ws_url_from(&s("192.168.0.205"), &s("3000"), &s("ws://x/stream")), "ws://192.168.0.205:3000/stream");
    assert_eq!(ws_url_from(&s("h"), &None, &s("ws://x/stream")), "ws://x/stream");
    assert_eq!(ws_url_from(&None, &None, &None), "ws://127.0.0.1:3000/stream");
    assert_eq!(http_base_url("ws://10.0.0.2:3000/stream"), "http://10.0.0.2:3000");
    assert_eq!(http_base_url("wss://host/stream"), "https://host");
    assert_eq!(admin_page_url("ws://10.0.0.2:3000/stream"), "http://10.0.0.2:3000/admin");
    assert_eq!(endpoint_url("http://h:3000", "/health"), "http://h:3000/health");
    assert_eq!(admin_key_from(&s("")), None);
    assert_eq!(admin_key_from(&s("k")), s("k"));
    assert_eq!(initial_output_mode(&None), "type");
}

#[test]
fn heartbeat_moves_the_status() {
    let out = after_heartbeat("Connecting", "cpu", "small.en", Heartbeat::Report {
        active_device: s("cuda"),
        loaded_model: None,
    });
    assert_eq!(
        (out.status.as_str(), out.device.as_str(), out.model.as_str()),
        ("Connected", "cuda", "small.en")
    );
    assert_eq!(out.announce, None);
    let out = after_heartbeat("Recording", "cpu", "m", Heartbeat::Report { active_device: None, loaded_model: None });
    assert_eq!(out.status, "Recording");
    let out = after_heartbeat("Recording", "cpu", "m", Heartbeat::Unreachable);
    assert_eq!(out.status, "Disconnected");
    let out = after_heartbeat("Offline", "cpu", "m", Heartbeat::Unreadable);
    assert_eq!(out.status, "Offline");
    assert_eq!((out.device.as_str(), out.model.as_str()), ("cpu", "m"));
}

#[test]
fn restarted_server_comes_back_online() {
    let out = after_heartbeat("Restarting...", "cpu", "m", Heartbeat::Report {
        active_device: s("cuda"),
        loaded_model: s("base.en"),
    });
    assert_eq!(out.status, "Connected");
    assert_eq!(out.device, "cuda");
    assert_eq!(out.model, "base.en");
    assert_eq!(out.announce, s("toast_online_cuda"));
    let r = status_reaction(&out.status, out.announce.as_deref().unwrap(), "");
    assert_eq!(r.tray_status, None);
    assert_eq!(overlay_text(&r.overlay), Some(("✅ Server Online! Compute: CUDA".to_string(), Some(2000))));
    let out = after_heartbeat("Restarting...", "cpu", "m", Heartbeat::Unreachable);
    assert_eq!(out.status, "Disconnected");
    assert_eq!(out.announce, None);
    let out = after_heartbeat("Restarting...", "cpu", "m", Heartbeat::Unreadable);
    assert_eq!(out.status, "Restarting...");
    assert_eq!(out.announce, None);
}

#[test]
fn restart_polling_stops_on_answer_or_after_the_window() {
    assert_eq!(RESTART_POLL_ATTEMPTS, 30);
    assert!(restart_poll_continues(0, false));
    assert!(restart_poll_continues(29, false));
    assert!(!restart_poll_continues(30, false));
    assert!(!restart_poll_continues(3, true));
}

#[test]
fn hotkey_reactions_on_the_overlay() {
    assert_eq!(
        overlay_text(&HotkeyReaction::ServerUnavailable.overlay()),
        Some(("⚠️ Server Unavailable".to_string(), Some(1500)))
    );
    assert_eq!(
        overlay_text(&HotkeyReaction::StartRecording.overlay()),
        Some(("🎙️ Recording...".to_string(), None))
    );
    assert!(matches!(HotkeyReaction::StopRecording.overlay(), Overlay::SetText(ref t) if t == "⚙️ Transcribing..."));
    assert!(matches!(HotkeyReaction::Ignore.overlay(), Overlay::Keep));
}

#[test]
fn injection_waits_for_the_modifier() {
    assert!(injection_waits(false));
    assert!(!injection_waits(true));
    assert_eq!(MODIFIER_SETTLE_MS, 50);
}

#[test]
fn offline_hotkey_only_warns() {
    assert_eq!(hotkey_reaction("Disconnected", HotkeyEvent::Press), HotkeyReaction::ServerUnavailable);
    assert_eq!(hotkey_reaction("Offline", HotkeyEvent::Release), HotkeyReaction::Ignore);
    let r = hotkey_reaction("Connected", HotkeyEvent::Press);
    assert_eq!(r, HotkeyReaction::StartRecording);
    assert_eq!(r.new_status(), s("Recording"));
    assert_eq!(r.capture(), Some(true));
    let r = hotkey_reaction("Recording", HotkeyEvent::Release);
    assert_eq!(r.new_status(), s("Processing"));
    assert_eq!(r.capture(), Some(false));
    assert_eq!(HotkeyReaction::ServerUnavailable.capture(), None);
}

#[test]
fn datagram_signals_drive_the_daemon() {
    let e = signal_effect(Signal::Release);
    assert_eq!((e.hotkey, e.modifier_up, e.toggle_mode), (Some(HotkeyEvent::Release), Some(false), false));
    let e = signal_effect(Signal::ModifierUp);
    assert_eq!((e.hotkey, e.modifier_up, e.toggle_mode), (None, Some(true), false));
    let e = signal_effect(Signal::ToggleMode);
    assert!(e.toggle_mode);
    assert_eq!(capture_control(false), (false, true));
    assert_eq!(capture_control(true), (true, false));
}

fn overlay_text(o: &Overlay) -> Option<(String, Option<u64>)> {
    match o {
        Overlay::Show(t) => Some((t.clone(), None)),
        Overlay::ShowFor(t, ms) => Some((t.clone(), Some(*ms))),
        _ => None,
    }
}

#[test]
fn status_updates_on_the_overlay() {
    let r = status_reaction("Connected", "ws_connected", "");
    assert_eq!(r.tray_status, s("WS_Open"));
    assert!(matches!(r.overlay, Overlay::Keep));
    let r = status_reaction("Recording", "ws_connected", "");
    assert_eq!(r.tray_status, s("Recording"));
    let r = status_reaction("WS_Open", "ws_disconnected", "");
    assert_eq!(r.tray_status, s("Connected"));
    let r = status_reaction("Processing", "ready", "");
    assert_eq!(r.tray_status, s("WS_Open"));
    assert!(matches!(r.overlay, Overlay::Hide));
    assert!(matches!(status_reaction("x", "downloading", "").overlay, Overlay::ShowDownload));
    let r = status_reaction("x", "toast_test_ok_42", "");
    assert_eq!(overlay_text(&r.overlay), Some(("✅ Server OK (42ms)".to_string(), Some(2000))));
    let r = status_reaction("x", "toast_no_key", "");
    assert_eq!(overlay_text(&r.overlay), Some(("🔑 Admin Key Required".to_string(), Some(2000))));
    let r = status_reaction("x", "toast_clipboard", "");
    assert_eq!(overlay_text(&r.overlay), Some(("📋 Mode: Clipboard".to_string(), None)));
    assert!(matches!(status_reaction("x", "toast_hide", "⌨️ Mode: Typing").overlay, Overlay::Hide));
    assert!(matches!(status_reaction("x", "toast_hide", "🎙️ Recording...").overlay, Overlay::Keep));
    assert!(matches!(status_reaction("x", "something", "").overlay, Overlay::Keep));
    assert_eq!(status_reaction("x", "toast_swapping", "").tray_status, None);
}

#[test]
fn output_mode_toggles_and_injects() {
    assert_eq!(toggle_output_mode("type"), "clipboard");
    assert_eq!(toggle_output_mode("clipboard"), "type");
    assert_eq!(toggle_output_mode("Type"), "type");
    assert_eq!(toggle_output_mode(&toggle_output_mode("type")), "type");
    assert_eq!(mode_toast("clipboard"), "toast_clipboard");
    assert_eq!(mode_toast("type"), "toast_type");
    let c = injection_command("Clipboard", "hi", &None, &None);
    assert_eq!((c.program.as_str(), c.args.clone()), ("wl-copy", vec!["hi".to_string()]));
    let c = injection_command("type", "hi there", &s("5"), &None);
    assert_eq!(c.program, "ydotool");
    assert_eq!(c.args, vec!["type", "-d", "5", "-H", "2", "hi there"]);
}

#[test]
fn admin_actions_and_connection_tests() {
    assert_eq!(admin_authorization(&s("k")), Ok("Bearer k".to_string()));
    assert_eq!(admin_authorization(&None), Err("toast_no_key".to_string()));
    assert_eq!(connection_test_toast(Some(37)), "toast_test_ok_37");
    assert_eq!(connection_test_toast(None), "toast_test_fail");
}

#[test]
fn tray_presentation() {
    assert_eq!(tray_id(), "ai-voice-client");
    assert_eq!(tray_title(), "AI Voice Client");
    assert_eq!(icon_name("Recording"), "media-record");
    assert_eq!(icon_name("WS_Open"), "dialog-warning");
    assert_eq!(icon_name("Processing"), "dialog-warning");
    assert_eq!(icon_name("Offline"), "dialog-error");
    assert_eq!(icon_name("Connected"), "microphone-sensitivity-high-symbolic");
    let t = tool_tip_text("Connected", "cuda", "small.en");
    assert_eq!(t.title, "AI Voice Client (Connected)");
    assert_eq!(t.description, "Compute: CUDA\nModel: small.en");
    let m = menu_labels("CLIPBOARD", "vulkan", "large-v3", "WS_Open");
    assert_eq!(m.status, "Status: WS_Open");
    assert_eq!(m.compute, "Compute: VULKAN");
    assert_eq!(m.model, "Model: large-v3");
    assert_eq!(m.typing, "○ Auto-Typing (ydotool)");
    assert_eq!(m.clipboard, "● Clipboard Copy (wl-copy)");
    assert_eq!(hot_swap_models(), vec!["small.en", "medium.en", "large-v3"]);
    assert_eq!(config_file_choice([false, true, true]), 1);
    assert_eq!(config_file_choice([false, false, false]), 0);
    assert_eq!(config_file_choice([true, false, true]), 0);
}

#[test]
fn link_connects_on_demand_and_reconnects() {
    let mut link = Link::new();
    let plan = link.on_chunk(vec![1, 2]);
    assert!(plan.connect_first);
    assert!(matches!(plan.frame, OutboundFrame::Audio(ref b) if b == &vec![1, 2]));
    assert_eq!(link.on_connect_result(false), None);
    assert!(link.on_chunk(vec![3]).connect_first);
    assert_eq!(link.on_connect_result(true), s("ws_connected"));
    let plan = link.on_chunk(vec![]);
    assert!(!plan.connect_first);
    assert!(matches!(plan.frame, OutboundFrame::EndStream(_)));
    assert_eq!(link.on_closed(), s("ws_disconnected"));
    assert_eq!(link.on_closed(), None);
    assert!(link.on_chunk(vec![4]).connect_first);
}

#[test]
fn idle_link_is_closed() {
    let mut link = Link::new();
    assert!(!link.idle_timer_armed());
    assert_eq!(link.on_idle(), (false, None));
    assert_eq!(link.on_connect_result(true), s("ws_connected"));
    assert!(link.idle_timer_armed());
    assert_eq!(link.on_idle(), (true, s("ws_disconnected")));
    assert!(!link.idle_timer_armed());
    assert!(link.on_chunk(vec![1]).connect_first);
    assert_eq!(ai_voice_server::network::IDLE_CLOSE_SECS, 60);
}

#[test]
fn recorder_command() {
    let c = ai_voice_server::daemon::capture_command();
    assert_eq!(c.program, "pw-record");
    assert_eq!(c.args, vec!["--format", "s16", "--rate", "16000", "--channels", "1", "-"]);
}

#[test]
fn heartbeat_is_skipped_while_streaming() {
    for status in ["Recording", "Processing", "WS_Open"] {
        assert!(!heartbeat_due(status));
    }
    for status in ["Connected", "Connecting", "Disconnected", "Offline", "Restarting..."] {
        assert!(heartbeat_due(status));
    }
}
