use ai_voice_server::admin::{
    authorize, download_needed, http_error_message, model_download_url, model_file_name,
    model_file_to_load, restart_decision, set_model_downloaded, set_model_loaded, set_model_start,
    Authorization, ModelFile,
};
use ai_voice_server::config::{
    choose_device, next_probe, parse_settings, AppConfig, ConfigError, ConfigSource, GpuMode,
    Hardware, ProbeAction, ProbeTool,
};
use ai_voice_server::stream::{
    decode_pcm, model_download_outcome, model_load_outcome, ModelReply, StreamAction, StreamEvent,
    StreamSession, MAX_AUDIO_BYTES,
};
use ai_voice_server::worker::{health_or_error, transcript_text, HealthResponse, WorkerState};

fn empty_source() -> ConfigSource {
    ConfigSource {
        port: None,
        bind_addr: None,
        whisper_model: None,
        model_dir: None,
        max_queue_depth: None,
        gpu_mode: None,
        device_priority: None,
        admin_api_key: None,
    }
}

fn strings(list: &[&str]) -> Vec<String> {
    list.iter().map(|s| s.to_string()).collect()
}

/// Runs the probe steps with the given tool availability, recording the
/// tools that were run.
fn probe(priority: &Vec<String>, available: &[ProbeTool], mode: GpuMode) -> (Hardware, Vec<ProbeTool>) {
    let mut answers = Vec::new();
    let mut ran = Vec::new();
    loop {
        match next_probe(priority, &answers, mode) {
            ProbeAction::Finish(h) => return (h, ran),
            ProbeAction::Run(t) => {
                ran.push(t);
                answers.push(available.contains(&t));
            }
            ProbeAction::Skip => answers.push(false),
        }
    }
}

#[test]
fn settings_defaults() {
    let s = parse_settings(&empty_source()).ok().unwrap();
    assert_eq!(s.port, 3000);
    assert_eq!(s.bind_addr, "127.0.0.1");
    assert_eq!(s.whisper_model, "small.en");
    assert_eq!(s.model_dir, "./models");
    assert_eq!(s.max_queue_depth, 10);
    assert_eq!(s.gpu_mode, GpuMode::Auto);
    assert_eq!(s.device_priority, strings(&["cuda", "vulkan", "cpu"]));
    assert_eq!(s.admin_api_key, None);
}

#[test]
fn settings_from_environment() {
    let mut src = empty_source();
    src.port = Some("8080".into());
    src.gpu_mode = Some("REQUIRE".into());
    src.device_priority = Some(" ROCm , ,Vulkan,,".into());
    src.max_queue_depth = Some("3".into());
    src.admin_api_key = Some("".into());
    let s = parse_settings(&src).ok().unwrap();
    assert_eq!(s.port, 8080);
    assert_eq!(s.gpu_mode, GpuMode::Require);
    assert_eq!(s.device_priority, strings(&["rocm", "vulkan"]));
    assert_eq!(s.max_queue_depth, 3);
    assert_eq!(s.admin_api_key, None);
    src.admin_api_key = Some("k".into());
    assert_eq!(parse_settings(&src).ok().unwrap().admin_api_key, Some("k".to_string()));
    src.device_priority = Some("ΣΑΣ,CPU".into());
    assert_eq!(parse_settings(&src).ok().unwrap().device_priority, strings(&["σας", "cpu"]));
    src.gpu_mode = Some("auto-ish".into());
    assert_eq!(parse_settings(&src).ok().unwrap().gpu_mode, GpuMode::Auto);
}

#[test]
fn invalid_numbers_are_refused_port_first() {
    let mut src = empty_source();
    src.port = Some("70000".into());
    src.max_queue_depth = Some("many".into());
    assert_eq!(parse_settings(&src).err(), Some(ConfigError::InvalidPort));
    src.port = Some("3000".into());
    assert_eq!(parse_settings(&src).err(), Some(ConfigError::InvalidQueueDepth));
}

#[test]
fn nvidia_detected_first() {
    let prio = strings(&["cuda", "vulkan", "cpu"]);
    let (h, ran) = probe(&prio, &[ProbeTool::NvidiaSmi, ProbeTool::Vulkaninfo], GpuMode::Auto);
    assert!(h.use_gpu);
    assert_eq!(h.active_device, "cuda");
    assert_eq!(ran, vec![ProbeTool::NvidiaSmi]);
}

#[test]
fn graceful_gpu_fallback_to_vulkan() {
    let prio = strings(&["cuda", "vulkan", "cpu"]);
    let (h, ran) = probe(&prio, &[ProbeTool::Vulkaninfo], GpuMode::Auto);
    assert!(h.use_gpu);
    assert_eq!(h.active_device, "vulkan");
    assert_eq!(ran, vec![ProbeTool::NvidiaSmi, ProbeTool::Vulkaninfo]);
}

#[test]
fn cpu_entry_stops_probing() {
    let prio = strings(&["nvidia", "cpu", "vulkan"]);
    let (h, ran) = probe(&prio, &[ProbeTool::Vulkaninfo], GpuMode::Auto);
    assert!(!h.use_gpu);
    assert_eq!(h.active_device, "cpu");
    assert_eq!(ran, vec![ProbeTool::NvidiaSmi]);
    let prio = strings(&["tpu", "hip"]);
    let (h, ran) = probe(&prio, &[ProbeTool::RocmSmi], GpuMode::Auto);
    assert_eq!(h.active_device, "rocm");
    assert_eq!(ran, vec![ProbeTool::RocmSmi]);
    let h = choose_device(&strings(&["tpu"]), &vec![false], GpuMode::Auto);
    assert_eq!(h.active_device, "cpu");
}

#[test]
fn gpu_requirement_override() {
    let mut src = empty_source();
    src.gpu_mode = Some("require".into());
    let prio = strings(&["cuda", "rocm", "vulkan"]);
    let (h, _) = probe(&prio, &[], GpuMode::Require);
    assert!(!h.use_gpu);
    let s = parse_settings(&src).ok().unwrap();
    assert_eq!(AppConfig::load(s, h).err(), Some(ConfigError::GpuRequired));

    let s = parse_settings(&src).ok().unwrap();
    let (h, _) = probe(&prio, &[ProbeTool::RocmSmi], GpuMode::Require);
    let c = AppConfig::load(s, h).ok().unwrap();
    assert!(c.use_gpu);
    assert_eq!(c.active_device, "rocm");
    assert_eq!(c.listen_address(), "127.0.0.1:3000");

    let s = parse_settings(&empty_source()).ok().unwrap();
    let (h, _) = probe(&prio, &[], GpuMode::Auto);
    let c = AppConfig::load(s, h).ok().unwrap();
    assert_eq!(c.active_device, "cpu");
}

#[test]
fn worker_reports_and_switches_models() {
    let err: Result<u32, String> = Err("missing".into());
    let mut w = WorkerState::new("small.en".to_string(), "cuda".to_string(), true, err);
    let h = w.status();
    assert_eq!((h.status.as_str(), h.gpu_active, h.loaded_model.as_str()), ("error", false, "small.en"));
    assert_eq!(w.engine_for_transcription().err(), Some("Engine is not loaded".to_string()));

    let r = w.apply_model("medium.en".to_string(), Err("Model file not found".into()));
    assert_eq!(r, Err("Model file not found".to_string()));
    assert_eq!(w.status().loaded_model, "small.en");
    assert_eq!(w.status().status, "error");

    let r = w.apply_model("medium.en".to_string(), Ok(7u32));
    assert_eq!(r, Ok(()));
    let h = w.status();
    assert_eq!((h.status.as_str(), h.gpu_active, h.loaded_model.as_str()), ("ready", true, "medium.en"));
    assert_eq!(h.active_device, "cuda");
    assert_eq!(w.engine_for_transcription().ok(), Some(&7u32));
}

#[test]
fn health_when_worker_unreachable() {
    let h = health_or_error(Err("Worker disconnected".into()));
    assert_eq!(h.status, "error: Worker disconnected");
    assert!(!h.gpu_active);
    assert_eq!(h.loaded_model, "");
    let ok = HealthResponse { status: "ready".into(), gpu_active: true, active_device: "cuda".into(), loaded_model: "x".into() };
    assert_eq!(health_or_error(Ok(ok)).status, "ready");
}

#[test]
fn transcript_joins_and_trims_segments() {
    assert_eq!(transcript_text(&strings(&[" Hello", " world. ", ""])), "Hello world.");
    assert_eq!(transcript_text(&Vec::new()), "");
}

#[test]
fn authorization_needs_the_exact_bearer_key() {
    let key = Some("s3cret".to_string());
    assert_eq!(authorize(&None, &Some("Bearer x".into())), Authorization::NotConfigured);
    assert_eq!(authorize(&key, &None), Authorization::Unauthorized);
    assert_eq!(authorize(&key, &Some("s3cret".into())), Authorization::Unauthorized);
    assert_eq!(authorize(&key, &Some("bearer s3cret".into())), Authorization::Unauthorized);
    assert_eq!(authorize(&key, &Some("Bearer s3cret".into())), Authorization::Authorized);
}

#[test]
fn set_model_answers() {
    let key = Some("k".to_string());
    let r = set_model_start(&None, &None).unwrap();
    assert_eq!(r.status, "error: ADMIN_API_KEY not configured on server");
    assert_eq!(r.loaded_model, "");
    let r = set_model_start(&key, &Some("Bearer nope".into())).unwrap();
    assert_eq!(r.status, "error: Unauthorized");
    assert!(set_model_start(&key, &Some("Bearer k".into())).is_none());
    let r = set_model_downloaded(Err("HTTP error: 404 Not Found".into())).unwrap();
    assert_eq!(r.status, "error downloading model: HTTP error: 404 Not Found");
    assert!(set_model_downloaded(Ok(())).is_none());
    let r = set_model_loaded("large-v3", Ok(()));
    assert_eq!((r.status.as_str(), r.loaded_model.as_str()), ("success", "large-v3"));
    let r = set_model_loaded("large-v3", Err("Engine failed".into()));
    assert_eq!(r.status, "error loading model into VRAM: Engine failed");
    assert_eq!(r.loaded_model, "");
}

#[test]
fn restart_answers() {
    let (r, exit) = restart_decision(&None, &None);
    assert_eq!((r.status.as_str(), r.message.as_str(), exit), ("error", "ADMIN_API_KEY not configured on server", false));
    let key = Some("k".to_string());
    let (r, exit) = restart_decision(&key, &Some("Bearer x".into()));
    assert_eq!((r.status.as_str(), r.message.as_str(), exit), ("error", "Unauthorized", false));
    let (r, exit) = restart_decision(&key, &Some("Bearer k".into()));
    assert_eq!((r.status.as_str(), r.message.as_str(), exit), ("restarting", "Server service restart initiated.", true));
}

#[test]
fn model_locations() {
    assert_eq!(
        model_download_url("medium.en"),
        "https://huggingface.co/ggerganov/whisper.cpp/resolve/main/ggml-medium.en.bin"
    );
    assert_eq!(model_file_name("small.en", "gguf"), "small.en.gguf");
    assert_eq!(model_file_to_load(true, true), Some(ModelFile::Gguf));
    assert_eq!(model_file_to_load(false, true), Some(ModelFile::Bin));
    assert_eq!(model_file_to_load(false, false), None);
}

#[test]
fn stream_session_gathers_audio_until_end_stream() {
    let mut s = StreamSession::new();
    assert!(matches!(s.on_event(StreamEvent::Binary(vec![1, 0, 255])), StreamAction::Continue));
    assert!(matches!(s.on_event(StreamEvent::Binary(vec![127])), StreamAction::Continue));
    assert!(matches!(s.on_event(StreamEvent::Other), StreamAction::Continue));
    assert!(matches!(s.on_event(StreamEvent::Text("not json".into())), StreamAction::Continue));
    assert!(matches!(s.on_event(StreamEvent::Text(r#"{"action":"noop"}"#.into())), StreamAction::Continue));
    assert!(matches!(s.on_event(StreamEvent::Text(r#"{"action":"set_model"}"#.into())), StreamAction::Continue));
    match s.on_event(StreamEvent::Text(r#"{"action": "set_model", "model": "medium.en"}"#.into())) {
        StreamAction::SetModel(m) => assert_eq!(m, "medium.en"),
        _ => panic!("expected a model switch"),
    }
    assert!(matches!(s.on_event(StreamEvent::Text(r#"{"action":"set_model","model":5}"#.into())), StreamAction::Continue));
    assert!(matches!(s.on_event(StreamEvent::Text(r#"{"acton":"end_stream"}"#.into())), StreamAction::Continue));
    assert!(matches!(s.on_event(StreamEvent::Text(r#"{"action":"end_stream","model":5}"#.into())), StreamAction::EndOfStream));
    assert_eq!(s.audio, vec![1, 0, 255, 127]);
    assert!(s.has_audio());
    assert_eq!(s.samples(), vec![1, 32767]);
}

#[test]
fn stream_session_cap_and_close() {
    let mut s = StreamSession::new();
    assert!(matches!(s.on_event(StreamEvent::Binary(vec![0; MAX_AUDIO_BYTES])), StreamAction::Continue));
    assert!(matches!(s.on_event(StreamEvent::Binary(vec![0])), StreamAction::EndOfStream));
    let mut s = StreamSession::new();
    assert!(matches!(s.on_event(StreamEvent::Close), StreamAction::Abandon));
    assert!(matches!(s.on_event(StreamEvent::Error), StreamAction::Abandon));
    assert!(matches!(s.on_event(StreamEvent::IdleTimeout), StreamAction::Abandon));
    assert!(!s.has_audio());
}

#[test]
fn bursts_follow_each_other_on_one_connection() {
    let mut s = StreamSession::new();
    s.on_event(StreamEvent::Binary(vec![2, 0, 3, 0]));
    assert!(matches!(s.on_event(StreamEvent::Text(r#"{"action":"end_stream"}"#.into())), StreamAction::EndOfStream));
    assert_eq!(s.finish_burst(), Some(vec![2, 3]));
    assert!(!s.has_audio());
    assert_eq!(s.finish_burst(), None);
    s.on_event(StreamEvent::Binary(vec![0xff, 0x7f]));
    assert_eq!(s.finish_burst(), Some(vec![i16::MAX]));
}

#[test]
fn pcm_decoding_is_little_endian_signed() {
    assert_eq!(decode_pcm(&vec![0x00, 0x80, 0xff, 0xff, 0x34, 0x12, 0x99]), vec![i16::MIN, -1, 0x1234]);
    assert_eq!(decode_pcm(&vec![]), Vec::<i16>::new());
}

#[test]
fn model_switch_on_the_socket_is_reported() {
    match model_download_outcome(Err("HTTP error: 404 Not Found".into())) {
        Some(ModelReply::Failed(e)) => assert_eq!(e, "Download failed: HTTP error: 404 Not Found"),
        _ => panic!("expected a failure report"),
    }
    assert!(model_download_outcome(Ok(())).is_none());
    match model_load_outcome("medium.en", Ok(())) {
        ModelReply::Loaded(m) => assert_eq!(m, "Successfully loaded medium.en"),
        _ => panic!("expected a success report"),
    }
    match model_load_outcome("medium.en", Err("Model file not found".into())) {
        ModelReply::Failed(e) => assert_eq!(e, "Failed to load model into VRAM: Model file not found"),
        _ => panic!("expected a failure report"),
    }
}

#[test]
fn status_follows_the_last_successful_switch() {
    let mut w = WorkerState::new("small.en".to_string(), "cuda".to_string(), true, Ok(1u8));
    assert_eq!(w.status().gpu_active, true);
    w.apply_model("medium.en".to_string(), Ok(2u8)).unwrap();
    assert!(w.apply_model("large-v3".to_string(), Err("no".into())).is_err());
    let h = w.status();
    assert_eq!((h.status.as_str(), h.gpu_active, h.loaded_model.as_str()), ("ready", true, "medium.en"));
    assert_eq!(w.engine.as_ref().map(|l| (l.engine, l.use_gpu)), Some((2u8, true)));
}

#[test]
fn worker_on_the_cpu_never_reports_the_gpu() {
    let mut w = WorkerState::new("small.en".to_string(), "cpu".to_string(), false, Ok(1u8));
    let h = w.status();
    assert_eq!((h.status.as_str(), h.gpu_active, h.active_device.as_str()), ("ready", false, "cpu"));
    w.apply_model("base.en".to_string(), Ok(3u8)).unwrap();
    let h = w.status();
    assert_eq!((h.status.as_str(), h.gpu_active, h.loaded_model.as_str()), ("ready", false, "base.en"));
}

#[test]
fn require_mode_looks_past_cpu_entries() {
    let prio = strings(&["cpu", "cuda"]);
    let (h, ran) = probe(&prio, &[ProbeTool::NvidiaSmi], GpuMode::Require);
    assert!(h.use_gpu);
    assert_eq!(h.active_device, "cuda");
    assert_eq!(ran, vec![ProbeTool::NvidiaSmi]);
    let (h, ran) = probe(&prio, &[ProbeTool::NvidiaSmi], GpuMode::Auto);
    assert!(!h.use_gpu);
    assert!(ran.is_empty());
    let (h, _) = probe(&prio, &[], GpuMode::Require);
    assert!(!h.use_gpu);
    assert_eq!(h.active_device, "cpu");
    assert_eq!(choose_device(&prio, &vec![false, true], GpuMode::Require).active_device, "cuda");
}

#[test]
fn model_download_steps() {
    assert!(download_needed(false));
    assert!(!download_needed(true));
    assert_eq!(http_error_message("404 Not Found"), "HTTP error: 404 Not Found");
}
