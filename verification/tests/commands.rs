use galahad_encoder::audio::AudioCapture;
use galahad_encoder::capability::{detect, Capabilities, Probe};
use galahad_encoder::commands::{
    after_persist, application_gains, apply_pushed, apply_pushed_config, build_audio_plan, control_url, dispatch_command,
    hello_message, telemetry_message, AppStateInner, CommandStep, Effect, Persisting, PushedConfig,
    Restart,
};
use galahad_encoder::config::{
    AudioSource, AudioSourceKind, ClientConfig, Gain, Identity, TransportKind, VideoSourceKind,
};
use galahad_encoder::control_channel::{ClientMessage, ServerCommand};
use galahad_encoder::encoder::Codec;
use galahad_encoder::error::EncoderError;
use galahad_encoder::logger::LogBuffer;
use galahad_encoder::pipeline::{OutputPlan, PipelineConfig, StreamStatus};
use galahad_encoder::srt::SrtMode;
use galahad_encoder::stream_state::StreamState;

fn caps() -> Capabilities {
    detect(Probe {
        windows: true,
        os_name: "windows".into(),
        build_query: None,
        ffmpeg_path: "ffmpeg".into(),
        encoder_listing: Some(
            " V....D h264_nvenc  x\n V....D hevc_qsv  x\n V....D libx264  x\n".into(),
        ),
        device_listing: None,
        gstreamer_path: Some("gst-launch-1.0".into()),
        running: vec![],
        microphones: vec![],
    })
}

fn state() -> AppStateInner {
    let mut config = ClientConfig::first_run("01234567");
    config.display_name = "Idan".into();
    config.destination_host = "1.2.3.4".into();
    config.destination_port = 9003;
    let identity = Identity::in_session(&config, "session-1".into());
    AppStateInner {
        config,
        caps: caps(),
        identity,
        selected_window: Some((42, "cs2.exe — Counter-Strike 2".into())),
        shared_gain: Gain::unity(),
        running: false,
        connected: true,
    }
}

fn with_device(mut s: AppStateInner, name: &str) -> AppStateInner {
    s.config.video_source.kind = VideoSourceKind::Device;
    s.config.video_source.device_name = Some(name.into());
    s
}

#[test]
fn srt_window_session() {
    let config = state().build_pipeline_config().unwrap();
    assert_eq!(config.source_label, "cs2.exe — Counter-Strike 2");
    assert_eq!((config.fps, config.out_width, config.out_height), (60, 1920, 1080));
    assert_eq!((config.video_kbps, config.audio_kbps), (12000, 160));
    assert!(config.preview.is_none());
    match config.output {
        OutputPlan::SrtWindow { window_id, backend, destination, max_callers, audio_plan } => {
            assert_eq!(window_id, 42);
            assert_eq!(backend.ffmpeg_name, "h264_nvenc");
            assert_eq!(
                destination.to_url(),
                "srt://1.2.3.4:9003?mode=caller&latency=200&pkt_size=1316"
            );
            assert_eq!(max_callers, 1);
            assert_eq!(audio_plan.sources.len(), 1);
            assert_eq!(audio_plan.sources[0].label, "Desktop audio");
        }
        other => panic!("{other:?}"),
    }
}

#[test]
fn srt_device_session() {
    let mut s = with_device(state(), "  Blackmagic WDM Capture ");
    s.config.encoder.experimental_hevc = true;
    s.config.srt_mode = SrtMode::Listener;
    s.config.srt_max_callers = 9;
    let config = s.build_pipeline_config().unwrap();
    assert_eq!(config.source_label, "Blackmagic WDM Capture (1080 p60)");
    assert_eq!(config.video_kbps, 8400);
    match config.output {
        OutputPlan::SrtDevice { device_name, backend, max_callers, .. } => {
            assert_eq!(device_name, "Blackmagic WDM Capture");
            assert_eq!(backend.codec, Codec::Hevc);
            assert_eq!(max_callers, 3);
        }
        other => panic!("{other:?}"),
    }
}

#[test]
fn blank_device_falls_back_to_the_window() {
    let config = with_device(state(), "  ").build_pipeline_config().unwrap();
    assert!(matches!(config.output, OutputPlan::SrtWindow { .. }));
}

#[test]
fn srt_sessions_need_destination_encoder_and_source() {
    let mut s = state();
    s.config.destination_port = 0;
    s.caps.encoders.clear();
    s.selected_window = None;
    assert_eq!(
        s.build_pipeline_config().unwrap_err(),
        EncoderError::Config("port 0 is out of range (1-65535)".into())
    );
    s.config.destination_port = 9003;
    assert_eq!(
        s.build_pipeline_config().unwrap_err(),
        EncoderError::Encoder(
            "no compatible hardware encoder found. Update GPU drivers or enable the software \
             fallback in settings."
                .into()
        )
    );
    s.caps.encoders.push("libx264".into());
    assert!(s.build_pipeline_config().is_err());
    s.config.encoder.allow_software = true;
    assert_eq!(
        s.build_pipeline_config().unwrap_err(),
        EncoderError::Config(
            "no capture source selected. Pick a camera / capture card (or a window).".into()
        )
    );
}

#[test]
fn st2110_session() {
    let mut s = with_device(state(), " Cam ");
    s.config.transport = TransportKind::St2110;
    s.config.st2110.interface_ip = " 10.0.0.9 ".into();
    let config = s.build_pipeline_config().unwrap();
    assert_eq!(config.source_label, " Cam  (1080 p60)");
    assert_eq!((config.video_kbps, config.audio_kbps), (2_488_000, 0));
    match config.output {
        OutputPlan::St2110 { gst, gstreamer_path, sdp } => {
            assert_eq!(gst.device_name, "Cam");
            assert_eq!(gst.interface.as_deref(), Some("10.0.0.9"));
            let audio = gst.audio.unwrap();
            assert_eq!((audio.payload_type, audio.sample_rate, audio.channels), (97, 48000, 2));
            assert_eq!(gstreamer_path, "gst-launch-1.0");
            assert!(sdp.contains("o=- 0 0 IN IP4 10.0.0.9\r\n"));
            assert!(sdp.contains("m=audio 20030 RTP/AVP 97\r\n"));
        }
        other => panic!("{other:?}"),
    }
}

#[test]
fn st2110_sessions_need_gstreamer_device_and_targets() {
    let error = |s: &AppStateInner| s.build_pipeline_config().unwrap_err().message();
    let mut s = state();
    s.config.transport = TransportKind::St2110;
    s.caps.gstreamer_available = false;
    s.config.st2110.video_dest_ip = "nope".into();
    s.config.st2110.audio_dest_port = 0;
    s.config.st2110.payload_type = 33;
    assert_eq!(
        error(&s),
        "configuration error: ST 2110 output requires GStreamer, which was not found. Install \
         GStreamer (with the RTP / rawvideo plugins) or switch the transport to SRT."
    );
    s.caps.gstreamer_available = true;
    assert_eq!(
        error(&s),
        "configuration error: no capture device selected. Pick a camera or capture card for ST \
         2110 output."
    );
    s = with_device(s, "Cam");
    assert_eq!(
        error(&s),
        "configuration error: ST 2110 destination 'nope' is not a valid IPv4 address"
    );
    s.config.st2110.video_dest_ip = "239.1.1.1".into();
    assert_eq!(error(&s), "configuration error: ST 2110 destination port must be 1-65535");
    s.config.st2110.audio_enabled = false;
    assert_eq!(
        error(&s),
        "configuration error: ST 2110 payload type 33 must be a dynamic type (96-127)"
    );
    s.config.st2110.payload_type = 127;
    assert!(s.build_pipeline_config().is_ok());
}

#[test]
fn live_channels_make_the_audio_plan() {
    let source = |kind: AudioSourceKind| AudioSource {
        id: "x".into(),
        kind,
        enabled: true,
        muted: false,
        gain: Gain { bits: 2.0f32.to_bits() },
        device_id: None,
        process_id: None,
        label: None,
    };
    let mut config = ClientConfig::first_run("01234567");
    let mut muted = source(AudioSourceKind::System);
    muted.muted = true;
    let mut empty_mic = source(AudioSourceKind::Microphone);
    empty_mic.device_id = Some(String::new());
    let mut mic = source(AudioSourceKind::Microphone);
    mic.device_id = Some("{mic}".into());
    mic.label = Some("Headset".into());
    let no_process = source(AudioSourceKind::Application);
    let mut app = source(AudioSourceKind::Application);
    app.process_id = Some(77);
    config.audio.sources =
        vec![muted, source(AudioSourceKind::System), empty_mic, mic, no_process, app];
    let (plan, shared) = build_audio_plan(&config, true, Gain::unity());
    assert!(!shared);
    let labels: Vec<&str> = plan.sources.iter().map(|s| s.label.as_str()).collect();
    assert_eq!(labels, vec!["Desktop audio", "Microphone", "Headset", "Application"]);
    assert!(matches!(plan.sources[0].capture, AudioCapture::SystemLoopback));
    assert!(matches!(plan.sources[1].capture, AudioCapture::Microphone { device_id: None }));
    assert!(matches!(
        &plan.sources[2].capture,
        AudioCapture::Microphone { device_id: Some(id) } if id == "{mic}"
    ));
    assert!(matches!(plan.sources[3].capture, AudioCapture::Application { process_id: 77 }));
    assert_eq!(plan.sources[3].gain.bits, 2.0f32.to_bits());
}

#[test]
fn the_system_mix_stands_in_for_applications() {
    let source = |kind: AudioSourceKind, gain: f32| AudioSource {
        id: "x".into(),
        kind,
        enabled: true,
        muted: false,
        gain: Gain { bits: gain.to_bits() },
        device_id: None,
        process_id: Some(7),
        label: None,
    };
    let shared_gain = Gain { bits: 0.75f32.to_bits() };
    let mut s = state();
    s.caps.process_audio = false;
    s.shared_gain = shared_gain;
    let game = source(AudioSourceKind::Application, 1.0);
    let discord = source(AudioSourceKind::Application, 0.5);
    let mic = source(AudioSourceKind::Microphone, 2.0);
    s.config.audio.sources = vec![game.clone(), mic.clone(), discord.clone()];
    let gains: Vec<f32> =
        application_gains(&s.config).iter().map(|g| f32::from_bits(g.bits)).collect();
    assert_eq!(gains, vec![1.0, 0.5]);

    let config = s.build_pipeline_config().unwrap();
    assert!(config.shared_audio);
    let plan = match config.output {
        OutputPlan::SrtWindow { audio_plan, .. } => audio_plan,
        other => panic!("{other:?}"),
    };
    assert_eq!(plan.sources.len(), 2);
    assert!(matches!(plan.sources[0].capture, AudioCapture::SystemLoopback));
    assert_eq!(plan.sources[0].gain, shared_gain);
    assert_eq!(plan.sources[0].label, "Desktop audio");
    assert!(matches!(plan.sources[1].capture, AudioCapture::Microphone { .. }));

    // A live system channel holds the applications already.
    s.config.audio.sources.push(source(AudioSourceKind::System, 1.0));
    let (plan, shared) = build_audio_plan(&s.config, false, shared_gain);
    assert!(shared);
    assert_eq!(plan.sources.len(), 2);
    assert!(matches!(plan.sources[1].capture, AudioCapture::SystemLoopback));
    assert_eq!(plan.sources[1].gain.bits, 1.0f32.to_bits());

    // With isolation, or without applications, the mix is as configured.
    let (plan, shared) = build_audio_plan(&s.config, true, shared_gain);
    assert!(!shared);
    assert_eq!(plan.sources.len(), 4);
    s.config.audio.sources = vec![mic];
    let (plan, shared) = build_audio_plan(&s.config, false, shared_gain);
    assert!(!shared);
    assert_eq!(plan.sources.len(), 1);
}

fn finish(step: CommandStep) -> (Effect, String, bool, Option<String>) {
    match step {
        CommandStep::Finish { effect, ack } => (effect, ack.action, ack.ok, ack.detail),
        other => panic!("{other:?}"),
    }
}

#[test]
fn starting_and_stopping() {
    let mut s = state();
    let logs = LogBuffer::new();
    let (effect, action, ok, detail) = finish(dispatch_command(&mut s, &ServerCommand::StartStream, &logs));
    assert!(matches!(effect, Effect::StartPipeline(PipelineConfig { fps: 60, .. })));
    assert_eq!((action.as_str(), ok, detail), ("start_stream", true, None));
    assert!(s.running);

    let (effect, action, ok, _) = finish(dispatch_command(&mut s, &ServerCommand::RestartStream, &logs));
    assert!(matches!(effect, Effect::SignalRestart));
    assert_eq!((action.as_str(), ok), ("restart_stream", true));

    let (effect, action, ok, _) = finish(dispatch_command(&mut s, &ServerCommand::StopStream, &logs));
    assert!(matches!(effect, Effect::StopPipeline));
    assert_eq!((action.as_str(), ok), ("stop_stream", true));
    assert!(!s.running);

    let (effect, _, ok, _) = finish(dispatch_command(&mut s, &ServerCommand::StopStream, &logs));
    assert!(matches!(effect, Effect::Nothing));
    assert!(ok);

    let (effect, _, ok, _) = finish(dispatch_command(&mut s, &ServerCommand::RestartStream, &logs));
    assert!(matches!(effect, Effect::StartPipeline(_)));
    assert!(ok && s.running);
}

#[test]
fn a_failed_start_leaves_the_stream_alone() {
    let mut s = state();
    s.running = true;
    s.config.destination_host = "srt://1.2.3.4".into();
    let logs = LogBuffer::new();
    let (effect, _, ok, detail) = finish(dispatch_command(&mut s, &ServerCommand::StartStream, &logs));
    assert!(matches!(effect, Effect::Nothing));
    assert!(!ok && s.running);
    assert_eq!(
        detail.as_deref(),
        Some("configuration error: destination host must be an IP or hostname, not a URL")
    );
    assert!(matches!(s.restart(), Ok(Restart::Signal)));
    s.running = false;
    assert!(s.restart().is_err());
    assert!(!s.running);
}

#[test]
fn switching_quality() {
    let mut s = state();
    let logs = LogBuffer::new();
    let switch = |preset: &str| ServerCommand::SwitchQuality { preset: preset.into() };

    let (_, action, ok, detail) = finish(dispatch_command(&mut s, &switch("480p30"), &logs));
    assert_eq!((action.as_str(), ok), ("switch_quality", false));
    assert_eq!(detail.as_deref(), Some("configuration error: unknown preset '480p30'"));
    assert_eq!(s.config.preset_id, "1080p60");

    s.running = true;
    let step = dispatch_command(&mut s, &switch("4Kp50"), &logs);
    assert!(matches!(step, CommandStep::Persist(Persisting::SwitchQuality)));
    assert_eq!(s.config.preset_id, "4Kp50");
    let (effect, action, ok, detail) = finish(after_persist(&s, Persisting::SwitchQuality, None));
    assert!(matches!(effect, Effect::UpdatePipeline(PipelineConfig { out_width: 3840, .. })));
    assert_eq!((action.as_str(), ok, detail), ("switch_quality", true, None));

    s.running = false;
    let (effect, _, ok, _) = finish(after_persist(&s, Persisting::SwitchQuality, None));
    assert!(matches!(effect, Effect::Nothing));
    assert!(ok);

    let disk = Some(EncoderError::Io("disk full".into()));
    let (_, _, ok, detail) = finish(after_persist(&s, Persisting::SwitchQuality, disk));
    assert!(!ok);
    assert_eq!(detail.as_deref(), Some("io error: disk full"));
}

#[test]
fn operators_can_switch_to_thirty_frames() {
    let mut s = state();
    s.running = true;
    let logs = LogBuffer::new();
    let switch = ServerCommand::SwitchQuality { preset: "720p30".into() };
    let step = dispatch_command(&mut s, &switch, &logs);
    assert!(matches!(step, CommandStep::Persist(Persisting::SwitchQuality)));
    let (effect, action, ok, detail) = finish(after_persist(&s, Persisting::SwitchQuality, None));
    assert_eq!((action.as_str(), ok, detail), ("switch_quality", true, None));
    match effect {
        Effect::UpdatePipeline(c) => assert_eq!((c.out_height, c.fps, c.video_kbps), (720, 30, 3000)),
        other => panic!("{other:?}"),
    }

    let value = object(vec![
        ("presetId", serde_json::Value::from("1080p30")),
        ("destinationPort", serde_json::Value::from(9003u64)),
    ]);
    dispatch_command(&mut s, &ServerCommand::PushConfig { config: value }, &logs);
    assert_eq!(s.config.preset_id, "1080p30");
    let config = s.build_pipeline_config().unwrap();
    assert_eq!((config.fps, config.video_kbps + config.audio_kbps), (30, 6160));
}

#[test]
fn st2110_audio_keeps_to_dynamic_payload_types() {
    let mut s = with_device(state(), "Cam");
    s.config.transport = TransportKind::St2110;
    for (video, expected) in [(96, 97), (126, 127), (127, 96)] {
        s.config.st2110.payload_type = video;
        match s.build_pipeline_config().unwrap().output {
            OutputPlan::St2110 { gst, .. } => {
                assert_eq!(gst.video_payload_type, video);
                assert_eq!(gst.audio.unwrap().payload_type, expected);
            }
            other => panic!("{other:?}"),
        }
    }
    for video in [95, 128, 255] {
        s.config.st2110.payload_type = video;
        assert!(s.build_pipeline_config().is_err());
    }
}

#[test]
fn uploading_logs() {
    let mut s = state();
    let mut logs = LogBuffer::new();
    logs.push("one".into());
    let (effect, action, ok, detail) =
        finish(dispatch_command(&mut s, &ServerCommand::RequestLogUpload, &logs));
    match effect {
        Effect::Send(ClientMessage::LogUpload { session_id, lines }) => {
            assert_eq!(session_id, "session-1");
            assert_eq!(lines, vec!["one"]);
        }
        other => panic!("{other:?}"),
    }
    assert_eq!((action.as_str(), ok), ("request_log_upload", true));
    assert_eq!(detail.as_deref(), Some("log upload sent"));

    s.connected = false;
    let (effect, ..) = finish(dispatch_command(&mut s, &ServerCommand::RequestLogUpload, &logs));
    assert!(matches!(effect, Effect::Nothing));
}

fn object(members: Vec<(&str, serde_json::Value)>) -> serde_json::Value {
    let mut map = serde_json::Map::new();
    for (key, value) in members {
        map.insert(key.to_string(), value);
    }
    serde_json::Value::Object(map)
}

#[test]
fn pushing_config() {
    let mut s = state();
    let logs = LogBuffer::new();
    let value = object(vec![
        ("presetId", serde_json::Value::from("1080i50")),
        ("destinationHost", serde_json::Value::from("9.9.9.9")),
        ("destinationPort", serde_json::Value::from(9005u64)),
        ("latencyMs", serde_json::Value::from(4_294_967_296u64 + 80)),
        ("controlChannelUrl", serde_json::Value::from("ws://1.2.3.4:8800/ws/encoder")),
        ("displayName", serde_json::Value::from("ignored")),
    ]);
    let step = dispatch_command(&mut s, &ServerCommand::PushConfig { config: value }, &logs);
    assert!(matches!(step, CommandStep::Persist(Persisting::PushConfig)));
    assert_eq!(s.config.preset_id, "1080i50");
    assert_eq!(s.config.destination_host, "9.9.9.9");
    assert_eq!(s.config.destination_port, 9005);
    assert_eq!(s.config.latency_ms, 80);
    assert_eq!(control_url(&s.config).as_deref(), Some("ws://1.2.3.4:8800/ws/encoder"));
    assert_eq!(s.config.display_name, "Idan");
    let (_, action, ok, detail) = finish(after_persist(&s, Persisting::PushConfig, None));
    assert_eq!((action.as_str(), ok), ("push_config", true));
    assert_eq!(detail.as_deref(), Some("config applied"));
}

#[test]
fn only_well_typed_known_fields_are_pushed() {
    let mut config = ClientConfig::first_run("01234567");
    let value = object(vec![
        ("presetId", serde_json::Value::from("480p30")),
        ("destinationHost", serde_json::Value::from(7u64)),
        ("destinationPort", serde_json::Value::from("9003")),
        ("latencyMs", serde_json::Value::from(-5i64)),
        ("controlChannelUrl", serde_json::Value::from(true)),
    ]);
    apply_pushed_config(&mut config, &value);
    assert_eq!(config.preset_id, "1080p60");
    assert_eq!(config.destination_host, "");
    assert_eq!(config.destination_port, 0);
    assert_eq!(config.latency_ms, 200);
    assert_eq!(config.control_channel_url, None);
    apply_pushed_config(&mut config, &serde_json::Value::from("no object"));
    assert_eq!(config.preset_id, "1080p60");
}

#[test]
fn pushing_twice_changes_nothing_more() {
    let pushed = PushedConfig {
        preset_id: Some("4Ki60".into()),
        destination_host: Some("h".into()),
        destination_port: Some(70000),
        latency_ms: None,
        control_channel_url: Some("ws://c".into()),
    };
    let mut config = ClientConfig::first_run("01234567");
    for _ in 0..2 {
        apply_pushed(&mut config, &pushed);
        assert_eq!(config.preset_id, "4Ki60");
        assert_eq!(config.destination_host, "h");
        assert_eq!(config.destination_port, 70000);
        assert_eq!(config.latency_ms, 200);
        assert_eq!(config.control_channel_url.as_deref(), Some("ws://c"));
    }
}

#[test]
fn telemetry_tells_if_the_stream_is_up() {
    let s = state();
    for (shown, streaming) in [
        (StreamState::Idle, false),
        (StreamState::Starting, false),
        (StreamState::Streaming, true),
        (StreamState::Degraded, true),
        (StreamState::Reconnecting, false),
        (StreamState::Failed, false),
    ] {
        let mut status = StreamStatus::default();
        status.state = shown;
        status.fps = 30;
        status.bitrate = 6160;
        status.encoder = Some("h264_nvenc".into());
        match telemetry_message(&s.identity, status) {
            ClientMessage::Telemetry(t) => {
                assert_eq!(t.streaming, streaming);
                assert_eq!(t.state, shown);
                assert_eq!((t.fps, t.bitrate, t.dropped_frames), (30, 6160, 0));
                assert_eq!(t.player_id, "player-01234567");
                assert_eq!(t.session_id, "session-1");
                assert_eq!(t.display_name, "Idan");
                assert_eq!(t.encoder.as_deref(), Some("h264_nvenc"));
                assert_eq!(t.last_error, None);
            }
            other => panic!("{other:?}"),
        }
    }
    match hello_message(&s.identity) {
        ClientMessage::Hello { player_id, session_id, display_name } => {
            assert_eq!(player_id, "player-01234567");
            assert_eq!(session_id, "session-1");
            assert_eq!(display_name, "Idan");
        }
        other => panic!("{other:?}"),
    }
}

#[test]
fn status_is_idle_without_a_pipeline() {
    let s = state();
    assert_eq!(s.status(None).state, StreamState::Idle);
    let mut status = StreamStatus::default();
    status.state = StreamState::Streaming;
    assert_eq!(s.status(Some(status)).state, StreamState::Streaming);
}

#[test]
fn picking_a_window() {
    let mut s = state();
    s.select_window(77, "game".into());
    assert_eq!(s.selected_window, Some((77, "game".to_string())));
}

#[test]
fn blank_control_urls_mean_standalone() {
    let mut config = ClientConfig::first_run("01234567");
    assert_eq!(control_url(&config), None);
    config.control_channel_url = Some("  ".into());
    assert_eq!(control_url(&config), None);
    config.control_channel_url = Some("ws://1.2.3.4:8800/ws/encoder".into());
    assert_eq!(control_url(&config).as_deref(), Some("ws://1.2.3.4:8800/ws/encoder"));
}
