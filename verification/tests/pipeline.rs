use galahad_encoder::audio::{AudioCapture, AudioPlan, AudioPlanSource};
use galahad_encoder::config::Gain;
use galahad_encoder::encoder::{Codec, EncoderBackend, Vendor};
use galahad_encoder::ffmpeg::VideoInput;
use galahad_encoder::gst2110::{EssenceTarget, Gst2110Plan};
use galahad_encoder::pipeline::{
    audio_url, feed_action, may_accept, opening_note, peer_note, prepare_status, preview_problem,
    session_args, session_plan, with_preview, AcceptOutcome, ChildStatus, FeedAction, Monitor,
    Observation, OutputPlan, PipelineConfig, SessionEnd, StderrRelay, StreamStatus, Supervisor,
    SupervisorAction, Tool, Verdict,
};
use galahad_encoder::presets;
use galahad_encoder::srt::{SrtDestination, SrtMode};
use galahad_encoder::stream_state::{StreamMachine, StreamState};

fn backend() -> EncoderBackend {
    EncoderBackend {
        codec: Codec::H264,
        ffmpeg_name: "h264_nvenc",
        vendor: Vendor::Nvidia,
        hardware: true,
    }
}

fn destination() -> SrtDestination {
    SrtDestination::parse("1.2.3.4", 9003, 200, SrtMode::Caller).unwrap()
}

fn desktop() -> AudioPlan {
    AudioPlan {
        sources: vec![AudioPlanSource {
            capture: AudioCapture::SystemLoopback,
            gain: Gain::unity(),
            label: "Desktop audio".into(),
        }],
    }
}

fn session(output: OutputPlan) -> PipelineConfig {
    PipelineConfig {
        source_label: "game".into(),
        fps: 30,
        out_width: 1920,
        out_height: 1080,
        video_kbps: 6000,
        audio_kbps: 160,
        output,
        shared_audio: false,
        preview: None,
    }
}

fn window(audio_plan: AudioPlan) -> PipelineConfig {
    session(OutputPlan::SrtWindow {
        window_id: 1,
        backend: backend(),
        destination: destination(),
        max_callers: 1,
        audio_plan,
    })
}

fn device(audio_plan: AudioPlan) -> PipelineConfig {
    session(OutputPlan::SrtDevice {
        device_name: "Cam".into(),
        backend: backend(),
        destination: destination(),
        max_callers: 1,
        audio_plan,
    })
}

fn st2110() -> PipelineConfig {
    let gst = Gst2110Plan::from_profile(
        "Cam",
        &presets::resolve_or_default("1080p60"),
        EssenceTarget::parse("239.1.1.1", 5000).unwrap(),
        96,
        0,
        None,
        None,
    )
    .unwrap();
    session(OutputPlan::St2110 { gst, gstreamer_path: "gst".into(), sdp: "v=0".into() })
}

#[test]
fn status_is_prepared_for_each_transport() {
    let mut status = StreamStatus::default();
    status.state = StreamState::Starting;
    status.last_error = Some("old".into());
    status.dropped_frames = 9;
    status.audio_warnings = vec!["kept".into()];
    prepare_status(&mut status, &window(desktop()));
    assert_eq!(status.state, StreamState::Starting);
    assert_eq!(status.source.as_deref(), Some("game"));
    assert_eq!((status.fps, status.bitrate, status.dropped_frames), (30, 6160, 0));
    assert_eq!(status.capture_backend.as_deref(), Some("wgc"));
    assert_eq!(status.encoder.as_deref(), Some("h264_nvenc"));
    assert_eq!(status.last_error, None);
    assert_eq!(status.audio_warnings, vec!["kept"]);

    prepare_status(&mut status, &device(AudioPlan::default()));
    assert_eq!(status.bitrate, 6000);
    assert_eq!(status.capture_backend.as_deref(), Some("dshow"));
    assert!(status.audio_warnings.is_empty());

    prepare_status(&mut status, &st2110());
    assert_eq!(status.bitrate, 6000);
    assert_eq!(status.capture_backend.as_deref(), Some("st2110"));
    assert_eq!(status.encoder.as_deref(), Some("st2110-20 raw"));
}

#[test]
fn sessions_run_their_process() {
    let plan = session_plan(&window(desktop()), (2560, 1440), Some(5060)).unwrap();
    assert!(matches!(plan.video_input, VideoInput::RawPipe));
    assert_eq!((plan.capture_width, plan.capture_height), (2560, 1440));
    assert!(plan.audio_enabled);
    assert_eq!(plan.audio_input, "tcp://127.0.0.1:5060");
    assert_eq!((plan.audio_sample_rate, plan.audio_channels), (48000, 2));

    let plan = session_plan(&device(AudioPlan::default()), (1, 1), None).unwrap();
    assert!(matches!(plan.video_input, VideoInput::Dshow { ref device } if device == "Cam"));
    assert_eq!((plan.capture_width, plan.capture_height), (1920, 1080));
    assert!(!plan.audio_enabled);
    assert_eq!(plan.audio_input, "");

    assert!(session_plan(&st2110(), (1, 1), None).is_none());
    assert_eq!(session_args(&st2110(), (1, 1), None)[0..3], ["-e", "-v", "dshowvideosrc device-name=\"Cam\""]);
    assert_eq!(
        session_args(&window(desktop()), (1920, 1080), Some(1)).last().unwrap(),
        "srt://1.2.3.4:9003?mode=caller&latency=200&pkt_size=1316"
    );
    assert_eq!(audio_url(None), "");
}

fn seen(now_ms: u64) -> Observation {
    Observation {
        stop: false,
        restart: false,
        now_ms,
        alive: true,
        child: ChildStatus::Running,
        expected: 0,
        written: 0,
    }
}

struct Watch {
    monitor: Monitor,
    machine: StreamMachine,
    status: StreamStatus,
}

impl Watch {
    fn on(config: &PipelineConfig, machine: StreamMachine) -> Self {
        Watch {
            monitor: Monitor::start(config, 0, 0),
            machine,
            status: StreamStatus::default(),
        }
    }

    fn see(&mut self, o: Observation) -> Verdict {
        self.monitor.observe(&mut self.machine, &mut self.status, &o)
    }
}

fn retrying() -> StreamMachine {
    StreamMachine { state: StreamState::Reconnecting, attempt: 3 }
}

const QUIET: Verdict = Verdict::GoOn { peer: None };

#[test]
fn sessions_are_credited_after_five_seconds() {
    let mut w = Watch::on(&device(AudioPlan::default()), retrying());
    assert_eq!(w.see(seen(4999)), QUIET);
    assert_eq!((w.machine.state, w.machine.attempt), (StreamState::Reconnecting, 3));
    assert_eq!(w.see(seen(5000)), QUIET);
    assert_eq!((w.machine.state, w.machine.attempt), (StreamState::Streaming, 0));
    assert!(w.monitor.credited_up);
}

#[test]
fn stop_and_restart_come_first() {
    let mut w = Watch::on(&window(desktop()), retrying());
    let mut o = seen(9000);
    o.stop = true;
    o.restart = true;
    o.alive = false;
    assert_eq!(w.see(o.clone()), Verdict::End(SessionEnd::UserStop));
    assert_eq!(w.machine.attempt, 3);
    o.stop = false;
    assert_eq!(w.see(o.clone()), Verdict::End(SessionEnd::Restart));
    assert_eq!(w.status.last_error, None);
    o.restart = false;
    assert_eq!(w.see(o), Verdict::End(SessionEnd::Ended));
    assert_eq!(w.status.last_error.as_deref(), Some("stream writer disconnected"));
    // It had stayed up long enough.
    assert_eq!(w.machine.attempt, 0);
}

#[test]
fn processes_that_end_are_reported() {
    let mut o = seen(10);
    o.child = ChildStatus::Exited("exit status: 1".into());
    let mut w = Watch::on(&window(desktop()), retrying());
    assert_eq!(w.see(o.clone()), Verdict::End(SessionEnd::Ended));
    assert_eq!(w.status.last_error.as_deref(), Some("ffmpeg exited: exit status: 1"));
    let mut w = Watch::on(&st2110(), retrying());
    assert_eq!(w.see(o), Verdict::End(SessionEnd::Ended));
    assert_eq!(w.status.last_error.as_deref(), Some("gstreamer exited: exit status: 1"));
    let mut o = seen(10);
    o.child = ChildStatus::WaitFailed("gone".into());
    let mut w = Watch::on(&device(desktop()), retrying());
    assert_eq!(w.see(o), Verdict::End(SessionEnd::Ended));
    assert_eq!(w.status.last_error.as_deref(), Some("ffmpeg wait error: gone"));
}

#[test]
fn only_window_sessions_watch_their_writer() {
    let mut o = seen(10);
    o.alive = false;
    o.expected = 100;
    let mut w = Watch::on(&device(desktop()), retrying());
    assert_eq!(w.see(o), QUIET);
    assert_eq!(w.status.dropped_frames, 0);
}

#[test]
fn frame_flow_shows_the_peer() {
    let mut w = Watch::on(&window(desktop()), retrying());
    w.status.last_error = Some("before".into());
    let at = |now_ms: u64, expected: u64, written: u64| {
        let mut o = seen(now_ms);
        o.expected = expected;
        o.written = written;
        o
    };
    // Not looked at before two seconds are over.
    assert_eq!(w.see(at(1999, 60, 50)), QUIET);
    assert_eq!(w.status.dropped_frames, 10);
    // Fourteen frames are less than half a second at 30 fps.
    assert_eq!(w.see(at(2000, 60, 14)), QUIET);
    assert_eq!(w.status.last_error.as_deref(), Some("before"));
    // Fifteen more are enough.
    assert_eq!(w.see(at(4000, 120, 29)), Verdict::GoOn { peer: Some(true) });
    assert_eq!(w.status.last_error, None);
    assert_eq!(w.status.dropped_frames, 91);
    assert_eq!(w.see(at(6000, 180, 200)), QUIET);
    assert_eq!(w.status.dropped_frames, 0);
    assert_eq!(w.see(at(8000, 240, 200)), Verdict::GoOn { peer: Some(false) });
}

#[test]
fn the_supervisor_backs_off_and_recovers() {
    let mut status = StreamStatus::default();
    let mut sup = Supervisor::start(&mut status);
    assert_eq!(status.state, StreamState::Starting);
    let mut waits = vec![];
    for _ in 0..6 {
        Supervisor::session_up(&mut status);
        assert_eq!(status.state, StreamState::Streaming);
        match sup.session_over(&mut status, SessionEnd::Ended, false) {
            SupervisorAction::WaitThenRun { millis } => waits.push(millis),
            other => panic!("{other:?}"),
        }
        assert_eq!(status.state, StreamState::Reconnecting);
    }
    assert_eq!(waits, vec![1000, 2000, 4000, 8000, 10_000, 10_000]);
    assert_eq!(sup.session_over(&mut status, SessionEnd::Restart, false), SupervisorAction::RunAgain);
    assert_eq!(status.state, StreamState::Starting);
    assert_eq!(
        sup.session_over(&mut status, SessionEnd::Ended, false),
        SupervisorAction::WaitThenRun { millis: 1000 }
    );
    assert_eq!(sup.session_over(&mut status, SessionEnd::Ended, true), SupervisorAction::Finish);
    assert_eq!(sup.session_over(&mut status, SessionEnd::UserStop, true), SupervisorAction::Finish);
    sup.finish(&mut status);
    assert_eq!(status.state, StreamState::Idle);
    assert_eq!(sup.machine.state, StreamState::Idle);
}

#[test]
fn drop_warnings_collapse() {
    let mut relay = StderrRelay::new();
    let drop = "[dshow] real-time buffer too full! frame dropped!";
    let repeat = "Last message repeated 9 times";
    let line = |r: Option<String>| r;
    assert_eq!(
        line(relay.relay(Tool::Ffmpeg, repeat, 0)).as_deref(),
        Some("ffmpeg: Last message repeated 9 times")
    );
    let summary = relay.relay(Tool::Ffmpeg, drop, 100).unwrap();
    assert!(summary.starts_with("ffmpeg: camera frames dropping"));
    assert_eq!(relay.relay(Tool::Ffmpeg, repeat, 200), None);
    assert_eq!(relay.relay(Tool::Ffmpeg, drop, 5099), None);
    assert!(relay.relay(Tool::Ffmpeg, drop, 5100).is_some());
    assert_eq!(
        relay.relay(Tool::Gstreamer, "other", 5101).as_deref(),
        Some("gstreamer: other")
    );
}

#[test]
fn unrelated_repeats_pass_through() {
    let mut relay = StderrRelay::new();
    let mut logged = vec![];
    for line in [
        "[dshow @ 1] real-time buffer too full! frame dropped!",
        "Last message repeated 2 times",
        "Past duration too large",
        "Last message repeated 3 times",
    ] {
        logged.extend(relay.relay(Tool::Ffmpeg, line, 0));
    }
    assert_eq!(logged.len(), 3);
    assert!(logged[0].starts_with("ffmpeg: camera frames dropping"));
    assert_eq!(logged[1], "ffmpeg: Past duration too large");
    assert_eq!(logged[2], "ffmpeg: Last message repeated 3 times");
    // The summary is still not due.
    assert_eq!(relay.relay(Tool::Ffmpeg, "real-time buffer: frame dropped", 4999), None);
}

#[test]
fn frames_before_the_monitor_do_not_count() {
    let config = window(desktop());
    let mut machine = StreamMachine::default();
    let mut status = StreamStatus::default();
    let mut o = seen(2000);
    o.written = 20;
    let mut from_none = Monitor::start(&config, 0, 0);
    assert_eq!(
        from_none.observe(&mut machine, &mut status, &o),
        Verdict::GoOn { peer: Some(true) }
    );
    let mut from_ten = Monitor::start(&config, 0, 10);
    assert_eq!(from_ten.observe(&mut machine, &mut status, &o), QUIET);
    assert_eq!(from_ten.last_written, 20);
}

#[test]
fn ffmpeg_has_ten_seconds_to_connect() {
    assert!(may_accept(false, 10_000));
    assert!(!may_accept(false, 10_001));
    assert!(!may_accept(true, 0));
    assert_eq!(feed_action(AcceptOutcome::Accepted), FeedAction::Feed);
    assert_eq!(feed_action(AcceptOutcome::NotYet), FeedAction::Retry { millis: 50 });
    assert_eq!(feed_action(AcceptOutcome::Failed), FeedAction::GiveUp);
}

#[test]
fn the_log_tells_who_connects() {
    let silent = AudioPlan { sources: Vec::new() };
    assert_eq!(
        opening_note(&window(silent.clone()).output).unwrap(),
        "SRT caller: connecting to 1.2.3.4:9003 \u{2026}"
    );
    let mut listening = destination();
    listening.mode = SrtMode::Listener;
    assert_eq!(
        opening_note(&OutputPlan::SrtDevice {
            device_name: "Cam".to_string(),
            backend: backend(),
            destination: listening.clone(),
            max_callers: 1,
            audio_plan: silent,
        })
        .unwrap(),
        "SRT listener on port 9003: capturing 'Cam', waiting for a caller \u{2026}"
    );
    assert!(opening_note(&st2110().output).is_none());

    assert_eq!(
        peer_note(&destination(), true, 60),
        "SRT connected to 1.2.3.4:9003: streaming (60 frames sent)"
    );
    assert_eq!(
        peer_note(&destination(), false, 60),
        "SRT caller to 1.2.3.4:9003: stream stalled (peer not accepting)"
    );
    assert_eq!(
        peer_note(&listening, true, 60),
        "SRT caller connected on port 9003: streaming (60 frames sent)"
    );
    assert_eq!(
        peer_note(&listening, false, 60),
        "SRT listener on port 9003: no caller pulling (waiting / disconnected)"
    );
}

#[test]
fn srt_sessions_write_their_preview() {
    let plain = session_args(&device(desktop()), (1, 1), Some(1));
    let config = with_preview(device(desktop()), "/tmp/p".into());
    let preview = config.preview.clone().unwrap();
    assert_eq!((preview.dir.as_str(), preview.playlist.as_str()), ("/tmp/p", "preview.m3u8"));
    let args = session_args(&config, (1, 1), Some(1));
    assert_eq!(
        args.last().unwrap(),
        "[f=mpegts]srt://1.2.3.4:9003?mode=caller&latency=200&pkt_size=1316\
         |[f=hls:onfail=ignore]preview.m3u8"
    );
    let before_output = plain.len() - 5;
    assert_eq!(args[..before_output], plain[..before_output]);
    assert_eq!(
        args[before_output..args.len() - 1],
        ["-map", "0:v:0", "-map", "1:a:0", "-flush_packets", "1", "-f", "tee"]
    );
    assert!(preview_problem(&config.output).is_none());

    assert_eq!(
        preview_problem(&st2110().output).as_deref(),
        Some("ST 2110 output cannot be previewed in-app yet.")
    );
    let config = with_preview(st2110(), "/tmp/p".into());
    assert!(config.preview.is_none());
}
