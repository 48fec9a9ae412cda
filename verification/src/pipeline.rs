//! Streaming pipeline supervision.
//!
//! A session wires capture + audio mixing + FFmpeg (or GStreamer) together, and a
//! supervisor drives the always-on reconnect state machine. Frames flow capture ->
//! FFmpeg stdin; mixed PCM flows audio-engine -> localhost TCP -> FFmpeg. This
//! module decides what each session runs, what its monitor makes of what it sees
//! and what the supervisor does next; the program around the library owns the
//! processes, threads and sockets.

use vstd::prelude::*;
use vstd::string::*;

use crate::audio;
use crate::audio::AudioPlan;
use crate::audio::ChannelView;
use crate::encoder::EncoderBackend;
use crate::ffmpeg::FfmpegPlan;
use crate::ffmpeg::PreviewSink;
use crate::ffmpeg::VideoInput;
use crate::ffmpeg;
use crate::gst2110::Gst2110Plan;
use crate::gst2110::Gst2110View;
use crate::preview;
use crate::srt::DestinationView;
use crate::srt::SrtDestination;
use crate::srt::SrtMode;
use crate::stream_state;
use crate::stream_state::StreamEvent;
use crate::stream_state::StreamMachine;
use crate::stream_state::StreamState;
use crate::text;

verus! {

/// The output transport for a session. SRT captures a window with WGC (or a
/// device directly) and encodes with FFmpeg; ST 2110 captures a device directly
/// with GStreamer and sends uncompressed RTP.
#[derive(Debug, Clone)]
pub enum OutputPlan {
    /// Compressed uplink from a game window: WGC window capture -> FFmpeg -> SRT.
    SrtWindow {
        window_id: isize,
        backend: EncoderBackend,
        destination: SrtDestination,
        /// Listener fan-out: max simultaneous callers (1-3).
        max_callers: u8,
        audio_plan: AudioPlan,
    },
    /// Compressed uplink from a camera / capture card: FFmpeg opens the
    /// DirectShow device directly (no WGC), encodes, and sends SRT. Audio (if
    /// any channels are configured) is mixed natively and muxed alongside.
    SrtDevice {
        device_name: String,
        backend: EncoderBackend,
        destination: SrtDestination,
        /// Listener fan-out: max simultaneous callers (1-3).
        max_callers: u8,
        audio_plan: AudioPlan,
    },
    /// Broadcast IP: GStreamer device capture -> ST 2110 RTP.
    St2110 {
        gst: Gst2110Plan,
        gstreamer_path: String,
        /// Session description receivers use to subscribe; written to the log
        /// dir and echoed to the log on start.
        sdp: String,
    },
}

/// An output plan with its strings as characters.
pub enum OutputView {
    SrtWindow {
        window_id: isize,
        backend: EncoderBackend,
        destination: DestinationView,
        max_callers: u8,
        audio: Seq<ChannelView>,
    },
    SrtDevice {
        device_name: Seq<char>,
        backend: EncoderBackend,
        destination: DestinationView,
        max_callers: u8,
        audio: Seq<ChannelView>,
    },
    St2110 { gst: Gst2110View, gstreamer_path: Seq<char>, sdp: Seq<char> },
}

impl View for OutputPlan {
    type V = OutputView;

    open spec fn view(&self) -> OutputView {
        match self {
            OutputPlan::SrtWindow { window_id, backend, destination, max_callers, audio_plan } => {
                OutputView::SrtWindow {
                    window_id: *window_id,
                    backend: *backend,
                    destination: destination@,
                    max_callers: *max_callers,
                    audio: audio_plan@,
                }
            },
            OutputPlan::SrtDevice { device_name, backend, destination, max_callers, audio_plan } => {
                OutputView::SrtDevice {
                    device_name: device_name@,
                    backend: *backend,
                    destination: destination@,
                    max_callers: *max_callers,
                    audio: audio_plan@,
                }
            },
            OutputPlan::St2110 { gst, gstreamer_path, sdp } => OutputView::St2110 {
                gst: gst@,
                gstreamer_path: gstreamer_path@,
                sdp: sdp@,
            },
        }
    }
}

/// Local HLS preview target for an SRT session. FFmpeg tees its already-encoded
/// packets into `playlist` (a relative filename) while running with its working
/// directory set to `dir`, so no path escaping is needed in the tee spec.
#[derive(Debug, Clone)]
pub struct PreviewSession {
    pub dir: String,
    pub playlist: String,
}

/// Fully resolved configuration for one streaming session.
#[derive(Debug, Clone)]
pub struct PipelineConfig {
    pub source_label: String,
    pub fps: u32,
    pub out_width: u32,
    pub out_height: u32,
    pub video_kbps: u32,
    pub audio_kbps: u32,
    pub output: OutputPlan,
    /// The system mix stands in for application channels that cannot be captured
    /// on their own.
    pub shared_audio: bool,
    /// When set, an SRT session also writes a local HLS preview.
    pub preview: Option<PreviewSession>,
}

/// A session's configuration with its strings as characters.
pub struct PipelineView {
    pub source_label: Seq<char>,
    pub fps: u32,
    pub out_width: u32,
    pub out_height: u32,
    pub video_kbps: u32,
    pub audio_kbps: u32,
    pub output: OutputView,
    pub shared_audio: bool,
    /// The directory and the playlist of the preview.
    pub preview: Option<(Seq<char>, Seq<char>)>,
}

impl View for PipelineConfig {
    type V = PipelineView;

    open spec fn view(&self) -> PipelineView {
        PipelineView {
            source_label: self.source_label@,
            fps: self.fps,
            out_width: self.out_width,
            out_height: self.out_height,
            video_kbps: self.video_kbps,
            audio_kbps: self.audio_kbps,
            output: self.output@,
            shared_audio: self.shared_audio,
            preview: match self.preview {
                Some(p) => Some((p.dir@, p.playlist@)),
                None => None,
            },
        }
    }
}

impl OutputView {
    /// The mixer channels that are muxed alongside the video.
    pub open spec fn channels(self) -> Seq<ChannelView> {
        match self {
            OutputView::SrtWindow { audio, .. } => audio,
            OutputView::SrtDevice { audio, .. } => audio,
            OutputView::St2110 { .. } => seq![],
        }
    }

    /// What the operator is told the video is captured with.
    pub open spec fn capture_backend(self) -> Seq<char> {
        match self {
            OutputView::SrtWindow { .. } => "wgc"@,
            OutputView::SrtDevice { .. } => "dshow"@,
            OutputView::St2110 { .. } => "st2110"@,
        }
    }

    /// What the operator is told the video is encoded with.
    pub open spec fn encoder(self) -> Seq<char> {
        match self {
            OutputView::SrtWindow { backend, .. } => backend.ffmpeg_name@,
            OutputView::SrtDevice { backend, .. } => backend.ffmpeg_name@,
            OutputView::St2110 { .. } => "st2110-20 raw"@,
        }
    }
}

impl PipelineView {
    /// The playlist of the session's preview, if it writes one.
    pub open spec fn playlist(self) -> Option<Seq<char>> {
        match self.preview {
            Some((_, playlist)) => Some(playlist),
            None => None,
        }
    }

    /// The session's bitrate: audio counts where there is any.
    pub open spec fn bitrate(self) -> int {
        self.video_kbps + if self.output.channels().len() > 0 {
            self.audio_kbps as int
        } else {
            0
        }
    }
}

/// Snapshot of pipeline status for the UI and Control Channel telemetry.
#[derive(Debug, Clone)]
pub struct StreamStatus {
    pub state: StreamState,
    pub source: Option<String>,
    pub fps: u32,
    pub bitrate: u32,
    pub dropped_frames: u64,
    pub encoder: Option<String>,
    pub capture_backend: Option<String>,
    pub last_error: Option<String>,
    pub audio_warnings: Vec<String>,
}

/// A status with its strings as characters.
pub struct StreamView {
    pub state: StreamState,
    pub source: Option<Seq<char>>,
    pub fps: u32,
    pub bitrate: u32,
    pub dropped_frames: u64,
    pub encoder: Option<Seq<char>>,
    pub capture_backend: Option<Seq<char>>,
    pub last_error: Option<Seq<char>>,
    pub audio_warnings: Seq<Seq<char>>,
}

impl View for StreamStatus {
    type V = StreamView;

    open spec fn view(&self) -> StreamView {
        StreamView {
            state: self.state,
            source: text::opt_text(self.source),
            fps: self.fps,
            bitrate: self.bitrate,
            dropped_frames: self.dropped_frames,
            encoder: text::opt_text(self.encoder),
            capture_backend: text::opt_text(self.capture_backend),
            last_error: text::opt_text(self.last_error),
            audio_warnings: text::texts(self.audio_warnings@),
        }
    }
}

impl StreamView {
    /// The status before anything was streamed.
    pub open spec fn idle() -> StreamView {
        StreamView {
            state: StreamState::Idle,
            source: None,
            fps: 0,
            bitrate: 0,
            dropped_frames: 0,
            encoder: None,
            capture_backend: None,
            last_error: None,
            audio_warnings: seq![],
        }
    }

    /// The status when a session is set up. A window session leaves the audio
    /// warnings to its audio engine.
    pub open spec fn prepared(self, config: PipelineView) -> StreamView {
        StreamView {
            state: self.state,
            source: Some(config.source_label),
            fps: config.fps,
            bitrate: config.bitrate() as u32,
            dropped_frames: 0,
            encoder: Some(config.output.encoder()),
            capture_backend: Some(config.output.capture_backend()),
            last_error: None,
            audio_warnings: match config.output {
                OutputView::SrtWindow { .. } => self.audio_warnings,
                _ => seq![],
            },
        }
    }
}

impl Default for StreamStatus {
    fn default() -> (r: Self)
        ensures
            r@ == StreamView::idle(),
    {
        let r = StreamStatus {
            state: StreamState::Idle,
            source: None,
            fps: 0,
            bitrate: 0,
            dropped_frames: 0,
            encoder: None,
            capture_backend: None,
            last_error: None,
            audio_warnings: Vec::new(),
        };
        assert(r@.audio_warnings =~= seq![]);
        r
    }
}

/// Set the status up for a session.
pub fn prepare_status(status: &mut StreamStatus, config: &PipelineConfig)
    requires
        config@.bitrate() <= u32::MAX,
    ensures
        final(status)@ == old(status)@.prepared(config@),
{
    status.source = Some(config.source_label.clone());
    status.fps = config.fps;
    status.dropped_frames = 0;
    status.last_error = None;
    match &config.output {
        OutputPlan::SrtWindow { backend, audio_plan, .. } => {
            status.capture_backend = Some("wgc".to_string());
            status.encoder = Some(backend.ffmpeg_name.to_string());
            status.bitrate = config.video_kbps + if audio_plan.any_enabled() {
                config.audio_kbps
            } else {
                0
            };
        },
        OutputPlan::SrtDevice { backend, audio_plan, .. } => {
            status.capture_backend = Some("dshow".to_string());
            status.encoder = Some(backend.ffmpeg_name.to_string());
            status.bitrate = config.video_kbps + if audio_plan.any_enabled() {
                config.audio_kbps
            } else {
                0
            };
            status.audio_warnings = Vec::new();
            assert(status@.audio_warnings =~= seq![]);
        },
        OutputPlan::St2110 { .. } => {
            status.capture_backend = Some("st2110".to_string());
            status.encoder = Some("st2110-20 raw".to_string());
            status.bitrate = config.video_kbps;
            status.audio_warnings = Vec::new();
            assert(status@.audio_warnings =~= seq![]);
        },
    }
}

/// The URL at which FFmpeg finds the mixed PCM: a localhost TCP socket, or none
/// when there is no audio.
pub open spec fn audio_input_url(port: Option<u16>) -> Seq<char> {
    match port {
        Some(port) => "tcp://127.0.0.1:"@ + text::decimal(port as nat),
        None => seq![],
    }
}

/// The URL at which FFmpeg finds the mixed PCM on the socket that was bound for
/// it, empty when none was.
pub fn audio_url(port: Option<u16>) -> (r: String)
    ensures
        r@ == audio_input_url(port),
{
    match port {
        Some(port) => "tcp://127.0.0.1:".to_string().concat(text::number(port as u64).as_str()),
        None => String::new(),
    }
}

/// `plan` is what FFmpeg runs for a session: `captured` is the size of a captured
/// window, `port` that of the audio socket.
pub open spec fn is_session_plan(
    plan: FfmpegPlan,
    config: PipelineConfig,
    captured: (u32, u32),
    port: Option<u16>,
) -> bool {
    &&& plan.out_width == config.out_width && plan.out_height == config.out_height
    &&& plan.fps == config.fps
    &&& plan.video_kbps == config.video_kbps && plan.audio_kbps == config.audio_kbps
    &&& plan.audio_enabled == (config@.output.channels().len() > 0)
    &&& plan.audio_input@ == audio_input_url(port)
    &&& plan.audio_sample_rate == audio::SAMPLE_RATE && plan.audio_channels == audio::CHANNELS
    &&& match config.output {
        OutputPlan::SrtWindow { backend, destination, max_callers, .. } => {
            &&& plan.video_input is RawPipe
            &&& plan.capture_width == captured.0 && plan.capture_height == captured.1
            &&& plan.backend == backend && plan.destination == destination
            &&& plan.max_callers == max_callers
        },
        OutputPlan::SrtDevice { device_name, backend, destination, max_callers, .. } => {
            &&& plan.video_input matches VideoInput::Dshow { device } && device@ == device_name@
            &&& plan.capture_width == config.out_width && plan.capture_height == config.out_height
            &&& plan.backend == backend && plan.destination == destination
            &&& plan.max_callers == max_callers
        },
        OutputPlan::St2110 { .. } => false,
    }
}

/// What FFmpeg runs for a session; ST 2110 runs none. A device is captured at
/// the profile geometry (highest quality straight off the card).
pub fn session_plan(config: &PipelineConfig, captured: (u32, u32), port: Option<u16>) -> (r: Option<
    FfmpegPlan,
>)
    ensures
        match r {
            Some(plan) => is_session_plan(plan, *config, captured, port),
            None => config.output is St2110,
        },
{
    match &config.output {
        OutputPlan::SrtWindow { backend, destination, max_callers, audio_plan, .. } => Some(
            FfmpegPlan {
                video_input: VideoInput::RawPipe,
                capture_width: captured.0,
                capture_height: captured.1,
                out_width: config.out_width,
                out_height: config.out_height,
                fps: config.fps,
                video_kbps: config.video_kbps,
                backend: *backend,
                destination: destination.clone(),
                max_callers: *max_callers,
                audio_enabled: audio_plan.any_enabled(),
                audio_input: audio_url(port),
                audio_sample_rate: audio::SAMPLE_RATE,
                audio_channels: audio::CHANNELS,
                audio_kbps: config.audio_kbps,
            },
        ),
        OutputPlan::SrtDevice { device_name, backend, destination, max_callers, audio_plan } => Some(
            FfmpegPlan {
                video_input: VideoInput::Dshow { device: device_name.clone() },
                capture_width: config.out_width,
                capture_height: config.out_height,
                out_width: config.out_width,
                out_height: config.out_height,
                fps: config.fps,
                video_kbps: config.video_kbps,
                backend: *backend,
                destination: destination.clone(),
                max_callers: *max_callers,
                audio_enabled: audio_plan.any_enabled(),
                audio_input: audio_url(port),
                audio_sample_rate: audio::SAMPLE_RATE,
                audio_channels: audio::CHANNELS,
                audio_kbps: config.audio_kbps,
            },
        ),
        OutputPlan::St2110 { .. } => None,
    }
}

/// The arguments of the process that a session runs: FFmpeg for SRT, GStreamer
/// for ST 2110. An SRT session with a preview also writes it.
pub fn session_args(config: &PipelineConfig, captured: (u32, u32), port: Option<u16>) -> (r: Vec<String>)
    requires
        config.fps * 2 <= u32::MAX,
    ensures
        match config.output {
            OutputPlan::St2110 { gst, .. } => text::texts(r@) == gst@.pipeline_args(),
            _ => exists|plan: FfmpegPlan|
                #![trigger plan.encode_args()]
                is_session_plan(plan, *config, captured, port) && text::texts(r@) == plan.args_with(
                    config@.playlist(),
                ),
        },
{
    match session_plan(config, captured, port) {
        Some(plan) => {
            let preview = match &config.preview {
                Some(p) => Some(PreviewSink::new(p.playlist.clone())),
                None => None,
            };
            let args = plan.build_args_with(&preview);
            assert(text::texts(args@) == plan.encode_args() + plan.output_args_with(config@.playlist()));
            args
        },
        None => match &config.output {
            OutputPlan::St2110 { gst, .. } => gst.build_pipeline_args(),
            _ => Vec::new(),
        },
    }
}

/// What the log tells of a session that has just been set up: what an SRT stream
/// waits for.
pub open spec fn opening_note_of(output: OutputView) -> Option<Seq<char>> {
    match output {
        OutputView::SrtWindow { destination, .. } => Some(
            match destination.mode {
                SrtMode::Listener => "SRT listener on port "@ + text::decimal(destination.port as nat)
                    + ": waiting for a caller to connect …"@,
                SrtMode::Caller => "SRT caller: connecting to "@ + destination.host + ":"@ + text::decimal(
                    destination.port as nat,
                ) + " …"@,
            },
        ),
        OutputView::SrtDevice { device_name, destination, .. } => Some(
            match destination.mode {
                SrtMode::Listener => "SRT listener on port "@ + text::decimal(destination.port as nat)
                    + ": capturing '"@ + device_name + "', waiting for a caller …"@,
                SrtMode::Caller => "SRT caller: capturing '"@ + device_name + "', connecting to "@
                    + destination.host + ":"@ + text::decimal(destination.port as nat) + " …"@,
            },
        ),
        OutputView::St2110 { .. } => None,
    }
}

/// What the log tells of a session that has just been set up.
pub fn opening_note(output: &OutputPlan) -> (r: Option<String>)
    ensures
        text::opt_text(r) == opening_note_of(output@),
{
    match output {
        OutputPlan::SrtWindow { destination, .. } => {
            let port = text::number(destination.port as u64);
            Some(
                match destination.mode {
                    SrtMode::Listener => "SRT listener on port ".to_string().concat(port.as_str()).concat(
                        ": waiting for a caller to connect …",
                    ),
                    SrtMode::Caller => "SRT caller: connecting to ".to_string().concat(
                        destination.host.as_str(),
                    ).concat(":").concat(port.as_str()).concat(" …"),
                },
            )
        },
        OutputPlan::SrtDevice { device_name, destination, .. } => {
            let port = text::number(destination.port as u64);
            Some(
                match destination.mode {
                    SrtMode::Listener => "SRT listener on port ".to_string().concat(port.as_str()).concat(
                        ": capturing '",
                    ).concat(device_name.as_str()).concat("', waiting for a caller …"),
                    SrtMode::Caller => "SRT caller: capturing '".to_string().concat(
                        device_name.as_str(),
                    ).concat("', connecting to ").concat(destination.host.as_str()).concat(":").concat(
                        port.as_str(),
                    ).concat(" …"),
                },
            )
        },
        OutputPlan::St2110 { .. } => None,
    }
}

/// What the log tells of a far side that has come or gone.
pub open spec fn peer_note_of(destination: DestinationView, connected: bool, written: u64) -> Seq<char> {
    let port = text::decimal(destination.port as nat);
    let sent = ": streaming ("@ + text::decimal(written as nat) + " frames sent)"@;
    match destination.mode {
        SrtMode::Listener => if connected {
            "SRT caller connected on port "@ + port + sent
        } else {
            "SRT listener on port "@ + port + ": no caller pulling (waiting / disconnected)"@
        },
        SrtMode::Caller => if connected {
            "SRT connected to "@ + destination.host + ":"@ + port + sent
        } else {
            "SRT caller to "@ + destination.host + ":"@ + port + ": stream stalled (peer not accepting)"@
        },
    }
}

/// What the log tells of a far side that has come (with so many frames written by
/// then) or gone.
pub fn peer_note(destination: &SrtDestination, connected: bool, written: u64) -> (r: String)
    ensures
        r@ == peer_note_of(destination@, connected, written),
{
    let port = text::number(destination.port as u64);
    let sent = ": streaming (".to_string().concat(text::number(written).as_str()).concat(" frames sent)");
    match destination.mode {
        SrtMode::Listener => if connected {
            "SRT caller connected on port ".to_string().concat(port.as_str()).concat(sent.as_str())
        } else {
            "SRT listener on port ".to_string().concat(port.as_str()).concat(
                ": no caller pulling (waiting / disconnected)",
            )
        },
        SrtMode::Caller => if connected {
            "SRT connected to ".to_string().concat(destination.host.as_str()).concat(":").concat(
                port.as_str(),
            ).concat(sent.as_str())
        } else {
            "SRT caller to ".to_string().concat(destination.host.as_str()).concat(":").concat(
                port.as_str(),
            ).concat(": stream stalled (peer not accepting)")
        },
    }
}

/// Why a session cannot be previewed, if it cannot.
pub open spec fn preview_problem_of(output: OutputView) -> Option<Seq<char>> {
    match output {
        OutputView::St2110 { .. } => Some("ST 2110 output cannot be previewed in-app yet."@),
        _ => None,
    }
}

/// Why a session cannot be previewed, if it cannot.
pub fn preview_problem(output: &OutputPlan) -> (r: Option<String>)
    ensures
        text::opt_text(r) == preview_problem_of(output@),
{
    match output {
        OutputPlan::St2110 { .. } => Some("ST 2110 output cannot be previewed in-app yet.".to_string()),
        _ => None,
    }
}

/// The same session, with its preview written into a directory that was prepared
/// for it, if it can be previewed.
pub fn with_preview(config: PipelineConfig, dir: String) -> (r: PipelineConfig)
    ensures
        r@ == (PipelineView {
            preview: if preview_problem_of(config@.output) is None {
                Some((dir@, preview::PLAYLIST_NAME@))
            } else {
                None
            },
            ..config@
        }),
{
    let mut config = config;
    config.preview = match &config.output {
        OutputPlan::St2110 { .. } => None,
        _ => Some(PreviewSession { dir, playlist: preview::PLAYLIST_NAME.to_string() }),
    };
    config
}

/// Why a session ended.
#[derive(Debug, Clone, Copy, PartialEq, Eq, Structural)]
pub enum SessionEnd {
    /// User pressed Stop.
    UserStop,
    /// Explicit restart / quality switch requested.
    Restart,
    /// Session ended on its own (process exit, write failure).
    Ended,
}

/// The process that a session runs.
#[derive(Debug, Clone, Copy, PartialEq, Eq, Structural)]
pub enum Tool {
    Ffmpeg,
    Gstreamer,
}

impl Tool {
    pub open spec fn label(self) -> Seq<char> {
        match self {
            Tool::Ffmpeg => "ffmpeg"@,
            Tool::Gstreamer => "gstreamer"@,
        }
    }

    pub fn name(&self) -> (r: &'static str)
        ensures
            r@ == self.label(),
    {
        match self {
            Tool::Ffmpeg => "ffmpeg",
            Tool::Gstreamer => "gstreamer",
        }
    }
}

/// How the session's process is doing.
#[derive(Debug, Clone)]
pub enum ChildStatus {
    Running,
    /// It exited, with this status.
    Exited(String),
    /// It could not be waited for, for this reason.
    WaitFailed(String),
}

/// What the monitor of a session sees at one glance.
#[derive(Debug, Clone)]
pub struct Observation {
    pub stop: bool,
    pub restart: bool,
    /// Milliseconds on the monitor's clock.
    pub now_ms: u64,
    /// The writers of frames and audio have not failed.
    pub alive: bool,
    pub child: ChildStatus,
    /// How many frames should have been written by now.
    pub expected: u64,
    /// How many frames were written.
    pub written: u64,
}

/// How long a session has to stay up to count as a real connection.
pub const STABLE_UPTIME_MS: u64 = 5000;

/// How often the flow of frames is looked at.
pub const CONN_CHECK_MS: u64 = 2000;

/// The monitor of one session.
#[derive(Debug, Clone, Copy, PartialEq, Eq, Structural)]
pub struct Monitor {
    pub tool: Tool,
    /// Frames are written to the process by us, so their flow can be watched.
    pub counts_frames: bool,
    pub fps: u32,
    pub started_ms: u64,
    /// The session has stayed up long enough to reset the backoff.
    pub credited_up: bool,
    pub peer_connected: bool,
    pub last_written: u64,
    pub last_check_ms: u64,
}

/// What comes of a glance.
#[derive(Debug, Clone, Copy, PartialEq, Eq, Structural)]
pub enum Verdict {
    /// The session is over.
    End(SessionEnd),
    /// It goes on; `peer` tells if the far side has just come or gone.
    GoOn { peer: Option<bool> },
}

pub open spec fn span(from: u64, to: u64) -> int {
    if to >= from {
        to - from
    } else {
        0
    }
}

impl Monitor {
    /// The monitor of a session that starts now, with so many frames already
    /// written.
    pub open spec fn fresh(tool: Tool, counts_frames: bool, fps: u32, now_ms: u64, written: u64) -> Monitor {
        Monitor {
            tool,
            counts_frames,
            fps,
            started_ms: now_ms,
            credited_up: false,
            peer_connected: false,
            last_written: written,
            last_check_ms: now_ms,
        }
    }

    /// How the session ends, if it does. Stop comes before everything else, and
    /// a restart before a failure.
    pub open spec fn end(self, seen: Observation) -> Option<SessionEnd> {
        if seen.stop {
            Some(SessionEnd::UserStop)
        } else if seen.restart {
            Some(SessionEnd::Restart)
        } else if (self.counts_frames && !seen.alive) || !(seen.child is Running) {
            Some(SessionEnd::Ended)
        } else {
            None
        }
    }

    /// The error that a session that ended on its own leaves behind.
    pub open spec fn failure(self, seen: Observation) -> Seq<char> {
        if self.counts_frames && !seen.alive {
            "stream writer disconnected"@
        } else {
            match seen.child {
                ChildStatus::Exited(status) => self.tool.label() + " exited: "@ + status@,
                ChildStatus::WaitFailed(why) => self.tool.label() + " wait error: "@ + why@,
                ChildStatus::Running => seq![],
            }
        }
    }

    /// The session counts as a real connection from this glance on.
    pub open spec fn credits(self, seen: Observation) -> bool {
        !seen.stop && !seen.restart && !self.credited_up && span(self.started_ms, seen.now_ms)
            >= STABLE_UPTIME_MS
    }

    /// The flow of frames is looked at in this glance.
    pub open spec fn checks_peer(self, seen: Observation) -> bool {
        self.end(seen) is None && self.counts_frames && span(self.last_check_ms, seen.now_ms)
            >= CONN_CHECK_MS
    }

    /// Half a second's worth of frames, and at least one, has flowed since the
    /// last look.
    pub open spec fn flowing(self, seen: Observation) -> bool {
        let delta = span(self.last_written, seen.written);
        delta >= 1 && 2 * delta >= self.fps
    }

    /// The monitor after a glance.
    pub open spec fn after(self, seen: Observation) -> Monitor {
        let checked = self.checks_peer(seen);
        Monitor {
            credited_up: self.credited_up || self.credits(seen),
            peer_connected: if checked {
                self.flowing(seen)
            } else {
                self.peer_connected
            },
            last_written: if checked {
                seen.written
            } else {
                self.last_written
            },
            last_check_ms: if checked {
                seen.now_ms
            } else {
                self.last_check_ms
            },
            ..self
        }
    }

    /// The supervisor's machine after a glance.
    pub open spec fn machine_after(self, machine: StreamMachine, seen: Observation) -> StreamMachine {
        if self.credits(seen) {
            machine.after(StreamEvent::Up)
        } else {
            machine
        }
    }

    /// The status after a glance.
    pub open spec fn status_after(self, status: StreamView, seen: Observation) -> StreamView {
        match self.end(seen) {
            Some(SessionEnd::Ended) => StreamView { last_error: Some(self.failure(seen)), ..status },
            Some(_) => status,
            None => StreamView {
                dropped_frames: if self.counts_frames {
                    span(seen.written, seen.expected) as u64
                } else {
                    status.dropped_frames
                },
                last_error: if self.checks_peer(seen) && self.flowing(seen) && !self.peer_connected {
                    None
                } else {
                    status.last_error
                },
                ..status
            },
        }
    }

    /// What comes of a glance.
    pub open spec fn verdict(self, seen: Observation) -> Verdict {
        match self.end(seen) {
            Some(end) => Verdict::End(end),
            None => Verdict::GoOn {
                peer: if self.checks_peer(seen) && self.flowing(seen) != self.peer_connected {
                    Some(self.flowing(seen))
                } else {
                    None
                },
            },
        }
    }

    /// The monitor of a session that starts now.
    pub open spec fn of_session(output: OutputView, fps: u32, now_ms: u64, written: u64) -> Monitor {
        match output {
            OutputView::SrtWindow { .. } => Monitor::fresh(Tool::Ffmpeg, true, fps, now_ms, written),
            OutputView::SrtDevice { .. } => Monitor::fresh(Tool::Ffmpeg, false, fps, now_ms, written),
            OutputView::St2110 { .. } => Monitor::fresh(Tool::Gstreamer, false, fps, now_ms, written),
        }
    }

    /// The monitor of a session that starts now, with so many frames already
    /// written. Only a window session writes its frames to the process itself.
    pub fn start(config: &PipelineConfig, now_ms: u64, written: u64) -> (r: Self)
        ensures
            r == Monitor::fresh(
                if config.output is St2110 {
                    Tool::Gstreamer
                } else {
                    Tool::Ffmpeg
                },
                config.output is SrtWindow,
                config.fps,
                now_ms,
                written,
            ),
            r == Monitor::of_session(config@.output, config.fps, now_ms, written),
    {
        let (tool, counts_frames) = match &config.output {
            OutputPlan::SrtWindow { .. } => (Tool::Ffmpeg, true),
            OutputPlan::SrtDevice { .. } => (Tool::Ffmpeg, false),
            OutputPlan::St2110 { .. } => (Tool::Gstreamer, false),
        };
        Monitor {
            tool,
            counts_frames,
            fps: config.fps,
            started_ms: now_ms,
            credited_up: false,
            peer_connected: false,
            last_written: written,
            last_check_ms: now_ms,
        }
    }

    /// Take one glance at the session: end it, credit it, and keep the status.
    pub fn observe(&mut self, machine: &mut StreamMachine, status: &mut StreamStatus, seen: &Observation) -> (r:
        Verdict)
        ensures
            *final(self) == old(self).after(*seen),
            *final(machine) == old(self).machine_after(*old(machine), *seen),
            final(status)@ == old(self).status_after(old(status)@, *seen),
            r == old(self).verdict(*seen),
    {
        if seen.stop {
            return Verdict::End(SessionEnd::UserStop);
        }
        if seen.restart {
            return Verdict::End(SessionEnd::Restart);
        }
        if !self.credited_up && seen.now_ms.saturating_sub(self.started_ms) >= STABLE_UPTIME_MS {
            // Stayed up long enough to be a real connection: reset backoff.
            let _ = machine.apply(StreamEvent::Up);
            self.credited_up = true;
        }
        if self.counts_frames && !seen.alive {
            status.last_error = Some("stream writer disconnected".to_string());
            return Verdict::End(SessionEnd::Ended);
        }
        match &seen.child {
            ChildStatus::Exited(exit) => {
                status.last_error = Some(
                    self.tool.name().to_string().concat(" exited: ").concat(exit.as_str()),
                );
                return Verdict::End(SessionEnd::Ended);
            },
            ChildStatus::WaitFailed(why) => {
                status.last_error = Some(
                    self.tool.name().to_string().concat(" wait error: ").concat(why.as_str()),
                );
                return Verdict::End(SessionEnd::Ended);
            },
            ChildStatus::Running => {},
        }
        if !self.counts_frames {
            return Verdict::GoOn { peer: None };
        }
        // Approximate dropped frames from expected vs written.
        status.dropped_frames = seen.expected.saturating_sub(seen.written);

        // Detect peer connect / disconnect from frame flow.
        if seen.now_ms.saturating_sub(self.last_check_ms) < CONN_CHECK_MS {
            return Verdict::GoOn { peer: None };
        }
        let delta: u64 = seen.written.saturating_sub(self.last_written);
        // At least ~half a second of frames must have flowed to count as live.
        let flowing = delta >= 1 && (delta > u32::MAX as u64 || 2 * delta >= self.fps as u64);
        let mut peer: Option<bool> = None;
        if flowing != self.peer_connected {
            self.peer_connected = flowing;
            peer = Some(flowing);
            if flowing {
                status.last_error = None;
            }
        }
        self.last_written = seen.written;
        self.last_check_ms = seen.now_ms;
        Verdict::GoOn { peer }
    }
}

/// What the supervisor does after a session.
#[derive(Debug, Clone, Copy, PartialEq, Eq, Structural)]
pub enum SupervisorAction {
    /// Run the next session at once.
    RunAgain,
    /// Wait so long, then run the next session.
    WaitThenRun { millis: u64 },
    /// Stop for good.
    Finish,
}

/// The supervisor of a stream.
#[derive(Debug, Clone, Copy)]
pub struct Supervisor {
    pub machine: StreamMachine,
}

impl Supervisor {
    /// The supervisor when the stream is started.
    pub open spec fn started() -> Supervisor {
        Supervisor { machine: StreamMachine::initial().after(StreamEvent::Start) }
    }

    /// The supervisor after a session; a session that could not be set up counts
    /// as one that ended on its own.
    pub open spec fn after(self, end: SessionEnd, stop: bool) -> Supervisor {
        match end {
            SessionEnd::UserStop => self,
            SessionEnd::Restart => Supervisor { machine: self.machine.after(StreamEvent::Start) },
            SessionEnd::Ended => if stop {
                self
            } else {
                Supervisor {
                    machine: self.machine.after(StreamEvent::RecoverableError).after(
                        StreamEvent::RetryTick,
                    ),
                }
            },
        }
    }

    /// What the supervisor does after a session.
    pub open spec fn action(self, end: SessionEnd, stop: bool) -> SupervisorAction {
        match end {
            SessionEnd::UserStop => SupervisorAction::Finish,
            SessionEnd::Restart => SupervisorAction::RunAgain,
            SessionEnd::Ended => if stop {
                SupervisorAction::Finish
            } else {
                SupervisorAction::WaitThenRun {
                    millis: stream_state::delay_ms(self.after(end, stop).machine.attempt as nat) as u64,
                }
            },
        }
    }

    /// What the operator sees after a session.
    pub open spec fn shown(state: StreamState, end: SessionEnd, stop: bool) -> StreamState {
        match end {
            SessionEnd::UserStop => state,
            SessionEnd::Restart => StreamState::Starting,
            SessionEnd::Ended => if stop {
                state
            } else {
                StreamState::Reconnecting
            },
        }
    }

    /// The stream is started.
    pub fn start(status: &mut StreamStatus) -> (r: Self)
        ensures
            r == Supervisor::started(),
            final(status)@ == (StreamView { state: StreamState::Starting, ..old(status)@ }),
    {
        let mut machine = StreamMachine::default();
        let _ = machine.apply(StreamEvent::Start);
        status.state = StreamState::Starting;
        Supervisor { machine }
    }

    /// A session is up as far as the operator can see. It is credited to the
    /// machine only once it has stayed up (see `Monitor::observe`): an SRT peer
    /// that connects and drops again must not reset the backoff every time.
    pub fn session_up(status: &mut StreamStatus)
        ensures
            final(status)@ == (StreamView { state: StreamState::Streaming, ..old(status)@ }),
    {
        status.state = StreamState::Streaming;
    }

    /// A session is over: decide what comes next. `end` is `Ended` also where the
    /// session could not be set up; `stop` tells if Stop was pressed meanwhile.
    pub fn session_over(&mut self, status: &mut StreamStatus, end: SessionEnd, stop: bool) -> (r:
        SupervisorAction)
        ensures
            *final(self) == old(self).after(end, stop),
            final(status)@ == (StreamView {
                state: Supervisor::shown(old(status)@.state, end, stop),
                ..old(status)@
            }),
            r == old(self).action(end, stop),
    {
        match end {
            SessionEnd::UserStop => SupervisorAction::Finish,
            SessionEnd::Restart => {
                // Quality switch / explicit restart: loop straight back in.
                status.state = StreamState::Starting;
                let _ = self.machine.apply(StreamEvent::Start);
                SupervisorAction::RunAgain
            },
            SessionEnd::Ended => {
                if stop {
                    return SupervisorAction::Finish;
                }
                let _ = self.machine.apply(StreamEvent::RecoverableError);
                status.state = StreamState::Reconnecting;
                let _ = self.machine.apply(StreamEvent::RetryTick);
                SupervisorAction::WaitThenRun { millis: stream_state::backoff_ms(self.machine.attempt) }
            },
        }
    }

    /// The stream is stopped.
    pub fn finish(&mut self, status: &mut StreamStatus)
        ensures
            final(self).machine == old(self).machine.after(StreamEvent::Stop),
            final(status)@ == (StreamView { state: StreamState::Idle, ..old(status)@ }),
    {
        let _ = self.machine.apply(StreamEvent::Stop);
        status.state = StreamState::Idle;
    }
}

/// What a child's stderr line becomes in the log.
///
/// The dshow "real-time buffer … frame dropped" warning fires continuously
/// whenever the camera is producing faster than FFmpeg drains it — which is the
/// normal state while an SRT listener waits for a caller. Left unfiltered it
/// floods the log, so those warnings collapse into a single summary line every
/// few seconds and everything else passes through verbatim: a repeat line is
/// theirs only if it directly follows one of them.
#[derive(Debug, Clone, Copy, PartialEq, Eq, Structural)]
pub struct StderrRelay {
    /// The line before was a dropped-frame warning, or a repeat of one.
    pub dropping: bool,
    pub last_summary_ms: Option<u64>,
}

/// How often the summary of dropped frames is logged.
pub const SUMMARY_MS: u64 = 5000;

impl StderrRelay {
    /// The line warns of a dropped frame.
    pub open spec fn warns_of_drop(line: Seq<char>) -> bool {
        text::has_text(line, "real-time buffer"@) && text::has_text(line, "frame dropped"@)
    }

    /// The line says that the line before it came again.
    pub open spec fn is_repeat(line: Seq<char>) -> bool {
        text::has_text(line, "Last message repeated"@)
    }

    /// The line is one of the warnings that collapse: a dropped-frame warning, or
    /// the repeat of one.
    pub open spec fn collapses(self, line: Seq<char>) -> bool {
        StderrRelay::warns_of_drop(line) || (self.dropping && StderrRelay::is_repeat(line))
    }

    /// A summary may be logged now.
    pub open spec fn summary_due(self, now_ms: u64) -> bool {
        match self.last_summary_ms {
            Some(last) => span(last, now_ms) >= SUMMARY_MS,
            None => true,
        }
    }

    pub open spec fn after(self, line: Seq<char>, now_ms: u64) -> StderrRelay {
        if self.collapses(line) {
            StderrRelay {
                dropping: true,
                last_summary_ms: if self.summary_due(now_ms) {
                    Some(now_ms)
                } else {
                    self.last_summary_ms
                },
            }
        } else {
            StderrRelay { dropping: false, ..self }
        }
    }

    /// The relay after a run of lines, each with the time it came at.
    pub open spec fn after_all(self, lines: Seq<(Seq<char>, u64)>) -> StderrRelay
        decreases lines.len(),
    {
        if lines.len() == 0 {
            self
        } else {
            self.after_all(lines.drop_last()).after(lines.last().0, lines.last().1)
        }
    }

    /// The relay before the first line.
    pub open spec fn initial() -> StderrRelay {
        StderrRelay { dropping: false, last_summary_ms: None }
    }

    pub open spec fn logged(self, tool: Tool, line: Seq<char>, now_ms: u64) -> Option<Seq<char>> {
        if !self.collapses(line) {
            Some(tool.label() + ": "@ + line)
        } else if self.summary_due(now_ms) {
            Some(
                tool.label()
                    + ": camera frames dropping (no consumer draining yet — normal while the SRT listener waits for a caller)"@,
            )
        } else {
            None
        }
    }

    pub fn new() -> (r: Self)
        ensures
            r == StderrRelay::initial(),
    {
        StderrRelay { dropping: false, last_summary_ms: None }
    }

    /// Take a line: what goes to the log, if anything does.
    pub fn relay(&mut self, tool: Tool, line: &str, now_ms: u64) -> (r: Option<String>)
        ensures
            *final(self) == old(self).after(line@, now_ms),
            text::opt_text(r) == old(self).logged(tool, line@, now_ms),
    {
        let is_drop = text::contains(line, "real-time buffer") && text::contains(line, "frame dropped");
        let is_drop_repeat = self.dropping && text::contains(line, "Last message repeated");
        if is_drop || is_drop_repeat {
            self.dropping = true;
            let due = match self.last_summary_ms {
                Some(last) => now_ms.saturating_sub(last) >= SUMMARY_MS,
                None => true,
            };
            if due {
                self.last_summary_ms = Some(now_ms);
                return Some(
                    tool.name().to_string().concat(
                        ": camera frames dropping (no consumer draining yet — normal while the SRT listener waits for a caller)",
                    ),
                );
            }
            return None;
        }
        self.dropping = false;
        Some(tool.name().to_string().concat(": ").concat(line))
    }
}

/// What came of an attempt to accept FFmpeg's connection for PCM.
#[derive(Debug, Clone, Copy, PartialEq, Eq, Structural)]
pub enum AcceptOutcome {
    Accepted,
    NotYet,
    Failed,
}

/// What the feeder of PCM does next.
#[derive(Debug, Clone, Copy, PartialEq, Eq, Structural)]
pub enum FeedAction {
    /// Feed the connection.
    Feed,
    /// Try again in a moment.
    Retry { millis: u64 },
    GiveUp,
}

/// How long FFmpeg has to connect for PCM.
pub const ACCEPT_WINDOW_MS: u64 = 10_000;

/// FFmpeg is still waited for.
pub open spec fn still_accepts(stop: bool, waited_ms: u64) -> bool {
    !stop && waited_ms <= ACCEPT_WINDOW_MS
}

/// What follows an attempt at accepting FFmpeg's connection.
pub open spec fn next_feed(outcome: AcceptOutcome) -> FeedAction {
    match outcome {
        AcceptOutcome::Accepted => FeedAction::Feed,
        AcceptOutcome::NotYet => FeedAction::Retry { millis: 50 },
        AcceptOutcome::Failed => FeedAction::GiveUp,
    }
}

/// Whether another attempt at accepting FFmpeg's connection is made.
pub fn may_accept(stop: bool, waited_ms: u64) -> (r: bool)
    ensures
        r == (!stop && waited_ms <= ACCEPT_WINDOW_MS),
        r == still_accepts(stop, waited_ms),
{
    !stop && waited_ms <= ACCEPT_WINDOW_MS
}

/// What the feeder does after an attempt at accepting FFmpeg's connection.
pub fn feed_action(outcome: AcceptOutcome) -> (r: FeedAction)
    ensures
        r == (match outcome {
            AcceptOutcome::Accepted => FeedAction::Feed,
            AcceptOutcome::NotYet => FeedAction::Retry { millis: 50 },
            AcceptOutcome::Failed => FeedAction::GiveUp,
        }),
        r == next_feed(outcome),
{
    match outcome {
        AcceptOutcome::Accepted => FeedAction::Feed,
        AcceptOutcome::NotYet => FeedAction::Retry { millis: 50 },
        AcceptOutcome::Failed => FeedAction::GiveUp,
    }
}

/// The supervisor gives up only when told to: it finishes if Stop was pressed and
/// not otherwise.
pub proof fn supervisor_finishes_only_on_stop(sup: Supervisor, end: SessionEnd, stop: bool)
    ensures
        sup.action(end, stop) == SupervisorAction::Finish <==> (end == SessionEnd::UserStop || (end
            == SessionEnd::Ended && stop)),
{
}

/// A supervisor after so many sessions that ended on their own before they could
/// be credited.
pub open spec fn after_failures(sup: Supervisor, failures: nat) -> Supervisor
    decreases failures,
{
    if failures == 0 {
        sup
    } else {
        after_failures(sup, (failures - 1) as nat).after(SessionEnd::Ended, false)
    }
}

/// Sessions that fail in a row, none staying up, wait longer and longer: the
/// retries add up, and the stream stays in its reconnect loop.
pub proof fn failures_in_a_row_back_off(failures: nat)
    requires
        0 < failures <= u32::MAX,
    ensures
        after_failures(Supervisor::started(), failures).machine == (StreamMachine {
            state: StreamState::Reconnecting,
            attempt: failures as u32,
        }),
        after_failures(Supervisor::started(), (failures - 1) as nat).action(SessionEnd::Ended, false)
            == (SupervisorAction::WaitThenRun { millis: stream_state::delay_ms(failures) as u64 }),
    decreases failures,
{
    if failures > 1 {
        failures_in_a_row_back_off((failures - 1) as nat);
    } else {
        assert(after_failures(Supervisor::started(), 0) == Supervisor::started());
    }
}

/// A session that has not stayed up long enough leaves the retries as they are.
pub proof fn short_sessions_are_not_credited(m: Monitor, machine: StreamMachine, seen: Observation)
    requires
        seen.now_ms < m.started_ms + STABLE_UPTIME_MS,
    ensures
        m.machine_after(machine, seen) == machine,
        m.after(seen).credited_up == m.credited_up,
{
}

/// A session that has stayed up clears the retries, so that the next failure
/// waits no longer than the first one did.
pub proof fn stable_sessions_clear_the_retries(m: Monitor, sup: Supervisor, seen: Observation)
    requires
        m.credits(seen),
        sup.machine.state == StreamState::Starting || sup.machine.state == StreamState::Reconnecting,
    ensures
        ({
            let machine = m.machine_after(sup.machine, seen);
            &&& machine == (StreamMachine { state: StreamState::Streaming, attempt: 0 })
            &&& (Supervisor { machine }).action(SessionEnd::Ended, false)
                == Supervisor::started().action(SessionEnd::Ended, false)
        }),
{
}

/// A session is credited at most once.
pub proof fn sessions_are_credited_once(m: Monitor, first: Observation, second: Observation)
    requires
        m.credits(first),
    ensures
        !m.after(first).credits(second),
{
}

/// Stop wins over whatever else a glance shows.
pub proof fn stop_wins(m: Monitor, seen: Observation)
    requires
        seen.stop,
    ensures
        m.verdict(seen) == Verdict::End(SessionEnd::UserStop),
        m.after(seen) == m,
{
}

/// A line of a child's stderr passes verbatim unless it warns of a dropped frame or
/// repeats such a warning directly after it.
pub proof fn only_drop_warnings_collapse(
    lines: Seq<(Seq<char>, u64)>,
    tool: Tool,
    line: Seq<char>,
    now_ms: u64,
)
    ensures
        ({
            let relay = StderrRelay::initial().after_all(lines);
            let follows_a_collapsed_line = lines.len() > 0 && StderrRelay::initial().after_all(
                lines.drop_last(),
            ).collapses(lines.last().0);
            &&& relay.collapses(line) <==> StderrRelay::warns_of_drop(line) || (StderrRelay::is_repeat(
                line,
            ) && follows_a_collapsed_line)
            &&& !relay.collapses(line) ==> relay.logged(tool, line, now_ms) == Some(
                tool.label() + ": "@ + line,
            )
        }),
{
}

/// Dropped-frame warnings are summarised at most once in a while, whatever comes
/// between them.
pub proof fn summaries_are_rare(
    relay: StderrRelay,
    tool: Tool,
    first: Seq<char>,
    between: Seq<(Seq<char>, u64)>,
    second: Seq<char>,
    now_ms: u64,
    later_ms: u64,
)
    requires
        relay.collapses(first),
        relay.summary_due(now_ms),
        forall|i: int| 0 <= i < between.len() ==> (#[trigger] between[i]).1 < now_ms + SUMMARY_MS,
        later_ms < now_ms + SUMMARY_MS,
    ensures
        ({
            let later = relay.after(first, now_ms).after_all(between);
            later.collapses(second) ==> later.logged(tool, second, later_ms) is None
        }),
{
    summary_stays_recent(relay.after(first, now_ms), between, now_ms);
}

proof fn summary_stays_recent(relay: StderrRelay, lines: Seq<(Seq<char>, u64)>, now_ms: u64)
    requires
        relay.last_summary_ms == Some(now_ms),
        forall|i: int| 0 <= i < lines.len() ==> (#[trigger] lines[i]).1 < now_ms + SUMMARY_MS,
    ensures
        relay.after_all(lines).last_summary_ms == Some(now_ms),
    decreases lines.len(),
{
    if lines.len() > 0 {
        let before = lines.drop_last();
        assert(forall|i: int| 0 <= i < before.len() ==> #[trigger] before[i] == lines[i]);
        summary_stays_recent(relay, before, now_ms);
        assert(lines.last() == lines[lines.len() - 1]);
    }
}

/// A process that is gone ends its session whatever the transport, and leaves an
/// error that names the process and ends with what became of it. A process that
/// runs, with writers that have not failed, ends none.
pub proof fn dead_processes_end_sessions(
    status: StreamView,
    m: Monitor,
    seen: Observation,
)
    requires
        !seen.stop,
        !seen.restart,
    ensures
        !(seen.child is Running) ==> m.verdict(seen) == Verdict::End(SessionEnd::Ended)
            && m.status_after(status, seen).last_error is Some,
        seen.alive ==> match seen.child {
            ChildStatus::Running => m.verdict(seen) is GoOn,
            ChildStatus::Exited(why) => text::finishes_with(
                m.status_after(status, seen).last_error->0,
                " exited: "@ + why@,
            ) && text::begins_with(m.status_after(status, seen).last_error->0, m.tool.label()),
            ChildStatus::WaitFailed(why) => text::finishes_with(
                m.status_after(status, seen).last_error->0,
                " wait error: "@ + why@,
            ) && text::begins_with(m.status_after(status, seen).last_error->0, m.tool.label()),
        },
        !m.counts_frames && seen.child is Running ==> m.verdict(seen) is GoOn,
        m.counts_frames && !seen.alive ==> m.verdict(seen) == Verdict::End(SessionEnd::Ended)
            && m.status_after(status, seen).last_error == Some("stream writer disconnected"@),
        m.verdict(seen) is End ==> m.verdict(seen) == Verdict::End(SessionEnd::Ended),
{
    let e = m.status_after(status, seen).last_error;
    if seen.alive {
        match seen.child {
            ChildStatus::Exited(why) => {
                let tail = " exited: "@ + why@;
                assert(e->0 =~= m.tool.label() + tail);
                assert((e->0).subrange((e->0).len() - tail.len(), (e->0).len() as int) =~= tail);
                assert((e->0).subrange(0, m.tool.label().len() as int) =~= m.tool.label());
            },
            ChildStatus::WaitFailed(why) => {
                let tail = " wait error: "@ + why@;
                assert(e->0 =~= m.tool.label() + tail);
                assert((e->0).subrange((e->0).len() - tail.len(), (e->0).len() as int) =~= tail);
                assert((e->0).subrange(0, m.tool.label().len() as int) =~= m.tool.label());
            },
            ChildStatus::Running => {},
        }
    }
}

/// A session is credited at the first glance that finds it up for five seconds, and at
/// no other; it then counts as up.
pub proof fn sessions_are_credited_after_five_seconds(m: Monitor, machine: StreamMachine, seen: Observation)
    requires
        !seen.stop,
        !seen.restart,
    ensures
        !m.credited_up && seen.now_ms >= m.started_ms + 5000 ==> m.after(seen).credited_up && m.machine_after(
            machine,
            seen,
        ) == machine.after(StreamEvent::Up),
        m.credited_up || seen.now_ms < m.started_ms + 5000 ==> m.after(seen).credited_up == m.credited_up
            && m.machine_after(machine, seen) == machine,
{
}

/// The far side of a window session counts as there while half a second of frames, and
/// at least one, flow between two looks at them, which are at least two seconds apart;
/// the operator is told of each change, once. Frames that a device or a GStreamer
/// session writes are not ours to watch.
pub proof fn flowing_frames_mean_a_peer(m: Monitor, seen: Observation)
    requires
        !seen.stop,
        !seen.restart,
        seen.alive,
        seen.child is Running,
    ensures
        ({
            let due = m.counts_frames && seen.now_ms >= m.last_check_ms + 2000;
            let flows = seen.written > m.last_written && 2 * (seen.written - m.last_written) >= m.fps;
            let next = m.after(seen);
            &&& !due ==> m.verdict(seen) == (Verdict::GoOn { peer: None }) && next.peer_connected
                == m.peer_connected && next.last_written == m.last_written && next.last_check_ms
                == m.last_check_ms
            &&& due ==> next.peer_connected == flows && next.last_written == seen.written && next.last_check_ms
                == seen.now_ms
            &&& due && flows && !m.peer_connected ==> m.verdict(seen) == (Verdict::GoOn { peer: Some(true) })
            &&& due && !flows && m.peer_connected ==> m.verdict(seen) == (Verdict::GoOn { peer: Some(false) })
            &&& due && flows == m.peer_connected ==> m.verdict(seen) == (Verdict::GoOn { peer: None })
        }),
{
}

/// While a session goes on, its status shows the frames that should have been written
/// and were not, and an error that is no more once the far side is back; nothing else
/// of it changes, and a session that is stopped leaves it alone.
pub proof fn statuses_follow_the_session(m: Monitor, status: StreamView, seen: Observation)
    ensures
        ({
            let next = m.status_after(status, seen);
            let goes_on = m.verdict(seen) is GoOn;
            &&& goes_on && m.counts_frames && seen.expected >= seen.written ==> next.dropped_frames
                == seen.expected - seen.written
            &&& goes_on && m.counts_frames && seen.expected < seen.written ==> next.dropped_frames == 0
            &&& !goes_on || !m.counts_frames ==> next.dropped_frames == status.dropped_frames
            &&& m.verdict(seen) == (Verdict::GoOn { peer: Some(true) }) ==> next.last_error is None
            &&& goes_on && m.verdict(seen) != (Verdict::GoOn { peer: Some(true) }) ==> next.last_error
                == status.last_error
            &&& seen.stop || seen.restart ==> next == status
            &&& next.state == status.state && next.source == status.source && next.fps == status.fps
            &&& next.bitrate == status.bitrate && next.encoder == status.encoder
            &&& next.capture_backend == status.capture_backend && next.audio_warnings == status.audio_warnings
        }),
{
}

/// What a session is stays what it is for as long as it is watched.
pub proof fn sessions_stay_what_they_are(m: Monitor, seen: Observation)
    ensures
        m.after(seen).tool == m.tool,
        m.after(seen).counts_frames == m.counts_frames,
        m.after(seen).fps == m.fps,
        m.after(seen).started_ms == m.started_ms,
        m.credited_up ==> m.after(seen).credited_up,
{
}

/// A session that has just begun is not credited and has no far side; it is watched
/// from now on, and frames that were written before do not count as its own.
pub proof fn sessions_begin_afresh(tool: Tool, fps: u32, now_ms: u64, written: u64, seen: Observation)
    requires
        !seen.stop,
        !seen.restart,
        seen.child is Running,
        seen.alive,
        now_ms <= seen.now_ms,
    ensures
        ({
            let m = Monitor::fresh(tool, true, fps, now_ms, written);
            &&& m.tool == tool && m.fps == fps
            &&& seen.now_ms - now_ms < 5000 ==> !m.after(seen).credited_up
            &&& seen.now_ms - now_ms >= 5000 ==> m.after(seen).credited_up
            &&& seen.written == written || seen.now_ms - now_ms < 2000 ==> m.verdict(seen) == (Verdict::GoOn {
                peer: None,
            })
            &&& seen.now_ms - now_ms >= 2000 && seen.written > written && seen.written - written >= fps
                ==> m.verdict(seen) == (Verdict::GoOn { peer: Some(true) })
            &&& Monitor::fresh(tool, false, fps, now_ms, written).verdict(seen) == (Verdict::GoOn { peer: None })
        }),
{
}

/// A restart runs the next session at once, with no retries counted; a session that
/// ended on its own is run again after the wait that its retries ask for.
pub proof fn sessions_are_run_again(sup: Supervisor, state: StreamState)
    requires
        sup.machine.state != StreamState::Idle && sup.machine.state != StreamState::Failed,
    ensures
        sup.action(SessionEnd::Restart, false) == SupervisorAction::RunAgain,
        sup.action(SessionEnd::Restart, true) == SupervisorAction::RunAgain,
        sup.after(SessionEnd::Restart, false).machine.attempt == 0,
        Supervisor::shown(state, SessionEnd::Restart, false) == StreamState::Starting,
        sup.action(SessionEnd::Ended, false) is WaitThenRun,
        sup.after(SessionEnd::Ended, false).machine.state == StreamState::Reconnecting,
        sup.machine.attempt < u32::MAX ==> sup.after(SessionEnd::Ended, false).machine.attempt
            == sup.machine.attempt + 1,
        Supervisor::shown(state, SessionEnd::Ended, false) == StreamState::Reconnecting,
        Supervisor::shown(state, SessionEnd::Ended, true) == state,
        Supervisor::shown(state, SessionEnd::UserStop, true) == state,
        sup.after(SessionEnd::UserStop, true) == sup,
        sup.after(SessionEnd::Ended, true) == sup,
        Supervisor::started().machine.state == StreamState::Starting,
        Supervisor::started().machine.attempt == 0,
{
}

/// A retry waits twice as long as the one before it, and no longer than ten seconds.
pub proof fn retries_wait_longer_and_longer(sup: Supervisor)
    requires
        sup.machine.state != StreamState::Idle && sup.machine.state != StreamState::Failed,
        sup.machine.attempt < u32::MAX - 1,
    ensures
        ({
            let first = sup.action(SessionEnd::Ended, false)->millis;
            let second = sup.after(SessionEnd::Ended, false).action(SessionEnd::Ended, false)->millis;
            &&& 1000 <= first <= 10_000
            &&& sup.machine.attempt == 0 ==> first == 1000
            &&& 2 * first <= 10_000 ==> second == 2 * first
            &&& 2 * first > 10_000 ==> second == 10_000
        }),
{
    let n = sup.machine.attempt as nat;
    stream_state::backoff_doubles(0);
    stream_state::backoff_doubles(n);
    stream_state::backoff_doubles(n + 1);
    stream_state::backoff_doubles(n + 2);
}

/// A status that is set up for a session tells what the session streams, at which rates,
/// and with what; nothing is dropped or wrong yet.
pub proof fn statuses_describe_the_session(status: StreamView, config: PipelineView)
    requires
        config.bitrate() <= u32::MAX,
    ensures
        ({
            let next = status.prepared(config);
            &&& next.state == status.state
            &&& next.source == Some(config.source_label)
            &&& next.fps == config.fps
            &&& next.dropped_frames == 0 && next.last_error is None
            &&& match config.output {
                OutputView::SrtWindow { backend, audio, .. } => {
                    &&& next.capture_backend == Some("wgc"@)
                    &&& next.encoder == Some(backend.ffmpeg_name@)
                    &&& audio.len() > 0 ==> next.bitrate == config.video_kbps + config.audio_kbps
                    &&& audio.len() == 0 ==> next.bitrate == config.video_kbps
                    &&& next.audio_warnings == status.audio_warnings
                },
                OutputView::SrtDevice { backend, audio, .. } => {
                    &&& next.capture_backend == Some("dshow"@)
                    &&& next.encoder == Some(backend.ffmpeg_name@)
                    &&& audio.len() > 0 ==> next.bitrate == config.video_kbps + config.audio_kbps
                    &&& audio.len() == 0 ==> next.bitrate == config.video_kbps
                    &&& next.audio_warnings.len() == 0
                },
                OutputView::St2110 { .. } => {
                    &&& next.capture_backend == Some("st2110"@)
                    &&& next.encoder == Some("st2110-20 raw"@)
                    &&& next.bitrate == config.video_kbps
                    &&& next.audio_warnings.len() == 0
                },
            }
        }),
{
}

/// A part of a text stands in it.
proof fn parts_stand(before: Seq<char>, part: Seq<char>, after: Seq<char>)
    ensures
        text::has_text(before + part + after, part),
{
    let s = before + part + after;
    let n = before.len() as int;
    assert(s.subrange(n, n + part.len()) =~= part);
    assert(text::stands_at(s, part, n));
}

/// What the log tells of a session names its device, and where it connects to or which
/// port it waits on.
pub proof fn openings_name_the_endpoint(output: OutputView)
    ensures
        output is St2110 <==> opening_note_of(output) is None,
        match output {
            OutputView::SrtWindow { destination, .. } => {
                let port = text::decimal(destination.port as nat);
                let note = opening_note_of(output)->0;
                &&& destination.mode == SrtMode::Caller ==> text::has_text(note, destination.host + ":"@ + port)
                &&& destination.mode == SrtMode::Listener ==> text::begins_with(
                    note,
                    "SRT listener on port "@ + port,
                )
            },
            OutputView::SrtDevice { device_name, destination, .. } => {
                let port = text::decimal(destination.port as nat);
                let note = opening_note_of(output)->0;
                &&& text::has_text(note, "capturing '"@ + device_name + "'"@)
                &&& destination.mode == SrtMode::Caller ==> text::has_text(note, destination.host + ":"@ + port)
                &&& destination.mode == SrtMode::Listener ==> text::begins_with(
                    note,
                    "SRT listener on port "@ + port,
                )
            },
            OutputView::St2110 { .. } => true,
        },
{
    match output {
        OutputView::SrtWindow { destination, .. } => {
            let port = text::decimal(destination.port as nat);
            let note = opening_note_of(output)->0;
            let place = destination.host + ":"@ + port;
            let head = "SRT listener on port "@ + port;
            if destination.mode == SrtMode::Caller {
                parts_stand("SRT caller: connecting to "@, place, " …"@);
                assert(note =~= "SRT caller: connecting to "@ + place + " …"@);
            } else {
                assert(note.subrange(0, head.len() as int) =~= head);
            }
        },
        OutputView::SrtDevice { device_name, destination, .. } => {
            let port = text::decimal(destination.port as nat);
            let note = opening_note_of(output)->0;
            let place = destination.host + ":"@ + port;
            let head = "SRT listener on port "@ + port;
            let camera = "capturing '"@ + device_name + "'"@;
            reveal_strlit("capturing '");
            reveal_strlit("'");
            reveal_strlit("SRT caller: capturing '");
            reveal_strlit("SRT caller: ");
            reveal_strlit(": capturing '");
            reveal_strlit(": ");
            reveal_strlit("', connecting to ");
            reveal_strlit(", connecting to ");
            reveal_strlit("', waiting for a caller …");
            reveal_strlit(", waiting for a caller …");
            if destination.mode == SrtMode::Caller {
                let before = "SRT caller: capturing '"@ + device_name + "', connecting to "@;
                parts_stand(before, place, " …"@);
                assert(note =~= before + place + " …"@);
                assert("SRT caller: capturing '"@ =~= "SRT caller: "@ + "capturing '"@);
                assert("', connecting to "@ =~= "'"@ + ", connecting to "@);
                let rest = ", connecting to "@ + place + " …"@;
                parts_stand("SRT caller: "@, camera, rest);
                assert(note =~= "SRT caller: "@ + camera + rest);
            } else {
                assert(note.subrange(0, head.len() as int) =~= head);
                assert(": capturing '"@ =~= ": "@ + "capturing '"@);
                assert("', waiting for a caller …"@ =~= "'"@ + ", waiting for a caller …"@);
                parts_stand(head + ": "@, camera, ", waiting for a caller …"@);
                assert(note =~= (head + ": "@) + camera + ", waiting for a caller …"@);
            }
        },
        OutputView::St2110 { .. } => {},
    }
}

/// What the log tells of a far side that came names the endpoint and ends with the frames
/// sent by then; of one that went, it says so.
pub proof fn peer_notes_name_the_endpoint(destination: DestinationView, written: u64)
    ensures
        ({
            let port = text::decimal(destination.port as nat);
            let came = peer_note_of(destination, true, written);
            let went = peer_note_of(destination, false, written);
            let sent = ": streaming ("@ + text::decimal(written as nat) + " frames sent)"@;
            &&& text::finishes_with(came, sent)
            &&& destination.mode == SrtMode::Listener ==> came == "SRT caller connected on port "@ + port + sent
                && went == "SRT listener on port "@ + port + ": no caller pulling (waiting / disconnected)"@
            &&& destination.mode == SrtMode::Caller ==> came == "SRT connected to "@ + destination.host + ":"@ + port
                + sent && went == "SRT caller to "@ + destination.host + ":"@ + port
                + ": stream stalled (peer not accepting)"@
        }),
{
    let came = peer_note_of(destination, true, written);
    let sent = ": streaming ("@ + text::decimal(written as nat) + " frames sent)"@;
    assert(came.subrange(came.len() - sent.len(), came.len() as int) =~= sent);
}

/// A line that warns of a dropped frame in the real-time buffer is held back; one that
/// says only one of both, and repeats nothing, passes.
pub proof fn drop_warnings_say_both(relay: StderrRelay, tool: Tool, line: Seq<char>, now_ms: u64)
    ensures
        ({
            let buffer = text::has_text(line, "real-time buffer"@);
            let dropped = text::has_text(line, "frame dropped"@);
            let repeat = text::has_text(line, "Last message repeated"@);
            &&& buffer && dropped ==> relay.after(line, now_ms).dropping
            &&& !(buffer && dropped) && !repeat ==> relay.logged(tool, line, now_ms) == Some(
                tool.label() + ": "@ + line,
            ) && !relay.after(line, now_ms).dropping
            &&& !(buffer && dropped) && !relay.dropping ==> relay.logged(tool, line, now_ms) == Some(
                tool.label() + ": "@ + line,
            )
            &&& !(buffer && dropped) && relay.dropping && repeat ==> relay.after(line, now_ms).dropping
            &&& relay.after(line, now_ms).dropping ==> (relay.logged(tool, line, now_ms) is Some <==> (
            relay.last_summary_ms is None || now_ms >= relay.last_summary_ms->0 + 5000))
            &&& relay.after(line, now_ms).dropping && relay.logged(tool, line, now_ms) is Some ==> text::begins_with(
                relay.logged(tool, line, now_ms)->0,
                tool.label() + ": camera frames dropping"@,
            ) && relay.after(line, now_ms).last_summary_ms == Some(now_ms)
            &&& relay.logged(tool, line, now_ms) is None ==> relay.after(line, now_ms).last_summary_ms
                == relay.last_summary_ms
        }),
{
    reveal_strlit(": camera frames dropping");
    reveal_strlit(
        ": camera frames dropping (no consumer draining yet — normal while the SRT listener waits for a caller)",
    );
    let lead = tool.label() + ": camera frames dropping"@;
    let all = tool.label()
        + ": camera frames dropping (no consumer draining yet — normal while the SRT listener waits for a caller)"@;
    assert(all.subrange(0, lead.len() as int) =~= lead);
}

/// FFmpeg runs for an SRT session what its configuration says: its encoder at its bitrate
/// and frame rate, the mixed audio from the local socket exactly if there are channels to
/// mix, and the device or the captured window as its video.
#[verifier::rlimit(40)]
#[verifier::spinoff_prover]
pub proof fn sessions_run_as_configured(
    plan: FfmpegPlan,
    config: PipelineConfig,
    captured: (u32, u32),
    port: u16,
)
    requires
        is_session_plan(plan, config, captured, Some(port)),
        ffmpeg::is_value(config@.output.encoder()),
    ensures
        ({
            let args = plan.args_with(config@.playlist());
            let rate = text::decimal(config.video_kbps as nat) + "k"@;
            &&& text::says(args, "-c:v"@, config@.output.encoder())
            &&& text::says(args, "-b:v"@, rate) && text::count_of(args, "-b:v"@) == 1
            &&& config.fps > 0 ==> text::says(args, "-g"@, text::decimal((2 * config.fps) as nat))
            &&& config@.output.channels().len() > 0 ==> text::count_of(args, "-i"@) == 2 && text::says(
                args,
                "-i"@,
                "tcp://127.0.0.1:"@ + text::decimal(port as nat),
            ) && text::says(args, "-ar"@, text::decimal(48000)) && text::says(args, "-ac"@, text::decimal(2))
                && text::says(args, "-b:a"@, text::decimal(config.audio_kbps as nat) + "k"@)
            &&& config@.output.channels().len() == 0 ==> text::count_of(args, "-i"@) == 1
            &&& match config.output {
                OutputPlan::SrtWindow { destination, max_callers, .. } => {
                    &&& text::says(args, "-i"@, "pipe:0"@)
                    &&& plan.capture_width == captured.0 && plan.capture_height == captured.1
                    &&& plan.destination == destination && plan.max_callers == max_callers
                },
                OutputPlan::SrtDevice { device_name, destination, max_callers, .. } => {
                    &&& text::says(args, "-i"@, "video="@ + device_name@)
                    &&& plan.destination == destination && plan.max_callers == max_callers
                },
                OutputPlan::St2110 { .. } => false,
            }
            &&& plan.out_width == config.out_width && plan.out_height == config.out_height
        }),
{
    let playlist = config@.playlist();
    let args = plan.args_with(playlist);
    reveal_strlit("tcp://127.0.0.1:");
    assert(plan.audio_input@[0] == 't');
    assert(ffmpeg::values_are_values(plan));
    ffmpeg::encoding_follows_the_plan(plan, playlist);
    ffmpeg::audio_is_the_second_input(plan, playlist);
    assert(ffmpeg::shaping_options()[5] == "-b:v"@);
    ffmpeg::options_are_given_once(plan, playlist, "-b:v"@);
    reveal_strlit("-b:v");
    reveal_strlit("-i");
    reveal_strlit("-video_size");
    reveal_strlit("-framerate");
    reveal_strlit("-vf");
    reveal_strlit("-c:a");
    reveal_strlit("-b:a");
    reveal_strlit("-fflags");
    reveal_strlit("-rtbufsize");
    reveal_strlit("-analyzeduration");
    reveal_strlit("-probesize");
    let video = match plan.video_input {
        VideoInput::RawPipe => "pipe:0"@,
        VideoInput::Dshow { device } => "video="@ + device@,
    };
    let pcm = seq![
        "-f"@,
        "s16le"@,
        "-ar"@,
        text::decimal(plan.audio_sample_rate as nat),
        "-ac"@,
        text::decimal(plan.audio_channels as nat),
        "-i"@,
        plan.audio_input@,
    ];
    let k = choose|k: int|
        #![trigger args[k]]
        0 < k < args.len() && args[k - 1] == "-i"@ && args[k] == video && text::count_of(args.take(k), "-i"@) == 1 && (
        plan.audio_enabled ==> k + 8 < args.len() && args.subrange(k + 1, k + 9) == pcm);
    assert(args[k - 1] == "-i"@ && args[k - 1 + 1] == video);
    assert(text::says(args, "-i"@, video));
    if plan.audio_enabled {
        let part = args.subrange(k + 1, k + 9);
        assert(part[2] == args[k + 3] && part[3] == args[k + 4]);
        assert(part[4] == args[k + 5] && part[5] == args[k + 6]);
        assert(part[6] == args[k + 7] && part[7] == args[k + 8]);
        assert(args[k + 3] == "-ar"@ && args[k + 3 + 1] == text::decimal(48000));
        assert(args[k + 5] == "-ac"@ && args[k + 5 + 1] == text::decimal(2));
        assert(args[k + 7] == "-i"@ && args[k + 7 + 1] == plan.audio_input@);
    }
    assert("-b:v"@[1] == 'b' && "-b:v"@[3] == 'v' && "-c:a"@[1] == 'c' && "-b:a"@[3] == 'a');
    assert(text::count_of(args, "-b:v"@) == 1);
    assert(text::says(args, "-c:v"@, config@.output.encoder()));
    assert(config@.output.channels().len() > 0 ==> text::says(args, "-ar"@, text::decimal(48000)));
    assert(config@.output.channels().len() > 0 ==> text::says(args, "-ac"@, text::decimal(2)));
    assert(config@.output.channels().len() > 0 ==> text::says(args, "-i"@, plan.audio_input@));
    assert(match config.output {
        OutputPlan::SrtWindow { destination, max_callers, .. } => text::says(args, "-i"@, "pipe:0"@),
        OutputPlan::SrtDevice { device_name, .. } => text::says(args, "-i"@, "video="@ + device_name@),
        OutputPlan::St2110 { .. } => false,
    });
}

/// Every SRT session can be previewed, and no ST 2110 session can. The tools are called what
/// they are.
pub proof fn srt_sessions_can_be_previewed(output: OutputView, tool: Tool)
    ensures
        preview_problem_of(output) is Some <==> output is St2110,
        tool.label() == "ffmpeg"@ <==> tool == Tool::Ffmpeg,
        tool.label() == "gstreamer"@ <==> tool == Tool::Gstreamer,
{
    reveal_strlit("ffmpeg");
    reveal_strlit("gstreamer");
    assert("ffmpeg"@.len() == 6 && "gstreamer"@.len() == 9);
}

/// An SRT session writes its preview exactly if it has one, as the last leg of its output.
pub proof fn sessions_write_their_preview(plan: FfmpegPlan, config: PipelineConfig)
    requires
        text::lacks(plan.destination.host@, '|'),
        config.preview is Some ==> text::lacks((config.preview->0).playlist@, '|'),
    ensures
        ({
            let legs = text::pieces(plan.args_with(config@.playlist()).last(), '|');
            let callers = plan.destination@.urls(plan.max_callers).len();
            &&& config.preview is None ==> legs.len() == callers
            &&& config.preview is Some ==> legs.len() == callers + 1 && text::finishes_with(
                legs.last(),
                (config.preview->0).playlist@,
            )
        }),
{
    ffmpeg::every_caller_has_a_leg(plan, config@.playlist());
    if config.preview is Some {
        let list = (config.preview->0).playlist@;
        let leg = "[f=hls:onfail=ignore]"@ + list;
        assert(leg.subrange(leg.len() - list.len(), leg.len() as int) =~= list);
    }
}

/// Only frames that are captured here are counted here: those of a window. FFmpeg runs both
/// kinds of SRT session, and GStreamer the others.
pub proof fn monitors_watch_the_right_tool(
    output: OutputView,
    fps: u32,
    now_ms: u64,
    written: u64,
    seen: Observation,
)
    requires
        !seen.stop,
        !seen.restart,
        seen.child is Running,
    ensures
        ({
            let m = Monitor::of_session(output, fps, now_ms, written);
            &&& m.tool == Tool::Gstreamer <==> output is St2110
            &&& output is SrtWindow && !seen.alive ==> m.verdict(seen) == Verdict::End(SessionEnd::Ended)
            &&& !(output is SrtWindow) ==> m.verdict(seen) == (Verdict::GoOn { peer: None })
            &&& m.fps == fps && m.started_ms == now_ms && m.last_check_ms == now_ms && m.last_written == written
            &&& !m.credited_up && !m.peer_connected
        }),
{
}

/// FFmpeg has ten seconds to connect for PCM, and is looked for twenty times in each; no
/// attempt follows one that failed, or a stop.
pub proof fn ffmpeg_has_ten_seconds_to_connect(stop: bool, waited_ms: u64, outcome: AcceptOutcome)
    ensures
        still_accepts(stop, waited_ms) ==> !stop,
        !stop && waited_ms <= 10_000 ==> still_accepts(stop, waited_ms),
        waited_ms > 10_000 ==> !still_accepts(stop, waited_ms),
        next_feed(outcome) is Feed <==> outcome == AcceptOutcome::Accepted,
        next_feed(outcome) is GiveUp <==> outcome == AcceptOutcome::Failed,
        next_feed(outcome) matches FeedAction::Retry { millis } ==> 20 * millis == 1000,
{
}

} // verus!
