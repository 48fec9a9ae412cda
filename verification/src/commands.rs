//! What the commands do.
//!
//! The same start/stop/restart/switch primitives back both the UI commands and
//! the Control Channel dispatcher, so an operator can drive the client remotely.
//! The state here decides; the program around the library holds it, runs the
//! pipeline, writes the configuration and sends the messages.

use vstd::prelude::*;
use vstd::string::*;

use crate::audio::AudioCapture;
use crate::audio::AudioPlan;
use crate::audio::AudioPlanSource;
use crate::audio::CaptureView;
use crate::audio::ChannelView;
use crate::capability::Capabilities;
use crate::config::AudioSource;
use crate::config::AudioSourceKind;
use crate::config::ClientConfig;
use crate::config::Gain;
use crate::config::Identity;
use crate::config::TransportKind;
use crate::config::VideoSourceKind;
use crate::config::MAX_SRT_CALLERS;
use crate::control_channel;
use crate::control_channel::ClientMessage;
use crate::control_channel::CommandAck;
use crate::control_channel::ServerCommand;
use crate::control_channel::Telemetry;
use crate::encoder;
use crate::encoder::Codec;
use crate::encoder::EncoderBackend;
use crate::error;
use crate::error::EncoderError;
use crate::error::ErrorView;
use crate::error::Result;
use crate::gst2110;
use crate::gst2110::EssenceTarget;
use crate::gst2110::Gst2110Audio;
use crate::gst2110::Gst2110Plan;
use crate::gst2110::Gst2110View;
use crate::logger::LogBuffer;
use crate::pipeline::OutputPlan;
use crate::pipeline::OutputView;
use crate::pipeline::PipelineConfig;
use crate::pipeline::PipelineView;
use crate::pipeline::StreamStatus;
use crate::presets;
use crate::presets::QualityPreset;
use crate::srt;
use crate::srt::SrtDestination;
use crate::srt::SrtMode;
use crate::stream_state::StreamState;
use crate::text;

verus! {

/// The bitrate of the muxed audio.
pub const SRT_AUDIO_KBPS: u32 = 160;

// ---------------------------------------------------------------------------
// Audio
// ---------------------------------------------------------------------------

/// What a mixer channel captures, if it names something to capture: an empty
/// device id means the default microphone, and an application channel needs a
/// process.
pub open spec fn capture_of(source: AudioSource) -> Option<CaptureView> {
    match source.kind {
        AudioSourceKind::System => Some(CaptureView::SystemLoopback),
        AudioSourceKind::Microphone => Some(
            CaptureView::Microphone {
                device_id: match source.device_id {
                    Some(id) => if id@.len() == 0 {
                        None
                    } else {
                        Some(id@)
                    },
                    None => None,
                },
            },
        ),
        AudioSourceKind::Application => match source.process_id {
            Some(process_id) => Some(CaptureView::Application { process_id }),
            None => None,
        },
    }
}

/// How a mixer channel is called in warnings.
pub open spec fn channel_label(source: AudioSource) -> Seq<char> {
    match source.label {
        Some(label) => label@,
        None => match source.kind {
            AudioSourceKind::System => "Desktop audio"@,
            AudioSourceKind::Microphone => "Microphone"@,
            AudioSourceKind::Application => "Application"@,
        },
    }
}

/// The channels that are captured and mixed: the live ones, in order.
pub open spec fn live_mix(sources: Seq<AudioSource>) -> Seq<ChannelView>
    decreases sources.len(),
{
    if sources.len() == 0 {
        seq![]
    } else {
        let before = live_mix(sources.drop_last());
        let source = sources.last();
        match capture_of(source) {
            Some(capture) => if source.live() {
                before.push(ChannelView { capture, gain: source.gain, label: channel_label(source) })
            } else {
                before
            },
            None => before,
        }
    }
}

fn capture_for(source: &AudioSource) -> (r: Option<AudioCapture>)
    ensures
        match r {
            Some(capture) => capture_of(*source) == Some(capture@),
            None => capture_of(*source) is None,
        },
{
    match source.kind {
        AudioSourceKind::System => Some(AudioCapture::SystemLoopback),
        AudioSourceKind::Microphone => {
            let device_id = match &source.device_id {
                Some(id) => if id.as_str().unicode_len() == 0 {
                    None
                } else {
                    Some(id.clone())
                },
                None => None,
            };
            Some(AudioCapture::Microphone { device_id })
        },
        AudioSourceKind::Application => match source.process_id {
            Some(process_id) => Some(AudioCapture::Application { process_id }),
            None => None,
        },
    }
}

fn label_for(source: &AudioSource) -> (r: String)
    ensures
        r@ == channel_label(*source),
{
    match &source.label {
        Some(label) => label.clone(),
        None => match source.kind {
            AudioSourceKind::System => "Desktop audio".to_string(),
            AudioSourceKind::Microphone => "Microphone".to_string(),
            AudioSourceKind::Application => "Application".to_string(),
        },
    }
}

/// The channel captures an application on its own.
pub open spec fn is_application(channel: ChannelView) -> bool {
    channel.capture is Application
}

/// Some channel captures an application on its own.
pub open spec fn has_application(mix: Seq<ChannelView>) -> bool {
    exists|i: int| 0 <= i < mix.len() && is_application(#[trigger] mix[i])
}

/// Some channel captures the whole desktop mix.
pub open spec fn has_system(mix: Seq<ChannelView>) -> bool {
    exists|i: int| 0 <= i < mix.len() && (#[trigger] mix[i]).capture is SystemLoopback
}

/// The whole desktop mix, standing in for the applications in it.
pub open spec fn shared_channel(gain: Gain) -> ChannelView {
    ChannelView { capture: CaptureView::SystemLoopback, gain, label: "Desktop audio"@ }
}

/// The system mix stands in for live application channels: there are some, and
/// applications cannot be captured on their own.
pub open spec fn shares_system_mix(sources: Seq<AudioSource>, process_audio: bool) -> bool {
    !process_audio && has_application(live_mix(sources))
}

/// The channels that are captured and mixed on a machine. Where applications cannot
/// be captured on their own, the system mix, which holds them all, takes their
/// place; it is captured once.
pub open spec fn planned_mix(sources: Seq<AudioSource>, process_audio: bool, shared_gain: Gain) -> Seq<
    ChannelView,
> {
    let live = live_mix(sources);
    let others = live.filter(|c: ChannelView| !is_application(c));
    if !shares_system_mix(sources, process_audio) {
        live
    } else if has_system(live) {
        others
    } else {
        seq![shared_channel(shared_gain)] + others
    }
}

/// The gains of the live application channels, in order.
pub open spec fn gains_of_applications(sources: Seq<AudioSource>) -> Seq<Gain> {
    live_mix(sources).filter(|c: ChannelView| is_application(c)).map_values(|c: ChannelView| c.gain)
}

/// The contents of a list of channels.
pub open spec fn channels_of(list: Seq<AudioPlanSource>) -> Seq<ChannelView> {
    list.map_values(|s: AudioPlanSource| s@)
}

/// What there is to mix.
struct LiveChannels {
    /// The live channels, without the applications if they are not wanted.
    kept: Vec<AudioPlanSource>,
    /// The gains of the live application channels.
    application_gains: Vec<Gain>,
    has_system: bool,
}

/// The channel that a source comes to, if it is live and names something to
/// capture.
fn channel_for(source: &AudioSource) -> (r: Option<AudioPlanSource>)
    ensures
        match r {
            Some(channel) => source.live() && capture_of(*source) == Some(channel.capture@) && channel@ == (
            ChannelView {
                capture: channel.capture@,
                gain: source.gain,
                label: channel_label(*source),
            }),
            None => !source.live() || capture_of(*source) is None,
        },
{
    if !source.is_live() {
        return None;
    }
    match capture_for(source) {
        Some(capture) => Some(
            AudioPlanSource { capture, gain: source.gain, label: label_for(source) },
        ),
        None => None,
    }
}

fn live_channels(sources: &Vec<AudioSource>, with_applications: bool) -> (r: LiveChannels)
    ensures
        channels_of(r.kept@) == live_mix(sources@).filter(
            |c: ChannelView| with_applications || !is_application(c),
        ),
        r.application_gains@ == gains_of_applications(sources@),
        r.has_system == has_system(live_mix(sources@)),
{
    let mut kept: Vec<AudioPlanSource> = Vec::new();
    let mut gains: Vec<Gain> = Vec::new();
    let mut system: bool = false;
    let n: usize = sources.len();
    let ghost wanted = |c: ChannelView| with_applications || !is_application(c);
    let ghost application = |c: ChannelView| is_application(c);
    let ghost gain = |c: ChannelView| c.gain;
    proof {
        reveal(Seq::filter);
        assert(channels_of(kept@) =~= live_mix(sources@.take(0)).filter(wanted));
        assert(gains@ =~= live_mix(sources@.take(0)).filter(application).map_values(gain));
    }
    for i in 0..n
        invariant
            n == sources@.len(),
            wanted == (|c: ChannelView| with_applications || !is_application(c)),
            application == (|c: ChannelView| is_application(c)),
            gain == (|c: ChannelView| c.gain),
            channels_of(kept@) == live_mix(sources@.take(i as int)).filter(wanted),
            gains@ == live_mix(sources@.take(i as int)).filter(application).map_values(gain),
            system == has_system(live_mix(sources@.take(i as int))),
    {
        let ghost before = live_mix(sources@.take(i as int));
        let ghost after = live_mix(sources@.take(i + 1));
        proof {
            let seen = sources@.take(i + 1);
            assert(seen.drop_last() =~= sources@.take(i as int));
            assert(seen.last() == sources@[i as int]);
        }
        if let Some(channel) = channel_for(&sources[i]) {
            let ghost kept_before = kept@;
            let (is_app, is_system) = match &channel.capture {
                AudioCapture::Application { .. } => (true, false),
                AudioCapture::SystemLoopback => (false, true),
                AudioCapture::Microphone { .. } => (false, false),
            };
            proof {
                reveal(Seq::filter);
                assert(after == before.push(channel@));
                assert(after.drop_last() =~= before);
                assert(after.last() == channel@);
                one_more_channel(before, channel@);
            }
            if is_app {
                gains.push(channel.gain);
                assert(after.filter(application) == before.filter(application).push(channel@));
                assert(gains@ =~= after.filter(application).map_values(gain));
            }
            if with_applications || !is_app {
                kept.push(channel);
                assert(channels_of(kept@) =~= channels_of(kept_before).push(channel@));
            }
            system = system || is_system;
        } else {
            assert(after == before);
        }
    }
    assert(sources@.take(n as int) =~= sources@);
    LiveChannels { kept, application_gains: gains, has_system: system }
}

proof fn one_more_channel(mix: Seq<ChannelView>, channel: ChannelView)
    ensures
        has_system(mix.push(channel)) <==> has_system(mix) || channel.capture is SystemLoopback,
{
    let more = mix.push(channel);
    if has_system(mix) {
        let k = choose|k: int| 0 <= k < mix.len() && (#[trigger] mix[k]).capture is SystemLoopback;
        assert(more[k].capture is SystemLoopback);
    }
    if channel.capture is SystemLoopback {
        assert(more[mix.len() as int].capture is SystemLoopback);
    }
    if has_system(more) {
        let k = choose|k: int| 0 <= k < more.len() && (#[trigger] more[k]).capture is SystemLoopback;
        if k < mix.len() {
            assert(mix[k].capture is SystemLoopback);
        }
    }
}

/// The gains of the live application channels. The gain of a system mix that stands
/// in for them is computed from these.
pub fn application_gains(config: &ClientConfig) -> (r: Vec<Gain>)
    ensures
        r@ == gains_of_applications(config.audio.sources@),
{
    live_channels(&config.audio.sources, true).application_gains
}

/// What the audio engine captures and mixes: the config's live channels; and whether
/// the system mix stands in for those that are applications. `process_audio` tells
/// if applications can be captured on their own, `shared_gain` at what gain the
/// system mix takes their place.
pub fn build_audio_plan(config: &ClientConfig, process_audio: bool, shared_gain: Gain) -> (r: (
    AudioPlan,
    bool,
))
    ensures
        r.0@ == planned_mix(config.audio.sources@, process_audio, shared_gain),
        r.1 == shares_system_mix(config.audio.sources@, process_audio),
{
    let live = live_channels(&config.audio.sources, process_audio);
    proof {
        let mix = live_mix(config.audio.sources@);
        applications_are_found(mix);
        keeping_all_changes_nothing(mix, |c: ChannelView| process_audio || !is_application(c));
        assert(process_audio || (|c: ChannelView| process_audio || !is_application(c))
            =~= (|c: ChannelView| !is_application(c)));
    }
    let shared = !process_audio && live.application_gains.len() > 0;
    if !shared || live.has_system {
        return (AudioPlan { sources: live.kept }, shared);
    }
    // Without per-process isolation the applications share the system render
    // loopback.
    let mut others = live.kept;
    let ghost rest = others@;
    let mut sources: Vec<AudioPlanSource> = Vec::new();
    sources.push(
        AudioPlanSource {
            capture: AudioCapture::SystemLoopback,
            gain: shared_gain,
            label: "Desktop audio".to_string(),
        },
    );
    sources.append(&mut others);
    let plan = AudioPlan { sources };
    assert(plan@ =~= seq![shared_channel(shared_gain)] + channels_of(rest));
    (plan, true)
}

proof fn keeping_all_changes_nothing(mix: Seq<ChannelView>, keep: spec_fn(ChannelView) -> bool)
    ensures
        (forall|i: int| 0 <= i < mix.len() ==> keep(#[trigger] mix[i])) ==> mix.filter(keep) == mix,
    decreases mix.len(),
{
    reveal(Seq::filter);
    if mix.len() > 0 {
        let before = mix.drop_last();
        keeping_all_changes_nothing(before, keep);
        if forall|i: int| 0 <= i < mix.len() ==> keep(#[trigger] mix[i]) {
            assert(forall|i: int| 0 <= i < before.len() ==> #[trigger] before[i] == mix[i]);
            assert(keep(mix[mix.len() - 1]));
            assert(before.push(mix.last()) =~= mix);
        }
    } else {
        assert(mix.filter(keep) =~= mix);
    }
}

proof fn applications_are_found(mix: Seq<ChannelView>)
    ensures
        has_application(mix) <==> mix.filter(|c: ChannelView| is_application(c)).len() > 0,
    decreases mix.len(),
{
    reveal(Seq::filter);
    if mix.len() > 0 {
        let before = mix.drop_last();
        applications_are_found(before);
        if has_application(before) {
            let k = choose|k: int| 0 <= k < before.len() && is_application(#[trigger] before[k]);
            assert(is_application(mix[k]));
        }
        if is_application(mix.last()) {
            assert(is_application(mix[mix.len() - 1]));
        }
        if has_application(mix) {
            let k = choose|k: int| 0 <= k < mix.len() && is_application(#[trigger] mix[k]);
            if k < before.len() {
                assert(is_application(before[k]));
            }
        }
    }
}

// ---------------------------------------------------------------------------
// Session configuration
// ---------------------------------------------------------------------------

/// The encoder for a stream: HEVC only if it is asked for and there is one, else
/// H.264.
pub open spec fn chosen_backend(
    experimental_hevc: bool,
    available: Seq<Seq<char>>,
    allow_software: bool,
) -> Option<EncoderBackend> {
    let hevc = encoder::selected(Codec::Hevc, available, allow_software);
    if experimental_hevc && hevc is Some {
        hevc
    } else {
        encoder::selected(Codec::H264, available, allow_software)
    }
}

/// The video bitrate of a profile with a backend.
pub open spec fn video_rate(preset: QualityPreset, backend: EncoderBackend) -> u32 {
    match backend.codec {
        Codec::H264 => preset.h264_kbps,
        Codec::Hevc => preset.hevc_kbps,
    }
}

/// How many callers are served: a caller has a single output, a listener one to
/// three.
pub open spec fn callers_served(config: ClientConfig) -> u8 {
    match config.srt_mode {
        SrtMode::Caller => 1,
        SrtMode::Listener => if config.srt_max_callers < 1 {
            1
        } else if config.srt_max_callers > MAX_SRT_CALLERS {
            MAX_SRT_CALLERS
        } else {
            config.srt_max_callers
        },
    }
}

/// A device with the label of a profile.
pub open spec fn device_label(device: Seq<char>, preset: QualityPreset) -> Seq<char> {
    device + " ("@ + preset.label@ + ")"@
}

/// Where an SRT stream's video comes from, with its label: the chosen device if
/// the source is one, else the window that was picked, if any.
pub open spec fn srt_output(
    config: ClientConfig,
    preset: QualityPreset,
    window: Option<(isize, String)>,
    backend: EncoderBackend,
    destination: srt::DestinationView,
    audio: Seq<ChannelView>,
) -> Option<(Seq<char>, OutputView)> {
    let max_callers = callers_served(config);
    if config.video_source.kind == VideoSourceKind::Device && config.video_source.device() is Some {
        let device_name = config.video_source.device()->0;
        Some(
            (
                device_label(device_name, preset),
                OutputView::SrtDevice { device_name, backend, destination, max_callers, audio },
            ),
        )
    } else {
        match window {
            Some((window_id, label)) => Some(
                (
                    label@,
                    OutputView::SrtWindow { window_id, backend, destination, max_callers, audio },
                ),
            ),
            None => None,
        }
    }
}

/// The session of an SRT stream, or why there is none.
pub open spec fn srt_session(
    config: ClientConfig,
    available: Seq<Seq<char>>,
    preset: QualityPreset,
    window: Option<(isize, String)>,
    process_audio: bool,
    shared_gain: Gain,
) -> std::result::Result<PipelineView, ErrorView> {
    match srt::parsed(
        config.destination_host@,
        config.destination_port,
        config.latency_ms,
        config.srt_mode,
    ) {
        Err(e) => Err(e),
        Ok(destination) => match chosen_backend(
            config.encoder.experimental_hevc,
            available,
            config.encoder.allow_software,
        ) {
            None => Err(
                ErrorView::Encoder(
                    "no compatible hardware encoder found. Update GPU drivers or enable the software fallback in settings."@,
                ),
            ),
            Some(backend) => match srt_output(
                config,
                preset,
                window,
                backend,
                destination,
                planned_mix(config.audio.sources@, process_audio, shared_gain),
            ) {
                None => Err(
                    ErrorView::Config(
                        "no capture source selected. Pick a camera / capture card (or a window)."@,
                    ),
                ),
                Some((source_label, output)) => Ok(
                    PipelineView {
                        source_label,
                        fps: preset.frame_rate,
                        out_width: preset.width,
                        out_height: preset.height,
                        video_kbps: video_rate(preset, backend),
                        audio_kbps: SRT_AUDIO_KBPS,
                        output,
                        shared_audio: shares_system_mix(config.audio.sources@, process_audio),
                        preview: None,
                    },
                ),
            },
        },
    }
}

/// The next dynamic payload type after video's: the last one is followed by the
/// first.
pub open spec fn audio_payload_type(video: u8) -> u8 {
    if video < 127 {
        (video + 1) as u8
    } else {
        96
    }
}

/// The audio essence of an ST 2110 stream, if there is one, or why there cannot
/// be.
pub open spec fn st2110_audio(config: ClientConfig) -> std::result::Result<Option<Gst2110Audio>, ErrorView> {
    if config.st2110.audio_enabled {
        match gst2110::target_of(config.st2110.audio_dest_ip@, config.st2110.audio_dest_port) {
            Err(e) => Err(e),
            Ok(target) => Ok(
                Some(
                    Gst2110Audio {
                        target,
                        payload_type: audio_payload_type(config.st2110.payload_type),
                        sample_rate: gst2110::AUDIO_SAMPLE_RATE,
                        channels: gst2110::AUDIO_CHANNELS,
                    },
                ),
            ),
        }
    } else {
        Ok(None)
    }
}

/// The interface that an ST 2110 stream is pinned to, if any.
pub open spec fn st2110_interface(config: ClientConfig) -> Option<Seq<char>> {
    if text::trimmed(config.st2110.interface_ip@).len() == 0 {
        None
    } else {
        Some(text::trimmed(config.st2110.interface_ip@))
    }
}

/// The GStreamer plan of an ST 2110 stream, or why there is none.
pub open spec fn st2110_plan(
    config: ClientConfig,
    device_name: Seq<char>,
    preset: QualityPreset,
) -> std::result::Result<Gst2110View, ErrorView> {
    match gst2110::target_of(config.st2110.video_dest_ip@, config.st2110.video_dest_port) {
        Err(e) => Err(e),
        Ok(video) => match st2110_audio(config) {
            Err(e) => Err(e),
            Ok(audio) => gst2110::planned(
                device_name,
                preset,
                video,
                config.st2110.payload_type,
                config.st2110.ptp_domain,
                st2110_interface(config),
                audio,
            ),
        },
    }
}

/// The wire rate of a profile in kbit/s.
pub open spec fn wire_kbps(preset: QualityPreset) -> u32 {
    if preset.st2110_mbps * 1000 <= u32::MAX {
        (preset.st2110_mbps * 1000) as u32
    } else {
        u32::MAX
    }
}

/// The session of an ST 2110 stream, or why there is none.
pub open spec fn st2110_session(
    config: ClientConfig,
    gstreamer_available: bool,
    gstreamer_path: Seq<char>,
    preset: QualityPreset,
) -> std::result::Result<PipelineView, ErrorView> {
    if !gstreamer_available {
        Err(
            ErrorView::Config(
                "ST 2110 output requires GStreamer, which was not found. Install GStreamer (with the RTP / rawvideo plugins) or switch the transport to SRT."@,
            ),
        )
    } else if config.video_source.device() is None {
        Err(
            ErrorView::Config(
                "no capture device selected. Pick a camera or capture card for ST 2110 output."@,
            ),
        )
    } else {
        let device_name = config.video_source.device_name->0@;
        match st2110_plan(config, device_name, preset) {
            Err(e) => Err(e),
            Ok(gst) => Ok(
                PipelineView {
                    source_label: device_label(device_name, preset),
                    fps: preset.frame_rate,
                    out_width: preset.width,
                    out_height: preset.height,
                    video_kbps: wire_kbps(preset),
                    audio_kbps: 0,
                    output: OutputView::St2110 {
                        gst,
                        gstreamer_path,
                        sdp: gst.sdp(config.st2110.interface_ip@),
                    },
                    shared_audio: false,
                    preview: None,
                },
            ),
        }
    }
}

/// SRT path: FFmpeg encode + SRT. Video comes either from a camera / capture
/// card (DirectShow) or, for games, a captured window (WGC).
pub fn build_srt_config(
    config: &ClientConfig,
    caps: &Capabilities,
    preset: &QualityPreset,
    window: &Option<(isize, String)>,
    shared_gain: Gain,
) -> (r: Result<PipelineConfig>)
    ensures
        error::outcome(r) == srt_session(
            *config,
            text::texts(caps.encoders@),
            *preset,
            *window,
            caps.process_audio,
            shared_gain,
        ),
{
    let destination = match SrtDestination::parse(
        config.destination_host.as_str(),
        config.destination_port,
        config.latency_ms,
        config.srt_mode,
    ) {
        Ok(destination) => destination,
        Err(e) => return Err(e),
    };

    // Codec preference: experimental HEVC only if explicitly enabled, else H264.
    let hevc = if config.encoder.experimental_hevc {
        encoder::select(Codec::Hevc, caps.encoders.as_slice(), config.encoder.allow_software)
    } else {
        None
    };
    let backend = match hevc {
        Some(backend) => backend,
        None => match encoder::select(
            Codec::H264,
            caps.encoders.as_slice(),
            config.encoder.allow_software,
        ) {
            Some(backend) => backend,
            None => return Err(
                EncoderError::Encoder(
                    "no compatible hardware encoder found. Update GPU drivers or enable the software fallback in settings.".to_string(),
                ),
            ),
        },
    };

    let video_kbps: u32 = match backend.codec {
        Codec::H264 => preset.h264_kbps,
        Codec::Hevc => preset.hevc_kbps,
    };

    // Multi-caller fan-out only applies when we listen; a caller always has
    // a single output.
    let max_callers: u8 = match config.srt_mode {
        SrtMode::Listener => if config.srt_max_callers < 1 {
            1
        } else if config.srt_max_callers > MAX_SRT_CALLERS {
            MAX_SRT_CALLERS
        } else {
            config.srt_max_callers
        },
        SrtMode::Caller => 1,
    };

    // Choose the video source: a physical capture device is the broadcast
    // default; a window is the game-capture path.
    let device_name = match config.video_source.kind {
        VideoSourceKind::Device => match &config.video_source.device_name {
            Some(name) => {
                let name = text::trim(name.as_str());
                if name.unicode_len() == 0 {
                    None
                } else {
                    Some(name.to_string())
                }
            },
            None => None,
        },
        VideoSourceKind::Window => None,
    };

    let (audio_plan, shared_audio) = build_audio_plan(config, caps.process_audio, shared_gain);
    let (source_label, output) = match device_name {
        Some(device_name) => {
            let label = device_name.clone().concat(" (").concat(preset.label).concat(")");
            (
                label,
                OutputPlan::SrtDevice { device_name, backend, destination, max_callers, audio_plan },
            )
        },
        None => match window {
            Some((window_id, label)) => (
                label.clone(),
                OutputPlan::SrtWindow {
                    window_id: *window_id,
                    backend,
                    destination,
                    max_callers,
                    audio_plan,
                },
            ),
            None => return Err(
                EncoderError::Config(
                    "no capture source selected. Pick a camera / capture card (or a window).".to_string(),
                ),
            ),
        },
    };

    Ok(
        PipelineConfig {
            source_label,
            fps: preset.frame_rate,
            out_width: preset.width,
            out_height: preset.height,
            video_kbps,
            audio_kbps: SRT_AUDIO_KBPS,
            output,
            shared_audio,
            preview: None,
        },
    )
}

/// Resolve the GStreamer plan of an ST 2110 stream.
fn build_gst_plan(config: &ClientConfig, device_name: &str, preset: &QualityPreset) -> (r: Result<
    Gst2110Plan,
>)
    ensures
        error::outcome(r) == st2110_plan(*config, device_name@, *preset),
{
    let st = &config.st2110;
    let video = match EssenceTarget::parse(st.video_dest_ip.as_str(), st.video_dest_port) {
        Ok(video) => video,
        Err(e) => return Err(e),
    };
    let audio = if st.audio_enabled {
        match EssenceTarget::parse(st.audio_dest_ip.as_str(), st.audio_dest_port) {
            Ok(target) => {
                // Audio uses the next dynamic payload type (96-127) after video.
                let payload_type: u8 = if st.payload_type < 127 {
                    st.payload_type + 1
                } else {
                    96
                };
                Some(
                    Gst2110Audio {
                        target,
                        payload_type,
                        sample_rate: gst2110::AUDIO_SAMPLE_RATE,
                        channels: gst2110::AUDIO_CHANNELS,
                    },
                )
            },
            Err(e) => return Err(e),
        }
    } else {
        None
    };
    let interface = {
        let ip = text::trim(st.interface_ip.as_str());
        if ip.unicode_len() == 0 {
            None
        } else {
            Some(ip.to_string())
        }
    };
    Gst2110Plan::from_profile(
        device_name,
        preset,
        video,
        st.payload_type,
        st.ptp_domain,
        interface,
        audio,
    )
}

fn wire_rate(preset: &QualityPreset) -> (r: u32)
    ensures
        r == wire_kbps(*preset),
{
    if preset.st2110_mbps <= u32::MAX / 1000 {
        preset.st2110_mbps * 1000
    } else {
        u32::MAX
    }
}

/// Broadcast IP path: GStreamer device capture -> ST 2110 RTP.
pub fn build_st2110_config(config: &ClientConfig, caps: &Capabilities, preset: &QualityPreset) -> (r:
    Result<PipelineConfig>)
    ensures
        error::outcome(r) == st2110_session(
            *config,
            caps.gstreamer_available,
            caps.gstreamer_path@,
            *preset,
        ),
{
    if !caps.gstreamer_available {
        return Err(
            EncoderError::Config(
                "ST 2110 output requires GStreamer, which was not found. Install GStreamer (with the RTP / rawvideo plugins) or switch the transport to SRT.".to_string(),
            ),
        );
    }
    let device_name = match &config.video_source.device_name {
        Some(name) if text::trim(name.as_str()).unicode_len() > 0 => name.as_str(),
        _ => return Err(
            EncoderError::Config(
                "no capture device selected. Pick a camera or capture card for ST 2110 output.".to_string(),
            ),
        ),
    };
    let gst = match build_gst_plan(config, device_name, preset) {
        Ok(gst) => gst,
        Err(e) => return Err(e),
    };
    let sdp = gst.to_sdp(config.st2110.interface_ip.as_str());

    Ok(
        PipelineConfig {
            source_label: device_name.to_string().concat(" (").concat(preset.label).concat(")"),
            fps: preset.frame_rate,
            out_width: preset.width,
            out_height: preset.height,
            // Report the uncompressed ST 2110-20 rate (Mbit/s -> kbps) so the UI
            // reflects the real wire bandwidth this profile needs.
            video_kbps: wire_rate(preset),
            audio_kbps: 0,
            output: OutputPlan::St2110 { gst, gstreamer_path: caps.gstreamer_path.clone(), sdp },
            shared_audio: false,
            preview: None,
        },
    )
}

// ---------------------------------------------------------------------------
// Application state
// ---------------------------------------------------------------------------

/// What the commands act on.
pub struct AppStateInner {
    pub config: ClientConfig,
    pub caps: Capabilities,
    pub identity: Identity,
    /// Window the player picked (id + label), set from the UI before start.
    pub selected_window: Option<(isize, String)>,
    /// The gain of a system mix that stands in for application channels (see
    /// `application_gains`).
    pub shared_gain: Gain,
    /// A pipeline is running.
    pub running: bool,
    /// There is a Control Channel to send messages on.
    pub connected: bool,
}

/// What is to be done to bring a stream back up.
#[derive(Debug, Clone)]
pub enum Restart {
    /// A pipeline is running: ask it to restart.
    Signal,
    /// None is running: start one.
    Start(PipelineConfig),
}

/// What came of asking for a restart.
pub enum RestartView {
    Signal,
    Start(PipelineView),
}

impl View for Restart {
    type V = RestartView;

    open spec fn view(&self) -> RestartView {
        match self {
            Restart::Signal => RestartView::Signal,
            Restart::Start(config) => RestartView::Start(config@),
        }
    }
}

impl AppStateInner {
    /// The session that the configuration describes, or why it describes none.
    pub open spec fn session(self) -> std::result::Result<PipelineView, ErrorView> {
        let preset = presets::resolved(self.config.preset_id@);
        match self.config.transport {
            TransportKind::Srt => srt_session(
                self.config,
                text::texts(self.caps.encoders@),
                preset,
                self.selected_window,
                self.caps.process_audio,
                self.shared_gain,
            ),
            TransportKind::St2110 => st2110_session(
                self.config,
                self.caps.gstreamer_available,
                self.caps.gstreamer_path@,
                preset,
            ),
        }
    }

    /// The state once a stream was asked for: a pipeline runs if one could be
    /// configured, or if one ran before.
    pub open spec fn after_start(self) -> AppStateInner {
        AppStateInner { running: self.running || self.session() is Ok, ..self }
    }

    /// What a restart comes to.
    pub open spec fn restart_plan(self) -> std::result::Result<RestartView, ErrorView> {
        if self.running {
            Ok(RestartView::Signal)
        } else {
            match self.session() {
                Ok(session) => Ok(RestartView::Start(session)),
                Err(e) => Err(e),
            }
        }
    }

    /// The same state but for the profile, which is now the given one.
    pub open spec fn has_switched(self, to: AppStateInner, preset_id: Seq<char>) -> bool {
        &&& to.config.preset_id@ == preset_id
        &&& to == (AppStateInner {
            config: ClientConfig { preset_id: to.config.preset_id, ..self.config },
            ..self
        })
    }

    /// Resolve the configuration to one streaming session.
    pub fn build_pipeline_config(&self) -> (r: Result<PipelineConfig>)
        ensures
            error::outcome(r) == self.session(),
    {
        let preset = presets::resolve_or_default(self.config.preset_id.as_str());
        match self.config.transport {
            TransportKind::Srt => build_srt_config(
                &self.config,
                &self.caps,
                &preset,
                &self.selected_window,
                self.shared_gain,
            ),
            TransportKind::St2110 => build_st2110_config(&self.config, &self.caps, &preset),
        }
    }

    /// Start streaming: what to run, in place of what is running. A configuration
    /// that cannot be streamed leaves what is running alone.
    pub fn start(&mut self) -> (r: Result<PipelineConfig>)
        ensures
            error::outcome(r) == old(self).session(),
            *final(self) == old(self).after_start(),
    {
        let config = self.build_pipeline_config();
        if config.is_ok() {
            self.running = true;
        }
        config
    }

    /// Stop streaming: whether there is a pipeline to stop.
    pub fn stop(&mut self) -> (r: bool)
        ensures
            r == old(self).running,
            *final(self) == (AppStateInner { running: false, ..*old(self) }),
    {
        let was_running = self.running;
        self.running = false;
        was_running
    }

    /// Restart the stream, or start it if none is running.
    pub fn restart(&mut self) -> (r: Result<Restart>)
        ensures
            error::outcome(r) == old(self).restart_plan(),
            *final(self) == (if old(self).running {
                *old(self)
            } else {
                old(self).after_start()
            }),
    {
        if self.running {
            return Ok(Restart::Signal);
        }
        match self.start() {
            Ok(config) => Ok(Restart::Start(config)),
            Err(e) => Err(e),
        }
    }

    /// Choose another profile. It is then to be saved, and to be taken up by a
    /// running pipeline (see `retuned`).
    pub fn switch_quality(&mut self, preset_id: &str) -> (r: Result<()>)
        ensures
            match r {
                Ok(_) => presets::named(preset_id@) is Some && old(self).has_switched(
                    *final(self),
                    preset_id@,
                ),
                Err(e) => {
                    &&& presets::named(preset_id@) is None
                    &&& e@ == ErrorView::Config("unknown preset '"@ + preset_id@ + "'"@)
                    &&& *final(self) == *old(self)
                },
            },
    {
        if presets::find(preset_id).is_none() {
            return Err(
                EncoderError::Config(
                    "unknown preset '".to_string().concat(preset_id).concat("'"),
                ),
            );
        }
        self.config.preset_id = preset_id.to_string();
        Ok(())
    }

    /// What a running pipeline is to be updated to. When none is running the
    /// profile is saved for the next start.
    pub fn retuned(&self) -> (r: Result<Option<PipelineConfig>>)
        ensures
            match r {
                Ok(Some(config)) => self.running && self.session() == Ok::<PipelineView, ErrorView>(
                    config@,
                ),
                Ok(None) => !self.running && self.session() is Ok,
                Err(e) => self.session() == Err::<PipelineView, ErrorView>(e@),
            },
    {
        match self.build_pipeline_config() {
            Ok(config) => if self.running {
                Ok(Some(config))
            } else {
                Ok(None)
            },
            Err(e) => Err(e),
        }
    }

    /// The player picked a window.
    pub fn select_window(&mut self, window_id: i64, label: String)
        ensures
            *final(self) == (AppStateInner {
                selected_window: Some((window_id as isize, label)),
                ..*old(self)
            }),
    {
        self.selected_window = Some((window_id as isize, label));
    }

    /// The status of the pipeline, or of none.
    pub fn status(&self, current: Option<StreamStatus>) -> (r: StreamStatus)
        ensures
            match current {
                Some(status) => r == status,
                None => r@ == crate::pipeline::StreamView::idle(),
            },
    {
        match current {
            Some(status) => status,
            None => StreamStatus::default(),
        }
    }
}

/// The endpoint of the Control Channel, if one is configured.
pub fn control_url(config: &ClientConfig) -> (r: Option<String>)
    ensures
        match r {
            Some(url) => text::opt_text(config.control_channel_url) == Some(url@) && text::trimmed(
                url@,
            ).len() > 0,
            None => match config.control_channel_url {
                Some(url) => text::trimmed(url@).len() == 0,
                None => true,
            },
        },
{
    match &config.control_channel_url {
        Some(url) => if text::trim(url.as_str()).unicode_len() == 0 {
            None
        } else {
            Some(url.clone())
        },
        None => None,
    }
}

/// The message that announces the client on the Control Channel.
pub fn hello_message(identity: &Identity) -> (r: ClientMessage)
    ensures
        r@ == (control_channel::MessageView::Hello {
            player_id: identity.player_id@,
            session_id: identity.session_id@,
            display_name: identity.display_name@,
        }),
{
    ClientMessage::Hello {
        player_id: identity.player_id.clone(),
        session_id: identity.session_id.clone(),
        display_name: identity.display_name.clone(),
    }
}

/// What the control plane is told of a stream.
pub open spec fn telemetry_of(identity: Identity, status: StreamStatus) -> control_channel::TelemetryView {
    control_channel::TelemetryView {
        player_id: identity.player_id@,
        session_id: identity.session_id@,
        display_name: identity.display_name@,
        source: status@.source,
        streaming: status.state == StreamState::Streaming || status.state == StreamState::Degraded,
        state: status.state,
        fps: status.fps,
        bitrate: status.bitrate,
        dropped_frames: status.dropped_frames,
        encoder: status@.encoder,
        capture_backend: status@.capture_backend,
        last_error: status@.last_error,
    }
}

/// Build a telemetry message from current status + identity.
pub fn telemetry_message(identity: &Identity, status: StreamStatus) -> (r: ClientMessage)
    ensures
        r@ == control_channel::MessageView::Telemetry(
            control_channel::TelemetryView {
                player_id: identity.player_id@,
                session_id: identity.session_id@,
                display_name: identity.display_name@,
                source: status@.source,
                streaming: status.state == StreamState::Streaming || status.state
                    == StreamState::Degraded,
                state: status.state,
                fps: status.fps,
                bitrate: status.bitrate,
                dropped_frames: status.dropped_frames,
                encoder: status@.encoder,
                capture_backend: status@.capture_backend,
                last_error: status@.last_error,
            },
        ),
        r@ == control_channel::MessageView::Telemetry(telemetry_of(*identity, status)),
{
    let streaming = match status.state {
        StreamState::Streaming | StreamState::Degraded => true,
        _ => false,
    };
    ClientMessage::Telemetry(
        Telemetry {
            player_id: identity.player_id.clone(),
            session_id: identity.session_id.clone(),
            display_name: identity.display_name.clone(),
            source: status.source,
            streaming,
            state: status.state,
            fps: status.fps,
            bitrate: status.bitrate,
            dropped_frames: status.dropped_frames,
            encoder: status.encoder,
            capture_backend: status.capture_backend,
            last_error: status.last_error,
        },
    )
}

// ---------------------------------------------------------------------------
// Pushed configuration
// ---------------------------------------------------------------------------

/// The fields of a pushed configuration that are taken up.
#[derive(Debug, Clone)]
pub struct PushedConfig {
    pub preset_id: Option<String>,
    pub destination_host: Option<String>,
    pub destination_port: Option<u64>,
    pub latency_ms: Option<u64>,
    pub control_channel_url: Option<String>,
}

/// A pushed configuration with its strings as characters.
pub struct PushedView {
    pub preset_id: Option<Seq<char>>,
    pub destination_host: Option<Seq<char>>,
    pub destination_port: Option<u64>,
    pub latency_ms: Option<u64>,
    pub control_channel_url: Option<Seq<char>>,
}

impl View for PushedConfig {
    type V = PushedView;

    open spec fn view(&self) -> PushedView {
        PushedView {
            preset_id: text::opt_text(self.preset_id),
            destination_host: text::opt_text(self.destination_host),
            destination_port: self.destination_port,
            latency_ms: self.latency_ms,
            control_channel_url: text::opt_text(self.control_channel_url),
        }
    }
}

/// The low 32 bits of a number.
pub open spec fn low32(n: u64) -> u32 {
    (n % 0x1_0000_0000) as u32
}

/// `after` is `before` with a pushed configuration taken up: a profile only if it
/// exists, numbers by their low 32 bits, and nothing but these fields.
pub open spec fn takes_up(before: ClientConfig, pushed: PushedView, after: ClientConfig) -> bool {
    &&& after.preset_id@ == (match pushed.preset_id {
        Some(id) => if presets::named(id) is Some {
            id
        } else {
            before.preset_id@
        },
        None => before.preset_id@,
    })
    &&& after.destination_host@ == (match pushed.destination_host {
        Some(host) => host,
        None => before.destination_host@,
    })
    &&& after.destination_port == (match pushed.destination_port {
        Some(port) => low32(port),
        None => before.destination_port,
    })
    &&& after.latency_ms == (match pushed.latency_ms {
        Some(latency) => low32(latency),
        None => before.latency_ms,
    })
    &&& text::opt_text(after.control_channel_url) == (match pushed.control_channel_url {
        Some(url) => Some(url),
        None => text::opt_text(before.control_channel_url),
    })
    &&& after == (ClientConfig {
        preset_id: after.preset_id,
        destination_host: after.destination_host,
        destination_port: after.destination_port,
        latency_ms: after.latency_ms,
        control_channel_url: after.control_channel_url,
        ..before
    })
}

fn truncated(n: u64) -> (r: u32)
    ensures
        r == low32(n),
{
    (n % 0x1_0000_0000) as u32
}

/// Merge only known, safe fields from a pushed config.
pub fn apply_pushed(config: &mut ClientConfig, pushed: &PushedConfig)
    ensures
        takes_up(*old(config), pushed@, *final(config)),
{
    if let Some(preset) = &pushed.preset_id {
        if presets::find(preset.as_str()).is_some() {
            config.preset_id = preset.clone();
        }
    }
    if let Some(host) = &pushed.destination_host {
        config.destination_host = host.clone();
    }
    if let Some(port) = pushed.destination_port {
        config.destination_port = truncated(port);
    }
    if let Some(latency) = pushed.latency_ms {
        config.latency_ms = truncated(latency);
    }
    if let Some(url) = &pushed.control_channel_url {
        config.control_channel_url = Some(url.clone());
    }
}

/// What a JSON value pushes.
pub open spec fn pushed_by(value: serde_json::Value) -> PushedView {
    let strings = control_channel::string_members(value);
    let numbers = control_channel::unsigned_members(value);
    PushedView {
        preset_id: if strings.contains_key("presetId"@) {
            Some(strings["presetId"@])
        } else {
            None
        },
        destination_host: if strings.contains_key("destinationHost"@) {
            Some(strings["destinationHost"@])
        } else {
            None
        },
        destination_port: if numbers.contains_key("destinationPort"@) {
            Some(numbers["destinationPort"@])
        } else {
            None
        },
        latency_ms: if numbers.contains_key("latencyMs"@) {
            Some(numbers["latencyMs"@])
        } else {
            None
        },
        control_channel_url: if strings.contains_key("controlChannelUrl"@) {
            Some(strings["controlChannelUrl"@])
        } else {
            None
        },
    }
}

/// Take up a configuration that the operator pushed.
pub fn apply_pushed_config(config: &mut ClientConfig, value: &serde_json::Value)
    ensures
        takes_up(*old(config), pushed_by(*value), *final(config)),
{
    let pushed = PushedConfig {
        preset_id: control_channel::string_member(value, "presetId"),
        destination_host: control_channel::string_member(value, "destinationHost"),
        destination_port: control_channel::unsigned_member(value, "destinationPort"),
        latency_ms: control_channel::unsigned_member(value, "latencyMs"),
        control_channel_url: control_channel::string_member(value, "controlChannelUrl"),
    };
    apply_pushed(config, &pushed);
}

// ---------------------------------------------------------------------------
// Operator commands
// ---------------------------------------------------------------------------

/// What a command has the program do.
#[derive(Debug, Clone)]
pub enum Effect {
    Nothing,
    /// Run this session, in place of a running one.
    StartPipeline(PipelineConfig),
    StopPipeline,
    SignalRestart,
    /// Have the running pipeline take this session up.
    UpdatePipeline(PipelineConfig),
    Send(ClientMessage),
}

/// An effect with its strings as characters.
pub enum EffectView {
    Nothing,
    StartPipeline(PipelineView),
    StopPipeline,
    SignalRestart,
    UpdatePipeline(PipelineView),
    Send(control_channel::MessageView),
}

impl View for Effect {
    type V = EffectView;

    open spec fn view(&self) -> EffectView {
        match self {
            Effect::Nothing => EffectView::Nothing,
            Effect::StartPipeline(config) => EffectView::StartPipeline(config@),
            Effect::StopPipeline => EffectView::StopPipeline,
            Effect::SignalRestart => EffectView::SignalRestart,
            Effect::UpdatePipeline(config) => EffectView::UpdatePipeline(config@),
            Effect::Send(message) => EffectView::Send(message@),
        }
    }
}

/// What is left of a command once the configuration was written.
#[derive(Debug, Clone, Copy, PartialEq, Eq, Structural)]
pub enum Persisting {
    SwitchQuality,
    PushConfig,
}

/// Where a command stands.
#[derive(Debug, Clone)]
pub enum CommandStep {
    /// Do this, then send the acknowledgement.
    Finish { effect: Effect, ack: CommandAck },
    /// Write the configuration, then go on with `after_persist`.
    Persist(Persisting),
}

/// Where a command stands, with its strings as characters.
pub enum StepView {
    Finish { effect: EffectView, ack: control_channel::AckView },
    Persist(Persisting),
}

impl View for CommandStep {
    type V = StepView;

    open spec fn view(&self) -> StepView {
        match self {
            CommandStep::Finish { effect, ack } => StepView::Finish { effect: effect@, ack: ack@ },
            CommandStep::Persist(next) => StepView::Persist(*next),
        }
    }
}

/// The acknowledgement of a command that succeeded.
pub open spec fn success(action: Seq<char>, detail: Option<Seq<char>>) -> control_channel::AckView {
    control_channel::AckView { action, ok: true, detail }
}

/// The acknowledgement of a command that failed.
pub open spec fn refusal(action: Seq<char>, e: ErrorView) -> control_channel::AckView {
    control_channel::AckView { action, ok: false, detail: Some(e.message()) }
}

/// A command that is over, with nothing left to do but to acknowledge it.
pub open spec fn refused(action: Seq<char>, e: ErrorView) -> StepView {
    StepView::Finish { effect: EffectView::Nothing, ack: refusal(action, e) }
}

/// The step that starting a stream comes to.
pub open spec fn start_step(
    action: Seq<char>,
    session: std::result::Result<PipelineView, ErrorView>,
) -> StepView {
    match session {
        Ok(config) => StepView::Finish {
            effect: EffectView::StartPipeline(config),
            ack: success(action, None),
        },
        Err(e) => refused(action, e),
    }
}

/// What a command comes to in a state.
pub open spec fn command_step(state: AppStateInner, cmd: ServerCommand, logs: Seq<Seq<char>>) -> StepView {
    match cmd {
        ServerCommand::StartStream => start_step(cmd.action(), state.session()),
        ServerCommand::StopStream => StepView::Finish {
            effect: if state.running {
                EffectView::StopPipeline
            } else {
                EffectView::Nothing
            },
            ack: success(cmd.action(), None),
        },
        ServerCommand::RestartStream => if state.running {
            StepView::Finish {
                effect: EffectView::SignalRestart,
                ack: success(cmd.action(), None),
            }
        } else {
            start_step(cmd.action(), state.session())
        },
        ServerCommand::SwitchQuality { preset } => if presets::named(preset@) is Some {
            StepView::Persist(Persisting::SwitchQuality)
        } else {
            refused(cmd.action(), ErrorView::Config("unknown preset '"@ + preset@ + "'"@))
        },
        ServerCommand::RequestLogUpload => StepView::Finish {
            effect: if state.connected {
                EffectView::Send(
                    control_channel::MessageView::LogUpload {
                        session_id: state.identity.session_id@,
                        lines: logs,
                    },
                )
            } else {
                EffectView::Nothing
            },
            ack: success(cmd.action(), Some("log upload sent"@)),
        },
        ServerCommand::PushConfig { .. } => StepView::Persist(Persisting::PushConfig),
    }
}

/// `to` is the state after a command.
pub open spec fn is_after_command(from: AppStateInner, cmd: ServerCommand, to: AppStateInner) -> bool {
    match cmd {
        ServerCommand::StartStream => to == from.after_start(),
        ServerCommand::StopStream => to == (AppStateInner { running: false, ..from }),
        ServerCommand::RestartStream => to == (if from.running {
            from
        } else {
            from.after_start()
        }),
        ServerCommand::SwitchQuality { preset } => if presets::named(preset@) is Some {
            from.has_switched(to, preset@)
        } else {
            to == from
        },
        ServerCommand::RequestLogUpload => to == from,
        ServerCommand::PushConfig { config } => {
            &&& takes_up(from.config, pushed_by(config), to.config)
            &&& to == (AppStateInner { config: to.config, ..from })
        },
    }
}

fn acknowledge(action: &str, detail: Option<String>) -> (r: CommandAck)
    ensures
        r@ == success(action@, text::opt_text(detail)),
{
    CommandAck { action: action.to_string(), ok: true, detail }
}

fn refuse(action: &str, e: &EncoderError) -> (r: CommandStep)
    ensures
        r@ == refused(action@, e@),
{
    CommandStep::Finish {
        effect: Effect::Nothing,
        ack: CommandAck { action: action.to_string(), ok: false, detail: Some(e.message()) },
    }
}

/// Dispatch an operator command: what is to be done, and what is answered.
pub fn dispatch_command(inner: &mut AppStateInner, cmd: &ServerCommand, logs: &LogBuffer) -> (r: CommandStep)
    ensures
        r@ == command_step(*old(inner), *cmd, logs@),
        is_after_command(*old(inner), *cmd, *final(inner)),
{
    let action = cmd.action_name();
    match cmd {
        ServerCommand::StartStream => match inner.start() {
            Ok(config) => CommandStep::Finish {
                effect: Effect::StartPipeline(config),
                ack: acknowledge(action, None),
            },
            Err(e) => refuse(action, &e),
        },
        ServerCommand::StopStream => {
            let effect = if inner.stop() {
                Effect::StopPipeline
            } else {
                Effect::Nothing
            };
            CommandStep::Finish { effect, ack: acknowledge(action, None) }
        },
        ServerCommand::RestartStream => match inner.restart() {
            Ok(Restart::Signal) => CommandStep::Finish {
                effect: Effect::SignalRestart,
                ack: acknowledge(action, None),
            },
            Ok(Restart::Start(config)) => CommandStep::Finish {
                effect: Effect::StartPipeline(config),
                ack: acknowledge(action, None),
            },
            Err(e) => refuse(action, &e),
        },
        ServerCommand::SwitchQuality { preset } => match inner.switch_quality(preset.as_str()) {
            Ok(_) => CommandStep::Persist(Persisting::SwitchQuality),
            Err(e) => refuse(action, &e),
        },
        ServerCommand::RequestLogUpload => {
            let effect = if inner.connected {
                Effect::Send(
                    ClientMessage::LogUpload {
                        session_id: inner.identity.session_id.clone(),
                        lines: logs.snapshot(),
                    },
                )
            } else {
                Effect::Nothing
            };
            CommandStep::Finish {
                effect,
                ack: acknowledge(action, Some("log upload sent".to_string())),
            }
        },
        ServerCommand::PushConfig { config } => {
            apply_pushed_config(&mut inner.config, config);
            CommandStep::Persist(Persisting::PushConfig)
        },
    }
}

/// What a command comes to once the configuration was written, or could not be.
pub open spec fn persisted_step(
    state: AppStateInner,
    next: Persisting,
    written: Option<ErrorView>,
) -> StepView {
    let action = match next {
        Persisting::SwitchQuality => "switch_quality"@,
        Persisting::PushConfig => "push_config"@,
    };
    match written {
        Some(e) => refused(action, e),
        None => match next {
            Persisting::SwitchQuality => match state.session() {
                Ok(config) => StepView::Finish {
                    effect: if state.running {
                        EffectView::UpdatePipeline(config)
                    } else {
                        EffectView::Nothing
                    },
                    ack: success(action, None),
                },
                Err(e) => refused(action, e),
            },
            Persisting::PushConfig => StepView::Finish {
                effect: EffectView::Nothing,
                ack: success(action, Some("config applied"@)),
            },
        },
    }
}

/// Go on with a command once the configuration was written, or could not be.
pub fn after_persist(inner: &AppStateInner, next: Persisting, failure: Option<EncoderError>) -> (r:
    CommandStep)
    ensures
        r@ == persisted_step(
            *inner,
            next,
            match failure {
                Some(e) => Some(e@),
                None => None,
            },
        ),
{
    let action = match next {
        Persisting::SwitchQuality => "switch_quality",
        Persisting::PushConfig => "push_config",
    };
    if let Some(e) = &failure {
        return refuse(action, e);
    }
    match next {
        Persisting::SwitchQuality => match inner.retuned() {
            Ok(Some(config)) => CommandStep::Finish {
                effect: Effect::UpdatePipeline(config),
                ack: acknowledge(action, None),
            },
            Ok(None) => CommandStep::Finish {
                effect: Effect::Nothing,
                ack: acknowledge(action, None),
            },
            Err(e) => refuse(action, &e),
        },
        Persisting::PushConfig => CommandStep::Finish {
            effect: Effect::Nothing,
            ack: acknowledge(action, Some("config applied".to_string())),
        },
    }
}

// ---------------------------------------------------------------------------
// Laws
// ---------------------------------------------------------------------------

/// Every session that a configuration describes can be run: its numbers are far
/// from overflowing, and it serves one to three callers.
pub proof fn described_sessions_can_be_run(state: AppStateInner)
    ensures
        match state.session() {
            Ok(session) => {
                &&& session.fps * 2 <= u32::MAX
                &&& session.bitrate() <= u32::MAX
                &&& match session.output {
                    OutputView::SrtWindow { max_callers, .. } => 1 <= max_callers <= 3,
                    OutputView::SrtDevice { max_callers, .. } => 1 <= max_callers <= 3,
                    OutputView::St2110 { .. } => true,
                }
            },
            Err(_) => true,
        },
{
    let preset = presets::resolved(state.config.preset_id@);
    presets::resolving_yields_a_profile(state.config.preset_id@);
    let i = choose|i: int| 0 <= i < presets::catalogue().len() && presets::catalogue()[i] == preset;
    presets::rasters_are_broadcast_sizes(i);
    presets::hevc_needs_less_than_h264(i);
    assert(preset.h264_kbps <= 60000);
}

/// The audio essence of a session has a dynamic payload type of its own: the next
/// after video's where there is a next one.
pub proof fn audio_payload_type_is_dynamic(
    config: ClientConfig,
    gstreamer_available: bool,
    gstreamer_path: Seq<char>,
    preset: QualityPreset,
)
    requires
        config.st2110.audio_enabled,
    ensures
        match st2110_session(config, gstreamer_available, gstreamer_path, preset) {
            Ok(session) => {
                let video = config.st2110.payload_type;
                &&& session.output matches OutputView::St2110 { gst, .. } && gst.video_payload_type == video
                    && match gst.audio {
                    Some(audio) => {
                        &&& 96 <= audio.payload_type <= 127
                        &&& audio.payload_type != video
                        &&& video < 127 ==> audio.payload_type == video + 1
                    },
                    None => false,
                }
            },
            Err(_) => true,
        },
{
}

/// Where applications cannot be captured on their own, nothing tries to: the system
/// mix is captured in their place, and every other channel stays.
pub proof fn system_mix_stands_in_for_applications(sources: Seq<AudioSource>, shared_gain: Gain)
    ensures
        ({
            let live = live_mix(sources);
            let plan = planned_mix(sources, false, shared_gain);
            &&& !has_application(plan)
            &&& has_application(live) ==> has_system(plan)
            &&& has_application(live) && !has_system(live) ==> plan[0] == shared_channel(shared_gain)
                && forall|i: int| 1 <= i < plan.len() ==> !((#[trigger] plan[i]).capture is SystemLoopback)
            &&& has_application(live) && !has_system(live) ==> plan[0].capture is SystemLoopback && plan[0].gain
                == shared_gain && plan[0].label == "Desktop audio"@
            &&& has_application(live) && !has_system(live) ==> forall|i: int|
                1 <= i < plan.len() ==> live.contains(#[trigger] plan[i])
            &&& has_system(live) ==> forall|i: int| 0 <= i < plan.len() ==> live.contains(#[trigger] plan[i])
            &&& !has_application(live) ==> plan == live
            &&& forall|i: int|
                0 <= i < live.len() && !((#[trigger] live[i]).capture is Application) ==> plan.contains(live[i])
            &&& forall|i: int| 0 <= i < plan.len() ==> !((#[trigger] plan[i]).capture is Application)
            &&& (exists|i: int| 0 <= i < live.len() && (#[trigger] live[i]).capture is Application) ==> exists|i: int|
                0 <= i < plan.len() && (#[trigger] plan[i]).capture is SystemLoopback
        }),
        planned_mix(sources, true, shared_gain) == live_mix(sources),
{
    let live = live_mix(sources);
    let keep = |c: ChannelView| !is_application(c);
    let others = live.filter(keep);
    let plan = planned_mix(sources, false, shared_gain);
    assert forall|i: int| 0 <= i < others.len() implies !is_application(#[trigger] others[i])
        && live.contains(others[i]) by {
        live.lemma_filter_pred(keep, i);
        live.lemma_filter_contains_rev(keep, others[i]);
    }
    if shares_system_mix(sources, false) {
        if has_system(live) {
            let k = choose|k: int|
                0 <= k < live.len() && (#[trigger] live[k]).capture is SystemLoopback;
            live.lemma_filter_contains(keep, k);
            let m = choose|m: int| 0 <= m < others.len() && others[m] == live[k];
            assert(plan[m].capture is SystemLoopback);
        } else {
            assert(plan[0].capture is SystemLoopback);
            assert forall|i: int| 1 <= i < plan.len() implies !((#[trigger] plan[i]).capture is SystemLoopback) by {
                assert(plan[i] == others[i - 1]);
                let k = choose|k: int| 0 <= k < live.len() && live[k] == others[i - 1];
                assert(!(live[k].capture is SystemLoopback));
            }
        }
        assert forall|i: int| 0 <= i < live.len() && !is_application(#[trigger] live[i]) implies plan.contains(
            live[i],
        ) by {
            live.lemma_filter_contains(keep, i);
            let m = choose|m: int| 0 <= m < others.len() && others[m] == live[i];
            if !has_system(live) {
                assert(plan[m + 1] == live[i]);
            }
        }
    }
}

/// HEVC is off unless it is asked for.
pub proof fn hevc_is_opt_in(available: Seq<Seq<char>>, allow_software: bool)
    ensures
        chosen_backend(false, available, allow_software) is Some ==> chosen_backend(
            false,
            available,
            allow_software,
        )->0.codec == Codec::H264,
{
    encoder::selection_is_the_best_usable(Codec::H264, available, allow_software);
}

/// A machine that can encode H.264 can stream with HEVC asked for: it falls back.
pub proof fn hevc_falls_back_to_h264(available: Seq<Seq<char>>, allow_software: bool)
    requires
        encoder::selected(Codec::H264, available, allow_software) is Some,
    ensures
        chosen_backend(true, available, allow_software) is Some,
{
}

/// A stream that cannot be started leaves everything as it was.
pub proof fn failed_starts_change_nothing(state: AppStateInner)
    requires
        state.session() is Err,
    ensures
        state.after_start() == state,
{
}

/// Every command is acknowledged under its own name: at once, or once the
/// configuration was written or could not be.
pub proof fn every_command_is_acknowledged(
    state: AppStateInner,
    cmd: ServerCommand,
    logs: Seq<Seq<char>>,
    later: AppStateInner,
    written: Option<ErrorView>,
)
    ensures
        match command_step(state, cmd, logs) {
            StepView::Finish { ack, .. } => ack.action == cmd.action(),
            StepView::Persist(next) => match persisted_step(later, next, written) {
                StepView::Finish { ack, .. } => ack.action == cmd.action(),
                StepView::Persist(_) => false,
            },
        },
{
}

/// A command that is refused says why, and one that could not be written down is
/// refused.
pub proof fn refusals_say_why(
    state: AppStateInner,
    cmd: ServerCommand,
    logs: Seq<Seq<char>>,
    next: Persisting,
    e: ErrorView,
)
    ensures
        match command_step(state, cmd, logs) {
            StepView::Finish { effect, ack } => !ack.ok ==> ack.detail is Some && effect
                == EffectView::Nothing,
            StepView::Persist(_) => true,
        },
        persisted_step(state, next, Some(e)) matches StepView::Finish { effect, ack } && !ack.ok
            && ack.detail == Some(e.message()) && effect == EffectView::Nothing,
{
}

/// Pushing the same configuration again changes nothing more.
pub proof fn pushing_twice_is_pushing_once(
    before: ClientConfig,
    pushed: PushedView,
    once: ClientConfig,
    twice: ClientConfig,
)
    requires
        takes_up(before, pushed, once),
        takes_up(once, pushed, twice),
    ensures
        twice.preset_id@ == once.preset_id@,
        twice.destination_host@ == once.destination_host@,
        text::opt_text(twice.control_channel_url) == text::opt_text(once.control_channel_url),
        twice == (ClientConfig {
            preset_id: twice.preset_id,
            destination_host: twice.destination_host,
            control_channel_url: twice.control_channel_url,
            ..once
        }),
{
}

/// Only live channels are mixed, so a plan never has more channels than the
/// mixer.
pub proof fn mix_holds_live_channels_only(sources: Seq<AudioSource>)
    ensures
        live_mix(sources).len() <= sources.len(),
        (forall|i: int| 0 <= i < sources.len() ==> !(#[trigger] sources[i]).live()) ==> live_mix(
            sources,
        ).len() == 0,
    decreases sources.len(),
{
    if sources.len() > 0 {
        let before = sources.drop_last();
        mix_holds_live_channels_only(before);
        if forall|i: int| 0 <= i < sources.len() ==> !(#[trigger] sources[i]).live() {
            assert forall|i: int| 0 <= i < before.len() implies !(#[trigger] before[i]).live() by {
                assert(sources[i] == before[i]);
            }
            assert(!sources[sources.len() - 1].live());
        }
    }
}

/// A channel that is switched on, not muted and names something to capture is mixed at its
/// own gain; no other channel is.
pub proof fn live_channels_are_mixed(sources: Seq<AudioSource>, i: int)
    ensures
        0 <= i < sources.len() && sources[i].enabled && !sources[i].muted && !(sources[i].kind
            == AudioSourceKind::Application && sources[i].process_id is None) ==> exists|j: int|
            0 <= j < live_mix(sources).len() && comes_from(#[trigger] live_mix(sources)[j], sources[i]),
        0 <= i < live_mix(sources).len() ==> exists|j: int|
            0 <= j < sources.len() && (#[trigger] sources[j]).enabled && !sources[j].muted && comes_from(
                live_mix(sources)[i],
                sources[j],
            ),
    decreases sources.len(),
{
    if sources.len() > 0 {
        let head = sources.drop_last();
        let before = live_mix(head);
        let all = live_mix(sources);
        live_channels_are_mixed(head, i);
        if 0 <= i < sources.len() && sources[i].enabled && !sources[i].muted && !(sources[i].kind
            == AudioSourceKind::Application && sources[i].process_id is None) {
            if i < head.len() {
                assert(head[i] == sources[i]);
                let j = choose|j: int| 0 <= j < before.len() && comes_from(#[trigger] before[j], sources[i]);
                assert(all[j] == before[j]);
            } else {
                assert(comes_from(all[all.len() - 1], sources[i]));
            }
        }
        if 0 <= i < all.len() {
            if i < before.len() {
                let j = choose|j: int|
                    0 <= j < head.len() && (#[trigger] head[j]).enabled && !head[j].muted && comes_from(
                        before[i],
                        head[j],
                    );
                assert(sources[j] == head[j]);
            } else {
                assert(sources[sources.len() - 1].enabled);
            }
        }
    }
}

/// A channel of the mix captures what a source names, at its gain and under its label.
pub open spec fn comes_from(channel: ChannelView, source: AudioSource) -> bool {
    &&& channel.gain == source.gain
    &&& source.label is Some ==> channel.label == source.label->0@
    &&& source.label is None && source.kind == AudioSourceKind::System ==> channel.label == "Desktop audio"@
    &&& source.label is None && source.kind == AudioSourceKind::Microphone ==> channel.label == "Microphone"@
    &&& source.label is None && source.kind == AudioSourceKind::Application ==> channel.label == "Application"@
    &&& match source.kind {
        AudioSourceKind::System => channel.capture == CaptureView::SystemLoopback,
        AudioSourceKind::Microphone => {
            &&& channel.capture matches CaptureView::Microphone { device_id } && (source.device_id is Some
                && source.device_id->0@.len() > 0 ==> device_id == Some(source.device_id->0@)) && (source.device_id
                is None || source.device_id->0@.len() == 0 ==> device_id is None)
        },
        AudioSourceKind::Application => source.process_id is Some && channel.capture
            == (CaptureView::Application { process_id: source.process_id->0 }),
    }
}

/// HEVC is used exactly if it is asked for and some encoder of it may be used; else H.264
/// is, with the encoder that is selected for it.
pub proof fn codecs_follow_the_choice(experimental_hevc: bool, available: Seq<Seq<char>>, allow_software: bool)
    ensures
        ({
            let chosen = chosen_backend(experimental_hevc, available, allow_software);
            let hevc = encoder::selected(Codec::Hevc, available, allow_software);
            let h264 = encoder::selected(Codec::H264, available, allow_software);
            &&& experimental_hevc && hevc is Some ==> chosen == hevc && (chosen->0).codec == Codec::Hevc
            &&& !experimental_hevc || hevc is None ==> chosen == h264
            &&& chosen is Some && (!experimental_hevc || hevc is None) ==> (chosen->0).codec == Codec::H264
        }),
{
    encoder::selection_is_the_best_usable(Codec::Hevc, available, allow_software);
    encoder::selection_is_the_best_usable(Codec::H264, available, allow_software);
}

/// An SRT session takes its raster and frame rate from the profile, its bitrate from the
/// profile and the codec, and its endpoint from the configuration. The chosen device is its
/// source if the source is to be one, else the window that was picked.
pub proof fn srt_sessions_follow_the_configuration(state: AppStateInner)
    requires
        state.config.transport == TransportKind::Srt,
    ensures
        ({
            let config = state.config;
            let preset = presets::resolved(config.preset_id@);
            let camera = config.video_source.kind == VideoSourceKind::Device && config.video_source.device_name
                is Some && text::trimmed(config.video_source.device_name->0@).len() > 0;
            let name = text::trimmed(config.video_source.device_name->0@);
            let usable = chosen_backend(
                config.encoder.experimental_hevc,
                text::texts(state.caps.encoders@),
                config.encoder.allow_software,
            );
            let endpoint = srt::parsed(
                config.destination_host@,
                config.destination_port,
                config.latency_ms,
                config.srt_mode,
            );
            &&& state.session() is Ok <==> endpoint is Ok && usable is Some && (camera || state.selected_window
                is Some)
            &&& state.session() matches Ok(session) ==> {
                &&& session.fps == preset.frame_rate
                &&& session.out_width == preset.width && session.out_height == preset.height
                &&& (usable->0).codec == Codec::H264 ==> session.video_kbps == preset.h264_kbps
                &&& (usable->0).codec == Codec::Hevc ==> session.video_kbps == preset.hevc_kbps
                &&& session.audio_kbps == 160
                &&& session.preview is None
                &&& session.shared_audio <==> !state.caps.process_audio && exists|i: int|
                    0 <= i < live_mix(config.audio.sources@).len() && (#[trigger] live_mix(
                        config.audio.sources@,
                    )[i]).capture is Application
                &&& match session.output {
                    OutputView::SrtDevice { device_name, backend, destination, max_callers, audio } => {
                        &&& camera && device_name == name
                        &&& audio == planned_mix(config.audio.sources@, state.caps.process_audio, state.shared_gain)
                        &&& session.source_label == name + " ("@ + preset.label@ + ")"@
                        &&& backend == usable->0
                        &&& Ok::<srt::DestinationView, ErrorView>(destination) == endpoint
                        &&& serves(config, max_callers)
                    },
                    OutputView::SrtWindow { window_id, backend, destination, max_callers, audio } => {
                        &&& !camera
                        &&& audio == planned_mix(config.audio.sources@, state.caps.process_audio, state.shared_gain)
                        &&& (state.selected_window matches Some((id, label)) && window_id == id
                            && session.source_label == label@)
                        &&& backend == usable->0
                        &&& Ok::<srt::DestinationView, ErrorView>(destination) == endpoint
                        &&& serves(config, max_callers)
                    },
                    OutputView::St2110 { .. } => false,
                }
            }
            &&& endpoint is Err ==> state.session() == Err::<PipelineView, ErrorView>(endpoint->Err_0)
            &&& endpoint is Ok && usable is None ==> state.session() is Err && state.session()->Err_0 is Encoder
            &&& endpoint is Ok && usable is Some && !camera && state.selected_window is None ==> state.session() is Err
                && state.session()->Err_0 is Config
        }),
{
}

/// How many callers a stream serves: one that calls out has a single far side; a listener
/// has as many as are asked for, from one to three.
pub open spec fn serves(config: ClientConfig, callers: u8) -> bool {
    &&& config.srt_mode == SrtMode::Caller ==> callers == 1
    &&& config.srt_mode == SrtMode::Listener && 1 <= config.srt_max_callers <= 3 ==> callers
        == config.srt_max_callers
    &&& config.srt_mode == SrtMode::Listener && config.srt_max_callers == 0 ==> callers == 1
    &&& config.srt_mode == SrtMode::Listener && config.srt_max_callers > 3 ==> callers == 3
}

/// An ST 2110 session takes its raster and frame rate from the profile, and its addresses,
/// ports, payload type, clock domain and interface from the configuration. It needs
/// GStreamer, a device and addresses that are some.
pub proof fn st2110_sessions_follow_the_configuration(state: AppStateInner)
    requires
        state.config.transport == TransportKind::St2110,
    ensures
        ({
            let config = state.config;
            let st = config.st2110;
            let preset = presets::resolved(config.preset_id@);
            let named = config.video_source.device_name is Some && text::trimmed(
                config.video_source.device_name->0@,
            ).len() > 0;
            let video = gst2110::target_of(st.video_dest_ip@, st.video_dest_port);
            let audio = gst2110::target_of(st.audio_dest_ip@, st.audio_dest_port);
            &&& state.session() is Ok <==> state.caps.gstreamer_available && named && video is Ok && (
            st.audio_enabled ==> audio is Ok) && 96 <= st.payload_type <= 127
            &&& state.session() matches Ok(session) ==> {
                &&& session.fps == preset.frame_rate
                &&& session.out_width == preset.width && session.out_height == preset.height
                &&& session.video_kbps == preset.st2110_mbps * 1000
                &&& session.source_label == config.video_source.device_name->0@ + " ("@ + preset.label@ + ")"@
                &&& session.output matches OutputView::St2110 { gst, gstreamer_path, sdp } && {
                    &&& gstreamer_path == state.caps.gstreamer_path@
                    &&& sdp == gst.sdp(st.interface_ip@)
                    &&& gst.device_name == text::trimmed(config.video_source.device_name->0@)
                    &&& gst.width == preset.width && gst.height == preset.height
                    &&& gst.frame_rate == preset.frame_rate
                    &&& gst.interlaced == (preset.scan == presets::ScanMode::Interlaced)
                    &&& Ok::<EssenceTarget, ErrorView>(gst.video) == video
                    &&& gst.video_payload_type == st.payload_type && gst.ptp_domain == st.ptp_domain
                    &&& text::trimmed(st.interface_ip@).len() == 0 ==> gst.interface is None
                    &&& text::trimmed(st.interface_ip@).len() > 0 ==> gst.interface == Some(
                        text::trimmed(st.interface_ip@),
                    )
                    &&& gst.audio is Some <==> st.audio_enabled
                    &&& gst.audio matches Some(a) ==> Ok::<EssenceTarget, ErrorView>(a.target) == audio
                        && a.sample_rate == 48000 && a.channels == 2
                }
            }
        }),
{
    let preset = presets::resolved(state.config.preset_id@);
    presets::resolving_yields_a_profile(state.config.preset_id@);
    let i = choose|i: int| 0 <= i < presets::catalogue().len() && presets::catalogue()[i] == preset;
    assert(preset.st2110_mbps <= 9953);
    let st = state.config.st2110;
    if state.config.video_source.device_name is Some {
        text::trimming_is_idempotent(state.config.video_source.device_name->0@);
    }
}

/// A pushed field takes the place of the configured one, a profile only if it is on offer;
/// what is not pushed stays.
pub proof fn pushed_fields_are_taken_up(before: ClientConfig, pushed: PushedView, after: ClientConfig)
    requires
        takes_up(before, pushed, after),
    ensures
        pushed.destination_host is Some ==> after.destination_host@ == pushed.destination_host->0,
        pushed.destination_host is None ==> after.destination_host@ == before.destination_host@,
        pushed.destination_port is Some && pushed.destination_port->0 <= u32::MAX ==> after.destination_port
            == pushed.destination_port->0,
        pushed.destination_port is Some ==> (pushed.destination_port->0 - after.destination_port) % 0x1_0000_0000
            == 0,
        pushed.destination_port is None ==> after.destination_port == before.destination_port,
        pushed.latency_ms is Some && pushed.latency_ms->0 <= u32::MAX ==> after.latency_ms == pushed.latency_ms->0,
        pushed.latency_ms is None ==> after.latency_ms == before.latency_ms,
        pushed.control_channel_url is Some ==> text::opt_text(after.control_channel_url)
            == pushed.control_channel_url,
        pushed.control_channel_url is None ==> text::opt_text(after.control_channel_url) == text::opt_text(
            before.control_channel_url,
        ),
        pushed.preset_id is Some && presets::named(pushed.preset_id->0) is Some ==> after.preset_id@
            == pushed.preset_id->0,
        pushed.preset_id is None || presets::named(pushed.preset_id->0) is None ==> after.preset_id@
            == before.preset_id@,
        after.player_id == before.player_id && after.display_name == before.display_name,
        after.srt_mode == before.srt_mode && after.srt_max_callers == before.srt_max_callers,
        after.transport == before.transport && after.st2110 == before.st2110,
        after.video_source == before.video_source && after.audio == before.audio && after.encoder
            == before.encoder,
{
}

/// A push is read by the names of its members, and a member of another type is none.
pub proof fn pushes_are_read_by_name(value: serde_json::Value)
    ensures
        ({
            let strings = control_channel::string_members(value);
            let numbers = control_channel::unsigned_members(value);
            let pushed = pushed_by(value);
            &&& pushed.preset_id is Some <==> strings.contains_key("presetId"@)
            &&& pushed.destination_host is Some <==> strings.contains_key("destinationHost"@)
            &&& pushed.control_channel_url is Some <==> strings.contains_key("controlChannelUrl"@)
            &&& pushed.destination_port is Some <==> numbers.contains_key("destinationPort"@)
            &&& pushed.latency_ms is Some <==> numbers.contains_key("latencyMs"@)
            &&& pushed.preset_id is Some ==> pushed.preset_id->0 == strings["presetId"@]
            &&& pushed.destination_host is Some ==> pushed.destination_host->0 == strings["destinationHost"@]
            &&& pushed.control_channel_url is Some ==> pushed.control_channel_url->0
                == strings["controlChannelUrl"@]
            &&& pushed.destination_port is Some ==> pushed.destination_port->0 == numbers["destinationPort"@]
            &&& pushed.latency_ms is Some ==> pushed.latency_ms->0 == numbers["latencyMs"@]
        }),
{
}

/// Starting runs the session that the configuration describes, restarting signals the
/// running one or starts one, stopping stops what runs; the state tells afterwards whether
/// something runs.
pub proof fn streams_start_and_stop_on_command(
    state: AppStateInner,
    cmd: ServerCommand,
    logs: Seq<Seq<char>>,
    to: AppStateInner,
)
    requires
        is_after_command(state, cmd, to),
    ensures
        cmd is StartStream && state.session() is Ok ==> to.running && command_step(state, cmd, logs) == (
        StepView::Finish {
            effect: EffectView::StartPipeline(state.session()->Ok_0),
            ack: control_channel::AckView { action: "start_stream"@, ok: true, detail: None },
        }),
        cmd is RestartStream && !state.running && state.session() is Ok ==> to.running && command_step(
            state,
            cmd,
            logs,
        ) == (StepView::Finish {
            effect: EffectView::StartPipeline(state.session()->Ok_0),
            ack: control_channel::AckView { action: "restart_stream"@, ok: true, detail: None },
        }),
        cmd is RestartStream && state.running ==> to == state && command_step(state, cmd, logs) == (
        StepView::Finish {
            effect: EffectView::SignalRestart,
            ack: control_channel::AckView { action: "restart_stream"@, ok: true, detail: None },
        }),
        (cmd is StartStream || (cmd is RestartStream && !state.running)) && state.session() is Err ==> to == state
            && (command_step(state, cmd, logs) matches StepView::Finish { effect, ack } && effect is Nothing
            && !ack.ok && ack.detail == Some(state.session()->Err_0.message())),
        cmd is StopStream ==> !to.running && (command_step(state, cmd, logs) matches StepView::Finish { effect, ack }
            && ack.ok && (state.running ==> effect is StopPipeline) && (!state.running ==> effect is Nothing)),
        to.connected == state.connected && to.identity == state.identity && to.caps == state.caps,
        to.selected_window == state.selected_window,
        !(cmd is SwitchQuality) && !(cmd is PushConfig) ==> to.config == state.config,
{
}

/// A quality switch to a profile on offer is written down and taken up by what runs; to any
/// other profile it is refused. The log goes to whoever is connected.
pub proof fn other_commands_do_what_they_say(
    state: AppStateInner,
    cmd: ServerCommand,
    logs: Seq<Seq<char>>,
    to: AppStateInner,
)
    requires
        is_after_command(state, cmd, to),
    ensures
        cmd matches ServerCommand::SwitchQuality { preset } ==> to.running == state.running && (presets::named(
            preset@,
        ) is Some ==> to.config.preset_id@ == preset@ && command_step(state, cmd, logs) == StepView::Persist(
            Persisting::SwitchQuality,
        )) && (presets::named(preset@) is None ==> to == state && (command_step(state, cmd, logs)
            matches StepView::Finish { effect, ack } && effect is Nothing && !ack.ok)),
        cmd is PushConfig ==> to.running == state.running && command_step(state, cmd, logs) == StepView::Persist(
            Persisting::PushConfig,
        ),
        cmd is RequestLogUpload && state.connected ==> (command_step(state, cmd, logs) matches StepView::Finish {
            effect: EffectView::Send(control_channel::MessageView::LogUpload { session_id, lines }),
            ack,
        } && session_id == state.identity.session_id@ && lines == logs && ack.ok),
        cmd is RequestLogUpload && !state.connected ==> (command_step(state, cmd, logs) matches StepView::Finish {
            effect,
            ack,
        } && effect is Nothing && ack.ok),
        cmd is RequestLogUpload ==> to == state,
{
}

/// Once a switch was written down, what runs is updated to the session that the state now
/// describes, and nothing is done if nothing runs.
pub proof fn switches_are_taken_up(state: AppStateInner)
    ensures
        state.session() is Ok && state.running ==> (persisted_step(state, Persisting::SwitchQuality, None)
            matches StepView::Finish { effect, ack } && effect == EffectView::UpdatePipeline(state.session()->Ok_0)
            && ack.ok),
        state.session() is Ok && !state.running ==> (persisted_step(state, Persisting::SwitchQuality, None)
            matches StepView::Finish { effect, ack } && effect is Nothing && ack.ok),
        state.session() is Err ==> (persisted_step(state, Persisting::SwitchQuality, None)
            matches StepView::Finish { effect, ack } && effect is Nothing && !ack.ok && ack.detail == Some(
            state.session()->Err_0.message(),
        )),
        persisted_step(state, Persisting::PushConfig, None) matches StepView::Finish { effect, ack } && effect
            is Nothing && ack.ok && ack.detail == Some("config applied"@),
{
}

/// The gain of a shared mix is computed from those of the applications in it: one for each
/// live application channel.
pub proof fn applications_bring_their_gains(sources: Seq<AudioSource>, i: int)
    ensures
        0 <= i < live_mix(sources).len() && live_mix(sources)[i].capture is Application ==> gains_of_applications(
            sources,
        ).contains(live_mix(sources)[i].gain),
        0 <= i < gains_of_applications(sources).len() ==> exists|j: int|
            0 <= j < live_mix(sources).len() && (#[trigger] live_mix(sources)[j]).capture is Application
                && live_mix(sources)[j].gain == gains_of_applications(sources)[i],
{
    let live = live_mix(sources);
    let application = |c: ChannelView| is_application(c);
    let apps = live.filter(application);
    let gains = gains_of_applications(sources);
    if 0 <= i < live.len() && live[i].capture is Application {
        live.lemma_filter_contains(application, i);
        let k = apps.index_of(live[i]);
        assert(gains[k] == live[i].gain);
    }
    if 0 <= i < gains.len() {
        live.lemma_filter_pred(application, i);
        live.lemma_filter_contains_rev(application, apps[i]);
        let j = live.index_of(apps[i]);
        assert(live[j] == apps[i]);
    }
}

/// Channels are mixed in the order of the mixer: more of them only add to the mix.
pub proof fn channels_keep_their_order(first: Seq<AudioSource>, more: Seq<AudioSource>)
    ensures
        live_mix(first + more) == live_mix(first) + live_mix(more),
    decreases more.len(),
{
    if more.len() == 0 {
        assert(first + more =~= first);
        assert(live_mix(first) + live_mix(more) =~= live_mix(first));
    } else {
        assert((first + more).drop_last() =~= first + more.drop_last());
        channels_keep_their_order(first, more.drop_last());
        assert(live_mix(first + more) =~= live_mix(first) + live_mix(more));
    }
}

/// The control plane is told who streams and how it goes, field by field; a stream counts as
/// on air while it is live, degraded or not, and at no other time.
pub proof fn telemetry_tells_how_it_goes(identity: Identity, status: StreamStatus)
    ensures
        ({
            let t = telemetry_of(identity, status);
            &&& t.player_id == identity.player_id@ && t.session_id == identity.session_id@
            &&& t.display_name == identity.display_name@
            &&& t.state == status.state && t.fps == status.fps && t.bitrate == status.bitrate
            &&& t.dropped_frames == status.dropped_frames
            &&& t.source == text::opt_text(status.source) && t.encoder == text::opt_text(status.encoder)
            &&& t.capture_backend == text::opt_text(status.capture_backend) && t.last_error == text::opt_text(
                status.last_error,
            )
            &&& status.state == StreamState::Streaming || status.state == StreamState::Degraded ==> t.streaming
            &&& status.state == StreamState::Idle || status.state == StreamState::Failed || status.state
                == StreamState::Starting || status.state == StreamState::Reconnecting ==> !t.streaming
        }),
{
}

/// The facility defaults are two multicast groups that can be sent to as they are.
pub proof fn facility_defaults_can_be_sent_to(config: ClientConfig, player_id: Seq<char>)
    requires
        config.is_first_run(player_id),
    ensures
        gst2110::target_of(config.st2110.video_dest_ip@, config.st2110.video_dest_port) matches Ok(t) && t.multicast
            && t.port == 20000 && t.ip.a == 239 && t.ip.b == 20 && t.ip.c == 20 && t.ip.d == 20,
        gst2110::target_of(config.st2110.audio_dest_ip@, config.st2110.audio_dest_port) matches Ok(t) && t.multicast
            && t.port == 20030 && t.ip.a == 239 && t.ip.b == 20 && t.ip.c == 20 && t.ip.d == 30,
{
    let video = crate::ipv4::Ipv4Addr { a: 239, b: 20, c: 20, d: 20 };
    let audio = crate::ipv4::Ipv4Addr { a: 239, b: 20, c: 20, d: 30 };
    reveal_with_fuel(text::decimal, 4);
    reveal_strlit(".");
    reveal_strlit("239.20.20.20");
    reveal_strlit("239.20.20.30");
    assert(text::decimal(239) =~= seq!['2', '3', '9']);
    assert(text::decimal(20) =~= seq!['2', '0']);
    assert(text::decimal(30) =~= seq!['3', '0']);
    assert(video.dotted() =~= "239.20.20.20"@);
    assert(audio.dotted() =~= "239.20.20.30"@);
    gst2110::targets_are_kept(video, 20000);
    gst2110::targets_are_kept(audio, 20030);
}

} // verus!
