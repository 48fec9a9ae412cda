use galahad_encoder::encoder::{Codec, EncoderBackend, Vendor};
use galahad_encoder::ffmpeg::{FfmpegPlan, PreviewSink, VideoInput};
use galahad_encoder::srt::{SrtDestination, SrtMode};

fn nvenc() -> EncoderBackend {
    EncoderBackend {
        codec: Codec::H264,
        ffmpeg_name: "h264_nvenc",
        vendor: Vendor::Nvidia,
        hardware: true,
    }
}

fn plan() -> FfmpegPlan {
    FfmpegPlan {
        video_input: VideoInput::RawPipe,
        capture_width: 2560,
        capture_height: 1440,
        out_width: 1920,
        out_height: 1080,
        fps: 30,
        video_kbps: 6000,
        backend: nvenc(),
        destination: SrtDestination::parse("1.2.3.4", 9003, 200, SrtMode::Caller)
            .unwrap(),
        max_callers: 1,
        audio_enabled: true,
        audio_input: "tcp://127.0.0.1:5060".into(),
        audio_sample_rate: 48000,
        audio_channels: 2,
        audio_kbps: 160,
    }
}

fn joined(args: &[String]) -> String {
    args.join(" ")
}

#[test]
fn includes_raw_video_input_at_capture_size() {
    let s = joined(&plan().build_args());
    assert!(s.contains("-f rawvideo"));
    assert!(s.contains("-pix_fmt bgra"));
    assert!(s.contains("-video_size 2560x1440"));
    assert!(s.contains("-i pipe:0"));
}

#[test]
fn dshow_input_captures_from_named_device() {
    let mut p = plan();
    p.video_input = VideoInput::Dshow {
        device: "Blackmagic WDM Capture".into(),
    };
    p.capture_width = 1920;
    p.capture_height = 1080;
    let s = joined(&p.build_args());
    assert!(s.contains("-f dshow"));
    assert!(s.contains("-i video=Blackmagic WDM Capture"));
    assert!(!s.contains("-i pipe:0"));
    // Device format is not pinned on the input; we conform on the output.
    assert!(!s.contains("-video_size"));
    // fps decimation happens before the scale so we don't waste CPU
    // scaling frames we'll drop.
    assert!(s.contains("fps=30,scale=1920:1080"));
}

#[test]
fn scales_to_preset_when_sizes_differ() {
    let s = joined(&plan().build_args());
    assert!(s.contains("scale=1920:1080"));
}

#[test]
fn no_scale_filter_when_sizes_match() {
    let mut p = plan();
    p.capture_width = 1920;
    p.capture_height = 1080;
    let s = joined(&p.build_args());
    assert!(!s.contains("scale="));
}

#[test]
fn includes_audio_tcp_input_when_enabled() {
    let s = joined(&plan().build_args());
    assert!(s.contains("-i tcp://127.0.0.1:5060"));
    assert!(s.contains("-c:a aac"));
    assert!(s.contains("-b:a 160k"));
}

#[test]
fn omits_audio_when_disabled() {
    let mut p = plan();
    p.audio_enabled = false;
    let s = joined(&p.build_args());
    assert!(!s.contains("tcp://"));
    assert!(!s.contains("-c:a"));
}

#[test]
fn selects_nvenc_lowlatency_args() {
    let s = joined(&plan().build_args());
    assert!(s.contains("-c:v h264_nvenc"));
    assert!(s.contains("-tune ll"));
    assert!(s.contains("-b:v 6000k"));
}

#[test]
fn software_uses_zerolatency() {
    let mut p = plan();
    p.backend = EncoderBackend {
        codec: Codec::H264,
        ffmpeg_name: "libx264",
        vendor: Vendor::Software,
        hardware: false,
    };
    let s = joined(&p.build_args());
    assert!(s.contains("-c:v libx264"));
    assert!(s.contains("-tune zerolatency"));
}

#[test]
fn ends_with_srt_caller_url() {
    let args = plan().build_args();
    assert!(args.last().unwrap().starts_with("srt://1.2.3.4:9003?mode=caller"));
}

#[test]
fn listener_multi_caller_uses_tee_fanout() {
    let mut p = plan();
    p.destination =
        SrtDestination::parse("203.0.113.7", 9003, 200, SrtMode::Listener)
            .unwrap();
    p.max_callers = 3;
    let s = joined(&p.build_args());
    assert!(s.contains("-f tee"));
    assert!(s.contains("[f=mpegts:onfail=ignore]srt://0.0.0.0:9003?mode=listener"));
    assert!(s.contains("[f=mpegts:onfail=ignore]srt://0.0.0.0:9004?mode=listener"));
    assert!(s.contains("[f=mpegts:onfail=ignore]srt://0.0.0.0:9005?mode=listener"));
    // Explicit maps are required by tee.
    assert!(s.contains("-map 0:v:0"));
    assert!(s.contains("-map 1:a:0"));
}

#[test]
fn listener_single_caller_uses_plain_output() {
    let mut p = plan();
    p.destination =
        SrtDestination::parse("203.0.113.7", 9003, 200, SrtMode::Listener)
            .unwrap();
    p.max_callers = 1;
    let s = joined(&p.build_args());
    assert!(!s.contains("-f tee"));
    assert!(s.contains("srt://0.0.0.0:9003?mode=listener"));
}

#[test]
fn a_plan_spells_out_every_argument() {
    let mut p = plan();
    p.capture_width = 1920;
    p.capture_height = 1080;
    p.backend.vendor = Vendor::Intel;
    p.backend.ffmpeg_name = "h264_qsv";
    assert_eq!(
        joined(&p.build_args()),
        "-hide_banner -loglevel warning -fflags nobuffer -f rawvideo -pix_fmt bgra \
         -video_size 1920x1080 -framerate 30 -i pipe:0 -f s16le -ar 48000 -ac 2 \
         -i tcp://127.0.0.1:5060 -c:v h264_qsv -preset veryfast -low_power 0 -b:v 6000k \
         -maxrate 6000k -bufsize 6000k -g 60 -bf 0 -pix_fmt yuv420p -c:a aac -b:a 160k -ar 48000 \
         -f mpegts -flush_packets 1 srt://1.2.3.4:9003?mode=caller&latency=200&pkt_size=1316"
    );
}

#[test]
fn fan_out_without_audio_maps_video_only() {
    let mut p = plan();
    p.destination = SrtDestination::parse("", 65534, 120, SrtMode::Listener).unwrap();
    p.max_callers = 3;
    p.audio_enabled = false;
    p.fps = 0;
    p.backend.vendor = Vendor::Amd;
    let s = joined(&p.build_args());
    assert!(s.contains("-usage lowlatency -rc cbr"));
    assert!(s.contains("-g 1 -bf 0"));
    assert!(s.ends_with(
        "-map 0:v:0 -flush_packets 1 -f tee \
         [f=mpegts:onfail=ignore]srt://0.0.0.0:65534?mode=listener&latency=120&pkt_size=1316|\
         [f=mpegts:onfail=ignore]srt://0.0.0.0:65535?mode=listener&latency=120&pkt_size=1316"
    ));
}

#[test]
fn a_preview_is_one_more_leg() {
    let mut p = plan();
    p.audio_enabled = false;
    p.destination = SrtDestination::parse("", 9003, 200, SrtMode::Listener).unwrap();
    p.max_callers = 2;
    let plain = p.build_args();
    assert_eq!(p.build_args_with(&None), plain);
    let args = p.build_args_with(&Some(PreviewSink::new("preview.m3u8".into())));
    let n = plain.len() - 1;
    assert_eq!(args[..n], plain[..n]);
    assert_eq!(args[n], format!("{}|[f=hls:onfail=ignore]preview.m3u8", plain[n]));
    assert!(plain[n].starts_with("[f=mpegts:onfail=ignore]srt://0.0.0.0:9003"));
}
