use galahad_encoder::capability::{detect, detect_process_audio, parse_encoders, OsInfo, Probe};
use galahad_encoder::process_enum::ProcessInfo;

#[test]
fn parses_encoder_listing() {
    let sample = "\
Encoders:
 V..... = Video
 ------
 V....D h264_nvenc           NVIDIA NVENC H.264 encoder
 V....D libx264              libx264 H.264 / AVC
 V....D hevc_nvenc           NVIDIA NVENC hevc encoder
 A....D aac                  AAC (Advanced Audio Coding)
";
    let found = parse_encoders(sample);
    assert!(found.contains(&"h264_nvenc".to_string()));
    assert!(found.contains(&"libx264".to_string()));
    assert!(found.contains(&"hevc_nvenc".to_string()));
    // aac is not in our known-video set.
    assert!(!found.contains(&"aac".to_string()));
}

#[test]
fn process_audio_requires_modern_build() {
    let old = OsInfo {
        name: "Windows".into(),
        build: Some("17763".into()),
    };
    let modern = OsInfo {
        name: "Windows".into(),
        build: Some("22631".into()),
    };
    assert!(!detect_process_audio(&old, true));
    assert!(detect_process_audio(&modern, true));
}

fn probe() -> Probe {
    Probe {
        windows: true,
        os_name: "ignored".into(),
        build_query: Some("HKLM\n    CurrentBuildNumber    REG_SZ    22631\n\n".into()),
        ffmpeg_path: "C:\\ffmpeg.exe".into(),
        encoder_listing: Some(" V....D libx264 a\n V....D h264_qsv b\n V....D libx264 c\n".into()),
        device_listing: Some("[in#0 @ 1] \"Cam\" (video)\n".into()),
        gstreamer_path: Some("gst".into()),
        running: vec![
            ProcessInfo { pid: 1, name: "Discord.exe".into() },
            ProcessInfo { pid: 2, name: "cs2.exe".into() },
        ],
        microphones: vec![],
    }
}

#[test]
fn a_windows_machine_is_described() {
    let caps = detect(probe());
    assert_eq!(caps.capture, "wgc");
    assert_eq!(caps.encoders, vec!["h264_qsv", "libx264"]);
    assert_eq!(caps.encoder_backends.len(), 2);
    assert!(caps.process_audio && caps.discord_audio);
    assert_eq!(caps.discord_processes.len(), 1);
    assert_eq!(caps.video_devices[0].name, "Cam");
    assert!(caps.gstreamer_available && caps.st2110_ready && caps.ffmpeg_available);
    assert_eq!(caps.gstreamer_path, "gst");
    assert_eq!(caps.ffmpeg_path, "C:\\ffmpeg.exe");
    assert_eq!(caps.os.name, "Windows");
    assert_eq!(caps.os.build.as_deref(), Some("22631"));
}

#[test]
fn a_bare_machine_is_described() {
    let mut p = probe();
    p.windows = false;
    p.os_name = "linux".into();
    p.encoder_listing = None;
    p.gstreamer_path = None;
    p.running.clear();
    let caps = detect(p);
    assert_eq!(caps.capture, "none");
    assert!(caps.encoders.is_empty() && caps.encoder_backends.is_empty());
    assert!(!caps.process_audio && !caps.discord_audio);
    assert!(caps.video_devices.is_empty());
    assert!(!caps.gstreamer_available && !caps.st2110_ready && !caps.ffmpeg_available);
    assert_eq!(caps.gstreamer_path, "");
    assert_eq!(caps.os.name, "linux");
    assert_eq!(caps.os.build, None);
}

#[test]
fn unknown_builds_are_taken_to_have_process_audio() {
    let os = |build: Option<&str>| OsInfo { name: "Windows".into(), build: build.map(str::to_string) };
    assert!(detect_process_audio(&os(None), true));
    assert!(detect_process_audio(&os(Some("ten")), true));
    assert!(detect_process_audio(&os(Some("19041")), true));
    assert!(!detect_process_audio(&os(Some("19040")), true));
    assert!(!detect_process_audio(&os(None), false));
}
