use galahad_encoder::video_device::{list_video_devices, parse_dshow_devices};

const SAMPLE: &str = r#"[dshow @ 000001] DirectShow video devices (some may be both video and audio devices)
[dshow @ 000001]  "Logitech BRIO"
[dshow @ 000001]     Alternative name "@device_pnp_\\?\usb#vid_046d"
[dshow @ 000001]  "Blackmagic WDM Capture"
[dshow @ 000001]     Alternative name "@device_pnp_\\?\pci#ven_1cfa"
[dshow @ 000001] DirectShow audio devices
[dshow @ 000001]  "Microphone (Realtek High Definition Audio)"
[dshow @ 000001]     Alternative name "@device_cm_{guid}"
"#;

#[test]
fn parses_only_video_friendly_names() {
    let devices = parse_dshow_devices(SAMPLE);
    assert_eq!(devices.len(), 2);
    assert_eq!(devices[0].name, "Logitech BRIO");
    assert_eq!(devices[1].name, "Blackmagic WDM Capture");
}

#[test]
fn ignores_alternative_names_and_audio_section() {
    let devices = parse_dshow_devices(SAMPLE);
    assert!(devices.iter().all(|d| !d.name.starts_with('@')));
    assert!(devices
        .iter()
        .all(|d| !d.name.to_lowercase().contains("microphone")));
}

#[test]
fn id_matches_friendly_name() {
    let devices = parse_dshow_devices(SAMPLE);
    assert!(devices.iter().all(|d| d.id == d.name));
}

#[test]
fn dedupes_repeated_devices() {
    let doubled = format!("{SAMPLE}{SAMPLE}");
    let devices = parse_dshow_devices(&doubled);
    assert_eq!(devices.len(), 2);
}

#[test]
fn empty_on_no_devices() {
    let listing = "[dshow @ 1] DirectShow video devices\n[dshow @ 1] DirectShow audio devices\n";
    assert!(parse_dshow_devices(listing).is_empty());
}

// FFmpeg >= 7 layout: no section headers, inline (video)/(audio)/(none) tags.
const SAMPLE_V7: &str = r#"[in#0 @ 0001] "Integrated Webcam" (video)
[in#0 @ 0001]   Alternative name "@device_pnp_\\?\usb#vid_0c45"
[in#0 @ 0001] "LSVCam" (none)
[in#0 @ 0001]   Alternative name "@device_sw_{860BB310}\LSVCam"
[in#0 @ 0001] "OBS Virtual Camera" (video)
[in#0 @ 0001]   Alternative name "@device_sw_{860BB310}\{A3FCE0F5}"
[in#0 @ 0001] "DouWan Camera5 (1920x1080)" (video)
[in#0 @ 0001]   Alternative name "@device_sw_{860BB310}\{A3FCE0EE}"
[in#0 @ 0001] "Microphone Array (Intel Smart Sound)" (audio)
[in#0 @ 0001]   Alternative name "@device_cm_{33D9A762}\wave_{A8AF644C}"
"#;

#[test]
fn parses_ffmpeg7_inline_tagged_video_devices() {
    let devices = parse_dshow_devices(SAMPLE_V7);
    let names: Vec<&str> = devices.iter().map(|d| d.name.as_str()).collect();
    assert_eq!(
        names,
        vec![
            "Integrated Webcam",
            "OBS Virtual Camera",
            "DouWan Camera5 (1920x1080)"
        ]
    );
}

#[test]
fn ffmpeg7_skips_audio_and_none_devices() {
    let devices = parse_dshow_devices(SAMPLE_V7);
    assert!(devices.iter().all(|d| d.name != "LSVCam"));
    assert!(devices
        .iter()
        .all(|d| !d.name.to_lowercase().contains("microphone")));
}

#[test]
fn handles_lines_without_log_prefix() {
    let listing = "DirectShow video devices\n \"Camera One\"\nDirectShow audio devices\n";
    let devices = parse_dshow_devices(listing);
    assert_eq!(devices.len(), 1);
    assert_eq!(devices[0].name, "Camera One");
}

#[test]
fn tags_win_over_sections_and_case_is_ignored() {
    let listing = "DIRECTSHOW VIDEO DEVICES\n\"A\"\n\"B\" (AUDIO)\n\"\" (video)\nno quotes\n\
                   directshow audio devices\n\"C\" (Video)\n\"D\"\n\"A\" (video)\n";
    let names: Vec<String> = parse_dshow_devices(listing).into_iter().map(|d| d.name).collect();
    assert_eq!(names, vec!["A", "C"]);
}

#[test]
fn only_windows_lists_devices() {
    let listing = "[in#0 @ 1] \"Cam\" (video)\n";
    assert_eq!(list_video_devices(true, Some(listing)).len(), 1);
    assert!(list_video_devices(false, Some(listing)).is_empty());
    assert!(list_video_devices(true, None).is_empty());
}

#[test]
fn longer_listings_keep_what_was_listed() {
    let head = "[dshow @ 1] \"Cam A\" (video)\r";
    let more = "[dshow @ 1] \"Cam B\" (video)\n\"Cam A\" (video)";
    let names = |s: &str| -> Vec<String> {
        parse_dshow_devices(s).into_iter().map(|d| d.name).collect()
    };
    assert_eq!(names(head), vec!["Cam A"]);
    assert_eq!(names(&format!("{head}\n{more}")), vec!["Cam A", "Cam B"]);
    assert_eq!(names(&format!("{head}\n\n{more}")), vec!["Cam A", "Cam B"]);
    assert!(names("DirectShow video devices\nCam A (video)").is_empty());
}
