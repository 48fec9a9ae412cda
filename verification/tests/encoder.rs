use galahad_encoder::encoder::{available_backends, select, Codec, Vendor};

fn names(list: &[&str]) -> Vec<String> {
    list.iter().map(|s| s.to_string()).collect()
}

#[test]
fn prefers_nvenc_for_h264() {
    let avail = names(&["h264_qsv", "h264_nvenc", "libx264"]);
    let chosen = select(Codec::H264, &avail, false).unwrap();
    assert_eq!(chosen.ffmpeg_name, "h264_nvenc");
    assert_eq!(chosen.vendor, Vendor::Nvidia);
}

#[test]
fn falls_back_to_qsv_then_amf() {
    let avail = names(&["h264_amf", "h264_qsv"]);
    let chosen = select(Codec::H264, &avail, false).unwrap();
    assert_eq!(chosen.ffmpeg_name, "h264_qsv");
}

#[test]
fn software_excluded_unless_allowed() {
    let avail = names(&["libx264"]);
    assert!(select(Codec::H264, &avail, false).is_none());
    let chosen = select(Codec::H264, &avail, true).unwrap();
    assert_eq!(chosen.ffmpeg_name, "libx264");
    assert!(!chosen.hardware);
}

#[test]
fn hevc_selection_is_independent() {
    let avail = names(&["h264_nvenc", "hevc_qsv"]);
    assert_eq!(
        select(Codec::Hevc, &avail, false).unwrap().ffmpeg_name,
        "hevc_qsv"
    );
}

#[test]
fn available_backends_lists_all_present() {
    let avail = names(&["h264_nvenc", "hevc_nvenc", "libx264"]);
    let backends = available_backends(&avail);
    assert_eq!(backends.len(), 3);
}

#[test]
fn codecs_have_names() {
    assert_eq!(Codec::H264.as_str(), "h264");
    assert_eq!(Codec::Hevc.as_str(), "hevc");
}

#[test]
fn backends_are_listed_by_rank() {
    let avail = names(&["libx265", "h264_amf", "h264_qsv", "aac"]);
    let listed: Vec<&str> = available_backends(&avail).iter().map(|b| b.ffmpeg_name).collect();
    assert_eq!(listed, vec!["h264_qsv", "h264_amf", "libx265"]);
    assert_eq!(select(Codec::Hevc, &avail, false), None);
    assert_eq!(select(Codec::Hevc, &avail, true).unwrap().ffmpeg_name, "libx265");
}
