use galahad_encoder::presets::{find, presets, resolve_or_default, DEFAULT_PRESET_ID};

#[test]
fn ids_are_unique() {
    let mut ids: Vec<&str> = presets().iter().map(|p| p.id).collect();
    ids.sort_unstable();
    let len = ids.len();
    ids.dedup();
    assert_eq!(len, ids.len(), "preset ids must be unique");
}

#[test]
fn default_preset_exists() {
    assert!(find(DEFAULT_PRESET_ID).is_some());
}

#[test]
fn unknown_preset_falls_back() {
    assert_eq!(resolve_or_default("nope").id, DEFAULT_PRESET_ID);
}

#[test]
fn hevc_targets_are_lower_than_h264() {
    for p in presets().iter() {
        assert!(p.hevc_kbps < p.h264_kbps, "{} hevc >= h264", p.id);
    }
}

#[test]
fn all_requested_broadcast_profiles_present() {
    for id in [
        "4Kp60", "4Kp50", "1080p60", "1080p50", "4Ki60", "4Ki50", "1080i60", "1080i50",
    ] {
        assert!(find(id).is_some(), "missing broadcast profile {id}");
    }
}

#[test]
fn interlaced_frame_rate_is_half_field_rate() {
    for p in presets().iter().filter(|p| p.scan.is_interlaced()) {
        assert_eq!(
            p.frame_rate * 2,
            p.display_rate,
            "{} interlaced frame rate should be half the field rate",
            p.id
        );
    }
}

#[test]
fn progressive_frame_rate_matches_display_rate() {
    for p in presets().iter().filter(|p| !p.scan.is_interlaced()) {
        assert_eq!(p.frame_rate, p.display_rate, "{}", p.id);
    }
}

#[test]
fn four_k_profiles_are_uhd_raster() {
    for p in presets().iter().filter(|p| p.id.starts_with("4K")) {
        assert_eq!((p.width, p.height), (3840, 2160), "{}", p.id);
    }
}

#[test]
fn profiles_resolve_by_id() {
    let p = resolve_or_default("4Ki50");
    assert_eq!(p.label, "4K i50");
    assert_eq!((p.frame_rate, p.display_rate), (25, 50));
    assert_eq!((p.h264_kbps, p.hevc_kbps, p.st2110_mbps), (36000, 25000, 4147));
    assert!(find("4ki50").is_none());
}

#[test]
fn thirty_frame_profiles_are_offered() {
    let p = find("720p30").unwrap();
    assert_eq!((p.id, p.label), ("720p30", "720 p30"));
    assert_eq!((p.width, p.height, p.frame_rate), (1280, 720, 30));
    assert_eq!((p.h264_kbps, p.hevc_kbps, p.st2110_mbps), (3000, 2100, 553));
    let q = find("1080p30").unwrap();
    assert_eq!((q.id, q.label), ("1080p30", "1080 p30"));
    assert_eq!((q.width, q.height, q.frame_rate), (1920, 1080, 30));
    assert_eq!((q.h264_kbps, q.hevc_kbps, q.st2110_mbps), (6000, 4200, 1244));
    assert_eq!(presets().len(), 10);
}
