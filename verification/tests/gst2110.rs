use galahad_encoder::gst2110::{
    EssenceTarget, Gst2110Audio, Gst2110Plan, AUDIO_CHANNELS, AUDIO_SAMPLE_RATE,
};
use galahad_encoder::presets;

fn video_target() -> EssenceTarget {
    EssenceTarget::parse("239.20.20.20", 20000).unwrap()
}

fn plan(profile: &str, audio: bool) -> Gst2110Plan {
    let preset = presets::resolve_or_default(profile);
    let audio = if audio {
        Some(Gst2110Audio {
            target: EssenceTarget::parse("239.20.20.30", 20030).unwrap(),
            payload_type: 97,
            sample_rate: AUDIO_SAMPLE_RATE,
            channels: AUDIO_CHANNELS,
        })
    } else {
        None
    };
    Gst2110Plan::from_profile(
        "Blackmagic WDM Capture",
        &preset,
        video_target(),
        96,
        0,
        Some("Ethernet 2".into()),
        audio,
    )
    .unwrap()
}

#[test]
fn rejects_invalid_destination_ip() {
    assert!(EssenceTarget::parse("not-an-ip", 20000).is_err());
    assert!(EssenceTarget::parse("239.20.20.20", 0).is_err());
}

#[test]
fn detects_multicast_destination() {
    assert!(EssenceTarget::parse("239.1.1.1", 5000).unwrap().multicast);
    assert!(!EssenceTarget::parse("10.0.0.5", 5000).unwrap().multicast);
}

#[test]
fn rejects_non_dynamic_payload_type() {
    let preset = presets::resolve_or_default("1080p60");
    let err = Gst2110Plan::from_profile(
        "cam",
        &preset,
        video_target(),
        33,
        0,
        None,
        None,
    );
    assert!(err.is_err());
}

#[test]
fn rejects_empty_device() {
    let preset = presets::resolve_or_default("1080p60");
    assert!(
        Gst2110Plan::from_profile("  ", &preset, video_target(), 96, 0, None, None).is_err()
    );
}

#[test]
fn pipeline_has_device_payloader_and_sink() {
    let args = plan("1080p60", false).build_pipeline_args();
    let joined = args.join(" ");
    assert!(joined.contains("dshowvideosrc device-name=\"Blackmagic WDM Capture\""));
    assert!(joined.contains("rtpvrawpay pt=96"));
    assert!(joined.contains("udpsink host=239.20.20.20 port=20000"));
    assert!(joined.contains("sampling=YCbCr-4:2:2"));
}

#[test]
fn pipeline_marks_interlaced_profiles() {
    let joined = plan("1080i50", false).build_pipeline_args().join(" ");
    assert!(joined.contains("interlace-mode=interleaved"));
    let prog = plan("1080p60", false).build_pipeline_args().join(" ");
    assert!(prog.contains("interlace-mode=progressive"));
}

#[test]
fn pipeline_adds_audio_branch_when_enabled() {
    let joined = plan("1080p60", true).build_pipeline_args().join(" ");
    assert!(joined.contains("dshowaudiosrc"));
    assert!(joined.contains("rtpL24pay pt=97"));
    assert!(joined.contains("udpsink host=239.20.20.30 port=20030"));
}

#[test]
fn pipeline_passes_multicast_interface() {
    let joined = plan("1080p60", false).build_pipeline_args().join(" ");
    assert!(joined.contains("multicast-iface=Ethernet 2"));
}

#[test]
fn sdp_video_media_has_rfc4175_params() {
    let sdp = plan("1080p60", false).to_sdp("10.0.0.9");
    assert!(sdp.contains("m=video 20000 RTP/AVP 96"));
    assert!(sdp.contains("c=IN IP4 239.20.20.20/64"));
    assert!(sdp.contains("a=rtpmap:96 raw/90000"));
    assert!(sdp.contains("sampling=YCbCr-4:2:2"));
    assert!(sdp.contains("exactframerate=60"));
    assert!(sdp.contains("depth=10"));
    assert!(sdp.contains("ts-refclk:ptp=IEEE1588-2008:traceable:0"));
}

#[test]
fn sdp_marks_interlaced() {
    let sdp = plan("1080i60", false).to_sdp("10.0.0.9");
    assert!(sdp.contains("interlace"));
    assert!(sdp.contains("exactframerate=30"));
}

#[test]
fn sdp_includes_audio_when_enabled() {
    let sdp = plan("1080p60", true).to_sdp("10.0.0.9");
    assert!(sdp.contains("m=audio 20030 RTP/AVP 97"));
    assert!(sdp.contains("a=rtpmap:97 L24/48000/2"));
    assert!(sdp.contains("a=ptime:1"));
}

#[test]
fn sdp_defaults_source_when_blank() {
    let sdp = plan("1080p60", false).to_sdp("");
    assert!(sdp.contains("o=- 0 0 IN IP4 0.0.0.0"));
}

#[test]
fn audio_is_a_chain_of_its_own() {
    let args = plan("1080p60", true).build_pipeline_args();
    let silent = plan("1080p60", false).build_pipeline_args();
    assert_eq!(args[..silent.len()], silent[..]);
    assert_eq!(silent.len(), 2 + 8 + 7);
    assert_eq!(args[silent.len()], "\n");
    assert_eq!(args[silent.len() + 1], "dshowaudiosrc");
    assert_eq!(args[silent.len() + 2], "!");
    assert_eq!(args.len(), silent.len() + 1 + 7 + 6);
    assert_eq!(
        args.last().unwrap(),
        "udpsink host=239.20.20.30 port=20030 auto-multicast=true ttl-mc=16 multicast-iface=Ethernet 2"
    );
}

#[test]
fn the_sdp_spells_out_every_line() {
    let sdp = plan("1080i50", true).to_sdp(" 10.0.0.9 ");
    assert_eq!(
        sdp,
        "v=0\r\no=- 0 0 IN IP4 10.0.0.9\r\ns=RHEncoder ST 2110 Stream\r\nt=0 0\r\n\
         m=video 20000 RTP/AVP 96\r\nc=IN IP4 239.20.20.20/64\r\na=rtpmap:96 raw/90000\r\n\
         a=fmtp:96 sampling=YCbCr-4:2:2; width=1920; height=1080; exactframerate=25; depth=10; \
         TCS=SDR; colorimetry=BT709; PM=2110GPM; SSN=ST2110-20:2017; TP=2110TPN; interlace\r\n\
         a=mediaclk:direct=0\r\na=ts-refclk:ptp=IEEE1588-2008:traceable:0\r\n\
         m=audio 20030 RTP/AVP 97\r\nc=IN IP4 239.20.20.30/64\r\na=rtpmap:97 L24/48000/2\r\n\
         a=ptime:1\r\na=mediaclk:direct=0\r\na=ts-refclk:ptp=IEEE1588-2008:traceable:0\r\n"
    );
}
