use galahad_encoder::audio::{
    decode_packet, endpoint_for, list_microphones, new_ring, pcm_bytes, push_samples, start, to_stereo,
    AudioCapture, AudioPlan, AudioPlanSource, Endpoint, EndpointRecord, Sample, RING_CAP,
};
use galahad_encoder::config::Gain;
use galahad_encoder::error::EncoderError;

#[test]
fn ring_drops_oldest_past_cap() {
    let mut ring = new_ring();
    let big = vec![1.0f32.to_bits(); RING_CAP + 100];
    push_samples(&mut ring, &big);
    assert_eq!(ring.len(), RING_CAP);
}

#[test]
fn plan_any_enabled() {
    let empty = AudioPlan::default();
    assert!(!empty.any_enabled());

    let one = AudioPlan {
        sources: vec![AudioPlanSource {
            capture: AudioCapture::SystemLoopback,
            gain: Gain { bits: 1.0f32.to_bits() },
            label: "Desktop audio".into(),
        }],
    };
    assert!(one.any_enabled());
}

fn as_f32(sample: Sample) -> f32 {
    match sample {
        Sample::Float(bits) => f32::from_bits(bits),
        Sample::Int16(n) => n as f32 / 32768.0,
        Sample::Silence => 0.0,
    }
}

#[test]
fn stereo_conversion_duplicates_mono() {
    // one mono 16-bit sample at full scale.
    let data = (i16::MAX).to_le_bytes().to_vec();
    let out: Vec<f32> = to_stereo(&data, 1, 1, 16).into_iter().map(as_f32).collect();
    assert_eq!(out.len(), 2);
    assert!((out[0] - out[1]).abs() < 1e-6);
    assert!(out[0] > 0.9);
}

#[test]
fn rings_hand_out_the_oldest_samples() {
    let mut ring = new_ring();
    push_samples(&mut ring, &[1, 2, 3]);
    push_samples(&mut ring, &[4]);
    assert_eq!(ring.take(2), vec![1, 2]);
    assert_eq!(ring.take(5), vec![3, 4]);
    assert_eq!(ring.take(5), Vec::<u32>::new());
}

#[test]
fn full_rings_keep_the_newest_samples() {
    let mut ring = new_ring();
    let first: Vec<u32> = (0..RING_CAP as u32).collect();
    push_samples(&mut ring, &first);
    push_samples(&mut ring, &[7, 8]);
    assert_eq!(ring.take(1), vec![2]);
    let rest = ring.take(RING_CAP);
    assert_eq!(rest[rest.len() - 2..], [7, 8]);
}

#[test]
fn decodes_the_first_two_channels() {
    // Two frames of three 16-bit channels; the last channel is ignored.
    let data = [1u8, 0, 255, 255, 9, 9, 0, 128, 2, 1, 9, 9];
    assert_eq!(
        to_stereo(&data, 2, 3, 16),
        vec![Sample::Int16(1), Sample::Int16(-1), Sample::Int16(-32768), Sample::Int16(258)]
    );
    let float = 0.5f32.to_le_bytes();
    assert_eq!(
        to_stereo(&float, 1, 1, 32),
        vec![Sample::Float(0.5f32.to_bits()), Sample::Float(0.5f32.to_bits())]
    );
}

#[test]
fn undecodable_samples_are_silent() {
    assert_eq!(to_stereo(&[1, 2, 3], 1, 1, 24), vec![Sample::Silence; 2]);
    assert_eq!(to_stereo(&[1], 1, 1, 16), vec![Sample::Silence; 2]);
    assert_eq!(decode_packet(None, false, 2, 2, 32), vec![Sample::Silence; 4]);
    assert_eq!(decode_packet(Some(&[1, 0, 1, 0]), true, 1, 2, 16), vec![Sample::Silence; 2]);
    assert_eq!(
        decode_packet(Some(&[1, 0, 2, 0]), false, 1, 2, 16),
        vec![Sample::Int16(1), Sample::Int16(2)]
    );
}

#[test]
fn pcm_is_little_endian() {
    assert_eq!(pcm_bytes(&[1, -1, 256, i16::MIN]), vec![1, 0, 255, 255, 0, 1, 0, 128]);
}

#[test]
fn channels_map_to_endpoints() {
    assert!(matches!(
        endpoint_for(&AudioCapture::SystemLoopback),
        (Endpoint::DefaultRender, true)
    ));
    assert!(matches!(
        endpoint_for(&AudioCapture::Microphone { device_id: None }),
        (Endpoint::DefaultCapture, false)
    ));
    match endpoint_for(&AudioCapture::Microphone { device_id: Some("{mic}".into()) }) {
        (Endpoint::CaptureById(id), false) => assert_eq!(id, "{mic}"),
        other => panic!("{other:?}"),
    }
    assert!(matches!(
        endpoint_for(&AudioCapture::Application { process_id: 7 }),
        (Endpoint::Process(7), true)
    ));
}

fn two_channels() -> AudioPlan {
    let channel = |label: &str| AudioPlanSource {
        capture: AudioCapture::SystemLoopback,
        gain: Gain::unity(),
        label: label.into(),
    };
    AudioPlan { sources: vec![channel("Desktop audio"), channel("Mic")] }
}

#[test]
fn channels_that_fail_are_reported() {
    let report = start(&two_channels(), true, false, &vec![None, Some(EncoderError::Audio("busy".into()))]);
    assert_eq!(report.live, vec![0]);
    assert_eq!(report.warnings, vec!["'Mic' capture failed: audio error: busy"]);
}

#[test]
fn a_plan_without_audio_streams_video_only() {
    let gone = || Some(EncoderError::Audio("gone".into()));
    let report = start(&two_channels(), true, false, &vec![gone(), gone()]);
    assert_eq!(report.live, Vec::<usize>::new());
    assert_eq!(report.warnings.len(), 3);
    assert_eq!(
        report.warnings[2],
        "no audio channel could be started; streaming video only"
    );
    assert_eq!(start(&AudioPlan::default(), true, false, &vec![]).warnings, Vec::<String>::new());
    assert_eq!(
        start(&two_channels(), false, true, &vec![]).warnings,
        vec!["audio capture is only supported on Windows"]
    );
}

#[test]
fn endpoints_without_an_id_are_skipped() {
    let records = vec![
        EndpointRecord { id: Some("a".into()), name: None },
        EndpointRecord { id: None, name: Some("ghost".into()) },
        EndpointRecord { id: Some("b".into()), name: Some("Headset".into()) },
    ];
    let mics: Vec<(String, String)> =
        list_microphones(&records).into_iter().map(|m| (m.id, m.name)).collect();
    assert_eq!(
        mics,
        vec![
            ("a".to_string(), "Microphone".to_string()),
            ("b".to_string(), "Headset".to_string())
        ]
    );
}

#[test]
fn a_shared_system_mix_is_announced() {
    let note = "application audio cannot be captured on its own; using the desktop mix instead";
    let report = start(&two_channels(), true, true, &vec![None, None]);
    assert_eq!(report.live, vec![0, 1]);
    assert_eq!(report.warnings, vec![note]);
    let gone = || Some(EncoderError::Audio("gone".into()));
    let report = start(&two_channels(), true, true, &vec![gone(), gone()]);
    assert_eq!(report.warnings.len(), 4);
    assert_eq!(report.warnings[0], note);
    assert_eq!(report.warnings[3], "no audio channel could be started; streaming video only");
}
