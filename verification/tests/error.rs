use galahad_encoder::error::EncoderError;

#[test]
fn errors_have_a_tag_and_a_message() {
    let cases = [
        (EncoderError::Config("x".into()), "config", "configuration error: x"),
        (EncoderError::Capability("x".into()), "capability", "capability error: x"),
        (EncoderError::Capture("x".into()), "capture", "capture error: x"),
        (EncoderError::Audio("x".into()), "audio", "audio error: x"),
        (EncoderError::Encoder("x".into()), "encoder", "encoder error: x"),
        (EncoderError::Pipeline("x".into()), "pipeline", "pipeline error: x"),
        (EncoderError::Control("x".into()), "control", "control channel error: x"),
        (EncoderError::Io("x".into()), "io", "io error: x"),
        (EncoderError::Serde("x".into()), "serde", "serialization error: x"),
    ];
    for (error, kind, message) in &cases {
        assert_eq!(error.kind(), *kind);
        assert_eq!(error.message(), *message);
    }
}
