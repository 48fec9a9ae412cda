use galahad_encoder::logger::{log_line, LogBuffer, LogLevel, RING_CAP};

#[test]
fn formats_lines() {
    assert_eq!(
        log_line(1700000000, LogLevel::Warn, "ffmpeg: late"),
        "[1700000000] WARN: ffmpeg: late"
    );
}

#[test]
fn keeps_the_newest_lines() {
    let mut logs = LogBuffer::new();
    for i in 0..(RING_CAP as u64 + 5) {
        let line = logs.record(i, LogLevel::Info, "tick").unwrap();
        assert_eq!(line, format!("[{i}] INFO: tick"));
    }
    let kept = logs.snapshot();
    assert_eq!(kept.len(), RING_CAP);
    assert_eq!(kept[0], "[5] INFO: tick");
    assert_eq!(kept[RING_CAP - 1], "[1004] INFO: tick");
}

#[test]
fn debug_lines_are_not_logged() {
    let mut logs = LogBuffer::new();
    assert_eq!(logs.record(1, LogLevel::Debug, "x"), None);
    assert_eq!(logs.record(1, LogLevel::Trace, "x"), None);
    assert_eq!(logs.record(1, LogLevel::Error, "x"), Some("[1] ERROR: x".to_string()));
    assert_eq!(logs.snapshot(), vec!["[1] ERROR: x"]);
}
