use galahad_encoder::capture::{
    check_size, frame_step, pack_rows, unsupported, CaptureConfig, FrameStep,
};
use galahad_encoder::error::EncoderError;

#[test]
fn rows_are_packed_without_padding() {
    // Two rows of one pixel, three bytes of padding after the first.
    let mapped = [1u8, 2, 3, 4, 0, 0, 0, 5, 6, 7, 8];
    let frame = pack_rows(&mapped, 7, 1, 2);
    assert_eq!((frame.width, frame.height), (1, 2));
    assert_eq!(frame.data, vec![1, 2, 3, 4, 5, 6, 7, 8]);
    assert_eq!(pack_rows(&[], 7, 1, 0).data.len(), 0);
}

#[test]
fn minimized_windows_cannot_be_captured() {
    assert_eq!(check_size(1920, 1080), Ok((1920, 1080)));
    for (w, h) in [(0, 1080), (1920, 0), (-1, 5)] {
        assert_eq!(
            check_size(w, h),
            Err(EncoderError::Capture("selected window has zero size (is it minimized?)".into()))
        );
    }
    assert_eq!(
        unsupported().message(),
        "capture error: window capture is only supported on Windows"
    );
}

#[test]
fn polls_at_least_once_a_second() {
    assert_eq!(CaptureConfig { window_id: 1, fps: 0 }.polling_rate(), 1);
    assert_eq!(CaptureConfig { window_id: 1, fps: 60 }.polling_rate(), 60);
}

#[test]
fn frames_keep_the_size_of_the_start() {
    let start = (10, 10);
    assert_eq!(
        frame_step(start, (10, 10), Some((20, 10)), (10, 10), Some((10, 10))),
        FrameStep::Resize { width: 20, height: 10 }
    );
    // The pool has followed the window: its frames are not the session's.
    assert_eq!(frame_step(start, (20, 10), Some((20, 10)), (20, 10), None), FrameStep::End);
    assert_eq!(frame_step(start, (10, 10), None, (12, 10), Some((10, 10))), FrameStep::End);
    // The window is back at its size.
    assert_eq!(
        frame_step(start, (10, 10), Some((10, 10)), (10, 10), None),
        FrameStep::Copy { new_staging: true }
    );
    assert_eq!(
        frame_step(start, (10, 10), None, (10, 10), Some((10, 10))),
        FrameStep::Copy { new_staging: false }
    );
    assert_eq!(
        frame_step(start, (10, 10), None, (10, 10), Some((9, 10))),
        FrameStep::Copy { new_staging: true }
    );
}
