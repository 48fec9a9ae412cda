//! Capture backend decisions.
//!
//! Windows Graphics Capture (WGC) is the primary backend, chosen over `gdigrab`
//! because it reliably captures GPU-composited games in borderless / fullscreen
//! windowed mode.

use vstd::prelude::*;
use vstd::string::*;

use crate::error::EncoderError;
use crate::error::ErrorView;
use crate::error::Result;

verus! {

/// What to capture and at what cadence.
#[derive(Debug, Clone, Copy)]
pub struct CaptureConfig {
    /// Target window (HWND id from `window_enum`).
    pub window_id: isize,
    /// Capture polling cadence. The encoder paces output; this just bounds the
    /// rate at which we pull frames from the pool.
    pub fps: u32,
}

/// A tightly packed BGRA frame (no row padding) ready for FFmpeg's rawvideo input.
#[derive(Debug, Clone)]
pub struct FrameBuffer {
    pub width: u32,
    pub height: u32,
    /// `width * height * 4` bytes, BGRA, top-down.
    pub data: Vec<u8>,
}

impl CaptureConfig {
    /// How many frames are polled for per second.
    pub open spec fn cadence(self) -> u32 {
        if self.fps == 0 {
            1
        } else {
            self.fps
        }
    }

    /// How many frames to poll for per second: at least one.
    pub fn polling_rate(&self) -> (r: u32)
        ensures
            r == (if self.fps == 0 {
                1u32
            } else {
                self.fps
            }),
            r == self.cadence(),
    {
        if self.fps == 0 {
            1
        } else {
            self.fps
        }
    }
}

/// The size that a window is captured at, from what the system reports of it, or
/// why it cannot be captured.
pub open spec fn capture_size(width: i32, height: i32) -> std::result::Result<(u32, u32), ErrorView> {
    if width <= 0 || height <= 0 {
        Err(ErrorView::Capture("selected window has zero size (is it minimized?)"@))
    } else {
        Ok((width as u32, height as u32))
    }
}

/// Validate the size of the window to capture.
pub fn check_size(width: i32, height: i32) -> (r: Result<(u32, u32)>)
    ensures
        match r {
            Ok(size) => capture_size(width, height) == Ok::<(u32, u32), ErrorView>(size),
            Err(e) => capture_size(width, height) == Err::<(u32, u32), ErrorView>(e@),
        },
{
    if width <= 0 || height <= 0 {
        return Err(
            EncoderError::Capture("selected window has zero size (is it minimized?)".to_string()),
        );
    }
    Ok((width as u32, height as u32))
}

/// Window capture where there is none.
pub fn unsupported() -> (r: EncoderError)
    ensures
        r@ == ErrorView::Capture("window capture is only supported on Windows"@),
{
    EncoderError::Capture("window capture is only supported on Windows".to_string())
}

/// What to do with a frame that was delivered.
#[derive(Debug, Clone, Copy, PartialEq, Eq, Structural)]
pub enum FrameStep {
    /// The window was resized: make the pool anew at this size, forget the staging
    /// texture and skip the frame.
    Resize { width: i32, height: i32 },
    /// Copy the frame out, through a new staging texture if asked for.
    Copy { new_staging: bool },
    /// The frame has another size than those before it: end the capture, so that
    /// the next session starts at the new size.
    End,
}

/// What is done with a frame. The frames of a session all have the size at which
/// it started, which FFmpeg was told; the pool follows the window.
pub open spec fn step_for(
    start: (u32, u32),
    pool: (i32, i32),
    content: Option<(i32, i32)>,
    texture: (u32, u32),
    staging: Option<(u32, u32)>,
) -> FrameStep {
    match content {
        Some(size) if size != pool => FrameStep::Resize { width: size.0, height: size.1 },
        _ => if texture == start {
            FrameStep::Copy { new_staging: staging != Some(texture) }
        } else {
            FrameStep::End
        },
    }
}

/// Decide what to do with a frame: `start` is the size at which the session
/// started, `pool` that of the frame pool, `content` that of the window if it could
/// be read, `texture` that of the frame and `staging` that of the staging texture if
/// there is one.
pub fn frame_step(
    start: (u32, u32),
    pool: (i32, i32),
    content: Option<(i32, i32)>,
    texture: (u32, u32),
    staging: Option<(u32, u32)>,
) -> (r: FrameStep)
    ensures
        r == step_for(start, pool, content, texture, staging),
        r is Copy ==> texture == start,
{
    if let Some(size) = content {
        if size.0 != pool.0 || size.1 != pool.1 {
            return FrameStep::Resize { width: size.0, height: size.1 };
        }
    }
    if texture.0 != start.0 || texture.1 != start.1 {
        return FrameStep::End;
    }
    let new_staging = match staging {
        Some((w, h)) => w != texture.0 || h != texture.1,
        None => true,
    };
    FrameStep::Copy { new_staging }
}

/// The first `rows` rows of a mapped texture, without the padding between them.
pub open spec fn packed(mapped: Seq<u8>, pitch: int, row_bytes: int, rows: int) -> Seq<u8>
    decreases rows,
{
    if rows <= 0 {
        seq![]
    } else {
        packed(mapped, pitch, row_bytes, rows - 1) + mapped.subrange(
            (rows - 1) * pitch,
            (rows - 1) * pitch + row_bytes,
        )
    }
}

/// Copy a mapped texture into a tightly packed BGRA buffer.
pub fn pack_rows(mapped: &[u8], pitch: usize, width: u32, height: u32) -> (r: FrameBuffer)
    requires
        width * 4 <= u32::MAX,
        height > 0 ==> (height - 1) * pitch + width * 4 <= mapped@.len(),
    ensures
        r.width == width,
        r.height == height,
        r.data@ == packed(mapped@, pitch as int, width * 4, height as int),
{
    let row_bytes: usize = (width * 4) as usize;
    let total: usize = mapped.len();
    let mut data: Vec<u8> = Vec::new();
    let mut start: usize = 0;
    let mut row: u32 = 0;
    while row < height
        invariant
            row_bytes == width * 4,
            total == mapped@.len(),
            row <= height,
            height > 0 ==> (height - 1) * pitch + row_bytes <= total,
            row < height ==> start == row * pitch,
            data@ == packed(mapped@, pitch as int, row_bytes as int, row as int),
        decreases height - row,
    {
        proof {
            assert(row * pitch <= (height - 1) * pitch) by (nonlinear_arith)
                requires
                    row <= height - 1,
            ;
            assert((row + 1) * pitch == row * pitch + pitch) by (nonlinear_arith);
            if row + 1 < height {
                assert((row + 1) * pitch <= (height - 1) * pitch) by (nonlinear_arith)
                    requires
                        row + 1 <= height - 1,
                ;
            }
        }
        let ghost before = data@;
        let mut k: usize = 0;
        assert(mapped@.subrange(start as int, start as int) =~= Seq::empty());
        while k < row_bytes
            invariant
                k <= row_bytes,
                total == mapped@.len(),
                start + row_bytes <= total,
                data@ == before + mapped@.subrange(start as int, start + k),
            decreases row_bytes - k,
        {
            data.push(mapped[start + k]);
            k += 1;
            assert(data@ =~= before + mapped@.subrange(start as int, start + k));
        }
        row += 1;
        if row < height {
            start = start + pitch;
        }
    }
    FrameBuffer { width, height, data }
}

/// A packed frame holds four bytes per pixel.
pub proof fn packed_frames_have_no_padding(mapped: Seq<u8>, pitch: int, width: int, height: int)
    requires
        width >= 0,
        height >= 0,
        pitch >= 0,
        height > 0 ==> (height - 1) * pitch + width * 4 <= mapped.len(),
    ensures
        packed(mapped, pitch, width * 4, height).len() == width * height * 4,
    decreases height,
{
    if height > 0 {
        assert(0 <= (height - 1) * pitch) by (nonlinear_arith)
            requires
                height > 0,
                pitch >= 0,
        ;
        if height > 1 {
            assert((height - 2) * pitch <= (height - 1) * pitch) by (nonlinear_arith)
                requires
                    pitch >= 0,
            ;
        }
        packed_frames_have_no_padding(mapped, pitch, width, height - 1);
        assert(width * height * 4 == width * (height - 1) * 4 + width * 4) by (nonlinear_arith);
    } else {
        assert(width * height * 4 == 0) by (nonlinear_arith)
            requires
                height == 0,
        ;
    }
}

/// Whatever becomes of the window, every frame that a session emits has the size
/// at which the session started, at four bytes per pixel.
pub proof fn frame_size_is_locked_at_start(
    start: (u32, u32),
    pool: (i32, i32),
    content: Option<(i32, i32)>,
    texture: (u32, u32),
    staging: Option<(u32, u32)>,
    mapped: Seq<u8>,
    pitch: int,
)
    requires
        step_for(start, pool, content, texture, staging) is Copy,
        pitch >= 0,
        texture.1 > 0 ==> (texture.1 - 1) * pitch + texture.0 * 4 <= mapped.len(),
    ensures
        texture == start,
        packed(mapped, pitch, texture.0 * 4, texture.1 as int).len() == start.0 * start.1 * 4,
{
    packed_frames_have_no_padding(mapped, pitch, texture.0 as int, texture.1 as int);
}

/// Every byte of a packed frame is the one that stood in its row and column of the
/// mapped texture.
pub proof fn pixels_stay_in_place(mapped: Seq<u8>, pitch: int, width: int, height: int, row: int, k: int)
    requires
        width >= 0,
        pitch >= 0,
        0 <= row < height,
        0 <= k < width * 4,
        (height - 1) * pitch + width * 4 <= mapped.len(),
    ensures
        0 <= row * (width * 4) + k < packed(mapped, pitch, width * 4, height).len(),
        packed(mapped, pitch, width * 4, height)[row * (width * 4) + k] == mapped[row * pitch + k],
    decreases height,
{
    let bytes = width * 4;
    packed_frames_have_no_padding(mapped, pitch, width, height);
    assert(0 <= (height - 1) * pitch) by (nonlinear_arith)
        requires
            height > 0,
            pitch >= 0,
    ;
    let head = packed(mapped, pitch, bytes, height - 1);
    if height > 1 {
        assert((height - 2) * pitch <= (height - 1) * pitch) by (nonlinear_arith)
            requires
                pitch >= 0,
        ;
    }
    packed_frames_have_no_padding(mapped, pitch, width, height - 1);
    assert(width * (height - 1) * 4 == (height - 1) * bytes) by (nonlinear_arith)
        requires
            bytes == width * 4,
    ;
    if row < height - 1 {
        pixels_stay_in_place(mapped, pitch, width, height - 1, row, k);
        assert(packed(mapped, pitch, bytes, height)[row * bytes + k] == head[row * bytes + k]);
    } else {
        let last = mapped.subrange((height - 1) * pitch, (height - 1) * pitch + bytes);
        assert(packed(mapped, pitch, bytes, height) == head + last);
        assert((head + last)[row * bytes + k] == last[k]);
        assert(0 <= row * bytes) by (nonlinear_arith)
            requires
                row >= 0,
                bytes >= 0,
        ;
    }
}

/// A window is captured at the size that the system reports, unless a side of it is
/// nothing.
pub proof fn sizes_are_taken_as_reported(width: i32, height: i32)
    ensures
        width > 0 && height > 0 ==> (capture_size(width, height) matches Ok(size) && size.0 == width && size.1
            == height),
        width <= 0 || height <= 0 ==> capture_size(width, height) is Err,
{
}

/// The pool follows the window as soon as its size is known to differ; else a frame of
/// the session's size is copied out, through the staging texture that is there if it
/// has that size, and any other frame ends the session.
pub proof fn frames_follow_the_window(
    start: (u32, u32),
    pool: (i32, i32),
    content: Option<(i32, i32)>,
    texture: (u32, u32),
    staging: Option<(u32, u32)>,
)
    ensures
        ({
            let step = step_for(start, pool, content, texture, staging);
            let moved = content is Some && ((content->0).0 != pool.0 || (content->0).1 != pool.1);
            &&& moved ==> step == (FrameStep::Resize { width: (content->0).0, height: (content->0).1 })
            &&& !moved && texture != start ==> step is End
            &&& !moved && texture == start ==> step is Copy
            &&& !moved && texture == start && staging == Some(start) ==> step == (FrameStep::Copy {
                new_staging: false,
            })
            &&& !moved && texture == start && staging != Some(start) ==> step == (FrameStep::Copy {
                new_staging: true,
            })
        }),
{
}

/// Frames are polled for at the rate that is asked for, and once a second if none is.
pub proof fn polling_never_stops(config: CaptureConfig)
    ensures
        config.cadence() >= 1,
        config.fps > 0 ==> config.cadence() == config.fps,
        config.fps == 0 ==> config.cadence() == 1,
{
}

} // verus!
