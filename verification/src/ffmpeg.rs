//! FFmpeg argument construction for the streaming pipeline.
//!
//! Galahad owns capture (Windows Graphics Capture) and audio mixing natively,
//! then hands FFmpeg two raw streams:
//!   * raw BGRA video on `pipe:0` (stdin)
//!   * interleaved s16le PCM audio over a localhost TCP socket
//!
//! TCP is used for audio (instead of `pipe:3`) because passing an extra inherited
//! file descriptor to a child process is awkward on Windows, whereas FFmpeg can
//! reliably connect to `tcp://127.0.0.1:<port>` as a client.
//!
//! FFmpeg's only job is encode + scale + MPEG-TS mux + SRT output, and to tee the
//! encoded packets into a local HLS preview where one is wanted.

use vstd::prelude::*;
use vstd::string::*;

use crate::encoder::EncoderBackend;
use crate::encoder::Vendor;
use crate::srt::SrtDestination;
use crate::text;

verus! {

/// Where FFmpeg reads video from.
#[derive(Debug, Clone)]
pub enum VideoInput {
    /// Raw BGRA frames fed on stdin by our WGC window capture.
    RawPipe,
    /// A physical DirectShow capture device (camera / capture card) that FFmpeg
    /// opens directly with `-f dshow -i video=<name>`.
    Dshow { device: String },
}

/// A local HLS preview that FFmpeg tees its already-encoded packets into.
#[derive(Debug, Clone)]
pub struct PreviewSink {
    /// Playlist filename, relative to FFmpeg's working directory, so that it needs
    /// no escaping in the tee output. The muxer names the segments after it.
    pub playlist: String,
}

impl PreviewSink {
    pub fn new(playlist: String) -> (r: Self)
        ensures
            r.playlist@ == playlist@,
    {
        PreviewSink { playlist }
    }
}

/// The playlist of a preview, if there is one.
pub open spec fn playlist_of(preview: Option<PreviewSink>) -> Option<Seq<char>> {
    match preview {
        Some(sink) => Some(sink.playlist@),
        None => None,
    }
}

/// Everything needed to assemble an FFmpeg invocation.
#[derive(Debug, Clone)]
pub struct FfmpegPlan {
    /// How video enters FFmpeg (stdin pipe vs. direct device capture).
    pub video_input: VideoInput,
    /// Raw frame geometry coming from capture (the window's client size, or the
    /// requested device capture size).
    pub capture_width: u32,
    pub capture_height: u32,
    /// Encoded output geometry (from the quality preset).
    pub out_width: u32,
    pub out_height: u32,
    pub fps: u32,
    pub video_kbps: u32,
    pub backend: EncoderBackend,
    pub destination: SrtDestination,
    /// Listener fan-out: how many callers may pull at once (1-3). Ignored in
    /// caller mode (always a single output).
    pub max_callers: u8,
    /// When false, no audio input is added (capture-only fallback).
    pub audio_enabled: bool,
    /// FFmpeg input URL for PCM audio, e.g. `tcp://127.0.0.1:5060`.
    pub audio_input: String,
    pub audio_sample_rate: u32,
    pub audio_channels: u32,
    pub audio_kbps: u32,
}

/// Rate control and preset of an encoder family, tuned for low latency.
pub open spec fn tuning(vendor: Vendor) -> Seq<Seq<char>> {
    match vendor {
        Vendor::Nvidia => seq!["-preset"@, "p3"@, "-tune"@, "ll"@, "-rc"@, "cbr"@],
        Vendor::Intel => seq!["-preset"@, "veryfast"@, "-low_power"@, "0"@],
        Vendor::Amd => seq!["-usage"@, "lowlatency"@, "-rc"@, "cbr"@],
        Vendor::Software => seq!["-preset"@, "veryfast"@, "-tune"@, "zerolatency"@],
    }
}

/// The output of the tee muxer: one MPEG-TS branch per URL, and the session
/// outlives a branch that fails.
pub open spec fn tee_output(urls: Seq<Seq<char>>) -> Seq<char> {
    text::joined(urls.map_values(|url: Seq<char>| "[f=mpegts:onfail=ignore]"@ + url), "|"@)
}

impl FfmpegPlan {
    /// The captured frames differ in size from the encoded ones.
    pub open spec fn scales(self) -> bool {
        self.capture_width != self.out_width || self.capture_height != self.out_height
    }

    /// The distance between key frames: two seconds, and at least one frame.
    pub open spec fn gop(self) -> nat {
        if self.fps == 0 {
            1
        } else {
            (self.fps * 2) as nat
        }
    }

    pub open spec fn video_bitrate(self) -> Seq<char> {
        text::decimal(self.video_kbps as nat) + "k"@
    }

    /// How video enters FFmpeg. A device is taken in its native format, which
    /// FFmpeg has to analyse; raw frames need no analysis.
    pub open spec fn video_input_args(self) -> Seq<Seq<char>> {
        match self.video_input {
            VideoInput::RawPipe => seq![
                "-fflags"@,
                "nobuffer"@,
                "-f"@,
                "rawvideo"@,
                "-pix_fmt"@,
                "bgra"@,
                "-video_size"@,
                text::decimal(self.capture_width as nat) + "x"@ + text::decimal(self.capture_height as nat),
                "-framerate"@,
                text::decimal(self.fps as nat),
                "-i"@,
                "pipe:0"@,
            ],
            VideoInput::Dshow { device } => seq![
                "-f"@,
                "dshow"@,
                "-rtbufsize"@,
                "64M"@,
                "-analyzeduration"@,
                "5000000"@,
                "-probesize"@,
                "5000000"@,
                "-i"@,
                "video="@ + device@,
            ],
        }
    }

    /// How mixed PCM enters FFmpeg.
    pub open spec fn audio_input_args(self) -> Seq<Seq<char>> {
        if self.audio_enabled {
            seq![
                "-f"@,
                "s16le"@,
                "-ar"@,
                text::decimal(self.audio_sample_rate as nat),
                "-ac"@,
                text::decimal(self.audio_channels as nat),
                "-i"@,
                self.audio_input@,
            ]
        } else {
            seq![]
        }
    }

    /// The filter that conforms video to the profile. A device's own format is
    /// unknown, so it always passes one, which drops frames before it scales.
    pub open spec fn filter_args(self) -> Seq<Seq<char>> {
        match self.video_input {
            VideoInput::Dshow { .. } => seq![
                "-vf"@,
                "fps="@ + text::decimal(self.fps as nat) + ",scale="@ + text::decimal(self.out_width as nat)
                    + ":"@ + text::decimal(self.out_height as nat) + ":flags=bilinear"@,
            ],
            VideoInput::RawPipe => if self.scales() {
                seq![
                    "-vf"@,
                    "scale="@ + text::decimal(self.out_width as nat) + ":"@ + text::decimal(
                        self.out_height as nat,
                    ) + ":flags=bicubic"@,
                ]
            } else {
                seq![]
            },
        }
    }

    /// How video is encoded: a constant bitrate, a key frame every two seconds
    /// and no B-frames.
    pub open spec fn video_codec_spec(self) -> Seq<Seq<char>> {
        seq!["-c:v"@, self.backend.ffmpeg_name@] + tuning(self.backend.vendor) + seq![
            "-b:v"@,
            self.video_bitrate(),
            "-maxrate"@,
            self.video_bitrate(),
            "-bufsize"@,
            self.video_bitrate(),
        ] + seq!["-g"@, text::decimal(self.gop()), "-bf"@, "0"@, "-pix_fmt"@, "yuv420p"@]
    }

    /// How audio is encoded.
    pub open spec fn audio_codec_args(self) -> Seq<Seq<char>> {
        if self.audio_enabled {
            seq![
                "-c:a"@,
                "aac"@,
                "-b:a"@,
                text::decimal(self.audio_kbps as nat) + "k"@,
                "-ar"@,
                text::decimal(self.audio_sample_rate as nat),
            ]
        } else {
            seq![]
        }
    }

    /// The tee muxer with an output; it needs explicit stream maps.
    pub open spec fn tee_args(self, output: Seq<char>) -> Seq<Seq<char>> {
        seq!["-map"@, "0:v:0"@] + (if self.audio_enabled {
            seq!["-map"@, "1:a:0"@]
        } else {
            seq![]
        }) + seq!["-flush_packets"@, "1"@, "-f"@, "tee"@, output]
    }

    /// Where the MPEG-TS goes: straight to a single SRT URL, or through the tee
    /// muxer to several.
    pub open spec fn output_args(self) -> Seq<Seq<char>> {
        let urls = self.destination@.urls(self.max_callers);
        if urls.len() <= 1 {
            seq!["-f"@, "mpegts"@, "-flush_packets"@, "1"@, urls[0]]
        } else {
            self.tee_args(tee_output(urls))
        }
    }

    /// The SRT part of a tee output. The session outlives one of several callers,
    /// but not its only one.
    pub open spec fn srt_output(self) -> Seq<char> {
        let urls = self.destination@.urls(self.max_callers);
        if urls.len() <= 1 {
            "[f=mpegts]"@ + urls[0]
        } else {
            tee_output(urls)
        }
    }

    /// Where everything goes: a preview is one more leg of the tee muxer, which
    /// the session outlives.
    pub open spec fn output_args_with(self, playlist: Option<Seq<char>>) -> Seq<Seq<char>> {
        match playlist {
            Some(playlist) => self.tee_args(self.srt_output() + "|[f=hls:onfail=ignore]"@ + playlist),
            None => self.output_args(),
        }
    }

    /// The arguments before the output.
    pub open spec fn encode_args(self) -> Seq<Seq<char>> {
        seq!["-hide_banner"@, "-loglevel"@, "warning"@] + self.video_input_args() + self.audio_input_args()
            + self.filter_args() + self.video_codec_spec() + self.audio_codec_args()
    }

    /// The full argument vector, without the program itself, for a session that
    /// writes a preview if it has a playlist for one.
    pub open spec fn args_with(self, playlist: Option<Seq<char>>) -> Seq<Seq<char>> {
        self.encode_args() + self.output_args_with(playlist)
    }

    /// The full argument vector of a session without a preview.
    pub open spec fn args(self) -> Seq<Seq<char>> {
        self.args_with(None)
    }

    fn needs_scaling(&self) -> (r: bool)
        ensures
            r == self.scales(),
    {
        self.capture_width != self.out_width || self.capture_height != self.out_height
    }

    /// Low-latency rate-control + preset args specific to the encoder family.
    fn video_codec_args(&self) -> (r: Vec<String>)
        requires
            self.fps * 2 <= u32::MAX,
        ensures
            text::texts(r@) == self.video_codec_spec(),
    {
        let mut args: Vec<String> = Vec::new();
        text::push_all(&mut args, &["-c:v", self.backend.ffmpeg_name]);
        let bitrate = text::number(self.video_kbps as u64).concat("k");
        match self.backend.vendor {
            Vendor::Nvidia => text::push_all(&mut args, &["-preset", "p3", "-tune", "ll", "-rc", "cbr"]),
            Vendor::Intel => text::push_all(&mut args, &["-preset", "veryfast", "-low_power", "0"]),
            Vendor::Amd => text::push_all(&mut args, &["-usage", "lowlatency", "-rc", "cbr"]),
            Vendor::Software => text::push_all(
                &mut args,
                &["-preset", "veryfast", "-tune", "zerolatency"],
            ),
        }
        assert(text::texts(args@) =~= seq!["-c:v"@, self.backend.ffmpeg_name@] + tuning(self.backend.vendor));
        text::push_all(
            &mut args,
            &["-b:v", bitrate.as_str(), "-maxrate", bitrate.as_str(), "-bufsize", bitrate.as_str()],
        );
        // GOP ~2s, no B-frames for latency.
        let gop: u32 = if self.fps == 0 {
            1
        } else {
            self.fps * 2
        };
        let gop_text = text::number(gop as u64);
        text::push_all(&mut args, &["-g", gop_text.as_str(), "-bf", "0", "-pix_fmt", "yuv420p"]);
        assert(text::texts(args@) =~= self.video_codec_spec());
        args
    }

    fn push_video_input(&self, args: &mut Vec<String>)
        ensures
            text::texts(final(args)@) == text::texts(old(args)@) + self.video_input_args(),
    {
        match &self.video_input {
            VideoInput::RawPipe => {
                // Raw BGRA frames on stdin (from our WGC window capture). No
                // analysis is needed (format is fully specified), so nobuffer
                // keeps latency low.
                let size = text::number(self.capture_width as u64).concat("x").concat(
                    text::number(self.capture_height as u64).as_str(),
                );
                let fps = text::number(self.fps as u64);
                text::push_all(
                    args,
                    &[
                        "-fflags",
                        "nobuffer",
                        "-f",
                        "rawvideo",
                        "-pix_fmt",
                        "bgra",
                        "-video_size",
                        size.as_str(),
                        "-framerate",
                        fps.as_str(),
                        "-i",
                        "pipe:0",
                    ],
                );
            },
            VideoInput::Dshow { device } => {
                // Direct camera / capture-card capture. We deliberately do NOT
                // pin -video_size / -framerate: many devices (webcams, virtual
                // cameras, some cards) reject an exact mode. Instead we take the
                // device's native format and conform it to the profile with
                // output filters.
                //
                // Devices need real input analysis: many webcams deliver MJPEG,
                // whose pixel format can only be determined by decoding a frame.
                // We must NOT use -fflags nobuffer here (it suppresses that
                // analysis). Explicit analyze/probe budgets bound how long the
                // listener waits to bind.
                let name = "video=".to_string().concat(device.as_str());
                text::push_all(
                    args,
                    &[
                        "-f",
                        "dshow",
                        "-rtbufsize",
                        "64M",
                        "-analyzeduration",
                        "5000000",
                        "-probesize",
                        "5000000",
                        "-i",
                        name.as_str(),
                    ],
                );
            },
        }
        assert(text::texts(args@) =~= text::texts(old(args)@) + self.video_input_args());
    }

    fn push_audio_input(&self, args: &mut Vec<String>)
        ensures
            text::texts(final(args)@) == text::texts(old(args)@) + self.audio_input_args(),
    {
        if self.audio_enabled {
            let rate = text::number(self.audio_sample_rate as u64);
            let channels = text::number(self.audio_channels as u64);
            text::push_all(
                args,
                &[
                    "-f",
                    "s16le",
                    "-ar",
                    rate.as_str(),
                    "-ac",
                    channels.as_str(),
                    "-i",
                    self.audio_input.as_str(),
                ],
            );
        }
        assert(text::texts(args@) =~= text::texts(old(args)@) + self.audio_input_args());
    }

    fn push_filter(&self, args: &mut Vec<String>)
        ensures
            text::texts(final(args)@) == text::texts(old(args)@) + self.filter_args(),
    {
        let fps = text::number(self.fps as u64);
        let width = text::number(self.out_width as u64);
        let height = text::number(self.out_height as u64);
        match &self.video_input {
            VideoInput::Dshow { .. } => {
                // Drop to the target fps *before* scaling: webcams / virtual cams
                // often push 30-60 fps, and scaling every one of those frames
                // (only to discard most at output) burns CPU past real-time.
                // `bilinear` is much cheaper than `bicubic` with negligible
                // quality loss when only mildly rescaling for a live uplink.
                let filter = "fps=".to_string().concat(fps.as_str()).concat(",scale=").concat(
                    width.as_str(),
                ).concat(":").concat(height.as_str()).concat(":flags=bilinear");
                text::push_all(args, &["-vf", filter.as_str()]);
            },
            VideoInput::RawPipe => {
                if self.needs_scaling() {
                    let filter = "scale=".to_string().concat(width.as_str()).concat(":").concat(
                        height.as_str(),
                    ).concat(":flags=bicubic");
                    text::push_all(args, &["-vf", filter.as_str()]);
                }
            },
        }
        assert(text::texts(args@) =~= text::texts(old(args)@) + self.filter_args());
    }

    fn push_audio_codec(&self, args: &mut Vec<String>)
        ensures
            text::texts(final(args)@) == text::texts(old(args)@) + self.audio_codec_args(),
    {
        if self.audio_enabled {
            let bitrate = text::number(self.audio_kbps as u64).concat("k");
            let rate = text::number(self.audio_sample_rate as u64);
            text::push_all(
                args,
                &["-c:a", "aac", "-b:a", bitrate.as_str(), "-ar", rate.as_str()],
            );
        }
        assert(text::texts(args@) =~= text::texts(old(args)@) + self.audio_codec_args());
    }

    /// The output of the tee muxer to several SRT listener ports, so up to 3
    /// callers can each pull from their own port. `onfail=ignore` keeps the session
    /// alive if a slot never gets a caller.
    fn tee_of(endpoints: &Vec<String>) -> (r: String)
        ensures
            r@ == tee_output(text::texts(endpoints@)),
    {
        let mut branches: Vec<String> = Vec::new();
        let n: usize = endpoints.len();
        for i in 0..n
            invariant
                n == endpoints@.len(),
                branches@.len() == i,
                forall|j: int|
                    0 <= j < i ==> (#[trigger] branches@[j])@ == "[f=mpegts:onfail=ignore]"@
                        + endpoints@[j]@,
        {
            branches.push("[f=mpegts:onfail=ignore]".to_string().concat(endpoints[i].as_str()));
        }
        assert(text::texts(branches@) =~= text::texts(endpoints@).map_values(
            |url: Seq<char>| "[f=mpegts:onfail=ignore]"@ + url,
        ));
        text::join(&branches, "|")
    }

    fn push_tee(&self, args: &mut Vec<String>, output: &str)
        ensures
            text::texts(final(args)@) == text::texts(old(args)@) + self.tee_args(output@),
    {
        text::push_all(args, &["-map", "0:v:0"]);
        if self.audio_enabled {
            text::push_all(args, &["-map", "1:a:0"]);
        }
        text::push_all(args, &["-flush_packets", "1", "-f", "tee", output]);
        assert(text::texts(args@) =~= text::texts(old(args)@) + self.tee_args(output@));
    }

    fn push_output(&self, args: &mut Vec<String>, preview: &Option<PreviewSink>)
        ensures
            text::texts(final(args)@) == text::texts(old(args)@) + self.output_args_with(
                playlist_of(*preview),
            ),
    {
        let endpoints = self.destination.endpoints(self.max_callers);
        let ghost urls = self.destination@.urls(self.max_callers);
        assert(urls.len() >= 1);
        assert(text::texts(endpoints@).len() == endpoints@.len());
        assert(urls[0] == endpoints@[0]@);
        match preview {
            Some(sink) => {
                let srt = if endpoints.len() <= 1 {
                    "[f=mpegts]".to_string().concat(endpoints[0].as_str())
                } else {
                    Self::tee_of(&endpoints)
                };
                let output = srt.concat("|[f=hls:onfail=ignore]").concat(sink.playlist.as_str());
                self.push_tee(args, output.as_str());
            },
            None => {
                if endpoints.len() <= 1 {
                    text::push_all(args, &["-f", "mpegts", "-flush_packets", "1", endpoints[0].as_str()]);
                    assert(text::texts(args@) =~= text::texts(old(args)@) + self.output_args());
                } else {
                    let output = Self::tee_of(&endpoints);
                    self.push_tee(args, output.as_str());
                }
            },
        }
    }

    /// Build the full argument vector (excluding the `ffmpeg` program itself).
    pub fn build_args(&self) -> (r: Vec<String>)
        requires
            self.fps * 2 <= u32::MAX,
        ensures
            text::texts(r@) == self.args(),
    {
        self.build_args_with(&None)
    }

    /// Build the full argument vector of a session that writes a preview if it has
    /// a sink for one.
    pub fn build_args_with(&self, preview: &Option<PreviewSink>) -> (r: Vec<String>)
        requires
            self.fps * 2 <= u32::MAX,
        ensures
            text::texts(r@) == self.args_with(playlist_of(*preview)),
    {
        let mut args: Vec<String> = Vec::new();
        text::push_all(&mut args, &["-hide_banner", "-loglevel", "warning"]);
        assert(text::texts(args@) =~= seq!["-hide_banner"@, "-loglevel"@, "warning"@]);

        self.push_video_input(&mut args);
        self.push_audio_input(&mut args);
        self.push_filter(&mut args);

        let mut codec = self.video_codec_args();
        let ghost before = args@;
        args.append(&mut codec);
        assert(text::texts(args@) =~= text::texts(before) + self.video_codec_spec());

        self.push_audio_codec(&mut args);
        self.push_output(&mut args, preview);
        args
    }
}

/// A preview changes nothing but the output: every packet still goes where it went
/// without one, and one more leg of the tee ends in the playlist.
pub proof fn preview_adds_one_leg(plan: FfmpegPlan, playlist: Seq<char>)
    ensures
        plan.args_with(Some(playlist)) == plan.encode_args() + plan.tee_args(
            plan.srt_output() + "|[f=hls:onfail=ignore]"@ + playlist,
        ),
        plan.args() == plan.encode_args() + plan.output_args(),
        text::finishes_with(plan.args_with(Some(playlist)).last(), playlist),
        ({
            let urls = plan.destination@.urls(plan.max_callers);
            plan.srt_output() == (if urls.len() == 1 {
                "[f=mpegts]"@ + plan.destination@.url()
            } else {
                tee_output(urls)
            })
        }),
{
    crate::srt::endpoints_are_consecutive(plan.destination@, plan.max_callers);
    let output = plan.srt_output() + "|[f=hls:onfail=ignore]"@ + playlist;
    assert(plan.args_with(Some(playlist)).last() == output);
    assert(output.subrange(output.len() - playlist.len(), output.len() as int) =~= playlist);
}

/// The arguments end with where the stream goes: a single SRT URL, or a tee to
/// all of them.
pub proof fn arguments_end_with_the_output(plan: FfmpegPlan)
    ensures
        ({
            let urls = plan.destination@.urls(plan.max_callers);
            plan.args().len() > 0 && plan.args().last() == (if urls.len() == 1 {
                plan.destination@.url()
            } else {
                tee_output(urls)
            })
        }),
{
    crate::srt::endpoints_are_consecutive(plan.destination@, plan.max_callers);
    assert(plan.output_args().len() > 0);
    assert(plan.args().last() == plan.output_args().last());
}

/// Without audio, nothing about audio reaches the arguments.
pub proof fn silent_plans_ignore_audio(plan: FfmpegPlan, other: FfmpegPlan)
    requires
        !plan.audio_enabled,
        other == (FfmpegPlan {
            audio_input: other.audio_input,
            audio_sample_rate: other.audio_sample_rate,
            audio_channels: other.audio_channels,
            audio_kbps: other.audio_kbps,
            ..plan
        }),
    ensures
        plan.args() == other.args(),
{
    assert(plan.video_codec_spec() == other.video_codec_spec());
}

/// A device's capture size is not pinned: the arguments do not depend on it.
pub proof fn device_size_is_not_pinned(plan: FfmpegPlan, other: FfmpegPlan)
    requires
        plan.video_input is Dshow,
        other == (FfmpegPlan {
            capture_width: other.capture_width,
            capture_height: other.capture_height,
            ..plan
        }),
    ensures
        plan.args() == other.args(),
{
    assert(plan.video_codec_spec() == other.video_codec_spec());
}

/// Captured frames pass a filter exactly when they have to be scaled.
pub proof fn frames_are_scaled_only_when_needed(plan: FfmpegPlan)
    requires
        plan.video_input is RawPipe,
    ensures
        plan.filter_args().len() == 0 <==> plan.capture_width == plan.out_width && plan.capture_height
            == plan.out_height,
{
}

/// A text that FFmpeg would not take for an option.
pub open spec fn is_value(s: Seq<char>) -> bool {
    s.len() == 0 || s[0] != '-'
}

/// Nothing that the plan takes from elsewhere looks like an option.
pub open spec fn values_are_values(plan: FfmpegPlan) -> bool {
    is_value(plan.audio_input@) && is_value(plan.backend.ffmpeg_name@)
}

/// The options that shape what FFmpeg reads and how it encodes.
pub open spec fn shaping_options() -> Seq<Seq<char>> {
    seq![
        "-i"@,
        "-video_size"@,
        "-framerate"@,
        "-vf"@,
        "-c:v"@,
        "-b:v"@,
        "-maxrate"@,
        "-bufsize"@,
        "-g"@,
        "-bf"@,
        "-c:a"@,
        "-b:a"@,
        "-fflags"@,
        "-rtbufsize"@,
        "-analyzeduration"@,
        "-probesize"@,
    ]
}

spec fn shapes(key: Seq<char>) -> bool {
    ||| key == "-i"@
    ||| key == "-video_size"@
    ||| key == "-framerate"@
    ||| key == "-vf"@
    ||| key == "-c:v"@
    ||| key == "-b:v"@
    ||| key == "-maxrate"@
    ||| key == "-bufsize"@
    ||| key == "-g"@
    ||| key == "-bf"@
    ||| key == "-c:a"@
    ||| key == "-b:a"@
    ||| key == "-fflags"@
    ||| key == "-rtbufsize"@
    ||| key == "-analyzeduration"@
    ||| key == "-probesize"@
}

/// A decimal number, alone or before a unit, is no option.
proof fn numbers_are_values(n: nat)
    ensures
        text::decimal(n).len() > 0,
        text::decimal(n)[0] != '-',
        (text::decimal(n) + "k"@)[0] != '-',
        (text::decimal(n) + "x"@)[0] != '-',
{
    text::decimal_is_plain(n);
    assert(text::is_digit(text::decimal(n)[0]));
    assert((text::decimal(n) + "k"@)[0] == text::decimal(n)[0]);
    assert((text::decimal(n) + "x"@)[0] == text::decimal(n)[0]);
}

#[verifier::spinoff_prover]
proof fn head_counts(key: Seq<char>)
    requires
        shapes(key),
    ensures
        text::count_of(seq!["-hide_banner"@, "-loglevel"@, "warning"@], key) == 0,
        key.len() > 0 && key[0] == '-',
{
    reveal_options();
    reveal_strlit("-hide_banner");
    reveal_strlit("-loglevel");
    reveal_strlit("warning");
    text::absent_counts_zero(seq!["-hide_banner"@, "-loglevel"@, "warning"@], key);
}

/// The options differ from each other, and each begins with a dash.
proof fn reveal_options()
    ensures
        "-i"@.len() == 2 && "-i"@[0] == '-' && "-i"@[1] == 'i',
        "-video_size"@.len() == 11 && "-video_size"@[0] == '-' && "-video_size"@[1] == 'v',
        "-framerate"@.len() == 10 && "-framerate"@[0] == '-' && "-framerate"@[1] == 'f' && "-framerate"@[2] == 'r',
        "-vf"@.len() == 3 && "-vf"@[0] == '-' && "-vf"@[1] == 'v',
        "-c:v"@.len() == 4 && "-c:v"@[0] == '-' && "-c:v"@[1] == 'c' && "-c:v"@[3] == 'v',
        "-b:v"@.len() == 4 && "-b:v"@[0] == '-' && "-b:v"@[1] == 'b' && "-b:v"@[3] == 'v',
        "-maxrate"@.len() == 8 && "-maxrate"@[0] == '-' && "-maxrate"@[1] == 'm',
        "-bufsize"@.len() == 8 && "-bufsize"@[0] == '-' && "-bufsize"@[1] == 'b',
        "-g"@.len() == 2 && "-g"@[0] == '-' && "-g"@[1] == 'g',
        "-bf"@.len() == 3 && "-bf"@[0] == '-' && "-bf"@[1] == 'b',
        "-c:a"@.len() == 4 && "-c:a"@[0] == '-' && "-c:a"@[1] == 'c' && "-c:a"@[3] == 'a',
        "-b:a"@.len() == 4 && "-b:a"@[0] == '-' && "-b:a"@[1] == 'b' && "-b:a"@[3] == 'a',
        "-fflags"@.len() == 7 && "-fflags"@[0] == '-' && "-fflags"@[1] == 'f' && "-fflags"@[2] == 'f',
        "-rtbufsize"@.len() == 10 && "-rtbufsize"@[0] == '-' && "-rtbufsize"@[1] == 'r',
        "-analyzeduration"@.len() == 16 && "-analyzeduration"@[0] == '-' && "-analyzeduration"@[1] == 'a',
        "-probesize"@.len() == 10 && "-probesize"@[0] == '-' && "-probesize"@[1] == 'p',
{
    reveal_strlit("-i");
    reveal_strlit("-video_size");
    reveal_strlit("-framerate");
    reveal_strlit("-vf");
    reveal_strlit("-c:v");
    reveal_strlit("-b:v");
    reveal_strlit("-maxrate");
    reveal_strlit("-bufsize");
    reveal_strlit("-g");
    reveal_strlit("-bf");
    reveal_strlit("-c:a");
    reveal_strlit("-b:a");
    reveal_strlit("-fflags");
    reveal_strlit("-rtbufsize");
    reveal_strlit("-analyzeduration");
    reveal_strlit("-probesize");
}

#[verifier::rlimit(60)]
#[verifier::spinoff_prover]
proof fn video_input_counts(plan: FfmpegPlan, key: Seq<char>)
    requires
        shapes(key),
    ensures
        text::count_of(plan.video_input_args(), key) == (if key == "-i"@ {
            1nat
        } else if (key == "-video_size"@ || key == "-framerate"@ || key == "-fflags"@) && plan.video_input is RawPipe {
            1nat
        } else if (key == "-rtbufsize"@ || key == "-analyzeduration"@ || key == "-probesize"@) && plan.video_input
            is Dshow {
            1nat
        } else {
            0nat
        }),
{
    reveal_options();
    reveal_strlit("nobuffer");
    reveal_strlit("-f");
    reveal_strlit("rawvideo");
    reveal_strlit("-pix_fmt");
    reveal_strlit("bgra");
    reveal_strlit("pipe:0");
    reveal_strlit("dshow");
    reveal_strlit("64M");
    reveal_strlit("5000000");
    reveal_strlit("video=");
    numbers_are_values(plan.fps as nat);
    numbers_are_values(plan.capture_width as nat);
    let v = plan.video_input_args();
    match plan.video_input {
        VideoInput::RawPipe => {
            let size = text::decimal(plan.capture_width as nat) + "x"@ + text::decimal(
                plan.capture_height as nat,
            );
            assert(size[0] == (text::decimal(plan.capture_width as nat) + "x"@)[0]);
            let k: int = if key == "-i"@ {
                10
            } else if key == "-video_size"@ {
                6
            } else if key == "-framerate"@ {
                8
            } else if key == "-fflags"@ {
                0
            } else {
                -1
            };
            assert forall|i: int| 0 <= i < v.len() && i != k implies #[trigger] v[i] != key by {}
            if k >= 0 {
                text::unique_counts_one(v, key, k);
            } else {
                text::absent_counts_zero(v, key);
            }
        },
        VideoInput::Dshow { device } => {
            let name = "video="@ + device@;
            assert(name[0] == 'v');
            let k: int = if key == "-i"@ {
                8
            } else if key == "-rtbufsize"@ {
                2
            } else if key == "-analyzeduration"@ {
                4
            } else if key == "-probesize"@ {
                6
            } else {
                -1
            };
            assert forall|i: int| 0 <= i < v.len() && i != k implies #[trigger] v[i] != key by {}
            if k >= 0 {
                text::unique_counts_one(v, key, k);
            } else {
                text::absent_counts_zero(v, key);
            }
        },
    }
}

#[verifier::rlimit(60)]
#[verifier::spinoff_prover]
proof fn audio_counts(plan: FfmpegPlan, key: Seq<char>)
    requires
        shapes(key),
        is_value(plan.audio_input@),
    ensures
        text::count_of(plan.audio_input_args(), key) == (if key == "-i"@ && plan.audio_enabled {
            1nat
        } else {
            0nat
        }),
        text::count_of(plan.audio_codec_args(), key) == (if (key == "-c:a"@ || key == "-b:a"@)
            && plan.audio_enabled {
            1nat
        } else {
            0nat
        }),
{
    reveal_options();
    reveal_strlit("-f");
    reveal_strlit("s16le");
    reveal_strlit("-ar");
    reveal_strlit("-ac");
    reveal_strlit("aac");
    numbers_are_values(plan.audio_sample_rate as nat);
    numbers_are_values(plan.audio_channels as nat);
    numbers_are_values(plan.audio_kbps as nat);
    if plan.audio_enabled {
        let a = plan.audio_input_args();
        let c = plan.audio_codec_args();
        let k: int = if key == "-i"@ {
            6
        } else {
            -1
        };
        assert forall|i: int| 0 <= i < a.len() && i != k implies #[trigger] a[i] != key by {}
        if k >= 0 {
            text::unique_counts_one(a, key, k);
        } else {
            text::absent_counts_zero(a, key);
        }
        let j: int = if key == "-c:a"@ {
            0
        } else if key == "-b:a"@ {
            2
        } else {
            -1
        };
        assert forall|i: int| 0 <= i < c.len() && i != j implies #[trigger] c[i] != key by {}
        if j >= 0 {
            text::unique_counts_one(c, key, j);
        } else {
            text::absent_counts_zero(c, key);
        }
    } else {
        text::absent_counts_zero(plan.audio_input_args(), key);
        text::absent_counts_zero(plan.audio_codec_args(), key);
    }
}

#[verifier::rlimit(60)]
#[verifier::spinoff_prover]
proof fn filter_counts(plan: FfmpegPlan, key: Seq<char>)
    requires
        shapes(key),
    ensures
        text::count_of(plan.filter_args(), key) == (if key == "-vf"@ && (plan.video_input is Dshow
            || plan.scales()) {
            1nat
        } else {
            0nat
        }),
{
    reveal_options();
    reveal_strlit("fps=");
    reveal_strlit("scale=");
    let f = plan.filter_args();
    if f.len() == 2 {
        match plan.video_input {
            VideoInput::RawPipe => {
                assert(f[1][0] == 's');
            },
            VideoInput::Dshow { device } => {
                assert(f[1][0] == 'f');
            },
        }
        if key == "-vf"@ {
            text::unique_counts_one(f, key, 0);
        } else {
            text::absent_counts_zero(f, key);
        }
    } else {
        text::absent_counts_zero(f, key);
    }
}

#[verifier::rlimit(60)]
#[verifier::spinoff_prover]
proof fn tuning_counts(vendor: Vendor, key: Seq<char>)
    requires
        shapes(key),
    ensures
        text::count_of(tuning(vendor), key) == 0,
{
    reveal_options();
    reveal_strlit("-preset");
    reveal_strlit("p3");
    reveal_strlit("-tune");
    reveal_strlit("ll");
    reveal_strlit("-rc");
    reveal_strlit("cbr");
    reveal_strlit("veryfast");
    reveal_strlit("-low_power");
    reveal_strlit("0");
    reveal_strlit("-usage");
    reveal_strlit("lowlatency");
    reveal_strlit("zerolatency");
    text::absent_counts_zero(tuning(vendor), key);
}

#[verifier::rlimit(60)]
#[verifier::spinoff_prover]
proof fn video_codec_counts(plan: FfmpegPlan, key: Seq<char>)
    requires
        shapes(key),
        is_value(plan.backend.ffmpeg_name@),
    ensures
        text::count_of(plan.video_codec_spec(), key) == (if key == "-c:v"@ || key == "-b:v"@ || key
            == "-maxrate"@ || key == "-bufsize"@ || key == "-g"@ || key == "-bf"@ {
            1nat
        } else {
            0nat
        }),
{
    reveal_options();
    reveal_strlit("0");
    reveal_strlit("-pix_fmt");
    reveal_strlit("yuv420p");
    numbers_are_values(plan.video_kbps as nat);
    numbers_are_values(plan.gop());
    tuning_counts(plan.backend.vendor, key);
    let a = seq!["-c:v"@, plan.backend.ffmpeg_name@];
    let t = tuning(plan.backend.vendor);
    let b = seq![
        "-b:v"@,
        plan.video_bitrate(),
        "-maxrate"@,
        plan.video_bitrate(),
        "-bufsize"@,
        plan.video_bitrate(),
    ];
    let c = seq!["-g"@, text::decimal(plan.gop()), "-bf"@, "0"@, "-pix_fmt"@, "yuv420p"@];
    text::counts_add_up(a + t + b, c, key);
    text::counts_add_up(a + t, b, key);
    text::counts_add_up(a, t, key);
    if key == "-c:v"@ {
        text::unique_counts_one(a, key, 0);
    } else {
        text::absent_counts_zero(a, key);
    }
    if key == "-b:v"@ {
        text::unique_counts_one(b, key, 0);
    } else if key == "-maxrate"@ {
        text::unique_counts_one(b, key, 2);
    } else if key == "-bufsize"@ {
        text::unique_counts_one(b, key, 4);
    } else {
        text::absent_counts_zero(b, key);
    }
    if key == "-g"@ {
        text::unique_counts_one(c, key, 0);
    } else if key == "-bf"@ {
        text::unique_counts_one(c, key, 2);
    } else {
        text::absent_counts_zero(c, key);
    }
}

proof fn joins_begin_with_the_first(parts: Seq<Seq<char>>, sep: Seq<char>)
    requires
        parts.len() > 0,
        parts[0].len() > 0,
    ensures
        text::joined(parts, sep).len() > 0,
        text::joined(parts, sep)[0] == parts[0][0],
    decreases parts.len(),
{
    if parts.len() > 1 {
        joins_begin_with_the_first(parts.drop_last(), sep);
    }
}

#[verifier::rlimit(60)]
#[verifier::spinoff_prover]
proof fn output_counts(plan: FfmpegPlan, playlist: Option<Seq<char>>, key: Seq<char>)
    requires
        shapes(key),
    ensures
        text::count_of(plan.output_args_with(playlist), key) == 0,
{
    reveal_options();
    reveal_strlit("-f");
    reveal_strlit("mpegts");
    reveal_strlit("-flush_packets");
    reveal_strlit("1");
    reveal_strlit("-map");
    reveal_strlit("0:v:0");
    reveal_strlit("1:a:0");
    reveal_strlit("tee");
    reveal_strlit("srt://");
    reveal_strlit("[f=mpegts]");
    reveal_strlit("[f=mpegts:onfail=ignore]");
    let urls = plan.destination@.urls(plan.max_callers);
    crate::srt::endpoints_are_consecutive(plan.destination@, plan.max_callers);
    let o = plan.output_args_with(playlist);
    assert(urls[0][0] == 's');
    let parts = urls.map_values(|url: Seq<char>| "[f=mpegts:onfail=ignore]"@ + url);
    assert(parts[0] == "[f=mpegts:onfail=ignore]"@ + urls[0]);
    assert(parts[0][0] == '[');
    joins_begin_with_the_first(parts, "|"@);
    assert(tee_output(urls)[0] == '[');
    assert(plan.srt_output()[0] == '[' && plan.srt_output().len() > 0);
    match playlist {
        Some(playlist) => {
            assert((plan.srt_output() + "|[f=hls:onfail=ignore]"@ + playlist)[0] == '[');
        },
        None => {},
    }
    assert(o.last()[0] == '[' || o.last()[0] == 's');
    assert(o.last() == o[o.len() - 1]);
    text::absent_counts_zero(o, key);
}

/// How often FFmpeg is told each thing that shapes its work: the video codec, its
/// rate and its key frames once; a frame size and rate once for raw frames and
/// never for a device; a filter once for a device and for frames that have to be
/// scaled; the audio codec and its rate once if there is audio, and never without
/// it; and one input for the video, and one more exactly if there is audio, whatever
/// the video comes from. A device is analysed within bounds and never unbuffered; raw
/// frames are unbuffered and not analysed.
pub proof fn options_are_given_once(plan: FfmpegPlan, playlist: Option<Seq<char>>, key: Seq<char>)
    requires
        values_are_values(plan),
        shaping_options().contains(key),
    ensures
        text::count_of(plan.args_with(playlist), key) == (if key == "-i"@ {
            if plan.audio_enabled {
                2nat
            } else {
                1nat
            }
        } else if key == "-video_size"@ || key == "-framerate"@ || key == "-fflags"@ {
            if plan.video_input is RawPipe {
                1nat
            } else {
                0nat
            }
        } else if key == "-rtbufsize"@ || key == "-analyzeduration"@ || key == "-probesize"@ {
            if plan.video_input is RawPipe {
                0nat
            } else {
                1nat
            }
        } else if key == "-vf"@ {
            if plan.video_input is Dshow || plan.capture_width != plan.out_width || plan.capture_height
                != plan.out_height {
                1nat
            } else {
                0nat
            }
        } else if key == "-c:a"@ || key == "-b:a"@ {
            if plan.audio_enabled {
                1nat
            } else {
                0nat
            }
        } else {
            1nat
        }),
{
    assert(shapes(key)) by {
        let i = choose|i: int| 0 <= i < shaping_options().len() && shaping_options()[i] == key;
        assert(shaping_options()[i] == key);
    }
    reveal_options();
    head_counts(key);
    video_input_counts(plan, key);
    audio_counts(plan, key);
    filter_counts(plan, key);
    video_codec_counts(plan, key);
    output_counts(plan, playlist, key);
    let a = seq!["-hide_banner"@, "-loglevel"@, "warning"@];
    let b = plan.video_input_args();
    let c = plan.audio_input_args();
    let d = plan.filter_args();
    let e = plan.video_codec_spec();
    let f = plan.audio_codec_args();
    text::counts_add_up(a, b, key);
    text::counts_add_up(a + b, c, key);
    text::counts_add_up(a + b + c, d, key);
    text::counts_add_up(a + b + c + d, e, key);
    text::counts_add_up(a + b + c + d + e, f, key);
    text::counts_add_up(plan.encode_args(), plan.output_args_with(playlist), key);
}

/// FFmpeg reads the video from the capture, and the mixed PCM as its second input
/// exactly if there is audio, whatever the video comes from: raw samples in the
/// format, at the rate and with the channels that the mixer writes.
pub proof fn audio_is_the_second_input(plan: FfmpegPlan, playlist: Option<Seq<char>>)
    requires
        values_are_values(plan),
    ensures
        ({
            let args = plan.args_with(playlist);
            let video = match plan.video_input {
                VideoInput::RawPipe => "pipe:0"@,
                VideoInput::Dshow { device } => "video="@ + device@,
            };
            &&& text::count_of(args, "-i"@) == if plan.audio_enabled {
                2nat
            } else {
                1nat
            }
            &&& exists|k: int|
                #![trigger args[k]]
                0 < k < args.len() && args[k - 1] == "-i"@ && args[k] == video && text::count_of(
                    args.take(k),
                    "-i"@,
                ) == 1 && (plan.audio_enabled ==> k + 8 < args.len() && args.subrange(k + 1, k + 9) == seq![
                    "-f"@,
                    "s16le"@,
                    "-ar"@,
                    text::decimal(plan.audio_sample_rate as nat),
                    "-ac"@,
                    text::decimal(plan.audio_channels as nat),
                    "-i"@,
                    plan.audio_input@,
                ])
        }),
{
    let x = "-i"@;
    assert(shaping_options()[0] == x);
    options_are_given_once(plan, playlist, x);
    head_counts(x);
    video_input_counts(plan, x);
    let head = seq!["-hide_banner"@, "-loglevel"@, "warning"@];
    let v = plan.video_input_args();
    let a = plan.audio_input_args();
    let args = plan.args_with(playlist);
    let k = head.len() + v.len() - 1;
    assert(args[k] == v.last());
    assert(args[k - 1] == v[v.len() - 2]);
    assert(args.take(k) =~= head + v.drop_last());
    text::counts_add_up(head, v.drop_last(), x);
    text::counts_add_up(v.drop_last(), seq![v.last()], x);
    assert(v =~= v.drop_last() + seq![v.last()]);
    reveal_strlit("-i");
    reveal_strlit("pipe:0");
    reveal_strlit("video=");
    match plan.video_input {
        VideoInput::RawPipe => {},
        VideoInput::Dshow { device } => {
            assert(v.last()[0] == 'v');
        },
    }
    text::absent_counts_zero(seq![v.last()], x);
    if plan.audio_enabled {
        assert(args.subrange(k + 1, k + 9) =~= a);
    }
}

/// What one section of the arguments says, the arguments say.
proof fn sections_are_said(plan: FfmpegPlan, playlist: Option<Seq<char>>, key: Seq<char>, value: Seq<char>)
    ensures
        text::says(plan.video_input_args(), key, value) ==> text::says(plan.args_with(playlist), key, value),
        text::says(plan.filter_args(), key, value) ==> text::says(plan.args_with(playlist), key, value),
        text::says(plan.video_codec_spec(), key, value) ==> text::says(plan.args_with(playlist), key, value),
        text::says(plan.audio_codec_args(), key, value) ==> text::says(plan.args_with(playlist), key, value),
        text::says(plan.output_args_with(playlist), key, value) ==> text::says(
            plan.args_with(playlist),
            key,
            value,
        ),
{
    let a = seq!["-hide_banner"@, "-loglevel"@, "warning"@];
    let b = plan.video_input_args();
    let c = plan.audio_input_args();
    let d = plan.filter_args();
    let e = plan.video_codec_spec();
    let f = plan.audio_codec_args();
    text::parts_are_said(a, b, key, value);
    text::parts_are_said(a + b, c, key, value);
    text::parts_are_said(a + b + c, d, key, value);
    text::parts_are_said(a + b + c + d, e, key, value);
    text::parts_are_said(a + b + c + d + e, f, key, value);
    text::parts_are_said(plan.encode_args(), plan.output_args_with(playlist), key, value);
}

/// FFmpeg encodes with the chosen encoder, at the plan's bitrate and no other, with
/// a key frame every two seconds and without B-frames, and audio as AAC at its own
/// bitrate.
pub proof fn encoding_follows_the_plan(plan: FfmpegPlan, playlist: Option<Seq<char>>)
    ensures
        ({
            let args = plan.args_with(playlist);
            let rate = text::decimal(plan.video_kbps as nat) + "k"@;
            &&& text::says(args, "-c:v"@, plan.backend.ffmpeg_name@)
            &&& text::says(args, "-b:v"@, rate)
            &&& text::says(args, "-maxrate"@, rate)
            &&& text::says(args, "-bufsize"@, rate)
            &&& plan.fps > 0 ==> text::says(args, "-g"@, text::decimal((2 * plan.fps) as nat))
            &&& text::says(args, "-bf"@, "0"@)
            &&& text::says(args, "-pix_fmt"@, "yuv420p"@)
            &&& plan.audio_enabled ==> text::says(args, "-c:a"@, "aac"@) && text::says(
                args,
                "-b:a"@,
                text::decimal(plan.audio_kbps as nat) + "k"@,
            )
        }),
{
    let rate = text::decimal(plan.video_kbps as nat) + "k"@;
    let v = plan.video_codec_spec();
    let n = 2 + tuning(plan.backend.vendor).len() as int;
    assert(v[0] == "-c:v"@ && v[1] == plan.backend.ffmpeg_name@);
    assert(v[n] == "-b:v"@ && v[n + 1] == rate);
    assert(v[n + 2] == "-maxrate"@ && v[n + 3] == rate);
    assert(v[n + 4] == "-bufsize"@ && v[n + 5] == rate);
    assert(v[n + 6] == "-g"@ && v[n + 7] == text::decimal(plan.gop()));
    assert(v[n + 8] == "-bf"@ && v[n + 9] == "0"@);
    assert(v[n + 10] == "-pix_fmt"@ && v[n + 11] == "yuv420p"@);
    sections_are_said(plan, playlist, "-c:v"@, plan.backend.ffmpeg_name@);
    sections_are_said(plan, playlist, "-b:v"@, rate);
    sections_are_said(plan, playlist, "-maxrate"@, rate);
    sections_are_said(plan, playlist, "-bufsize"@, rate);
    sections_are_said(plan, playlist, "-g"@, text::decimal(plan.gop()));
    sections_are_said(plan, playlist, "-bf"@, "0"@);
    sections_are_said(plan, playlist, "-pix_fmt"@, "yuv420p"@);
    if plan.audio_enabled {
        let a = plan.audio_codec_args();
        let audio_rate = text::decimal(plan.audio_kbps as nat) + "k"@;
        assert(a[0] == "-c:a"@ && a[1] == "aac"@);
        assert(a[2] == "-b:a"@ && a[3] == audio_rate);
        sections_are_said(plan, playlist, "-c:a"@, "aac"@);
        sections_are_said(plan, playlist, "-b:a"@, audio_rate);
    }
}

/// FFmpeg takes raw frames as they are captured, unbuffered and at the plan's rate; a device
/// it opens itself, with a bounded buffer and bounded time to analyse it. Packets leave as
/// soon as they are there.
pub proof fn inputs_follow_the_plan(plan: FfmpegPlan, playlist: Option<Seq<char>>)
    ensures
        ({
            let args = plan.args_with(playlist);
            &&& plan.video_input is RawPipe ==> text::says(args, "-f"@, "rawvideo"@) && text::says(
                args,
                "-pix_fmt"@,
                "bgra"@,
            ) && text::says(args, "-framerate"@, text::decimal(plan.fps as nat)) && text::says(
                args,
                "-fflags"@,
                "nobuffer"@,
            )
            &&& plan.video_input is Dshow ==> text::says(args, "-f"@, "dshow"@) && text::says(
                args,
                "-rtbufsize"@,
                "64M"@,
            ) && text::says(args, "-analyzeduration"@, "5000000"@) && text::says(args, "-probesize"@, "5000000"@)
            &&& text::says(args, "-flush_packets"@, "1"@)
        }),
{
    let i = plan.video_input_args();
    match plan.video_input {
        VideoInput::RawPipe => {
            assert(i[2] == "-f"@ && i[3] == "rawvideo"@);
            assert(i[4] == "-pix_fmt"@ && i[5] == "bgra"@);
            assert(i[8] == "-framerate"@ && i[9] == text::decimal(plan.fps as nat));
            sections_are_said(plan, playlist, "-f"@, "rawvideo"@);
            sections_are_said(plan, playlist, "-pix_fmt"@, "bgra"@);
            sections_are_said(plan, playlist, "-framerate"@, text::decimal(plan.fps as nat));
            assert(i[0] == "-fflags"@ && i[1] == "nobuffer"@);
            sections_are_said(plan, playlist, "-fflags"@, "nobuffer"@);
        },
        VideoInput::Dshow { device } => {
            assert(i[0] == "-f"@ && i[1] == "dshow"@);
            sections_are_said(plan, playlist, "-f"@, "dshow"@);
            assert(i[2] == "-rtbufsize"@ && i[3] == "64M"@);
            sections_are_said(plan, playlist, "-rtbufsize"@, "64M"@);
            assert(i[4] == "-analyzeduration"@ && i[5] == "5000000"@);
            sections_are_said(plan, playlist, "-analyzeduration"@, "5000000"@);
            assert(i[6] == "-probesize"@ && i[7] == "5000000"@);
            sections_are_said(plan, playlist, "-probesize"@, "5000000"@);
        },
    }
    let o = plan.output_args_with(playlist);
    let n = o.len() as int;
    if playlist is None && plan.destination@.urls(plan.max_callers).len() <= 1 {
        assert(o[2] == "-flush_packets"@ && o[3] == "1"@);
    } else {
        assert(o[n - 5] == "-flush_packets"@ && o[n - 4] == "1"@);
    }
    sections_are_said(plan, playlist, "-flush_packets"@, "1"@);
}

/// The captured size, read back from the arguments: its width before the cross and
/// its height after it.
pub proof fn raw_frames_have_the_captured_size(plan: FfmpegPlan, playlist: Option<Seq<char>>)
    requires
        plan.video_input is RawPipe,
    ensures
        exists|size: Seq<char>| #[trigger]
            text::says(plan.args_with(playlist), "-video_size"@, size) && size.take(text::first_of(size, 'x'))
                == text::decimal(plan.capture_width as nat) && text::after_first(size, "x"@) == Some(
                text::decimal(plan.capture_height as nat),
            ),
{
    let w = text::decimal(plan.capture_width as nat);
    let h = text::decimal(plan.capture_height as nat);
    let size = w + "x"@ + h;
    let v = plan.video_input_args();
    assert(v[6] == "-video_size"@ && v[7] == size);
    assert(text::says(v, "-video_size"@, size));
    sections_are_said(plan, playlist, "-video_size"@, size);
    reveal_strlit("x");
    text::decimals_lack(plan.capture_width as nat, 'x');
    text::keys_are_found(w, "x"@, h);
    assert forall|i: int| 0 <= i < w.len() implies #[trigger] size[i] != 'x' by {
        assert(size[i] == w[i]);
    }
    text::first_of_unique(size, 'x', w.len() as int);
    assert(size.take(w.len() as int) =~= w);
}

/// A scale filter, colon by colon.
#[verifier::spinoff_prover]
proof fn scales_are_read(width: nat, height: nat, flags: Seq<char>)
    requires
        text::lacks(flags, ':'),
        text::lacks(flags, ','),
    ensures
        ({
            let scale = "scale="@ + text::decimal(width) + ":"@ + text::decimal(height) + ":"@ + flags;
            &&& text::pieces(scale, ':') == seq!["scale="@ + text::decimal(width), text::decimal(height), flags]
            &&& text::lacks(scale, ',')
        }),
{
    reveal_strlit("scale=");
    reveal_strlit(":");
    let w = text::decimal(width);
    let h = text::decimal(height);
    let s = "scale="@ + w;
    let scale = s + ":"@ + h + ":"@ + flags;
    text::decimals_lack(width, ':');
    text::decimals_lack(width, ',');
    text::decimals_lack(height, ':');
    text::decimals_lack(height, ',');
    assert forall|i: int| 0 <= i < s.len() implies #[trigger] s[i] != ':' && s[i] != ',' by {
        if i >= 6 {
            assert(s[i] == w[i - 6]);
        }
    }
    let colon = seq![':'];
    assert(":"@ =~= colon);
    text::pieces_split(h, ':', flags);
    text::pieces_split(s, ':', h + colon + flags);
    assert(scale =~= s + colon + (h + colon + flags));
    assert forall|i: int| 0 <= i < scale.len() implies #[trigger] scale[i] != ',' by {
        let n = s.len() as int;
        let m = n + 1 + h.len();
        if i < n {
            assert(scale[i] == s[i]);
        } else if n < i < m {
            assert(scale[i] == h[i - n - 1]);
        } else if m < i {
            assert(scale[i] == flags[i - m - 1]);
        }
    }
}

/// What is scaled is scaled to the encoded size: the filter names its width first
/// and then its height. A device is dropped to the plan's frame rate before.
pub proof fn frames_are_scaled_to_the_profile(plan: FfmpegPlan, playlist: Option<Seq<char>>)
    requires
        plan.video_input is Dshow || plan.capture_width != plan.out_width || plan.capture_height
            != plan.out_height,
    ensures
        exists|filter: Seq<char>| #[trigger]
            text::says(plan.args_with(playlist), "-vf"@, filter) && ({
                let chain = text::pieces(filter, ',');
                let scale = text::pieces(chain.last(), ':');
                &&& scale.len() == 3
                &&& scale[0] == "scale="@ + text::decimal(plan.out_width as nat)
                &&& scale[1] == text::decimal(plan.out_height as nat)
                &&& plan.video_input is RawPipe ==> chain.len() == 1 && scale[2] == "flags=bicubic"@
                &&& plan.video_input is Dshow ==> chain.len() == 2 && chain[0] == "fps="@ + text::decimal(
                    plan.fps as nat,
                ) && scale[2] == "flags=bilinear"@
            }),
{
    let w = text::decimal(plan.out_width as nat);
    let h = text::decimal(plan.out_height as nat);
    let f = plan.filter_args();
    assert(f.len() == 2 && f[0] == "-vf"@);
    let filter = f[1];
    assert(text::says(f, "-vf"@, filter)) by {
        assert(f[0] == "-vf"@ && f[1] == filter);
    }
    sections_are_said(plan, playlist, "-vf"@, filter);
    match plan.video_input {
        VideoInput::RawPipe => {
            reveal_strlit(":");
            reveal_strlit("flags=bicubic");
            reveal_strlit(":flags=bicubic");
            assert(":flags=bicubic"@ =~= ":"@ + "flags=bicubic"@);
            scales_are_read(plan.out_width as nat, plan.out_height as nat, "flags=bicubic"@);
            let scale = "scale="@ + w + ":"@ + h + ":"@ + "flags=bicubic"@;
            assert(filter =~= scale);
            assert(text::pieces(filter, ',') == seq![filter]);
        },
        VideoInput::Dshow { device } => {
            reveal_strlit(":");
            reveal_strlit("flags=bilinear");
            reveal_strlit(":flags=bilinear");
            reveal_strlit("fps=");
            reveal_strlit("scale=");
            reveal_strlit(",scale=");
            assert(":flags=bilinear"@ =~= ":"@ + "flags=bilinear"@);
            scales_are_read(plan.out_width as nat, plan.out_height as nat, "flags=bilinear"@);
            let scale = "scale="@ + w + ":"@ + h + ":"@ + "flags=bilinear"@;
            let rate = "fps="@ + text::decimal(plan.fps as nat);
            text::decimals_lack(plan.fps as nat, ',');
            assert forall|i: int| 0 <= i < rate.len() implies #[trigger] rate[i] != ',' by {
                if i >= 4 {
                    assert(rate[i] == text::decimal(plan.fps as nat)[i - 4]);
                }
            }
            assert(",scale="@ =~= seq![','] + "scale="@);
            assert(filter =~= rate + seq![','] + scale);
            text::pieces_split(rate, ',', scale);
            assert(text::pieces(scale, ',') == seq![scale]);
        },
    }
}

/// Each caller has its own leg of the tee, which carries MPEG-TS and whose failure
/// ends no other; a preview is one leg more.
pub proof fn every_caller_has_a_leg(plan: FfmpegPlan, playlist: Option<Seq<char>>)
    requires
        text::lacks(plan.destination.host@, '|'),
        playlist is Some ==> text::lacks(playlist->0, '|'),
    ensures
        ({
            let urls = plan.destination@.urls(plan.max_callers);
            let args = plan.args_with(playlist);
            let legs = text::pieces(args.last(), '|');
            let callers = urls.len();
            &&& playlist is None && callers == 1 ==> legs == seq![urls[0]] && text::says(args, "-f"@, "mpegts"@)
            &&& playlist is Some || callers > 1 ==> text::says(args, "-f"@, "tee"@) && text::says(
                args,
                "-map"@,
                "0:v:0"@,
            )
            &&& (playlist is Some || callers > 1) && plan.audio_enabled ==> text::says(args, "-map"@, "1:a:0"@)
            &&& playlist is Some ==> legs.len() == callers + 1 && legs.last() == "[f=hls:onfail=ignore]"@
                + playlist->0
            &&& playlist is None ==> legs.len() == callers
            &&& callers > 1 ==> forall|i: int|
                0 <= i < callers ==> #[trigger] legs[i] == "[f=mpegts:onfail=ignore]"@ + urls[i]
            &&& callers == 1 && playlist is Some ==> legs[0] == "[f=mpegts]"@ + urls[0]
        }),
{
    let urls = plan.destination@.urls(plan.max_callers);
    let args = plan.args_with(playlist);
    let o = plan.output_args_with(playlist);
    crate::srt::endpoints_are_consecutive(plan.destination@, plan.max_callers);
    assert(args.last() == o.last());
    assert forall|i: int| 0 <= i < urls.len() implies text::lacks(#[trigger] urls[i], '|') by {
        crate::srt::urls_add_nothing(plan.destination@, plan.max_callers, i, '|');
    }
    reveal_strlit("|");
    let bar = seq!['|'];
    assert("|"@ =~= bar);
    reveal_strlit("[f=mpegts:onfail=ignore]");
    reveal_strlit("[f=mpegts]");
    reveal_strlit("[f=hls:onfail=ignore]");
    reveal_strlit("|[f=hls:onfail=ignore]");
    let tag = "[f=mpegts:onfail=ignore]"@;
    let parts = urls.map_values(|url: Seq<char>| "[f=mpegts:onfail=ignore]"@ + url);
    assert forall|i: int| 0 <= i < parts.len() implies text::lacks(#[trigger] parts[i], '|') by {
        text::both_lack(tag, urls[i], '|');
        assert(parts[i] == tag + urls[i]);
    }
    text::joined_parts_are_pieces(parts, '|', Seq::empty());
    sections_are_said(plan, playlist, "-f"@, "tee"@);
    sections_are_said(plan, playlist, "-f"@, "mpegts"@);
    sections_are_said(plan, playlist, "-map"@, "0:v:0"@);
    sections_are_said(plan, playlist, "-map"@, "1:a:0"@);
    if playlist is Some || urls.len() > 1 {
        let n = if plan.audio_enabled {
            4int
        } else {
            2int
        };
        assert(o[0] == "-map"@ && o[1] == "0:v:0"@);
        assert(o[n + 2] == "-f"@ && o[n + 2 + 1] == "tee"@);
        if plan.audio_enabled {
            assert(o[2] == "-map"@ && o[3] == "1:a:0"@);
        }
    } else {
        assert(o[0] == "-f"@ && o[1] == "mpegts"@);
        assert(o.last() == urls[0]);
        assert(text::pieces(urls[0], '|') == seq![urls[0]]);
    }
    match playlist {
        Some(list) => {
            let leg = "[f=hls:onfail=ignore]"@ + list;
            text::both_lack("[f=hls:onfail=ignore]"@, list, '|');
            assert("|[f=hls:onfail=ignore]"@ =~= bar + "[f=hls:onfail=ignore]"@);
            assert(o.last() =~= plan.srt_output() + bar + leg);
            assert(text::pieces(leg, '|') == seq![leg]);
            if urls.len() == 1 {
                text::both_lack("[f=mpegts]"@, urls[0], '|');
                text::pieces_split("[f=mpegts]"@ + urls[0], '|', leg);
            } else {
                text::joined_parts_are_pieces(parts, '|', leg);
            }
        },
        None => {
            if urls.len() > 1 {
                assert(o.last() == tee_output(urls));
            }
        },
    }
}

/// Every encoder family runs at low latency: by its own tuning where it has one, and
/// those that can are held to a constant bitrate.
pub proof fn encoders_are_tuned_for_latency(plan: FfmpegPlan, playlist: Option<Seq<char>>)
    ensures
        ({
            let args = plan.args_with(playlist);
            match plan.backend.vendor {
                Vendor::Nvidia => text::says(args, "-tune"@, "ll"@) && text::says(args, "-rc"@, "cbr"@)
                    && text::says(args, "-preset"@, "p3"@),
                Vendor::Amd => text::says(args, "-usage"@, "lowlatency"@) && text::says(args, "-rc"@, "cbr"@),
                Vendor::Intel => text::says(args, "-preset"@, "veryfast"@) && text::says(
                    args,
                    "-low_power"@,
                    "0"@,
                ),
                Vendor::Software => text::says(args, "-tune"@, "zerolatency"@) && text::says(
                    args,
                    "-preset"@,
                    "veryfast"@,
                ),
            }
        }),
{
    let v = plan.video_codec_spec();
    let t = tuning(plan.backend.vendor);
    assert forall|i: int| 0 <= i < t.len() implies v[2 + i] == #[trigger] t[i] by {}
    assert(t[0] == v[2] && t[1] == v[3] && t[2] == v[4] && t[3] == v[5]);
    assert(text::says(v, t[0], t[1])) by {
        assert(v[2] == t[0] && v[2 + 1int] == t[1]);
    }
    assert(text::says(v, t[2], t[3])) by {
        assert(v[4] == t[2] && v[4 + 1int] == t[3]);
    }
    sections_are_said(plan, playlist, t[0], t[1]);
    sections_are_said(plan, playlist, t[2], t[3]);
    if plan.backend.vendor == Vendor::Nvidia {
        assert(t[4] == v[6] && t[5] == v[7]);
        assert(text::says(v, t[4], t[5])) by {
            assert(v[6] == t[4] && v[6 + 1int] == t[5]);
        }
        sections_are_said(plan, playlist, t[4], t[5]);
    }
}

/// What describes an input stands before it, and what FFmpeg is to make of the inputs
/// stands behind the last of them: the size and rate of raw frames come before the first
/// input, the filter and both codecs with their rates after all.
pub proof fn inputs_come_first(plan: FfmpegPlan, playlist: Option<Seq<char>>, i: int, j: int)
    requires
        values_are_values(plan),
        0 <= i < plan.args_with(playlist).len(),
        0 <= j < plan.args_with(playlist).len(),
        plan.args_with(playlist)[i] == "-i"@,
    ensures
        ({
            let option = plan.args_with(playlist)[j];
            &&& option == "-vf"@ || option == "-c:v"@ || option == "-b:v"@ || option == "-maxrate"@ || option
                == "-bufsize"@ || option == "-g"@ || option == "-bf"@ || option == "-c:a"@ || option == "-b:a"@
                ==> i < j
            &&& option == "-video_size"@ || option == "-framerate"@ || option == "-fflags"@ || option
                == "-rtbufsize"@ || option == "-analyzeduration"@ || option == "-probesize"@ ==> j < i
        }),
{
    let args = plan.args_with(playlist);
    let key = args[j];
    let x = "-i"@;
    let head = seq!["-hide_banner"@, "-loglevel"@, "warning"@];
    let v = plan.video_input_args();
    let a = plan.audio_input_args();
    let rest = plan.filter_args() + plan.video_codec_spec() + plan.audio_codec_args()
        + plan.output_args_with(playlist);
    let inputs = head + v + a;
    assert(args =~= inputs + rest);
    reveal_options();
    // Behind the inputs there is none.
    head_counts(x);
    video_input_counts(plan, x);
    audio_counts(plan, x);
    filter_counts(plan, x);
    video_codec_counts(plan, x);
    output_counts(plan, playlist, x);
    rest_counts(plan, playlist, x);
    if i >= inputs.len() {
        assert(rest[i - inputs.len()] == x);
        text::counted_where_it_stands(rest, x, i - inputs.len());
    }
    if shapes(key) && key != x {
        head_counts(key);
        video_input_counts(plan, key);
        audio_counts(plan, key);
        rest_counts(plan, playlist, key);
        text::counts_add_up(head + v, a, key);
        text::counts_add_up(head, v, key);
        text::counts_add_up(inputs, rest, key);
        if j < inputs.len() {
            assert(inputs[j] == key);
            text::counted_where_it_stands(inputs, key, j);
        } else {
            assert(rest[j - inputs.len()] == key);
            text::counted_where_it_stands(rest, key, j - inputs.len());
        }
        if text::count_of(inputs, key) > 0 && j < inputs.len() {
            // It describes the video, and stands before the place of its input.
            let n = head.len() as int;
            let m = n + v.len();
            if j < n {
                assert(head[j] == key);
                text::counted_where_it_stands(head, key, j);
            } else if j >= m {
                assert(a[j - m] == key);
                text::counted_where_it_stands(a, key, j - m);
            } else {
                assert(v[j - n] == key);
                if i < n {
                    assert(head[i] == x);
                    text::counted_where_it_stands(head, x, i);
                } else if i < m {
                    assert(v[i - n] == x);
                    only_input_is_last(plan, i - n);
                    only_input_is_last(plan, j - n);
                }
            }
        }
    }
}

/// The input of the video is the last but one of its arguments, and nothing else is.
#[verifier::spinoff_prover]
proof fn only_input_is_last(plan: FfmpegPlan, i: int)
    requires
        0 <= i < plan.video_input_args().len(),
    ensures
        plan.video_input_args()[i] == "-i"@ ==> i == plan.video_input_args().len() - 2,
        shapes(plan.video_input_args()[i]) ==> i <= plan.video_input_args().len() - 2,
{
    let v = plan.video_input_args();
    let x = "-i"@;
    reveal_options();
    video_input_counts(plan, x);
    let k = v.len() - 2;
    assert(v[k] == x);
    if v[i] == x && i != k {
        if i < k {
            text::counted_twice_where_it_stands_twice(v, x, i, k);
        } else {
            text::counted_twice_where_it_stands_twice(v, x, k, i);
        }
    }
    if i == v.len() - 1 {
        reveal_strlit("pipe:0");
        reveal_strlit("video=");
        match plan.video_input {
            VideoInput::RawPipe => {
                assert(v[i][0] == 'p');
            },
            VideoInput::Dshow { device } => {
                assert(v[i][0] == 'v');
            },
        }
        head_counts(x);
    }
}

/// How often an option is given behind the inputs.
proof fn rest_counts(plan: FfmpegPlan, playlist: Option<Seq<char>>, key: Seq<char>)
    requires
        shapes(key),
        values_are_values(plan),
    ensures
        ({
            let rest = plan.filter_args() + plan.video_codec_spec() + plan.audio_codec_args()
                + plan.output_args_with(playlist);
            text::count_of(rest, key) == text::count_of(plan.filter_args(), key) + text::count_of(
                plan.video_codec_spec(),
                key,
            ) + text::count_of(plan.audio_codec_args(), key)
        }),
        key == "-i"@ || key == "-video_size"@ || key == "-framerate"@ || key == "-fflags"@ || key == "-rtbufsize"@
            || key == "-analyzeduration"@ || key == "-probesize"@ ==> text::count_of(
            plan.filter_args() + plan.video_codec_spec() + plan.audio_codec_args() + plan.output_args_with(
                playlist,
            ),
            key,
        ) == 0,
{
    reveal_options();
    filter_counts(plan, key);
    video_codec_counts(plan, key);
    audio_counts(plan, key);
    output_counts(plan, playlist, key);
    let f = plan.filter_args();
    let v = plan.video_codec_spec();
    let a = plan.audio_codec_args();
    let o = plan.output_args_with(playlist);
    text::counts_add_up(f + v + a, o, key);
    text::counts_add_up(f + v, a, key);
    text::counts_add_up(f, v, key);
}

} // verus!
