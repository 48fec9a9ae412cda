//! Startup capability detection.
//!
//! The UI is built from what the machine can actually do, instead of scattering
//! special cases for RTX / GTX / Intel / AMD / Windows 10 / 11 across the app.
//! Detection is best-effort: unknown/unsupported is represented explicitly rather
//! than assumed, and the runtime re-validates (e.g. audio activation) on start.

use vstd::prelude::*;
use vstd::string::*;

use crate::audio::MicrophoneInfo;
use crate::encoder;
use crate::encoder::EncoderBackend;
use crate::process_enum;
use crate::process_enum::ProcessInfo;
use crate::process_enum::ProcessView;
use crate::text;
use crate::video_device;
use crate::video_device::VideoDeviceInfo;

verus! {

#[derive(Debug, Clone)]
pub struct OsInfo {
    pub name: String,
    /// Best-effort OS build; `None` when it cannot be determined reliably.
    pub build: Option<String>,
}

#[derive(Debug, Clone)]
pub struct Capabilities {
    /// "wgc" when Windows Graphics Capture is the active backend, else "none".
    pub capture: String,
    /// FFmpeg encoder names available locally (filtered to ones we use).
    pub encoders: Vec<String>,
    /// Structured encoder backends (codec + vendor + hardware flag).
    pub encoder_backends: Vec<EncoderBackend>,
    /// Per-process audio loopback availability (best-effort; runtime re-checks).
    pub process_audio: bool,
    /// Whether at least one Discord process is currently running.
    pub discord_audio: bool,
    pub discord_processes: Vec<ProcessInfo>,
    pub microphones: Vec<MicrophoneInfo>,
    /// Physical capture devices (cameras / capture cards) for broadcast input.
    pub video_devices: Vec<VideoDeviceInfo>,
    /// GStreamer is present, enabling the ST 2110 output path.
    pub gstreamer_available: bool,
    pub gstreamer_path: String,
    /// ST 2110 output can be attempted: GStreamer present + at least one device.
    pub st2110_ready: bool,
    pub ffmpeg_available: bool,
    pub ffmpeg_path: String,
    pub os: OsInfo,
}

/// The oldest Windows build whose process loopback is taken to work.
pub const PROCESS_AUDIO_BUILD: u32 = 19041;

/// What was found out about the machine.
#[derive(Debug, Clone)]
pub struct Probe {
    pub windows: bool,
    pub os_name: String,
    /// What querying the registry for the build number printed, if it ran.
    pub build_query: Option<String>,
    pub ffmpeg_path: String,
    /// What `ffmpeg -encoders` printed, if it ran.
    pub encoder_listing: Option<String>,
    /// What listing the DirectShow devices printed, if FFmpeg ran.
    pub device_listing: Option<String>,
    pub gstreamer_path: Option<String>,
    pub running: Vec<ProcessInfo>,
    pub microphones: Vec<MicrophoneInfo>,
}

/// The encoders we use, in dictionary order.
pub open spec fn known_encoders() -> Seq<Seq<char>> {
    seq![
        "h264_amf"@,
        "h264_nvenc"@,
        "h264_qsv"@,
        "hevc_amf"@,
        "hevc_nvenc"@,
        "hevc_qsv"@,
        "libx264"@,
        "libx265"@,
    ]
}

/// A line of the listing names an encoder as its second word.
pub open spec fn line_names(line: Seq<char>, name: Seq<char>) -> bool {
    text::words_of(line).len() >= 2 && text::words_of(line)[1] == name
}

/// Some line of the listing names the encoder.
pub open spec fn is_reported(lines: Seq<Seq<char>>, name: Seq<char>) -> bool {
    exists|i: int| 0 <= i < lines.len() && line_names(#[trigger] lines[i], name)
}

/// The encoders we use that the listing names, in dictionary order.
pub open spec fn reported_encoders(listing: Seq<char>) -> Seq<Seq<char>> {
    known_encoders().filter(|name: Seq<char>| is_reported(text::lines_of(listing), name))
}

/// The second word of each line that has one.
fn second_words(listing: &str) -> (r: Vec<String>)
    ensures
        forall|name: Seq<char>|
            #[trigger] text::texts(r@).contains(name) <==> is_reported(text::lines_of(listing@), name),
{
    let lines = text::lines(listing);
    let ghost all = text::texts(lines@);
    let mut out: Vec<String> = Vec::new();
    let n: usize = lines.len();
    for i in 0..n
        invariant
            n == lines@.len(),
            all == text::texts(lines@),
            forall|name: Seq<char>|
                #[trigger] text::texts(out@).contains(name) <==> is_reported(
                    all.take(i as int),
                    name,
                ),
    {
        let words = text::words(lines[i].as_str());
        let ghost before = text::texts(out@);
        let ghost seen = all.take(i + 1);
        let ghost line = lines@[i as int]@;
        assert(seen[i as int] == line);
        if words.len() >= 2 {
            let word = words[1].clone();
            assert(text::words_of(line)[1] == word@);
            text::push_text(&mut out, word);
            assert forall|name: Seq<char>| #[trigger] text::texts(out@).contains(name) <==> is_reported(
                seen,
                name,
            ) by {
                still_reported(all, i as int, name);
                if before.contains(name) {
                    let k = before.index_of(name);
                    assert(text::texts(out@)[k] == name);
                }
                if name == word@ {
                    assert(text::texts(out@)[before.len() as int] == name);
                }
                if text::texts(out@).contains(name) && name != word@ {
                    let k = text::texts(out@).index_of(name);
                    assert(k < before.len());
                    assert(before[k] == name);
                }
            }
        } else {
            assert(text::words_of(line).len() < 2);
            assert forall|name: Seq<char>| #[trigger] text::texts(out@).contains(name) <==> is_reported(
                seen,
                name,
            ) by {
                still_reported(all, i as int, name);
            }
        }
    }
    assert(all.take(n as int) =~= all);
    out
}

/// An encoder is reported by one more line if it was before, or if that line
/// names it.
proof fn still_reported(lines: Seq<Seq<char>>, i: int, name: Seq<char>)
    requires
        0 <= i < lines.len(),
    ensures
        is_reported(lines.take(i + 1), name) <==> (is_reported(lines.take(i), name) || line_names(
            lines[i],
            name,
        )),
{
    let fewer = lines.take(i);
    let more = lines.take(i + 1);
    if is_reported(fewer, name) {
        let k = choose|k: int| 0 <= k < fewer.len() && line_names(#[trigger] fewer[k], name);
        assert(more[k] == fewer[k]);
    }
    if line_names(lines[i], name) {
        assert(more[i] == lines[i]);
    }
    if is_reported(more, name) {
        let k = choose|k: int| 0 <= k < more.len() && line_names(#[trigger] more[k], name);
        if k < i {
            assert(fewer[k] == more[k]);
        }
    }
}

/// Parse the output of `ffmpeg -encoders` for the encoder names we support.
///
/// Lines look like: " V....D h264_nvenc           NVIDIA NVENC H.264 ..."
pub fn parse_encoders(stdout: &str) -> (r: Vec<String>)
    ensures
        text::texts(r@) == reported_encoders(stdout@),
{
    let words = second_words(stdout);
    let known: [&'static str; 8] = [
        "h264_amf",
        "h264_nvenc",
        "h264_qsv",
        "hevc_amf",
        "hevc_nvenc",
        "hevc_qsv",
        "libx264",
        "libx265",
    ];
    let mut found: Vec<String> = Vec::new();
    let ghost all = known_encoders();
    let ghost wanted = |name: Seq<char>| is_reported(text::lines_of(stdout@), name);
    proof {
        reveal(Seq::filter);
        assert(text::texts(found@) =~= all.take(0).filter(wanted));
    }
    for i in 0..8usize
        invariant
            all == known_encoders(),
            text::strs(known@) == all,
            wanted == (|name: Seq<char>| is_reported(text::lines_of(stdout@), name)),
            forall|name: Seq<char>|
                #[trigger] text::texts(words@).contains(name) <==> is_reported(
                    text::lines_of(stdout@),
                    name,
                ),
            text::texts(found@) == all.take(i as int).filter(wanted),
    {
        proof {
            reveal(Seq::filter);
            assert(all.take(i + 1).drop_last() =~= all.take(i as int));
            assert(text::strs(known@)[i as int] == known@[i as int]@);
            assert(all.take(i + 1).last() == known@[i as int]@);
        }
        let name = known[i];
        if text::list_has(words.as_slice(), name) {
            text::push_text(&mut found, name.to_string());
        }
    }
    assert(all.take(8) =~= all);
    found
}

/// The operating system's build number: the last word of what the query printed.
pub open spec fn build_of(windows: bool, query: Option<Seq<char>>) -> Option<Seq<char>> {
    match query {
        Some(output) => if windows && text::words_of(output).len() > 0 {
            Some(text::words_of(output).last())
        } else {
            None
        },
        None => None,
    }
}

/// Describe the operating system.
pub fn detect_os(windows: bool, os_name: &str, build_query: Option<&str>) -> (r: OsInfo)
    ensures
        r.name@ == (if windows {
            "Windows"@
        } else {
            os_name@
        }),
        text::opt_text(r.build) == build_of(
            windows,
            match build_query {
                Some(q) => Some(q@),
                None => None,
            },
        ),
{
    if !windows {
        return OsInfo { name: os_name.to_string(), build: None };
    }
    let build = match build_query {
        Some(output) => {
            let words = text::words(output);
            let n: usize = words.len();
            assert(text::texts(words@).len() == n);
            if n > 0 {
                assert(text::texts(words@).last() == words@[n - 1]@);
                Some(words[n - 1].clone())
            } else {
                None
            }
        },
        None => None,
    };
    OsInfo { name: "Windows".to_string(), build }
}

/// Process loopback is likely to work: on Windows, from a certain build on, and
/// also where the build is not known.
pub open spec fn has_process_audio(windows: bool, build: Option<Seq<char>>) -> bool {
    windows && match build {
        Some(b) => match text::u32_of(b) {
            Some(n) => n >= PROCESS_AUDIO_BUILD,
            None => true,
        },
        None => true,
    }
}

/// Per-process loopback needs Windows 10 build 20348+ (Server 2022 / Win11 era
/// API surface; the AudioClient activation path also works on Win10 2004+ for
/// many drivers). We treat >= 19041 as "likely supported" and let the runtime
/// downgrade with a clear warning if activation actually fails.
pub fn detect_process_audio(os: &OsInfo, windows: bool) -> (r: bool)
    ensures
        r == has_process_audio(windows, text::opt_text(os.build)),
{
    if !windows {
        return false;
    }
    match &os.build {
        Some(build) => match text::parse_u32(build.as_str()) {
            Some(n) => n >= PROCESS_AUDIO_BUILD,
            None => true,  // unknown: optimistic, runtime re-validates
        },
        None => true,
    }
}

impl Probe {
    pub open spec fn encoders(self) -> Seq<Seq<char>> {
        match self.encoder_listing {
            Some(listing) => reported_encoders(listing@),
            None => seq![],
        }
    }

    /// The capture devices: FFmpeg has to be there to list them.
    pub open spec fn devices(self) -> Seq<Seq<char>> {
        match self.device_listing {
            Some(listing) => if self.windows && self.encoder_listing is Some {
                video_device::video_names(text::lines_of(listing@))
            } else {
                seq![]
            },
            None => seq![],
        }
    }

    pub open spec fn discord(self) -> Seq<ProcessView> {
        process_enum::processes(self.running@).filter(
            |p: ProcessView| process_enum::looks_like_discord(p.name),
        )
    }
}

/// What the machine can do, from what was found out about it.
pub fn detect(probe: Probe) -> (r: Capabilities)
    ensures
        r.capture@ == (if probe.windows {
            "wgc"@
        } else {
            "none"@
        }),
        text::texts(r.encoders@) == probe.encoders(),
        r.encoder_backends@ == encoder::backends_present(probe.encoders()),
        r.process_audio == has_process_audio(
            probe.windows,
            build_of(probe.windows, text::opt_text(probe.build_query)),
        ),
        process_enum::processes(r.discord_processes@) == probe.discord(),
        r.discord_audio == (probe.discord().len() > 0),
        r.microphones@ == probe.microphones@,
        video_device::devices_of(r.video_devices@) == video_device::under_names(probe.devices()),
        r.gstreamer_available == (probe.gstreamer_path is Some),
        r.gstreamer_path@ == (match probe.gstreamer_path {
            Some(path) => path@,
            None => seq![],
        }),
        r.st2110_ready == (probe.gstreamer_path is Some && probe.devices().len() > 0),
        r.ffmpeg_available == (probe.encoder_listing is Some),
        r.ffmpeg_path@ == probe.ffmpeg_path@,
        r.os.name@ == (if probe.windows {
            "Windows"@
        } else {
            probe.os_name@
        }),
        text::opt_text(r.os.build) == build_of(probe.windows, text::opt_text(probe.build_query)),
{
    let ffmpeg_available = probe.encoder_listing.is_some();
    let encoders = match &probe.encoder_listing {
        Some(listing) => parse_encoders(listing.as_str()),
        None => {
            let none: Vec<String> = Vec::new();
            assert(text::texts(none@) =~= seq![]);
            none
        },
    };
    let encoder_backends = encoder::available_backends(encoders.as_slice());

    let build_query = match &probe.build_query {
        Some(output) => Some(output.as_str()),
        None => None,
    };
    let os = detect_os(probe.windows, probe.os_name.as_str(), build_query);
    let process_audio = detect_process_audio(&os, probe.windows);

    let discord = process_enum::discord_processes(&probe.running);
    assert(process_enum::processes(discord@).len() == discord@.len());

    let listing = if ffmpeg_available {
        match &probe.device_listing {
            Some(listing) => Some(listing.as_str()),
            None => None,
        }
    } else {
        None
    };
    let video_devices = video_device::list_video_devices(probe.windows, listing);
    assert(video_device::devices_of(video_devices@).len() == video_devices@.len());

    let gstreamer_available = probe.gstreamer_path.is_some();
    let gstreamer_path = match &probe.gstreamer_path {
        Some(path) => path.clone(),
        None => String::new(),
    };
    let st2110_ready = gstreamer_available && video_devices.len() > 0;

    Capabilities {
        capture: if probe.windows {
            "wgc".to_string()
        } else {
            "none".to_string()
        },
        encoders,
        encoder_backends,
        process_audio,
        discord_audio: discord.len() > 0,
        discord_processes: discord,
        microphones: probe.microphones,
        video_devices,
        gstreamer_available,
        gstreamer_path,
        st2110_ready,
        ffmpeg_available,
        ffmpeg_path: probe.ffmpeg_path,
        os,
    }
}

/// Every encoder that some backend needs is looked for in the listing.
pub proof fn every_backend_is_known(codec: encoder::Codec, i: int)
    requires
        0 <= i < encoder::ranking(codec).len(),
    ensures
        known_encoders().contains(encoder::ranking(codec)[i].ffmpeg_name@),
{
    let known = known_encoders();
    assert(known[0] == "h264_amf"@ && known[1] == "h264_nvenc"@ && known[2] == "h264_qsv"@ && known[3]
        == "hevc_amf"@ && known[4] == "hevc_nvenc"@ && known[5] == "hevc_qsv"@ && known[6] == "libx264"@
        && known[7] == "libx265"@);
}

/// The encoders that are found are listed in dictionary order, each once.
pub proof fn encoders_are_sorted_and_distinct(i: int, j: int)
    requires
        0 <= i < j < known_encoders().len(),
    ensures
        text::ordered(known_encoders()[i], known_encoders()[j]),
        known_encoders()[i] != known_encoders()[j],
{
    reveal_strlit("h264_amf");
    reveal_strlit("h264_nvenc");
    reveal_strlit("h264_qsv");
    reveal_strlit("hevc_amf");
    reveal_strlit("hevc_nvenc");
    reveal_strlit("hevc_qsv");
    reveal_strlit("libx264");
    reveal_strlit("libx265");
    let a = known_encoders()[i];
    let b = known_encoders()[j];
    reveal_with_fuel(text::ordered, 8);
    assert(a.len() > 6 && b.len() > 6);
    assert(a[0] != b[0] || a[1] != b[1] || a[5] != b[5] || a[6] != b[6]);
}

/// An encoder that we use is reported exactly if it is the second word of some line
/// of the listing; no other encoder is.
pub proof fn encoders_are_second_words(listing: Seq<char>, name: Seq<char>)
    ensures
        reported_encoders(listing).contains(name) <==> known_encoders().contains(name) && exists|i: int|
            0 <= i < text::lines_of(listing).len() && text::words_of(#[trigger] text::lines_of(listing)[i]).len()
                >= 2 && text::words_of(text::lines_of(listing)[i])[1] == name,
{
    let lines = text::lines_of(listing);
    let wanted = |name: Seq<char>| is_reported(lines, name);
    let all = known_encoders();
    if reported_encoders(listing).contains(name) {
        all.lemma_filter_contains_rev(wanted, name);
        let k = reported_encoders(listing).index_of(name);
        all.lemma_filter_pred(wanted, k);
        assert(is_reported(lines, name));
    }
    if all.contains(name) && is_reported(lines, name) {
        let k = all.index_of(name);
        assert(all[k] == name);
        all.lemma_filter_contains(wanted, k);
    }
    if exists|i: int|
        0 <= i < lines.len() && text::words_of(#[trigger] lines[i]).len() >= 2 && text::words_of(lines[i])[1]
            == name {
        let i = choose|i: int|
            0 <= i < lines.len() && text::words_of(#[trigger] lines[i]).len() >= 2 && text::words_of(lines[i])[1]
                == name;
        assert(line_names(lines[i], name));
    }
}

/// The build number is what the query printed last, on Windows and nowhere else.
pub proof fn builds_are_printed_last(before: Seq<char>, word: Seq<char>, space: Seq<char>)
    requires
        word.len() > 0,
        forall|i: int| 0 <= i < word.len() ==> !text::is_space(#[trigger] word[i]),
        forall|i: int| 0 <= i < space.len() ==> text::is_space(#[trigger] space[i]),
    ensures
        build_of(true, Some(before + seq![' '] + (word + space))) == Some(word),
        build_of(false, Some(before + seq![' '] + (word + space))) is None,
        build_of(true, None) is None,
{
    text::words_are_parted(before, ' ', word + space);
    text::lone_words_are_read(word, space);
    let words = text::words_of(before + seq![' '] + (word + space));
    assert(words == text::words_of(before) + seq![word]);
    assert(words.last() == word);
}

/// Process loopback is offered from build 19041 on, and where the build is not known;
/// never off Windows.
pub proof fn process_audio_needs_a_recent_build(n: u32, build: Option<Seq<char>>)
    ensures
        has_process_audio(true, Some(text::decimal(n as nat))) <==> n >= 19041,
        has_process_audio(true, None),
        !has_process_audio(false, build),
{
    text::decimal_is_plain(n as nat);
    let s = text::decimal(n as nat);
    assert(text::is_digit(s[0]));
}

/// Nothing is listed by an FFmpeg that is not there, and no device off Windows.
pub proof fn listings_need_their_program(probe: Probe)
    ensures
        probe.encoder_listing is None ==> probe.encoders().len() == 0 && probe.devices().len() == 0,
        !probe.windows ==> probe.devices().len() == 0,
        probe.windows && probe.encoder_listing is Some && probe.device_listing is Some ==> probe.devices()
            == video_device::video_names(text::lines_of(probe.device_listing->0@)),
{
}

/// Reported encoders stand in dictionary order, whatever order the listing has.
pub proof fn reported_encoders_are_sorted(listing: Seq<char>, i: int, j: int)
    requires
        0 <= i < j < reported_encoders(listing).len(),
    ensures
        text::ordered(reported_encoders(listing)[i], reported_encoders(listing)[j]),
        reported_encoders(listing)[i] != reported_encoders(listing)[j],
{
    let wanted = |name: Seq<char>| is_reported(text::lines_of(listing), name);
    text::filtering_keeps_order(known_encoders(), wanted, i, j);
    let (a, b) = choose|a: int, b: int|
        0 <= a < b < known_encoders().len() && #[trigger] known_encoders()[a] == known_encoders().filter(wanted)[i]
            && #[trigger] known_encoders()[b] == known_encoders().filter(wanted)[j];
    encoders_are_sorted_and_distinct(a, b);
}

/// Every encoder that is looked for is one that some codec can be encoded with.
pub proof fn every_known_encoder_is_used(i: int)
    requires
        0 <= i < known_encoders().len(),
    ensures
        exists|j: int|
            0 <= j < 4 && ((#[trigger] encoder::ranking(encoder::Codec::H264)[j]).ffmpeg_name@ == known_encoders()[i]
                || encoder::ranking(encoder::Codec::Hevc)[j].ffmpeg_name@ == known_encoders()[i]),
{
    let h = encoder::ranking(encoder::Codec::H264);
    let v = encoder::ranking(encoder::Codec::Hevc);
    assert(h[0].ffmpeg_name@ == "h264_nvenc"@ && v[0].ffmpeg_name@ == "hevc_nvenc"@);
    assert(h[1].ffmpeg_name@ == "h264_qsv"@ && v[1].ffmpeg_name@ == "hevc_qsv"@);
    assert(h[2].ffmpeg_name@ == "h264_amf"@ && v[2].ffmpeg_name@ == "hevc_amf"@);
    assert(h[3].ffmpeg_name@ == "libx264"@ && v[3].ffmpeg_name@ == "libx265"@);
}

} // verus!
