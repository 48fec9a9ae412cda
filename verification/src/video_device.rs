//! Physical video capture device enumeration.
//!
//! Broadcast sources are cameras and capture cards exposed to Windows, not game
//! windows. We enumerate them through the bundled FFmpeg's DirectShow backend
//! (`ffmpeg -f dshow -list_devices true -i dummy`) and key devices by their
//! DirectShow *friendly name*. That name is the common identifier accepted by
//! both capture paths this app uses:
//!   * FFmpeg   -> `-f dshow -i video=<name>`
//!   * GStreamer -> `dshowvideosrc device-name=<name>`
//!
//! Keeping a single device identity across both encoders avoids a mapping layer
//! between the SRT (FFmpeg) and ST 2110 (GStreamer) pipelines.

use vstd::prelude::*;
use vstd::string::*;

use crate::text;

verus! {

#[derive(Debug, Clone, PartialEq, Eq)]
pub struct VideoDeviceInfo {
    /// Stable identifier = DirectShow friendly name.
    pub id: String,
    pub name: String,
}

/// A device with its strings as characters.
pub struct DeviceView {
    pub id: Seq<char>,
    pub name: Seq<char>,
}

impl View for VideoDeviceInfo {
    type V = DeviceView;

    open spec fn view(&self) -> DeviceView {
        DeviceView { id: self.id@, name: self.name@ }
    }
}

/// The contents of a list of devices.
pub open spec fn devices_of(list: Seq<VideoDeviceInfo>) -> Seq<DeviceView> {
    list.map_values(|d: VideoDeviceInfo| d@)
}

/// Devices that are identified by their names.
pub open spec fn under_names(names: Seq<Seq<char>>) -> Seq<DeviceView> {
    names.map_values(|name: Seq<char>| DeviceView { id: name, name })
}

/// A line without its `[dshow @ 0x...]` log prefix, if it has one.
pub open spec fn without_prefix(line: Seq<char>) -> Seq<char> {
    let end = text::first_of(line, ']');
    if end < line.len() && text::begins_with(text::trimmed_start(line), "["@) {
        line.skip(end + 1)
    } else {
        line
    }
}

/// The text inside the first pair of double quotes, if any.
pub open spec fn quoted(s: Seq<char>) -> Option<Seq<char>> {
    let start = text::first_of(s, '"');
    if start >= s.len() {
        None
    } else {
        let rest = s.skip(start + 1);
        let end = text::first_of(rest, '"');
        if end >= rest.len() {
            None
        } else {
            Some(rest.take(end))
        }
    }
}

/// What a line of the listing says.
pub enum Entry {
    /// The devices that follow have a video pin.
    VideoHeader,
    /// The devices that follow have none.
    AudioHeader,
    /// A device; `video` tells its media if the line does.
    Device { name: Seq<char>, video: Option<bool> },
    /// Nothing of interest.
    Other,
}

/// Read one line of the listing.
pub open spec fn entry_of(line: Seq<char>) -> Entry {
    let content = text::trimmed(without_prefix(line));
    let lower = text::lowered(content);
    if text::has_text(lower, "directshow video devices"@) {
        Entry::VideoHeader
    } else if text::has_text(lower, "directshow audio devices"@) {
        Entry::AudioHeader
    } else if text::begins_with(lower, "alternative name"@) {
        Entry::Other
    } else {
        match quoted(content) {
            None => Entry::Other,
            Some(name) => if name.len() == 0 {
                Entry::Other
            } else {
                Entry::Device {
                    name,
                    video: if text::finishes_with(lower, "(video)"@) {
                        Some(true)
                    } else if text::finishes_with(lower, "(audio)"@) || text::finishes_with(
                        lower,
                        "(none)"@,
                    ) {
                        Some(false)
                    } else {
                        None
                    },
                }
            },
        }
    }
}

/// The listing stands in its video section after these lines: the last header
/// was the video one.
pub open spec fn in_video_section(lines: Seq<Seq<char>>) -> bool
    decreases lines.len(),
{
    if lines.len() == 0 {
        false
    } else {
        match entry_of(lines.last()) {
            Entry::VideoHeader => true,
            Entry::AudioHeader => false,
            _ => in_video_section(lines.drop_last()),
        }
    }
}

/// The names of the devices with a video pin, in order, each once. A device's
/// own tag decides; without one the section does.
pub open spec fn video_names(lines: Seq<Seq<char>>) -> Seq<Seq<char>>
    decreases lines.len(),
{
    if lines.len() == 0 {
        seq![]
    } else {
        let before = lines.drop_last();
        let found = video_names(before);
        match entry_of(lines.last()) {
            Entry::Device { name, video } => {
                let is_video = match video {
                    Some(v) => v,
                    None => in_video_section(before),
                };
                if is_video && !found.contains(name) {
                    found.push(name)
                } else {
                    found
                }
            },
            _ => found,
        }
    }
}

/// Strip a leading `[dshow @ 0x...] ` log prefix if present.
fn strip_dshow_prefix(line: &str) -> (r: &str)
    ensures
        r@ == without_prefix(line@),
{
    let chars = text::chars_of(line);
    let n: usize = chars.len();
    let end: usize = text::find_from(&chars, ']', 0);
    assert(line@.skip(0) =~= line@);
    if end < n && text::starts_with(text::trim_start(line), "[") {
        assert(line@.subrange(end + 1, n as int) =~= line@.skip(end + 1));
        line.substring_char(end + 1, n)
    } else {
        line
    }
}

/// Return the text inside the first pair of double quotes, if any.
fn extract_quoted(s: &str) -> (r: Option<String>)
    ensures
        text::opt_text(r) == quoted(s@),
{
    let chars = text::chars_of(s);
    let n: usize = chars.len();
    let start: usize = text::find_from(&chars, '"', 0);
    assert(s@.skip(0) =~= s@);
    if start == n {
        return None;
    }
    let end: usize = text::find_from(&chars, '"', start + 1);
    if end == n {
        return None;
    }
    assert(s@.skip(start + 1).take(end - start - 1) =~= s@.subrange(start + 1, end as int));
    Some(s.substring_char(start + 1, end).to_string())
}

/// What a line of the listing says, with an owned name.
enum Line {
    VideoHeader,
    AudioHeader,
    Device { name: String, video: Option<bool> },
    Other,
}

impl View for Line {
    type V = Entry;

    closed spec fn view(&self) -> Entry {
        match self {
            Line::VideoHeader => Entry::VideoHeader,
            Line::AudioHeader => Entry::AudioHeader,
            Line::Device { name, video } => Entry::Device { name: name@, video: *video },
            Line::Other => Entry::Other,
        }
    }
}

fn read_line(line: &str) -> (r: Line)
    ensures
        r@ == entry_of(line@),
{
    let content = text::trim(strip_dshow_prefix(line));
    let lower = text::lower(content);

    // Old-format section headers (FFmpeg >= 7 omits them).
    if text::contains(lower.as_str(), "directshow video devices") {
        return Line::VideoHeader;
    }
    if text::contains(lower.as_str(), "directshow audio devices") {
        return Line::AudioHeader;
    }
    // Skip the "Alternative name \"...\"" lines; keep only friendly names.
    if text::starts_with(lower.as_str(), "alternative name") {
        return Line::Other;
    }
    match extract_quoted(content) {
        None => Line::Other,
        Some(name) => {
            if name.as_str().unicode_len() == 0 {
                return Line::Other;
            }
            // The FFmpeg >= 7 inline media tag.
            let video = if text::ends_with(lower.as_str(), "(video)") {
                Some(true)
            } else if text::ends_with(lower.as_str(), "(audio)") || text::ends_with(
                lower.as_str(),
                "(none)",
            ) {
                Some(false)
            } else {
                None
            };
            Line::Device { name, video }
        },
    }
}

/// Whether a device of this name is in the list.
fn is_listed(devices: &Vec<VideoDeviceInfo>, name: &String) -> (r: bool)
    ensures
        r == exists|i: int| 0 <= i < devices@.len() && (#[trigger] devices@[i]).name@ == name@,
{
    let n: usize = devices.len();
    for i in 0..n
        invariant
            n == devices@.len(),
            forall|j: int| 0 <= j < i ==> (#[trigger] devices@[j]).name@ != name@,
    {
        if devices[i].name == *name {
            return true;
        }
    }
    false
}

/// Parse the stderr of `ffmpeg -f dshow -list_devices true -i dummy`.
///
/// Two output layouts exist across FFmpeg versions:
///
/// **FFmpeg < 7** groups devices under section headers:
/// ```text
/// [dshow @ ...] DirectShow video devices (some may be both video and audio)
/// [dshow @ ...]  "Logitech BRIO"
/// [dshow @ ...]     Alternative name "@device_pnp_\\?\usb#..."
/// [dshow @ ...] DirectShow audio devices
/// [dshow @ ...]  "Microphone (Realtek)"
/// ```
///
/// **FFmpeg >= 7** dropped the section headers and instead tags each device
/// inline with its media type:
/// ```text
/// [in#0 @ ...] "Integrated Webcam" (video)
/// [in#0 @ ...]   Alternative name "@device_pnp_\\?\usb#..."
/// [in#0 @ ...] "LSVCam" (none)
/// [in#0 @ ...] "Microphone Array (...)" (audio)
/// ```
///
/// We keep only devices that expose a video pin: the inline `(video)` tag when
/// present, otherwise the video section for the older layout. `(audio)` and
/// `(none)` devices are skipped.
pub fn parse_dshow_devices(stderr: &str) -> (r: Vec<VideoDeviceInfo>)
    ensures
        devices_of(r@) == under_names(video_names(text::lines_of(stderr@))),
{
    let mut devices: Vec<VideoDeviceInfo> = Vec::new();
    let mut in_video: bool = false;
    let lines = text::lines(stderr);
    let ghost all = text::texts(lines@);
    let n: usize = lines.len();
    assert(devices_of(devices@) =~= under_names(video_names(all.take(0))));
    for i in 0..n
        invariant
            n == lines@.len(),
            all == text::texts(lines@),
            in_video == in_video_section(all.take(i as int)),
            devices_of(devices@) == under_names(video_names(all.take(i as int))),
    {
        let ghost seen = all.take(i + 1);
        proof {
            assert(seen.drop_last() =~= all.take(i as int));
            assert(seen.last() == lines@[i as int]@);
        }
        match read_line(lines[i].as_str()) {
            Line::VideoHeader => {
                in_video = true;
            },
            Line::AudioHeader => {
                in_video = false;
            },
            Line::Other => {},
            Line::Device { name, video } => {
                // Prefer the inline media tag; fall back to the section for the
                // older grouped layout when no tag is present.
                let is_video = match video {
                    Some(v) => v,
                    None => in_video,
                };
                let ghost before = devices@;
                let ghost found = video_names(all.take(i as int));
                proof {
                    assert(devices_of(before).len() == found.len());
                    assert forall|j: int| 0 <= j < found.len() implies (#[trigger] found[j])
                        == before[j].name@ by {
                        assert(devices_of(before)[j] == under_names(found)[j]);
                    }
                    assert(forall|j: int| 0 <= j < before.len() ==> (#[trigger] before[j]).name@ == found[j]);
                }
                if is_video && !is_listed(&devices, &name) {
                    devices.push(VideoDeviceInfo { id: name.clone(), name });
                    proof {
                        let added = DeviceView { id: name@, name: name@ };
                        assert(devices_of(devices@) =~= devices_of(before).push(added));
                        assert(under_names(found.push(name@)) =~= under_names(found).push(added));
                    }
                }
            },
        }
    }
    assert(all.take(n as int) =~= all);
    devices
}

/// The video capture devices of this machine, from what FFmpeg listed if it
/// could be run. Only Windows has DirectShow.
pub fn list_video_devices(windows: bool, listing: Option<&str>) -> (r: Vec<VideoDeviceInfo>)
    ensures
        devices_of(r@) == under_names(
            match listing {
                Some(stderr) => if windows {
                    video_names(text::lines_of(stderr@))
                } else {
                    seq![]
                },
                None => seq![],
            },
        ),
{
    match listing {
        Some(stderr) => if windows {
            parse_dshow_devices(stderr)
        } else {
            let none: Vec<VideoDeviceInfo> = Vec::new();
            assert(devices_of(none@) =~= under_names(seq![]));
            none
        },
        None => {
            let none: Vec<VideoDeviceInfo> = Vec::new();
            assert(devices_of(none@) =~= under_names(seq![]));
            none
        },
    }
}

/// No device is listed twice, and none without a name.
pub proof fn devices_are_distinct_and_named(lines: Seq<Seq<char>>)
    ensures
        video_names(lines).no_duplicates(),
        forall|i: int| 0 <= i < video_names(lines).len() ==> (#[trigger] video_names(lines)[i]).len() > 0,
    decreases lines.len(),
{
    if lines.len() > 0 {
        devices_are_distinct_and_named(lines.drop_last());
    }
}

/// More output never withdraws a device that was already listed.
pub proof fn listings_only_grow(lines: Seq<Seq<char>>, more: Seq<Seq<char>>)
    ensures
        video_names(lines).is_prefix_of(video_names(lines + more)),
    decreases more.len(),
{
    if more.len() == 0 {
        assert(lines + more =~= lines);
    } else {
        listings_only_grow(lines, more.drop_last());
        assert((lines + more).drop_last() =~= lines + more.drop_last());
        let a = video_names(lines);
        let b = video_names(lines + more.drop_last());
        let c = video_names(lines + more);
        assert(b.is_prefix_of(c));
        assert(a =~= c.take(a.len() as int)) by {
            assert(a =~= b.take(a.len() as int));
            assert(b =~= c.take(b.len() as int));
        }
    }
}

/// A carriage return at the end of a line makes no difference to what it says.
proof fn returns_say_nothing(line: Seq<char>)
    ensures
        entry_of(text::without_return(line)) == entry_of(line),
{
    if line.len() > 0 && line.last() == '\r' {
        let short = line.drop_last();
        assert(line =~= short.push('\r'));
        text::trimming_drops_a_last_space(short, '\r');
        text::first_of_is_first(short, ']');
        let end = text::first_of(short, ']');
        if end < short.len() {
            text::first_of_unique(line, ']', end);
            reveal_strlit("[");
            let head = text::trimmed_start(short);
            let longer = text::trimmed_start(line);
            if head.len() > 0 {
                assert(head.subrange(0, 1) =~= longer.subrange(0, 1));
            } else {
                text::nothing_left_is_all_space(short);
                assert(text::is_space(short[end]));
            }
            assert(line.skip(end + 1) =~= short.skip(end + 1).push('\r'));
            text::trimming_drops_a_last_space(short.skip(end + 1), '\r');
        } else {
            text::first_of_unique(line, ']', line.len() as int);
        }
    }
}

/// More text after a line break never withdraws a device that was already listed,
/// nor puts one before it.
pub proof fn longer_texts_list_more(a: Seq<char>, b: Seq<char>)
    ensures
        video_names(text::lines_of(a)).is_prefix_of(video_names(text::lines_of(a + "\n"@ + b))),
{
    reveal_strlit("\n");
    assert(a + "\n"@ + b =~= a.push('\n') + b);
    text::lines_split_at_a_feed(a, b);
    text::lines_of_an_ended_text(a);
    let short = text::lines_of(a);
    let ended = text::lines_of(a.push('\n'));
    let x = video_names(short);
    let y = video_names(ended);
    if ended == short.push(Seq::empty()) {
        listings_only_grow(short, seq![Seq::empty()]);
        assert(short + seq![Seq::empty()] =~= ended);
    } else {
        returns_say_nothing(short.last());
        assert(ended.drop_last() =~= short.drop_last());
        assert(ended.last() == text::without_return(short.last()));
        assert(y == x);
    }
    listings_only_grow(ended, text::lines_of(b));
    let z = video_names(ended + text::lines_of(b));
    assert(x =~= z.take(x.len() as int)) by {
        assert(x =~= y.take(x.len() as int));
        assert(y =~= z.take(y.len() as int));
    }
}

/// A text without a double quote lists no device.
pub proof fn devices_stand_in_quotes(s: Seq<char>)
    requires
        !s.contains('"'),
    ensures
        video_names(text::lines_of(s)) == Seq::<Seq<char>>::empty(),
{
    assert(text::lacks(s, '"'));
    text::lines_add_nothing(s, '"');
    unquoted_lines_list_nothing(text::lines_of(s));
}

proof fn unquoted_lines_list_nothing(lines: Seq<Seq<char>>)
    requires
        forall|i: int| 0 <= i < lines.len() ==> text::lacks(#[trigger] lines[i], '"'),
    ensures
        video_names(lines) == Seq::<Seq<char>>::empty(),
    decreases lines.len(),
{
    if lines.len() > 0 {
        let before = lines.drop_last();
        assert(forall|i: int| 0 <= i < before.len() ==> #[trigger] before[i] == lines[i]);
        unquoted_lines_list_nothing(before);
        let line = lines.last();
        assert(line == lines[lines.len() - 1]);
        let content = without_prefix(line);
        text::first_of_is_first(line, ']');
        assert forall|i: int| 0 <= i < content.len() implies #[trigger] content[i] != '"' by {
            if content != line {
                assert(content[i] == line[i + text::first_of(line, ']') + 1]);
            }
        }
        text::trimming_adds_nothing(content, '"');
        text::first_of_is_first(text::trimmed(content), '"');
        assert(quoted(text::trimmed(content)) is None);
    }
}

/// A line of the listing: a log prefix and what it says.
pub open spec fn logged(log: Seq<char>, content: Seq<char>) -> Seq<char> {
    "["@ + log + "] "@ + content
}

/// What a device is called in the listing: its name in quotes, and a tag.
pub open spec fn labelled(name: Seq<char>, tag: Seq<char>) -> Seq<char> {
    "\""@ + name + "\""@ + tag
}

/// A name in ASCII that could be a device's: some text without quotes, which does not
/// name a section of the listing.
pub open spec fn is_plain_name(name: Seq<char>, tag: Seq<char>) -> bool {
    &&& name.len() > 0
    &&& text::lacks(name, '"')
    &&& text::is_ascii_text(name)
    &&& !text::has_text(text::lowered(labelled(name, tag)), "directshow video devices"@)
    &&& !text::has_text(text::lowered(labelled(name, tag)), "directshow audio devices"@)
}

/// The log prefix of a line is dropped.
proof fn prefixes_are_dropped(log: Seq<char>, content: Seq<char>)
    requires
        text::lacks(log, ']'),
        content.len() > 0,
        !text::is_space(content[0]),
        !text::is_space(content.last()),
    ensures
        text::trimmed(without_prefix(logged(log, content))) == content,
{
    reveal_strlit("[");
    reveal_strlit("] ");
    let line = logged(log, content);
    let n = log.len() as int + 1;
    assert(line[n] == ']');
    assert forall|i: int| 0 <= i < n implies #[trigger] line[i] != ']' by {
        if i > 0 {
            assert(line[i] == log[i - 1]);
        }
    }
    text::first_of_unique(line, ']', n);
    text::trimmed_start_unique(line, 0);
    assert(line.skip(0) =~= line);
    assert(line.subrange(0, 1) =~= "["@);
    let s = line.skip(n + 1);
    assert(s[0] == ' ');
    assert(s[1] == content[0]);
    assert(s =~= seq![' '] + content);
    text::trimmed_start_unique(s, 1);
    assert(s.skip(1) =~= content);
    text::trimmed_end_unique(content, content.len() as int);
    assert(content.take(content.len() as int) =~= content);
}

/// A labelled device is read by its name, and its tag by how it ends.
#[verifier::spinoff_prover]
proof fn labels_are_read(name: Seq<char>, tag: Seq<char>)
    requires
        is_plain_name(name, tag),
        tag == " (video)"@ || tag == " (audio)"@ || tag == " (none)"@ || tag == ""@,
    ensures
        ({
            let content = labelled(name, tag);
            let lower = text::lowered(content);
            &&& content.len() > 0 && !text::is_space(content[0]) && !text::is_space(content.last())
            &&& quoted(content) == Some(name)
            &&& !text::begins_with(lower, "alternative name"@)
            &&& text::finishes_with(lower, "(video)"@) <==> tag == " (video)"@
            &&& text::finishes_with(lower, "(audio)"@) <==> tag == " (audio)"@
            &&& text::finishes_with(lower, "(none)"@) <==> tag == " (none)"@
        }),
{
    reveal_strlit("\"");
    reveal_strlit(" (video)");
    reveal_strlit(" (audio)");
    reveal_strlit(" (none)");
    reveal_strlit("");
    reveal_strlit("(video)");
    reveal_strlit("(audio)");
    reveal_strlit("(none)");
    reveal_strlit("alternative name");
    let content = labelled(name, tag);
    let lower = text::lowered(content);
    let n = name.len() as int + 1;
    assert(content[0] == '"' && content[n] == '"');
    assert(content.len() == n + 1 + tag.len());
    assert forall|i: int| 0 <= i < content.len() implies (#[trigger] content[i] as u32) < 128 by {
        if 0 < i < n {
            assert(content[i] == name[i - 1]);
        } else if n < i {
            assert(content[i] == tag[i - n - 1]);
        }
    }
    assert(lower =~= content.map_values(|c: char| text::ascii_lower(c)));
    text::first_of_unique(content, '"', 0);
    let rest = content.skip(1);
    assert forall|i: int| 0 <= i < name.len() implies #[trigger] rest[i] != '"' by {
        assert(rest[i] == name[i]);
    }
    assert(rest[name.len() as int] == '"');
    text::first_of_unique(rest, '"', name.len() as int);
    assert(rest.take(name.len() as int) =~= name);
    assert(lower[0] == '"');
    if text::begins_with(lower, "alternative name"@) {
        assert(lower.subrange(0, "alternative name"@.len() as int)[0] == lower[0]);
    }
    let len = lower.len() as int;
    assert forall|i: int| n < i < len implies #[trigger] lower[i] == text::ascii_lower(tag[i - n - 1]) by {
        assert(content[i] == tag[i - n - 1]);
    }
    if tag == " (video)"@ {
        assert(lower.subrange(len - 7, len) =~= "(video)"@);
        assert(lower[len - 2] == 'o' && lower[len - 3] == 'e');
    } else if tag == " (audio)"@ {
        assert(lower.subrange(len - 7, len) =~= "(audio)"@);
        assert(lower[len - 2] == 'o' && lower[len - 3] == 'i');
    } else if tag == " (none)"@ {
        assert(lower.subrange(len - 6, len) =~= "(none)"@);
        assert(lower[len - 2] == 'e');
    } else {
        assert(lower[len - 1] == '"');
    }
    if text::finishes_with(lower, "(video)"@) {
        let end = lower.subrange(len - 7, len);
        assert(end[6] == lower[len - 1] && end[5] == lower[len - 2] && end[4] == lower[len - 3]);
    }
    if text::finishes_with(lower, "(audio)"@) {
        let end = lower.subrange(len - 7, len);
        assert(end[6] == lower[len - 1] && end[5] == lower[len - 2] && end[4] == lower[len - 3]);
    }
    if text::finishes_with(lower, "(none)"@) {
        let end = lower.subrange(len - 6, len);
        assert(end[5] == lower[len - 1] && end[4] == lower[len - 2]);
    }
}

/// A device that is tagged as video is listed, wherever its line stands; one that is
/// tagged as audio or as nothing is not.
pub proof fn tags_decide(lines: Seq<Seq<char>>, log: Seq<char>, name: Seq<char>)
    requires
        text::lacks(log, ']'),
        is_plain_name(name, " (video)"@),
        is_plain_name(name, " (audio)"@),
        is_plain_name(name, " (none)"@),
    ensures
        video_names(lines.push(logged(log, labelled(name, " (video)"@)))).contains(name),
        video_names(lines.push(logged(log, labelled(name, " (audio)"@)))) == video_names(lines),
        video_names(lines.push(logged(log, labelled(name, " (none)"@)))) == video_names(lines),
{
    reveal_strlit(" (video)");
    reveal_strlit(" (audio)");
    reveal_strlit(" (none)");
    labels_are_read(name, " (video)"@);
    labels_are_read(name, " (audio)"@);
    labels_are_read(name, " (none)"@);
    prefixes_are_dropped(log, labelled(name, " (video)"@));
    prefixes_are_dropped(log, labelled(name, " (audio)"@));
    prefixes_are_dropped(log, labelled(name, " (none)"@));
    let found = video_names(lines);
    let line = logged(log, labelled(name, " (video)"@));
    assert(lines.push(line).drop_last() =~= lines);
    assert(lines.push(logged(log, labelled(name, " (audio)"@))).drop_last() =~= lines);
    assert(lines.push(logged(log, labelled(name, " (none)"@))).drop_last() =~= lines);
    let now = video_names(lines.push(line));
    assert(" (video)"@[2] == 'v' && " (audio)"@[2] == 'a' && " (none)"@[2] == 'n');
    assert(entry_of(logged(log, labelled(name, " (audio)"@))) == (Entry::Device { name, video: Some(false) }));
    assert(entry_of(logged(log, labelled(name, " (none)"@))) == (Entry::Device { name, video: Some(false) }));
    assert(entry_of(line) == (Entry::Device { name, video: Some(true) }));
    if !found.contains(name) {
        assert(now == found.push(name));
        assert(now[now.len() - 1] == name);
    }
}

/// A device without a tag is listed in the video section and not in the audio one.
/// The section of a header lasts until the next one.
#[verifier::spinoff_prover]
pub proof fn sections_decide_without_a_tag(lines: Seq<Seq<char>>, log: Seq<char>, name: Seq<char>, other: Seq<char>)
    requires
        text::lacks(log, ']'),
        is_plain_name(name, ""@),
        is_plain_name(other, ""@),
    ensures
        ({
            let video = lines.push(logged(log, "DirectShow video devices"@));
            let audio = lines.push(logged(log, "DirectShow audio devices"@));
            let plain = logged(log, labelled(name, ""@));
            let first = logged(log, labelled(other, ""@));
            &&& video_names(video.push(plain)).contains(name)
            &&& video_names(video.push(first).push(plain)).contains(name)
            &&& video_names(audio.push(plain)) == video_names(lines)
            &&& video_names(audio.push(first).push(plain)) == video_names(lines)
        }),
{
    reveal_strlit("");
    reveal_strlit(" (video)");
    reveal_strlit(" (audio)");
    reveal_strlit(" (none)");
    labels_are_read(name, ""@);
    labels_are_read(other, ""@);
    prefixes_are_dropped(log, labelled(name, ""@));
    prefixes_are_dropped(log, labelled(other, ""@));
    headers_are_read(log);
    let head = logged(log, "DirectShow video devices"@);
    let tail = logged(log, "DirectShow audio devices"@);
    let video = lines.push(head);
    let audio = lines.push(tail);
    let plain = logged(log, labelled(name, ""@));
    let first = logged(log, labelled(other, ""@));
    assert(entry_of(plain) == (Entry::Device { name, video: None }));
    assert(entry_of(first) == (Entry::Device { name: other, video: None }));
    assert(video.drop_last() =~= lines && video.last() == head);
    assert(audio.drop_last() =~= lines && audio.last() == tail);
    assert(video.push(plain).drop_last() =~= video);
    assert(video.push(first).drop_last() =~= video);
    assert(video.push(first).push(plain).drop_last() =~= video.push(first));
    assert(audio.push(plain).drop_last() =~= audio);
    assert(audio.push(first).drop_last() =~= audio);
    assert(audio.push(first).push(plain).drop_last() =~= audio.push(first));
    assert(in_video_section(video) && !in_video_section(audio));
    assert(in_video_section(video.push(first)) && !in_video_section(audio.push(first)));
    assert(video_names(audio) == video_names(lines));
    assert(video_names(audio.push(plain)) == video_names(audio));
    assert(video_names(audio.push(first)) == video_names(audio));
    assert(video_names(audio.push(first).push(plain)) == video_names(audio.push(first)));
    let one = video_names(video.push(plain));
    if !video_names(video).contains(name) {
        assert(one[one.len() - 1] == name);
    }
    let two = video_names(video.push(first).push(plain));
    if !video_names(video.push(first)).contains(name) {
        assert(two[two.len() - 1] == name);
    }
}

/// The headers of the listing are read as such.
#[verifier::spinoff_prover]
proof fn headers_are_read(log: Seq<char>)
    requires
        text::lacks(log, ']'),
    ensures
        entry_of(logged(log, "DirectShow video devices"@)) is VideoHeader,
        entry_of(logged(log, "DirectShow audio devices"@)) is AudioHeader,
{
    reveal_strlit("DirectShow video devices");
    reveal_strlit("DirectShow audio devices");
    reveal_strlit("directshow video devices");
    reveal_strlit("directshow audio devices");
    let v = "DirectShow video devices"@;
    let a = "DirectShow audio devices"@;
    prefixes_are_dropped(log, v);
    prefixes_are_dropped(log, a);
    assert(text::is_ascii_text(v) && text::is_ascii_text(a));
    assert(text::lowered(v) =~= "directshow video devices"@);
    assert(text::lowered(a) =~= "directshow audio devices"@);
    assert(text::lowered(v).subrange(0, 24) =~= "directshow video devices"@);
    assert(text::lowered(a).subrange(0, 24) =~= "directshow audio devices"@);
    assert(text::stands_at(text::lowered(v), "directshow video devices"@, 0));
    assert(text::stands_at(text::lowered(a), "directshow audio devices"@, 0));
    assert(!text::has_text(text::lowered(a), "directshow video devices"@)) by {
        let lower = text::lowered(a);
        assert forall|i: int| !(#[trigger] text::stands_at(lower, "directshow video devices"@, i)) by {
            if text::stands_at(lower, "directshow video devices"@, i) {
                assert(i == 0);
                assert(lower.subrange(0, 24)[11] == 'a');
            }
        }
    }
}

/// The alternative name of a device lists nothing.
#[verifier::spinoff_prover]
pub proof fn alternative_names_are_skipped(lines: Seq<Seq<char>>, log: Seq<char>, name: Seq<char>)
    requires
        text::lacks(log, ']'),
        text::is_ascii_text(name),
        !text::has_text(text::lowered("Alternative name \""@ + name + "\""@), "directshow video devices"@),
        !text::has_text(text::lowered("Alternative name \""@ + name + "\""@), "directshow audio devices"@),
    ensures
        video_names(lines.push(logged(log, "Alternative name \""@ + name + "\""@))) == video_names(lines),
{
    reveal_strlit("Alternative name \"");
    reveal_strlit("alternative name");
    reveal_strlit("\"");
    let content = "Alternative name \""@ + name + "\""@;
    let lower = text::lowered(content);
    assert(content[0] == 'A' && content.last() == '"');
    prefixes_are_dropped(log, content);
    assert forall|i: int| 0 <= i < content.len() implies (#[trigger] content[i] as u32) < 128 by {
        if 18 <= i < 18 + name.len() {
            assert(content[i] == name[i - 18]);
        }
    }
    assert(lower =~= content.map_values(|c: char| text::ascii_lower(c)));
    assert(lower.subrange(0, 16) =~= "alternative name"@);
    assert(lines.push(logged(log, content)).drop_last() =~= lines);
}

/// A device is listed also where its line has no log prefix, whatever brackets its name
/// holds.
pub proof fn prefixes_are_optional(lines: Seq<Seq<char>>, name: Seq<char>)
    requires
        is_plain_name(name, " (video)"@),
        is_plain_name(name, " (audio)"@),
    ensures
        video_names(lines.push(labelled(name, " (video)"@))).contains(name),
        video_names(lines.push(labelled(name, " (audio)"@))) == video_names(lines),
{
    reveal_strlit(" (video)");
    reveal_strlit(" (audio)");
    reveal_strlit(" (none)");
    reveal_strlit("[");
    reveal_strlit("\"");
    labels_are_read(name, " (video)"@);
    labels_are_read(name, " (audio)"@);
    assert(" (video)"@[2] == 'v' && " (audio)"@[2] == 'a' && " (none)"@[2] == 'n');
    unprefixed_lines_stay(labelled(name, " (video)"@));
    unprefixed_lines_stay(labelled(name, " (audio)"@));
    let line = labelled(name, " (video)"@);
    let found = video_names(lines);
    assert(lines.push(line).drop_last() =~= lines);
    assert(lines.push(labelled(name, " (audio)"@)).drop_last() =~= lines);
    assert(entry_of(labelled(name, " (audio)"@)) == (Entry::Device { name, video: Some(false) }));
    assert(entry_of(line) == (Entry::Device { name, video: Some(true) }));
    let now = video_names(lines.push(line));
    if !found.contains(name) {
        assert(now[now.len() - 1] == name);
    }
}

proof fn unprefixed_lines_stay(content: Seq<char>)
    requires
        content.len() > 0,
        content[0] == '"',
        !text::is_space(content.last()),
    ensures
        text::trimmed(without_prefix(content)) == content,
{
    reveal_strlit("[");
    text::trimmed_start_unique(content, 0);
    assert(content.skip(0) =~= content);
    if text::begins_with(content, "["@) {
        assert(content.subrange(0, 1)[0] == content[0]);
    }
    text::trimmed_end_unique(content, content.len() as int);
    assert(content.take(content.len() as int) =~= content);
}

} // verus!
