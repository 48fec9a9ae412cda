//! Local HLS preview of the encoded output feed.
//!
//! The encoder's real output is SRT MPEG-TS (or ST 2110 RTP), neither of which a
//! WebView `<video>` element can play. To let an operator watch what is actually
//! going out, the SRT FFmpeg process tees its already-encoded packets into a
//! rolling HLS playlist on disk (no re-encode), and a tiny localhost HTTP server
//! serves that playlist to the preview window. This module holds the state of the
//! preview and decides what the server serves.

use vstd::prelude::*;
use vstd::string::*;

use crate::text;

verus! {

/// Relative playlist filename FFmpeg writes into the preview directory. Kept
/// relative (no drive letter / backslashes) so it needs no escaping in the
/// FFmpeg `tee` output spec; the child process runs with its working directory
/// set to the preview directory.
pub const PLAYLIST_NAME: &'static str = "preview.m3u8";

/// Snapshot the preview window polls to decide what to show.
#[derive(Debug, Clone)]
pub struct PreviewStatus {
    /// True when an HLS playlist is being produced and can be loaded now.
    pub available: bool,
    /// `http://127.0.0.1:<port>/preview.m3u8` when available.
    pub url: Option<String>,
    /// Human-readable explanation when not available (idle / unsupported).
    pub reason: Option<String>,
}

/// A status with its strings as characters.
pub struct StatusView {
    pub available: bool,
    pub url: Option<Seq<char>>,
    pub reason: Option<Seq<char>>,
}

impl View for PreviewStatus {
    type V = StatusView;

    open spec fn view(&self) -> StatusView {
        StatusView {
            available: self.available,
            url: text::opt_text(self.url),
            reason: text::opt_text(self.reason),
        }
    }
}

/// Owns the preview directory, the port of the localhost HLS server and the
/// state of the preview.
#[derive(Debug, Clone)]
pub struct PreviewManager {
    dir: String,
    server_port: Option<u16>,
    /// A stream that writes the HLS preview is active.
    active: bool,
    /// Explanation shown when preview is not available.
    note: Option<String>,
}

/// What a preview manager knows.
pub struct ManagerView {
    pub dir: Seq<char>,
    pub server_port: Option<u16>,
    pub active: bool,
    pub note: Option<Seq<char>>,
}

impl View for PreviewManager {
    type V = ManagerView;

    closed spec fn view(&self) -> ManagerView {
        ManagerView {
            dir: self.dir@,
            server_port: self.server_port,
            active: self.active,
            note: text::opt_text(self.note),
        }
    }
}

/// What happens to a preview.
pub enum PreviewEvent {
    /// The preview was prepared for a session: the server runs, and was started on
    /// this port if it did not run before.
    ServerStarted { port: u16 },
    SetActive { active: bool },
    BeginUnsupported { note: Seq<char> },
    End,
}

impl ManagerView {
    /// The preview before anything happened.
    pub open spec fn initial(dir: Seq<char>) -> ManagerView {
        ManagerView { dir, server_port: None, active: false, note: None }
    }

    /// The preview after an event. The first start of the server counts.
    pub open spec fn after(self, event: PreviewEvent) -> ManagerView {
        match event {
            PreviewEvent::ServerStarted { port } => ManagerView {
                server_port: match self.server_port {
                    Some(first) => Some(first),
                    None => Some(port),
                },
                ..self
            },
            PreviewEvent::SetActive { active } => ManagerView {
                active,
                note: if active {
                    None
                } else {
                    self.note
                },
                ..self
            },
            PreviewEvent::BeginUnsupported { note } => ManagerView {
                active: false,
                note: Some(note),
                ..self
            },
            PreviewEvent::End => ManagerView { active: false, note: None, ..self },
        }
    }

    /// The preview after a run of events.
    pub open spec fn after_all(self, events: Seq<PreviewEvent>) -> ManagerView
        decreases events.len(),
    {
        if events.len() == 0 {
            self
        } else {
            self.after_all(events.drop_last()).after(events.last())
        }
    }

    /// What the preview window is told.
    pub open spec fn status(self) -> StatusView {
        match self.server_port {
            Some(port) if self.active => StatusView {
                available: true,
                url: Some(
                    "http://127.0.0.1:"@ + text::decimal(port as nat) + "/"@ + PLAYLIST_NAME@,
                ),
                reason: None,
            },
            _ => StatusView {
                available: false,
                url: None,
                reason: Some(
                    match self.note {
                        Some(note) => note,
                        None => "Start an SRT stream to preview the encoded output."@,
                    },
                ),
            },
        }
    }
}

impl PreviewManager {
    pub fn new(dir: String) -> (r: Self)
        ensures
            r@ == ManagerView::initial(dir@),
    {
        PreviewManager { dir, server_port: None, active: false, note: None }
    }

    /// The directory that FFmpeg must use as its working directory.
    pub fn dir(&self) -> (r: &str)
        ensures
            r@ == self@.dir,
    {
        self.dir.as_str()
    }

    /// Whether the static file server is yet to be started. It is started once.
    pub fn needs_server(&self) -> (r: bool)
        ensures
            r == (self@.server_port is None),
    {
        self.server_port.is_none()
    }

    /// The static file server was started on a port; the first start counts.
    pub fn server_started(&mut self, port: u16)
        ensures
            final(self)@ == old(self)@.after(PreviewEvent::ServerStarted { port }),
    {
        if self.server_port.is_none() {
            self.server_port = Some(port);
        }
    }

    /// Flip the preview between the active (streaming) and idle states. When
    /// active the "waiting" note is cleared so `status` returns the live URL.
    pub fn set_active(&mut self, active: bool)
        ensures
            final(self)@ == old(self)@.after(PreviewEvent::SetActive { active }),
    {
        self.active = active;
        if active {
            self.note = None;
        }
    }

    /// Mark preview unavailable for a transport that cannot be previewed in-app
    /// yet (e.g. ST 2110), with an explanation for the window.
    pub fn begin_unsupported(&mut self, note: String)
        ensures
            final(self)@ == old(self)@.after(PreviewEvent::BeginUnsupported { note: note@ }),
    {
        self.active = false;
        self.note = Some(note);
    }

    /// A stream stopped; preview goes back to the idle "waiting" state.
    pub fn end(&mut self)
        ensures
            final(self)@ == old(self)@.after(PreviewEvent::End),
    {
        self.active = false;
        self.note = None;
    }

    pub fn status(&self) -> (r: PreviewStatus)
        ensures
            r@ == self@.status(),
    {
        match self.server_port {
            Some(port) if self.active => PreviewStatus {
                available: true,
                url: Some(
                    "http://127.0.0.1:".to_string().concat(text::number(port as u64).as_str()).concat(
                        "/",
                    ).concat(PLAYLIST_NAME),
                ),
                reason: None,
            },
            _ => PreviewStatus {
                available: false,
                url: None,
                reason: Some(
                    match &self.note {
                        Some(note) => note.clone(),
                        None => "Start an SRT stream to preview the encoded output.".to_string(),
                    },
                ),
            },
        }
    }
}

/// `s` with its ASCII capitals as small letters.
pub open spec fn folded(s: Seq<char>) -> Seq<char> {
    s.map_values(|c: char| text::ascii_lower(c))
}

fn same_letter(a: char, b: char) -> (r: bool)
    ensures
        r == (text::ascii_lower(a) == text::ascii_lower(b)),
{
    let x: u32 = if 'A' <= a && a <= 'Z' {
        a as u32 + 32
    } else {
        a as u32
    };
    let y: u32 = if 'A' <= b && b <= 'Z' {
        b as u32 + 32
    } else {
        b as u32
    };
    x == y
}

/// Whether two texts are the same in any ASCII letter case.
fn same_folded(a: &str, b: &str) -> (r: bool)
    ensures
        r == (folded(a@) == folded(b@)),
{
    let x = text::chars_of(a);
    let y = text::chars_of(b);
    let n: usize = x.len();
    if n != y.len() {
        assert(folded(a@).len() != folded(b@).len());
        return false;
    }
    for i in 0..n
        invariant
            x@ == a@,
            y@ == b@,
            n == a@.len(),
            n == b@.len(),
            forall|j: int| 0 <= j < i ==> (#[trigger] folded(a@)[j]) == folded(b@)[j],
    {
        if !same_letter(x[i], y[i]) {
            assert(folded(a@)[i as int] != folded(b@)[i as int]);
            return false;
        }
        assert(folded(a@)[i as int] == folded(b@)[i as int]);
    }
    assert(folded(a@) =~= folded(b@));
    true
}

/// A file of this extension is left over from an earlier session.
pub open spec fn is_leftover(extension: Seq<char>) -> bool {
    folded(extension) == folded("ts"@) || folded(extension) == folded("m3u8"@)
}

/// Whether a file of this extension is removed so a new session starts clean.
pub fn is_stale(extension: &str) -> (r: bool)
    ensures
        r == is_leftover(extension@),
{
    same_folded(extension, "ts") || same_folded(extension, "m3u8")
}

/// The file that an HTTP request asks for: the path of a GET request line,
/// without its query and its leading slashes.
pub open spec fn target_of(request: Seq<char>) -> Option<Seq<char>> {
    let lines = text::lines_of(request);
    if lines.len() == 0 {
        None
    } else {
        let words = text::words_of(lines[0]);
        if words.len() >= 2 && words[0] == "GET"@ {
            Some(text::without_leading(words[1].take(text::first_of(words[1], '?')), '/'))
        } else {
            None
        }
    }
}

/// Extract the requested path from the HTTP request line, e.g.
/// `GET /preview.m3u8?_=123 HTTP/1.1` -> `preview.m3u8`.
pub fn parse_request_target(request: &str) -> (r: Option<String>)
    ensures
        text::opt_text(r) == target_of(request@),
{
    let lines = text::lines(request);
    assert(text::texts(lines@).len() == lines@.len());
    if lines.len() == 0 {
        return None;
    }
    assert(text::texts(lines@)[0] == lines@[0]@);
    let words = text::words(lines[0].as_str());
    assert(text::texts(words@).len() == words@.len());
    if words.len() < 2 {
        return None;
    }
    assert(text::texts(words@)[0] == words@[0]@);
    assert(text::texts(words@)[1] == words@[1]@);
    if !text::same_text(words[0].as_str(), "GET") {
        return None;
    }
    let target = words[1].as_str();
    let chars = text::chars_of(target);
    let end: usize = text::find_from(&chars, '?', 0);
    proof {
        assert(target@.skip(0) =~= target@);
        assert(target@.subrange(0, end as int) =~= target@.take(end as int));
    }
    Some(text::trim_leading(target.substring_char(0, end), '/').to_string())
}

/// The content type that a file is served as. Only the flat playlist and `.ts`
/// segments in the preview directory are ever served.
pub open spec fn content_type(name: Seq<char>) -> Option<Seq<char>> {
    if name.len() == 0 || text::has_text(name, "/"@) || text::has_text(name, "\\"@) || text::has_text(
        name,
        ".."@,
    ) {
        None
    } else if text::finishes_with(name, ".m3u8"@) {
        Some("application/vnd.apple.mpegurl"@)
    } else if text::finishes_with(name, ".ts"@) {
        Some("video/mp2t"@)
    } else {
        None
    }
}

/// Validate the requested filename and map it to a content type. Only the flat
/// playlist and `.ts` segments in the preview directory are ever served; any
/// path separator or traversal is rejected.
pub fn resolve_file(name: String) -> (r: Option<(String, &'static str)>)
    ensures
        match r {
            Some((file, kind)) => file@ == name@ && content_type(name@) == Some(kind@),
            None => content_type(name@) is None,
        },
{
    let s = name.as_str();
    if s.unicode_len() == 0 || text::contains(s, "/") || text::contains(s, "\\") || text::contains(
        s,
        "..",
    ) {
        return None;
    }
    if text::ends_with(s, ".m3u8") {
        Some((name, "application/vnd.apple.mpegurl"))
    } else if text::ends_with(s, ".ts") {
        Some((name, "video/mp2t"))
    } else {
        None
    }
}

/// What is served for a request: the file and its content type, or nothing.
pub fn requested_file(request: &str) -> (r: Option<(String, &'static str)>)
    ensures
        match target_of(request@) {
            Some(name) => match r {
                Some((file, kind)) => file@ == name && content_type(name) == Some(kind@),
                None => content_type(name) is None,
            },
            None => r is None,
        },
{
    match parse_request_target(request) {
        Some(name) => resolve_file(name),
        None => None,
    }
}

/// The header block of a response.
pub open spec fn header_of(status: Seq<char>, kind: Seq<char>, length: u64) -> Seq<char> {
    "HTTP/1.1 "@ + status + "\r\nContent-Type: "@ + kind + "\r\nContent-Length: "@ + text::decimal(
        length as nat,
    )
        + "\r\nCache-Control: no-cache, no-store, must-revalidate\r\nAccess-Control-Allow-Origin: *\r\nConnection: close\r\n\r\n"@
}

pub fn response_header(status: &str, kind: &str, length: u64) -> (r: String)
    ensures
        r@ == header_of(status@, kind@, length),
{
    "HTTP/1.1 ".to_string().concat(status).concat("\r\nContent-Type: ").concat(kind).concat(
        "\r\nContent-Length: ",
    ).concat(text::number(length).as_str()).concat(
        "\r\nCache-Control: no-cache, no-store, must-revalidate\r\nAccess-Control-Allow-Origin: *\r\nConnection: close\r\n\r\n",
    )
}

/// Whatever is asked for, what is served is a playlist or a segment that lies
/// flat in the preview directory: its name holds no separator and no `..`.
pub proof fn served_files_are_flat(name: Seq<char>)
    requires
        content_type(name) is Some,
    ensures
        name.len() > 0,
        !name.contains('/'),
        !name.contains('\\'),
        !text::has_text(name, ".."@),
        text::finishes_with(name, ".m3u8"@) || text::finishes_with(name, ".ts"@),
{
    reveal_strlit("/");
    reveal_strlit("\\");
    if name.contains('/') {
        let i = name.index_of('/');
        assert(name.subrange(i, i + 1) =~= "/"@);
        assert(text::stands_at(name, "/"@, i));
    }
    if name.contains('\\') {
        let i = name.index_of('\\');
        assert(name.subrange(i, i + 1) =~= "\\"@);
        assert(text::stands_at(name, "\\"@, i));
    }
}

/// The preview is available exactly while a stream writes it and the server runs,
/// and only then has it a URL; otherwise there is a reason.
pub proof fn preview_has_url_or_reason(m: ManagerView)
    ensures
        m.status().available == (m.active && m.server_port is Some),
        m.status().url is Some <==> m.status().available,
        m.status().reason is Some <==> !m.status().available,
{
}

/// The server was started at some point.
pub open spec fn was_served(events: Seq<PreviewEvent>) -> bool {
    exists|i: int| 0 <= i < events.len() && (#[trigger] events[i]) is ServerStarted
}

/// The last of the calls that change the preview's state made it active.
pub open spec fn was_last_activated(events: Seq<PreviewEvent>) -> bool {
    exists|i: int|
        0 <= i < events.len() && #[trigger] events[i] == (PreviewEvent::SetActive { active: true })
            && forall|j: int| i < j < events.len() ==> (#[trigger] events[j]) is ServerStarted
}

/// The port of the first start of the server.
pub open spec fn first_port(events: Seq<PreviewEvent>) -> Option<u16>
    decreases events.len(),
{
    if events.len() == 0 {
        None
    } else {
        match events[0] {
            PreviewEvent::ServerStarted { port } => Some(port),
            _ => first_port(events.drop_first()),
        }
    }
}

/// Whatever has happened to a preview, it is available exactly if its server was
/// started and the last change of state made it active. It then has the URL of the
/// playlist at the server's first port and no reason; otherwise it has a reason and
/// no URL.
pub proof fn preview_is_available_when_served_and_active(dir: Seq<char>, events: Seq<PreviewEvent>)
    ensures
        ({
            let m = ManagerView::initial(dir).after_all(events);
            let status = m.status();
            &&& status.available <==> was_served(events) && was_last_activated(events)
            &&& status.url is Some <==> status.available
            &&& status.reason is None <==> status.available
            &&& was_served(events) <==> first_port(events) is Some
            &&& status.available ==> status.url == Some(
                "http://127.0.0.1:"@ + text::decimal(first_port(events)->0 as nat) + "/preview.m3u8"@,
            )
        }),
{
    histories_fix_the_state(dir, events);
    reveal_strlit("/");
    reveal_strlit("preview.m3u8");
    reveal_strlit("/preview.m3u8");
    if first_port(events) is Some {
        let host = "http://127.0.0.1:"@ + text::decimal(first_port(events)->0 as nat);
        assert(host + "/"@ + PLAYLIST_NAME@ =~= host + "/preview.m3u8"@);
    }
}

proof fn histories_fix_the_state(dir: Seq<char>, events: Seq<PreviewEvent>)
    ensures
        ({
            let m = ManagerView::initial(dir).after_all(events);
            &&& m.server_port == first_port(events)
            &&& was_served(events) <==> first_port(events) is Some
            &&& m.active <==> was_last_activated(events)
        }),
    decreases events.len(),
{
    if events.len() > 0 {
        let before = events.drop_last();
        let last = events.last();
        let end = events.len() - 1;
        histories_fix_the_state(dir, before);
        assert(before.push(last) =~= events);
        first_port_of_longer(before, last);
        assert(forall|i: int| 0 <= i < before.len() ==> #[trigger] before[i] == events[i]);
        if was_served(before) {
            let i = choose|i: int| 0 <= i < before.len() && (#[trigger] before[i]) is ServerStarted;
            assert(events[i] is ServerStarted);
        }
        if last is ServerStarted {
            assert(events[end] is ServerStarted);
        }
        if was_served(events) {
            let i = choose|i: int| 0 <= i < events.len() && (#[trigger] events[i]) is ServerStarted;
            if i < end {
                assert(before[i] is ServerStarted);
            }
        }
        let on = PreviewEvent::SetActive { active: true };
        if was_last_activated(events) {
            let i = choose|i: int|
                0 <= i < events.len() && #[trigger] events[i] == on && forall|j: int|
                    i < j < events.len() ==> (#[trigger] events[j]) is ServerStarted;
            if i < end {
                assert(events[end] is ServerStarted);
                assert(before[i] == on);
            }
        }
        if last is ServerStarted && was_last_activated(before) {
            let i = choose|i: int|
                0 <= i < before.len() && #[trigger] before[i] == on && forall|j: int|
                    i < j < before.len() ==> (#[trigger] before[j]) is ServerStarted;
            assert(events[i] == on);
            assert forall|j: int| i < j < events.len() implies (#[trigger] events[j]) is ServerStarted by {
                if j < end {
                    assert(before[j] is ServerStarted);
                }
            }
        }
        if last == on {
            assert(events[end] == on);
        }
    }
}

proof fn first_port_of_longer(events: Seq<PreviewEvent>, last: PreviewEvent)
    ensures
        first_port(events.push(last)) == (match first_port(events) {
            Some(port) => Some(port),
            None => match last {
                PreviewEvent::ServerStarted { port } => Some(port),
                _ => None,
            },
        }),
    decreases events.len(),
{
    let longer = events.push(last);
    if events.len() == 0 {
        assert(longer.drop_first() =~= Seq::empty());
        assert(first_port(Seq::empty()) is None);
    } else {
        assert(longer.drop_first() =~= events.drop_first().push(last));
        first_port_of_longer(events.drop_first(), last);
    }
}

/// A transport that cannot be previewed says why, until a stream that can be is live
/// or the stream ends; a preview that ended has nothing more to say of it.
pub proof fn unsupported_transports_say_why(m: ManagerView, note: Seq<char>, port: u16)
    ensures
        ({
            let why = m.after(PreviewEvent::BeginUnsupported { note });
            &&& why.status().reason == Some(note)
            &&& why.after(PreviewEvent::ServerStarted { port }).status().reason == Some(note)
            &&& why.after(PreviewEvent::SetActive { active: false }).status().reason == Some(note)
            &&& why.after(PreviewEvent::SetActive { active: true }).after(
                PreviewEvent::SetActive { active: false },
            ).status() == m.after(PreviewEvent::End).status()
            &&& why.after(PreviewEvent::End) == m.after(PreviewEvent::End)
            &&& m.after(PreviewEvent::ServerStarted { port }).dir == m.dir
            &&& why.dir == m.dir
        }),
{
}

/// The file that a GET request names is the one that is looked for, whatever query and
/// version follow it; another method asks for nothing.
#[verifier::rlimit(60)]
#[verifier::spinoff_prover]
pub proof fn requests_are_read(
    method: Seq<char>,
    name: Seq<char>,
    query: Seq<char>,
    version: Seq<char>,
    rest: Seq<char>,
)
    requires
        method.len() > 0,
        forall|i: int| 0 <= i < method.len() ==> !text::is_space(#[trigger] method[i]),
        forall|i: int| 0 <= i < name.len() ==> !text::is_space(#[trigger] name[i]),
        forall|i: int| 0 <= i < query.len() ==> !text::is_space(#[trigger] query[i]),
        text::lacks(name, '?'),
        name.len() > 0 ==> name[0] != '/',
        text::lacks(version, '\n'),
    ensures
        ({
            let request = method + " /"@ + name + "?"@ + query + " "@ + version + "\r\n"@ + rest;
            target_of(request) == if method == "GET"@ {
                Some(name)
            } else {
                None
            }
        }),
{
    reveal_strlit(" /");
    reveal_strlit("?");
    reveal_strlit(" ");
    let gap = seq![' '];
    let path = seq!['/'] + name + "?"@ + query;
    let line = method + gap + (path + gap + version);
    let request = method + " /"@ + name + "?"@ + query + " "@ + version + "\r\n"@ + rest;
    assert(" /"@ =~= gap + seq!['/']);
    assert(" "@ =~= gap);
    assert(method + " /"@ + name + "?"@ + query + " "@ + version =~= line);
    assert(request =~= line + "\r\n"@ + rest);
    assert forall|i: int| 0 <= i < path.len() implies !text::is_space(#[trigger] path[i]) by {
        if 0 < i <= name.len() {
            assert(path[i] == name[i - 1]);
        } else if i > name.len() + 1 {
            assert(path[i] == query[i - name.len() - 2]);
        }
    }
    assert forall|i: int| 0 <= i < line.len() implies #[trigger] line[i] != '\n' by {
        let n = method.len() as int;
        let m = n + 1 + path.len();
        if i < n {
            assert(line[i] == method[i]);
        } else if n < i < m {
            assert(line[i] == path[i - n - 1]);
        } else if m < i {
            assert(line[i] == version[i - m - 1]);
        }
    }
    text::first_line_is_read(line, rest);
    assert(text::lines_of(request)[0] == line);
    text::words_are_parted(method, ' ', path + gap + version);
    text::words_are_parted(path, ' ', version);
    let none = Seq::<char>::empty();
    text::lone_words_are_read(method, none);
    text::lone_words_are_read(path, none);
    assert(method + none =~= method);
    assert(path + none =~= path);
    let words = text::words_of(line);
    assert(words == seq![method] + (seq![path] + text::words_of(version)));
    assert(words[0] == method && words[1] == path);
    // The query is cut off, and the slash with it.
    let n = name.len() as int + 1;
    assert(path[n] == '?');
    assert forall|i: int| 0 <= i < n implies #[trigger] path[i] != '?' by {
        if i > 0 {
            assert(path[i] == name[i - 1]);
        }
    }
    text::first_of_unique(path, '?', n);
    let cut = path.take(n);
    assert(cut =~= seq!['/'] + name);
    assert(cut.drop_first() =~= name);
    assert(text::without_leading(name, '/') == name);
    assert(text::without_leading(cut, '/') == name);
}

/// Playlists and segments are served as what they are, and nothing else is served.
pub proof fn files_are_served_as_what_they_are(stem: Seq<char>, ending: Seq<char>)
    requires
        stem.len() > 0,
        text::lacks(stem, '/') && text::lacks(stem, '\\') && text::lacks(stem, '.'),
        text::lacks(ending, '.'),
    ensures
        content_type(stem + ".m3u8"@) == Some("application/vnd.apple.mpegurl"@),
        content_type(stem + ".ts"@) == Some("video/mp2t"@),
        ending != "m3u8"@ && ending != "ts"@ ==> content_type(stem + "."@ + ending) is None,
{
    reveal_strlit("/");
    reveal_strlit("\\");
    reveal_strlit("..");
    reveal_strlit(".");
    reveal_strlit(".m3u8");
    reveal_strlit("m3u8");
    reveal_strlit(".ts");
    reveal_strlit("ts");
    let list = stem + ".m3u8"@;
    let segment = stem + ".ts"@;
    let other = stem + "."@ + ending;
    text::both_lack(stem, ".m3u8"@, '/');
    text::both_lack(stem, ".m3u8"@, '\\');
    text::both_lack(stem, ".ts"@, '/');
    text::both_lack(stem, ".ts"@, '\\');
    flat_names_are_flat(stem, list);
    flat_names_are_flat(stem, segment);
    let n = stem.len() as int;
    assert(list.subrange(n, n + 5) =~= ".m3u8"@);
    assert(segment.subrange(n, n + 3) =~= ".ts"@);
    if text::finishes_with(segment, ".m3u8"@) {
        assert(segment.subrange(n + 3 - 5, n + 3)[4] == segment[n + 2]);
    }
    if text::finishes_with(other, ".m3u8"@) {
        let end = other.subrange(other.len() - 5, other.len() as int);
        assert(end[0] == '.' && end[0] == other[other.len() - 5]);
        assert(other.len() - 5 == n) by {
            if other.len() - 5 < n {
                assert(other[other.len() - 5] == stem[other.len() - 5]);
            } else if other.len() - 5 > n {
                assert(other[other.len() - 5] == ending[other.len() - 5 - n - 1]);
            }
        }
        assert(ending =~= "m3u8"@) by {
            assert forall|i: int| 0 <= i < 4 implies ending[i] == "m3u8"@[i] by {
                assert(end[i + 1] == other[n + 1 + i]);
                assert(".m3u8"@[i + 1] == "m3u8"@[i]);
            }
        }
    }
    if text::finishes_with(other, ".ts"@) {
        let end = other.subrange(other.len() - 3, other.len() as int);
        assert(end[0] == '.' && end[0] == other[other.len() - 3]);
        assert(other.len() - 3 == n) by {
            if other.len() - 3 < n {
                assert(other[other.len() - 3] == stem[other.len() - 3]);
            } else if other.len() - 3 > n {
                assert(other[other.len() - 3] == ending[other.len() - 3 - n - 1]);
            }
        }
        assert(ending =~= "ts"@) by {
            assert forall|i: int| 0 <= i < 2 implies ending[i] == "ts"@[i] by {
                assert(end[i + 1] == other[n + 1 + i]);
                assert(".ts"@[i + 1] == "ts"@[i]);
            }
        }
    }
}

/// A name with one dot and no separator passes as flat.
proof fn flat_names_are_flat(stem: Seq<char>, name: Seq<char>)
    requires
        text::lacks(name, '/') && text::lacks(name, '\\'),
        stem.len() < name.len(),
        forall|i: int| 0 <= i < name.len() && i != stem.len() ==> #[trigger] name[i] != '.',
    ensures
        !text::has_text(name, "/"@),
        !text::has_text(name, "\\"@),
        !text::has_text(name, ".."@),
{
    reveal_strlit("/");
    reveal_strlit("\\");
    reveal_strlit("..");
    assert forall|i: int| !(#[trigger] text::stands_at(name, "/"@, i)) by {
        if text::stands_at(name, "/"@, i) {
            assert(name.subrange(i, i + 1)[0] == name[i]);
        }
    }
    assert forall|i: int| !(#[trigger] text::stands_at(name, "\\"@, i)) by {
        if text::stands_at(name, "\\"@, i) {
            assert(name.subrange(i, i + 1)[0] == name[i]);
        }
    }
    assert forall|i: int| !(#[trigger] text::stands_at(name, ".."@, i)) by {
        if text::stands_at(name, ".."@, i) {
            assert(name.subrange(i, i + 2)[0] == name[i]);
            assert(name.subrange(i, i + 2)[1] == name[i + 1]);
        }
    }
}

/// The header of a response says what comes and how long it is, and that it is not to
/// be kept; a blank line ends it.
#[verifier::rlimit(60)]
#[verifier::spinoff_prover]
pub proof fn headers_say_what_comes(status: Seq<char>, kind: Seq<char>, length: u64)
    requires
        text::lacks(status, '\n'),
        text::lacks(kind, '\n'),
    ensures
        text::lines_of(header_of(status, kind, length)) == seq![
            "HTTP/1.1 "@ + status,
            "Content-Type: "@ + kind,
            "Content-Length: "@ + text::decimal(length as nat),
            "Cache-Control: no-cache, no-store, must-revalidate"@,
            "Access-Control-Allow-Origin: *"@,
            "Connection: close"@,
            Seq::empty(),
        ],
{
    let e = "\r\n"@;
    let c = '\n';
    reveal_strlit("\r\n");
    reveal_strlit("HTTP/1.1 ");
    reveal_strlit("Content-Type: ");
    reveal_strlit("\r\nContent-Type: ");
    reveal_strlit("Content-Length: ");
    reveal_strlit("\r\nContent-Length: ");
    reveal_strlit("Cache-Control: no-cache, no-store, must-revalidate");
    reveal_strlit("Access-Control-Allow-Origin: *");
    reveal_strlit("Connection: close");
    reveal_strlit(
        "\r\nCache-Control: no-cache, no-store, must-revalidate\r\nAccess-Control-Allow-Origin: *\r\nConnection: close\r\n\r\n",
    );
    let n = text::decimal(length as nat);
    let l1 = "HTTP/1.1 "@ + status;
    let l2 = "Content-Type: "@ + kind;
    let l3 = "Content-Length: "@ + n;
    let l4 = "Cache-Control: no-cache, no-store, must-revalidate"@;
    let l5 = "Access-Control-Allow-Origin: *"@;
    let l6 = "Connection: close"@;
    let none = Seq::<char>::empty();
    text::decimals_lack(length as nat, c);
    text::both_lack("HTTP/1.1 "@, status, c);
    text::both_lack("Content-Type: "@, kind, c);
    text::both_lack("Content-Length: "@, n, c);
    let t7 = none + e + none;
    let t6 = l6 + e + t7;
    let t5 = l5 + e + t6;
    let t4 = l4 + e + t5;
    let t3 = l3 + e + t4;
    let t2 = l2 + e + t3;
    let t1 = l1 + e + t2;
    text::first_line_is_read(none, none);
    text::first_line_is_read(l6, t7);
    text::first_line_is_read(l5, t6);
    text::first_line_is_read(l4, t5);
    text::first_line_is_read(l3, t4);
    text::first_line_is_read(l2, t3);
    text::first_line_is_read(l1, t2);
    assert(text::lines_of(none) =~= Seq::empty());
    let tail =
        "\r\nCache-Control: no-cache, no-store, must-revalidate\r\nAccess-Control-Allow-Origin: *\r\nConnection: close\r\n\r\n"@;
    assert(tail =~= e + t4);
    assert("\r\nContent-Type: "@ =~= e + "Content-Type: "@);
    assert("\r\nContent-Length: "@ =~= e + "Content-Length: "@);
    assert(header_of(status, kind, length) =~= t1);
    assert(text::lines_of(t1) =~= seq![l1, l2, l3, l4, l5, l6, none]);
}

/// What an earlier session left is known by its extension, in any letter case: those of
/// a segment and of a playlist, and no other.
pub proof fn leftovers_are_known_in_any_case(extension: Seq<char>)
    ensures
        is_leftover(extension) <==> (extension.len() == 2 && (extension[0] == 't' || extension[0] == 'T') && (
        extension[1] == 's' || extension[1] == 'S')) || (extension.len() == 4 && (extension[0] == 'm'
            || extension[0] == 'M') && extension[1] == '3' && (extension[2] == 'u' || extension[2] == 'U')
            && extension[3] == '8'),
{
    reveal_strlit("ts");
    reveal_strlit("m3u8");
    let f = folded(extension);
    assert(forall|i: int| 0 <= i < extension.len() ==> #[trigger] f[i] == text::ascii_lower(extension[i]));
    let ts = folded("ts"@);
    let m3u8 = folded("m3u8"@);
    assert(ts.len() == 2 && ts[0] == 't' && ts[1] == 's');
    assert(m3u8.len() == 4 && m3u8[0] == 'm' && m3u8[1] == '3' && m3u8[2] == 'u' && m3u8[3] == '8');
    if extension.len() == 2 {
        if f[0] == 't' && f[1] == 's' {
            assert(f =~= ts);
        }
        if f == ts {
            assert(f[0] == 't' && f[1] == 's');
        }
    } else if extension.len() == 4 {
        if f[0] == 'm' && f[1] == '3' && f[2] == 'u' && f[3] == '8' {
            assert(f =~= m3u8);
        }
        if f == m3u8 {
            assert(f[0] == 'm' && f[1] == '3' && f[2] == 'u' && f[3] == '8');
        }
    }
}

} // verus!
