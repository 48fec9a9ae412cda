//! SRT URL construction (caller and listener).
//!
//! Galahad Encoder can either *call* the matrix (the classic uplink: we connect
//! to an operator-supplied host + port) or *listen* (we bind a port and wait for
//! a caller to pull the feed from us). Listener mode is handy when the encoder
//! sits behind a known/forwarded address and the far side initiates the pull;
//! the player just hands the caller their IP + port.

use vstd::prelude::*;
use vstd::string::*;

use crate::error;
use crate::error::EncoderError;
use crate::error::ErrorView;
use crate::error::Result;
use crate::text;

verus! {

/// Default SRT live latency in milliseconds.
pub const DEFAULT_LATENCY_MS: u32 = 200;

/// MPEG-TS packet payload size recommended for SRT (7 * 188).
pub const SRT_PKT_SIZE: u32 = 1316;

/// Which side of the SRT handshake this encoder plays.
#[derive(Debug, Clone, Copy, PartialEq, Eq, Structural)]
pub enum SrtMode {
    /// We connect out to `host:port` (default uplink behaviour).
    Caller,
    /// We bind `port` and wait for a caller to connect and pull the feed.
    Listener,
}

impl Default for SrtMode {
    fn default() -> (r: Self)
        ensures
            r == SrtMode::Caller,
    {
        SrtMode::Caller
    }
}

impl SrtMode {
    /// The mode as SRT URLs name it.
    pub open spec fn url_mode(self) -> Seq<char> {
        match self {
            SrtMode::Caller => "caller"@,
            SrtMode::Listener => "listener"@,
        }
    }

    fn as_url_mode(&self) -> (r: &'static str)
        ensures
            r@ == self.url_mode(),
    {
        match self {
            SrtMode::Caller => "caller",
            SrtMode::Listener => "listener",
        }
    }
}

/// A validated SRT destination (caller) or bind target (listener).
#[derive(Debug, PartialEq, Eq)]
pub struct SrtDestination {
    /// In caller mode: the remote host to connect to. In listener mode: an
    /// advisory address (the IP the player shares with the caller); the actual
    /// bind is always `0.0.0.0` so any interface can accept the connection.
    pub host: String,
    pub port: u16,
    pub latency_ms: u32,
    pub mode: SrtMode,
}

/// A destination with its host as characters.
pub struct DestinationView {
    pub host: Seq<char>,
    pub port: u16,
    pub latency_ms: u32,
    pub mode: SrtMode,
}

impl View for SrtDestination {
    type V = DestinationView;

    open spec fn view(&self) -> DestinationView {
        DestinationView { host: self.host@, port: self.port, latency_ms: self.latency_ms, mode: self.mode }
    }
}

impl Clone for SrtDestination {
    fn clone(&self) -> (r: Self)
        ensures
            r == *self,
    {
        SrtDestination {
            host: self.host.clone(),
            port: self.port,
            latency_ms: self.latency_ms,
            mode: self.mode,
        }
    }
}

/// Why a host cannot be called, if it cannot. `host` is trimmed.
pub open spec fn caller_host_problem(host: Seq<char>) -> Option<Seq<char>> {
    if host.len() == 0 {
        Some("destination host is empty"@)
    } else if text::has_text(host, "://"@) {
        Some("destination host must be an IP or hostname, not a URL"@)
    } else if text::has_space(host) {
        Some("destination host contains whitespace"@)
    } else {
        None
    }
}

/// The destination that raw user input means, or why it means none.
pub open spec fn parsed(host: Seq<char>, port: u32, latency_ms: u32, mode: SrtMode) -> std::result::Result<
    DestinationView,
    ErrorView,
> {
    let host = text::trimmed(host);
    if mode == SrtMode::Caller && caller_host_problem(host) is Some {
        Err(ErrorView::Config(caller_host_problem(host)->0))
    } else if port == 0 || port > 65535 {
        Err(ErrorView::Config("port "@ + text::decimal(port as nat) + " is out of range (1-65535)"@))
    } else {
        Ok(
            DestinationView {
                host,
                port: port as u16,
                latency_ms: if latency_ms == 0 {
                    DEFAULT_LATENCY_MS
                } else {
                    latency_ms
                },
                mode,
            },
        )
    }
}

/// How many endpoints a listener at `port` serves: one per caller, at least one
/// and at most three, and none past the last port.
pub open spec fn listener_slots(port: u16, max_callers: u8) -> nat {
    let wanted = if max_callers < 1 {
        1
    } else if max_callers > 3 {
        3
    } else {
        max_callers as nat
    };
    if wanted <= 65536 - port {
        wanted
    } else {
        (65536 - port) as nat
    }
}

impl DestinationView {
    /// The SRT URL for a host and a port.
    pub open spec fn url_for(self, host: Seq<char>, port: nat) -> Seq<char> {
        "srt://"@ + host + ":"@ + text::decimal(port) + "?mode="@ + self.mode.url_mode() + "&latency="@
            + text::decimal(self.latency_ms as nat) + "&pkt_size="@ + text::decimal(SRT_PKT_SIZE as nat)
    }

    /// The SRT URL that FFmpeg uses.
    pub open spec fn url(self) -> Seq<char> {
        match self.mode {
            SrtMode::Caller => self.url_for(self.host, self.port as nat),
            SrtMode::Listener => self.url_for("0.0.0.0"@, self.port as nat),
        }
    }

    /// The SRT URLs that FFmpeg outputs to.
    pub open spec fn urls(self, max_callers: u8) -> Seq<Seq<char>> {
        match self.mode {
            SrtMode::Caller => seq![self.url()],
            SrtMode::Listener => Seq::new(
                listener_slots(self.port, max_callers),
                |i: int| self.url_for("0.0.0.0"@, (self.port + i) as nat),
            ),
        }
    }
}

impl SrtDestination {
    /// Validate raw user input into a usable destination for the given mode.
    ///
    /// In caller mode `host` must be an IP/hostname (no scheme, no whitespace).
    /// In listener mode `host` is optional (informational only) since we bind
    /// all interfaces. The port must be 1-65535 in both modes.
    pub fn parse(host: &str, port: u32, latency_ms: u32, mode: SrtMode) -> (r: Result<Self>)
        ensures
            error::outcome(r) == parsed(host@, port, latency_ms, mode),
    {
        let host = text::trim(host);

        if mode == SrtMode::Caller {
            if host.unicode_len() == 0 {
                return Err(EncoderError::Config("destination host is empty".to_string()));
            }
            if text::contains(host, "://") {
                return Err(
                    EncoderError::Config(
                        "destination host must be an IP or hostname, not a URL".to_string(),
                    ),
                );
            }
            if text::contains_space(host) {
                return Err(EncoderError::Config("destination host contains whitespace".to_string()));
            }
        }
        if port == 0 || port > 65535 {
            return Err(
                EncoderError::Config(
                    "port ".to_string().concat(text::number(port as u64).as_str()).concat(
                        " is out of range (1-65535)",
                    ),
                ),
            );
        }
        let latency_ms: u32 = if latency_ms == 0 {
            DEFAULT_LATENCY_MS
        } else {
            latency_ms
        };
        Ok(SrtDestination { host: host.to_string(), port: port as u16, latency_ms, mode })
    }

    /// Build the SRT URL FFmpeg will use. Callers connect to `host:port`;
    /// listeners bind `0.0.0.0:port` so any interface can accept the puller.
    pub fn to_url(&self) -> (r: String)
        ensures
            r@ == self@.url(),
    {
        let host = match self.mode {
            SrtMode::Caller => self.host.as_str(),
            SrtMode::Listener => "0.0.0.0",
        };
        self.url_for(host, self.port)
    }

    fn url_for(&self, host: &str, port: u16) -> (r: String)
        ensures
            r@ == self@.url_for(host@, port as nat),
    {
        "srt://".to_string().concat(host).concat(":").concat(text::number(port as u64).as_str()).concat(
            "?mode=",
        ).concat(self.mode.as_url_mode()).concat("&latency=").concat(
            text::number(self.latency_ms as u64).as_str(),
        ).concat("&pkt_size=").concat(text::number(SRT_PKT_SIZE as u64).as_str())
    }

    /// The one or more SRT URLs FFmpeg should output to.
    ///
    /// A caller yields a single URL. A listener that serves up to `max_callers`
    /// callers yields one `0.0.0.0` bind per consecutive port starting at
    /// `port` (port, port+1, ...), because a single SRT listener socket only
    /// accepts one peer; each caller connects to its own port. `max_callers` is
    /// clamped to 1-3 and ports past 65535 are dropped.
    pub fn endpoints(&self, max_callers: u8) -> (r: Vec<String>)
        ensures
            text::texts(r@) == self@.urls(max_callers),
    {
        let mut out: Vec<String> = Vec::new();
        match self.mode {
            SrtMode::Caller => {
                out.push(self.to_url());
            },
            SrtMode::Listener => {
                let n: u32 = if max_callers < 1 {
                    1
                } else if max_callers > 3 {
                    3
                } else {
                    max_callers as u32
                };
                let base: u32 = self.port as u32;
                let mut i: u32 = 0;
                while i < n && base + i <= 65535
                    invariant
                        n <= 3,
                        base == self.port,
                        i <= n,
                        base + i <= 65536,
                        out@.len() == i,
                        forall|j: int|
                            0 <= j < i ==> (#[trigger] out@[j])@ == self@.url_for(
                                "0.0.0.0"@,
                                (self.port + j) as nat,
                            ),
                    decreases n - i,
                {
                    out.push(self.url_for("0.0.0.0", (base + i) as u16));
                    i += 1;
                }
            },
        }
        assert(text::texts(out@) =~= self@.urls(max_callers));
        out
    }
}

/// A destination that was accepted is accepted again as it is.
pub proof fn accepted_destinations_stay_accepted(
    host: Seq<char>,
    port: u32,
    latency_ms: u32,
    mode: SrtMode,
)
    ensures
        match parsed(host, port, latency_ms, mode) {
            Ok(d) => parsed(d.host, d.port as u32, d.latency_ms, d.mode) == Ok::<
                DestinationView,
                ErrorView,
            >(d),
            Err(_) => true,
        },
{
    text::trimming_is_idempotent(host);
}

/// An accepted destination has a port, a latency and, to be called, a host that
/// is neither a URL nor holds white space.
pub proof fn accepted_destinations_are_usable(
    host: Seq<char>,
    port: u32,
    latency_ms: u32,
    mode: SrtMode,
)
    ensures
        match parsed(host, port, latency_ms, mode) {
            Ok(d) => {
                &&& d.port > 0 && d.port == port
                &&& d.latency_ms > 0
                &&& d.mode == SrtMode::Caller ==> d.host.len() > 0 && !text::has_space(d.host)
                    && !text::has_text(d.host, "://"@)
            },
            Err(_) => true,
        },
{
}

/// A stream always has somewhere to go: a caller has its one URL, and a listener
/// binds one to three consecutive ports from its own on, none past the last.
pub proof fn endpoints_are_consecutive(d: DestinationView, max_callers: u8)
    ensures
        1 <= d.urls(max_callers).len() <= 3,
        d.urls(max_callers)[0] == d.url(),
        d.mode == SrtMode::Caller ==> d.urls(max_callers).len() == 1,
        d.mode == SrtMode::Listener ==> forall|i: int|
            0 <= i < d.urls(max_callers).len() ==> d.port + i <= 65535 && #[trigger] d.urls(max_callers)[i]
                == d.url_for("0.0.0.0"@, (d.port + i) as nat),
        d.mode == SrtMode::Listener && 1 <= max_callers <= 3 && d.port + max_callers <= 65536
            ==> d.urls(max_callers).len() == max_callers,
{
}

/// A URL holds nothing but what its form, the mode, the numbers and a caller's host
/// hold.
pub proof fn urls_add_nothing(d: DestinationView, max_callers: u8, i: int, c: char)
    requires
        0 <= i < d.urls(max_callers).len(),
        text::lacks(d.host, c),
        c == '|' || c == ',' || c == '\n',
    ensures
        text::lacks(d.urls(max_callers)[i], c),
{
    let host = match d.mode {
        SrtMode::Caller => d.host,
        SrtMode::Listener => "0.0.0.0"@,
    };
    let port = match d.mode {
        SrtMode::Caller => d.port as nat,
        SrtMode::Listener => (d.port + i) as nat,
    };
    reveal_strlit("srt://");
    reveal_strlit("0.0.0.0");
    reveal_strlit(":");
    reveal_strlit("?mode=");
    reveal_strlit("caller");
    reveal_strlit("listener");
    reveal_strlit("&latency=");
    reveal_strlit("&pkt_size=");
    text::decimals_lack(port, c);
    text::decimals_lack(d.latency_ms as nat, c);
    text::decimals_lack(SRT_PKT_SIZE as nat, c);
    assert(text::lacks(host, c));
    let s1 = "srt://"@ + host;
    let s2 = s1 + ":"@;
    let s3 = s2 + text::decimal(port);
    let s4 = s3 + "?mode="@;
    let s5 = s4 + d.mode.url_mode();
    let s6 = s5 + "&latency="@;
    let s7 = s6 + text::decimal(d.latency_ms as nat);
    let s8 = s7 + "&pkt_size="@;
    text::both_lack("srt://"@, host, c);
    text::both_lack(s1, ":"@, c);
    text::both_lack(s2, text::decimal(port), c);
    text::both_lack(s3, "?mode="@, c);
    text::both_lack(s4, d.mode.url_mode(), c);
    text::both_lack(s5, "&latency="@, c);
    text::both_lack(s6, text::decimal(d.latency_ms as nat), c);
    text::both_lack(s7, "&pkt_size="@, c);
    text::both_lack(s8, text::decimal(SRT_PKT_SIZE as nat), c);
}

/// A URL says where to go, then how: the endpoint before the question mark, and the
/// mode, the latency in milliseconds and the packet size after it, in this order.
#[verifier::spinoff_prover]
pub proof fn urls_say_where_and_how(d: DestinationView, max_callers: u8, i: int)
    requires
        0 <= i < d.urls(max_callers).len(),
        text::lacks(d.host, '?'),
    ensures
        ({
            let parts = text::pieces(d.urls(max_callers)[i], '?');
            let options = text::pieces(parts[1], '&');
            &&& parts.len() == 2
            &&& d.mode == SrtMode::Caller ==> parts[0] == "srt://"@ + d.host + ":"@ + text::decimal(d.port as nat)
            &&& d.mode == SrtMode::Listener ==> parts[0] == "srt://"@ + "0.0.0.0"@ + ":"@ + text::decimal(
                (d.port + i) as nat,
            )
            &&& options.len() == 3
            &&& d.mode == SrtMode::Caller ==> options[0] == "mode=caller"@
            &&& d.mode == SrtMode::Listener ==> options[0] == "mode=listener"@
            &&& options[1] == "latency="@ + text::decimal(d.latency_ms as nat)
            &&& options[2] == "pkt_size="@ + text::decimal(7 * 188)
        }),
{
    let host = match d.mode {
        SrtMode::Caller => d.host,
        SrtMode::Listener => "0.0.0.0"@,
    };
    let port = match d.mode {
        SrtMode::Caller => d.port as nat,
        SrtMode::Listener => (d.port + i) as nat,
    };
    let url = d.urls(max_callers)[i];
    reveal_strlit("srt://");
    reveal_strlit("0.0.0.0");
    reveal_strlit(":");
    reveal_strlit("?mode=");
    reveal_strlit("mode=");
    reveal_strlit("caller");
    reveal_strlit("listener");
    reveal_strlit("mode=caller");
    reveal_strlit("mode=listener");
    reveal_strlit("&latency=");
    reveal_strlit("latency=");
    reveal_strlit("&pkt_size=");
    reveal_strlit("pkt_size=");
    let l = text::decimal(d.latency_ms as nat);
    let n = text::decimal(SRT_PKT_SIZE as nat);
    let place = "srt://"@ + host + ":"@ + text::decimal(port);
    text::decimals_lack(port, '?');
    text::decimals_lack(d.latency_ms as nat, '?');
    text::decimals_lack(d.latency_ms as nat, '&');
    text::decimals_lack(SRT_PKT_SIZE as nat, '?');
    text::decimals_lack(SRT_PKT_SIZE as nat, '&');
    assert(text::lacks(host, '?'));
    text::both_lack("srt://"@, host, '?');
    text::both_lack("srt://"@ + host, ":"@, '?');
    text::both_lack("srt://"@ + host + ":"@, text::decimal(port), '?');
    let a = "mode="@ + d.mode.url_mode();
    let b = "latency="@ + l;
    let c = "pkt_size="@ + n;
    let and = seq!['&'];
    assert(text::lacks(a, '?') && text::lacks(a, '&'));
    text::both_lack("latency="@, l, '?');
    text::both_lack("latency="@, l, '&');
    text::both_lack("pkt_size="@, n, '?');
    text::both_lack("pkt_size="@, n, '&');
    let rest = a + and + (b + and + c);
    text::both_lack(b, and, '?');
    text::both_lack(b + and, c, '?');
    text::both_lack(a, and, '?');
    text::both_lack(a + and, b + and + c, '?');
    text::pieces_split(place, '?', rest);
    assert(text::pieces(rest, '?') == seq![rest]);
    text::pieces_split(b, '&', c);
    text::pieces_split(a, '&', b + and + c);
    assert("?mode="@ =~= seq!['?'] + "mode="@);
    assert("&latency="@ =~= and + "latency="@);
    assert("&pkt_size="@ =~= and + "pkt_size="@);
    assert(url =~= place + seq!['?'] + rest);
    assert("mode=caller"@ =~= "mode="@ + "caller"@);
    assert("mode=listener"@ =~= "mode="@ + "listener"@);
    assert(7 * 188 == SRT_PKT_SIZE);
}

/// A destination is accepted exactly if its port is one and, for a caller, its host
/// names a machine; and what is accepted is kept, but for white space round the
/// host and for a latency of zero, which means 200 ms.
pub proof fn destinations_are_taken_as_given(host: Seq<char>, port: u32, latency_ms: u32, mode: SrtMode)
    ensures
        ({
            let name = text::trimmed(host);
            let callable = name.len() > 0 && !text::has_space(name) && !text::has_text(name, "://"@);
            &&& parsed(host, port, latency_ms, mode) is Ok <==> 1 <= port <= 65535 && (mode == SrtMode::Listener
                || callable)
            &&& parsed(host, port, latency_ms, mode) matches Ok(d) ==> d.host == name && d.port == port && d.mode
                == mode && (latency_ms > 0 ==> d.latency_ms == latency_ms) && (latency_ms == 0 ==> d.latency_ms
                == 200)
        }),
{
}

/// A listener serves as many callers as it is asked to, from one to three, and fewer
/// only where the ports run out.
pub proof fn listeners_serve_as_many_as_fit(d: DestinationView, max_callers: u8)
    requires
        d.mode == SrtMode::Listener,
    ensures
        ({
            let n = d.urls(max_callers).len();
            &&& 1 <= n <= 3 && d.port + n <= 65536
            &&& n <= max_callers || n == 1
            &&& n < 3 && n < max_callers ==> d.port + n == 65536
        }),
{
}

/// A refused destination is a matter of configuration; a port that is none is named, and a
/// host that cannot be called is refused before its port is looked at.
pub proof fn refusals_name_the_port(host: Seq<char>, port: u32, latency_ms: u32, mode: SrtMode)
    ensures
        parsed(host, port, latency_ms, mode) matches Err(e) ==> {
            &&& e is Config
            &&& mode == SrtMode::Listener ==> text::begins_with(
                e->Config_0,
                "port "@ + text::decimal(port as nat) + " "@,
            )
        },
        mode == SrtMode::Caller && caller_host_problem(text::trimmed(host)) is Some ==> parsed(
            host,
            port,
            latency_ms,
            mode,
        ) == parsed(host, 0, 0, mode),
{
    reveal_strlit("port ");
    reveal_strlit(" ");
    reveal_strlit(" is out of range (1-65535)");
    let lead = "port "@ + text::decimal(port as nat) + " "@;
    let all = "port "@ + text::decimal(port as nat) + " is out of range (1-65535)"@;
    assert(all.subrange(0, lead.len() as int) =~= lead);
}

/// A host that cannot be called is refused for what is wrong with it: that it is empty, that
/// it is a URL, or that it holds white space.
pub proof fn refusals_say_what_is_wrong(host: Seq<char>, port: u32, latency_ms: u32)
    ensures
        ({
            let name = text::trimmed(host);
            let r = parsed(host, port, latency_ms, SrtMode::Caller);
            &&& name.len() == 0 ==> (r matches Err(e) && e is Config && text::finishes_with(
                e->Config_0,
                "host is empty"@,
            ))
            &&& name.len() > 0 && text::has_text(name, "://"@) ==> (r matches Err(e) && e is Config
                && text::finishes_with(e->Config_0, "not a URL"@))
            &&& name.len() > 0 && !text::has_text(name, "://"@) && text::has_space(name) ==> (r matches Err(e)
                && e is Config && text::finishes_with(e->Config_0, "contains whitespace"@))
        }),
{
    reveal_strlit("host is empty");
    reveal_strlit("destination host is empty");
    reveal_strlit("not a URL");
    reveal_strlit("destination host must be an IP or hostname, not a URL");
    reveal_strlit("contains whitespace");
    reveal_strlit("destination host contains whitespace");
    let a = "destination host is empty"@;
    let b = "destination host must be an IP or hostname, not a URL"@;
    let c = "destination host contains whitespace"@;
    assert(a.subrange(a.len() - 13, a.len() as int) =~= "host is empty"@);
    assert(b.subrange(b.len() - 9, b.len() as int) =~= "not a URL"@);
    assert(c.subrange(c.len() - 19, c.len() as int) =~= "contains whitespace"@);
}

} // verus!
