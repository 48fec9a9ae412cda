//! Local + public IP discovery.
//!
//! In SRT *listener* mode the player must hand the caller an address to connect
//! to. We surface two best-effort answers so the UI can pre-fill the IP box:
//!   * `public` - the internet-facing IP (for callers coming over the WAN;
//!     usually still needs a forwarded port). Fetched from a plain-text IP echo
//!     service over HTTP with short timeouts.
//!   * `local`  - the LAN IP of the default route (for callers on the same
//!     network).
//!
//! Both are optional; discovery never blocks stream start and degrades quietly
//! when the machine is offline.

use vstd::prelude::*;
use vstd::string::*;

use crate::ipv4;
use crate::ipv4::Ipv4Addr;
use crate::text;

verus! {

#[derive(Debug, Clone)]
pub struct IpInfo {
    /// Internet-facing IP, if it could be resolved.
    pub public: Option<String>,
    /// LAN IP of the default route, if any.
    pub local: Option<String>,
}

impl Default for IpInfo {
    fn default() -> (r: Self)
        ensures
            r.public is None,
            r.local is None,
    {
        IpInfo { public: None, local: None }
    }
}

/// A plain-text IP echo service.
#[derive(Debug, Clone, Copy)]
pub struct Provider {
    pub host: &'static str,
    pub path: &'static str,
}

/// The echo services, in the order in which they are tried.
pub open spec fn services() -> Seq<Provider> {
    seq![
        Provider { host: "api.ipify.org", path: "/" },
        Provider { host: "checkip.amazonaws.com", path: "/" },
        Provider { host: "ifconfig.me", path: "/ip" },
    ]
}

pub fn providers() -> (r: [Provider; 3])
    ensures
        r@ == services(),
{
    let r: [Provider; 3] = [
        Provider { host: "api.ipify.org", path: "/" },
        Provider { host: "checkip.amazonaws.com", path: "/" },
        Provider { host: "ifconfig.me", path: "/ip" },
    ];
    assert(r@ =~= services());
    r
}

/// The HTTP request that asks a service for our address.
pub open spec fn request_of(host: Seq<char>, path: Seq<char>) -> Seq<char> {
    "GET "@ + path + " HTTP/1.1\r\nHost: "@ + host
        + "\r\nUser-Agent: galahad-encoder\r\nAccept: text/plain\r\nConnection: close\r\n\r\n"@
}

pub fn ip_request(host: &str, path: &str) -> (r: String)
    ensures
        r@ == request_of(host@, path@),
{
    "GET ".to_string().concat(path).concat(" HTTP/1.1\r\nHost: ").concat(host).concat(
        "\r\nUser-Agent: galahad-encoder\r\nAccept: text/plain\r\nConnection: close\r\n\r\n",
    )
}

/// The first word that is an IPv4 address.
pub open spec fn first_address(words: Seq<Seq<char>>) -> Option<Seq<char>>
    decreases words.len(),
{
    if words.len() == 0 {
        None
    } else if ipv4::addr_of(words[0]) is Some {
        Some(words[0])
    } else {
        first_address(words.drop_first())
    }
}

/// The body of an HTTP response: what follows the header block, or all of it.
pub open spec fn body_of(response: Seq<char>) -> Seq<char> {
    match text::after_first(response, "\r\n\r\n"@) {
        Some(body) => body,
        None => response,
    }
}

/// The address that an HTTP response carries.
pub open spec fn address_in(response: Seq<char>) -> Option<Seq<char>> {
    first_address(text::words_of(body_of(response)))
}

/// Discover both the local and public IP (best-effort), from what each of the
/// echo services that were asked answered, and the address of the default route.
pub fn detect(replies: &Vec<Option<String>>, route: Option<Ipv4Addr>) -> (r: IpInfo)
    ensures
        text::opt_text(r.public) == first_reply(replies@),
        text::opt_text(r.local) == lan_address(route),
{
    IpInfo { public: public_ip(replies), local: local_ip(route) }
}

/// The LAN address of the default route, unless the route has none.
pub open spec fn lan_address(route: Option<Ipv4Addr>) -> Option<Seq<char>> {
    match route {
        Some(ip) => if ip == (Ipv4Addr { a: 0, b: 0, c: 0, d: 0 }) {
            None
        } else {
            Some(ip.dotted())
        },
        None => None,
    }
}

/// LAN IP, from the local address of a socket that is connected outwards.
pub fn local_ip(route: Option<Ipv4Addr>) -> (r: Option<String>)
    ensures
        text::opt_text(r) == lan_address(route),
{
    match route {
        Some(ip) => if ip == (Ipv4Addr { a: 0, b: 0, c: 0, d: 0 }) {
            None
        } else {
            Some(ip.to_text())
        },
        None => None,
    }
}

/// The first reply that carries an address decides.
pub open spec fn first_reply(replies: Seq<Option<String>>) -> Option<Seq<char>>
    decreases replies.len(),
{
    if replies.len() == 0 {
        None
    } else {
        match replies[0] {
            Some(response) => match address_in(response@) {
                Some(ip) => Some(ip),
                None => first_reply(replies.drop_first()),
            },
            None => first_reply(replies.drop_first()),
        }
    }
}

/// The service to ask next: none once a reply carries an address or all were
/// asked.
pub open spec fn next_service(replies: Seq<Option<String>>) -> Option<Provider> {
    if first_reply(replies) is Some || replies.len() >= services().len() {
        None
    } else {
        Some(services()[replies.len() as int])
    }
}

/// The service to ask next, after the replies so far (one per service that was
/// asked).
pub fn next_provider(replies: &Vec<Option<String>>) -> (r: Option<Provider>)
    ensures
        r == next_service(replies@),
{
    if public_ip(replies).is_some() || replies.len() >= 3 {
        return None;
    }
    Some(providers()[replies.len()])
}

/// Public IP, from the replies of the echo services in the order of asking.
pub fn public_ip(replies: &Vec<Option<String>>) -> (r: Option<String>)
    ensures
        text::opt_text(r) == first_reply(replies@),
{
    let n: usize = replies.len();
    assert(replies@.skip(0) =~= replies@);
    for i in 0..n
        invariant
            n == replies@.len(),
            first_reply(replies@) == first_reply(replies@.skip(i as int)),
    {
        assert(replies@.skip(i as int).drop_first() =~= replies@.skip(i + 1));
        if let Some(response) = &replies[i] {
            let found = parse_ip_from_response(response.as_str());
            if found.is_some() {
                return found;
            }
        }
    }
    None
}

/// Extract the first IPv4 literal from an HTTP response (after the header block
/// if present). Robust to chunked bodies: chunk-size hex lines never parse as
/// dotted IPv4.
pub fn parse_ip_from_response(response: &str) -> (r: Option<String>)
    ensures
        text::opt_text(r) == address_in(response@),
{
    match text::rest_after(response, "\r\n\r\n") {
        Some(body) => parse_ipv4(body),
        None => parse_ipv4(response),
    }
}

/// The first IPv4 literal among the words of a text.
pub fn parse_ipv4(s: &str) -> (r: Option<String>)
    ensures
        text::opt_text(r) == first_address(text::words_of(s@)),
{
    let words = text::words(s);
    let ghost all = text::texts(words@);
    let n: usize = words.len();
    assert(all.skip(0) =~= all);
    for i in 0..n
        invariant
            n == words@.len(),
            all == text::texts(words@),
            all == text::words_of(s@),
            first_address(all) == first_address(all.skip(i as int)),
    {
        assert(all.skip(i as int).drop_first() =~= all.skip(i + 1));
        assert(all[i as int] == words@[i as int]@);
        if Ipv4Addr::parse(words[i].as_str()).is_some() {
            return Some(words[i].clone());
        }
    }
    None
}

/// What is reported as an address is one.
pub proof fn only_addresses_are_found(words: Seq<Seq<char>>)
    ensures
        first_address(words) is Some ==> words.contains(first_address(words)->0) && ipv4::addr_of(
            first_address(words)->0,
        ) is Some,
        first_address(words) is None ==> forall|i: int|
            0 <= i < words.len() ==> ipv4::addr_of(#[trigger] words[i]) is None,
    decreases words.len(),
{
    if words.len() > 0 && ipv4::addr_of(words[0]) is None {
        let rest = words.drop_first();
        only_addresses_are_found(rest);
        if first_address(rest) is Some {
            let k = choose|k: int| 0 <= k < rest.len() && rest[k] == first_address(rest)->0;
            assert(words[k + 1] == rest[k]);
        } else {
            assert forall|i: int| 0 <= i < words.len() implies ipv4::addr_of(#[trigger] words[i]) is None by {
                if i > 0 {
                    assert(rest[i - 1] == words[i]);
                }
            }
        }
    }
}

/// The address that a service answers with is read out of its response, behind the
/// header block or alone, with or without white space behind it.
pub proof fn answers_are_read(head: Seq<char>, ip: Ipv4Addr, space: Seq<char>)
    requires
        forall|i: int| 0 <= i < space.len() ==> text::is_space(#[trigger] space[i]),
        forall|i: int|
            0 <= i < head.len() ==> !text::stands_at(head + "\r\n\r\n"@ + (ip.dotted() + space), "\r\n\r\n"@, i),
    ensures
        address_in(head + "\r\n\r\n"@ + (ip.dotted() + space)) == Some(ip.dotted()),
{
    let word = ip.dotted();
    text::first_occurrence_is_found(head, "\r\n\r\n"@, word + space);
    ipv4::octets_stand_in_order(ip);
    ipv4::dotted_names_one_address(ip);
    reveal_strlit(".");
    assert(word.len() > 0);
    assert forall|i: int| 0 <= i < word.len() implies !text::is_space(#[trigger] word[i]) by {
        let c = word[i];
        if text::is_space(c) {
            assert(text::lacks(word, c));
        }
    }
    text::lone_words_are_read(word, space);
    assert(first_address(seq![word]) == Some(word));
}

/// A service is asked for its page by name, and told to close the connection.
pub proof fn requests_name_the_service(host: Seq<char>, path: Seq<char>)
    requires
        text::lacks(host, '\n'),
        text::lacks(path, '\n'),
    ensures
        text::lines_of(request_of(host, path)) == seq![
            "GET "@ + path + " HTTP/1.1"@,
            "Host: "@ + host,
            "User-Agent: galahad-encoder"@,
            "Accept: text/plain"@,
            "Connection: close"@,
            Seq::empty(),
        ],
{
    let e = "\r\n"@;
    reveal_strlit("\r\n");
    reveal_strlit("GET ");
    reveal_strlit(" HTTP/1.1");
    reveal_strlit("Host: ");
    reveal_strlit(" HTTP/1.1\r\nHost: ");
    reveal_strlit("User-Agent: galahad-encoder");
    reveal_strlit("Accept: text/plain");
    reveal_strlit("Connection: close");
    reveal_strlit("\r\nUser-Agent: galahad-encoder\r\nAccept: text/plain\r\nConnection: close\r\n\r\n");
    let l1 = "GET "@ + path + " HTTP/1.1"@;
    let l2 = "Host: "@ + host;
    let l3 = "User-Agent: galahad-encoder"@;
    let l4 = "Accept: text/plain"@;
    let l5 = "Connection: close"@;
    let none = Seq::<char>::empty();
    text::both_lack("GET "@, path, '\n');
    text::both_lack("GET "@ + path, " HTTP/1.1"@, '\n');
    text::both_lack("Host: "@, host, '\n');
    let t6 = none + e + none;
    let t5 = l5 + e + t6;
    let t4 = l4 + e + t5;
    let t3 = l3 + e + t4;
    let t2 = l2 + e + t3;
    let t1 = l1 + e + t2;
    text::first_line_is_read(none, none);
    text::first_line_is_read(l5, t6);
    text::first_line_is_read(l4, t5);
    text::first_line_is_read(l3, t4);
    text::first_line_is_read(l2, t3);
    text::first_line_is_read(l1, t2);
    assert(text::lines_of(none) =~= Seq::empty());
    let tail = "\r\nUser-Agent: galahad-encoder\r\nAccept: text/plain\r\nConnection: close\r\n\r\n"@;
    assert(tail =~= e + t3);
    assert(" HTTP/1.1\r\nHost: "@ =~= " HTTP/1.1"@ + e + "Host: "@);
    assert(request_of(host, path) =~= t1);
    assert(text::lines_of(t1) =~= seq![l1, l2, l3, l4, l5, none]);
}

/// Services are asked one after another, none of them twice, until one answers with
/// an address or all were asked.
pub proof fn services_are_asked_in_turn(replies: Seq<Option<String>>, later: Seq<Option<String>>)
    requires
        replies.len() < later.len(),
    ensures
        next_service(replies) is Some <==> replies.len() < 3 && first_reply(replies) is None,
        next_service(replies) is Some && next_service(later) is Some ==> next_service(replies)->0.host@
            != next_service(later)->0.host@,
{
    reveal_strlit("api.ipify.org");
    reveal_strlit("checkip.amazonaws.com");
    reveal_strlit("ifconfig.me");
    if next_service(replies) is Some && next_service(later) is Some {
        let i = replies.len() as int;
        let j = later.len() as int;
        assert(i == 0 || i == 1);
        assert(j == 1 || j == 2);
        assert(services()[i].host@.len() != services()[j].host@.len());
    }
}

/// The first answer that carries an address counts, and later ones change nothing.
pub proof fn the_first_answer_counts(replies: Seq<Option<String>>, more: Seq<Option<String>>)
    ensures
        first_reply(replies) is Some ==> first_reply(replies + more) == first_reply(replies),
        first_reply(replies) is None ==> first_reply(replies + more) == first_reply(more),
    decreases replies.len(),
{
    if replies.len() == 0 {
        assert(replies + more =~= more);
    } else {
        assert((replies + more).drop_first() =~= replies.drop_first() + more);
        the_first_answer_counts(replies.drop_first(), more);
    }
}

/// The address of the default route is shown as it is, unless it is all zeros.
pub proof fn routes_show_their_address(ip: Ipv4Addr)
    ensures
        ip.a > 0 || ip.b > 0 || ip.c > 0 || ip.d > 0 ==> lan_address(Some(ip)) == Some(ip.dotted()),
        ip.a == 0 && ip.b == 0 && ip.c == 0 && ip.d == 0 ==> lan_address(Some(ip)) is None,
        lan_address(None) is None,
{
}

/// Every service answers at its root, but for the one that has a page for it, and that is
/// asked last.
pub proof fn services_have_their_page(i: int)
    requires
        0 <= i < services().len(),
    ensures
        services()[i].path@ == if services()[i].host@ == "ifconfig.me"@ {
            "/ip"@
        } else {
            "/"@
        },
        i == 0 ==> text::finishes_with(services()[i].host@, "ipify.org"@),
        i == 1 ==> text::finishes_with(services()[i].host@, "amazonaws.com"@),
        i == 2 ==> services()[i].host@ == "ifconfig.me"@,
{
    reveal_strlit("ipify.org");
    reveal_strlit("amazonaws.com");
    reveal_strlit("api.ipify.org");
    reveal_strlit("checkip.amazonaws.com");
    reveal_strlit("ifconfig.me");
    assert(i == 0 || i == 1 || i == 2);
    assert("api.ipify.org"@.len() == 13 && "checkip.amazonaws.com"@.len() == 21 && "ifconfig.me"@.len() == 11);
    assert("api.ipify.org"@.subrange(4, 13) =~= "ipify.org"@);
    assert("checkip.amazonaws.com"@.subrange(8, 21) =~= "amazonaws.com"@);
}

/// The first address of a text counts, and what follows it changes nothing.
pub proof fn the_first_address_counts(words: Seq<Seq<char>>, more: Seq<Seq<char>>)
    ensures
        first_address(words) is Some ==> first_address(words + more) == first_address(words),
        first_address(words) is None ==> first_address(words + more) == first_address(more),
    decreases words.len(),
{
    if words.len() == 0 {
        assert(words + more =~= more);
    } else {
        assert((words + more).drop_first() =~= words.drop_first() + more);
        the_first_address_counts(words.drop_first(), more);
    }
}

} // verus!
