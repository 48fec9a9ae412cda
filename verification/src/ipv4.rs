//! IPv4 addresses.

use vstd::prelude::*;
use vstd::string::*;

use crate::text;

verus! {

/// An IPv4 address as its four octets, most significant first.
#[derive(Debug, Clone, Copy, PartialEq, Eq, Structural)]
pub struct Ipv4Addr {
    pub a: u8,
    pub b: u8,
    pub c: u8,
    pub d: u8,
}

impl Ipv4Addr {
    /// The address in dotted decimal.
    pub open spec fn dotted(self) -> Seq<char> {
        text::decimal(self.a as nat) + "."@ + text::decimal(self.b as nat) + "."@ + text::decimal(
            self.c as nat,
        ) + "."@ + text::decimal(self.d as nat)
    }

    /// The address lies in `224.0.0.0/4`.
    pub open spec fn multicast(self) -> bool {
        224 <= self.a <= 239
    }

    pub fn new(a: u8, b: u8, c: u8, d: u8) -> (r: Self)
        ensures
            r == (Ipv4Addr { a, b, c, d }),
    {
        Ipv4Addr { a, b, c, d }
    }

    /// Whether the address is a multicast group.
    pub fn is_multicast(&self) -> (r: bool)
        ensures
            r == self.multicast(),
    {
        224 <= self.a && self.a <= 239
    }

    /// The address in dotted decimal.
    pub fn to_text(&self) -> (r: String)
        ensures
            r@ == self.dotted(),
    {
        text::number(self.a as u64).concat(".").concat(text::number(self.b as u64).as_str()).concat(
            ".",
        ).concat(text::number(self.c as u64).as_str()).concat(".").concat(
            text::number(self.d as u64).as_str(),
        )
    }

    /// The address that a text is the dotted decimal form of, if it is one's.
    pub fn parse(s: &str) -> (r: Option<Self>)
        ensures
            r == addr_of(s@),
    {
        let chars = text::chars_of(s);
        let n: usize = chars.len();
        proof {
            assert(s@.skip(0) =~= s@);
            address_has_octets(s@);
        }
        let p1: usize = text::find_from(&chars, '.', 0);
        if p1 == n {
            return None;
        }
        let p2: usize = text::find_from(&chars, '.', p1 + 1);
        if p2 == n {
            return None;
        }
        let p3: usize = text::find_from(&chars, '.', p2 + 1);
        if p3 == n {
            return None;
        }
        let a = octet(&chars, 0, p1);
        let b = octet(&chars, p1 + 1, p2);
        let c = octet(&chars, p2 + 1, p3);
        let d = octet(&chars, p3 + 1, n);
        match (a, b, c, d) {
            (Some(a), Some(b), Some(c), Some(d)) => {
                let ip = Ipv4Addr { a, b, c, d };
                proof {
                    octets_make_address(s@, p1 as int, p2 as int, p3 as int, ip);
                }
                Some(ip)
            },
            _ => None,
        }
    }
}

/// The address that a text is the dotted decimal form of, if it is one's.
pub open spec fn addr_of(s: Seq<char>) -> Option<Ipv4Addr> {
    if exists|ip: Ipv4Addr| #[trigger] ip.dotted() == s {
        Some(choose|ip: Ipv4Addr| #[trigger] ip.dotted() == s)
    } else {
        None
    }
}

/// The octet that a stretch of characters is the decimal form of, if it is one's.
fn octet(chars: &Vec<char>, from: usize, to: usize) -> (r: Option<u8>)
    requires
        from <= to <= chars@.len(),
    ensures
        match r {
            Some(n) => chars@.subrange(from as int, to as int) == text::decimal(n as nat),
            None => forall|n: u8|
                chars@.subrange(from as int, to as int) != #[trigger] text::decimal(n as nat),
        },
{
    let ghost s = chars@.subrange(from as int, to as int);
    proof {
        assert forall|n: u8| s == #[trigger] text::decimal(n as nat) implies s.len() <= 3
            && text::is_plain_decimal(s) && text::value_of(s) == n by {
            text::decimal_is_plain(n as nat);
            text::decimal_length(n as nat);
        }
    }
    if from == to || to - from > 3 {
        return None;
    }
    if to - from > 1 && chars[from] == '0' {
        assert(s[0] == '0');
        return None;
    }
    let mut total: u32 = 0;
    let mut i: usize = from;
    assert(s.take(0) =~= Seq::empty());
    while i < to
        invariant
            from <= i <= to <= chars@.len(),
            to - from <= 3,
            s == chars@.subrange(from as int, to as int),
            text::all_digits(s.take(i - from)),
            total == text::value_of(s.take(i - from)),
            forall|n: u8| s == #[trigger] text::decimal(n as nat) ==> text::is_plain_decimal(s),
        decreases to - i,
    {
        let c = chars[i];
        assert(s[i - from] == c);
        if !('0' <= c && c <= '9') {
            assert(!text::is_digit(s[i - from]));
            return None;
        }
        proof {
            let next = s.take(i - from + 1);
            assert(next.drop_last() =~= s.take(i - from));
            assert(next.last() == c);
            assert forall|k: int| 0 <= k < next.len() implies text::is_digit(#[trigger] next[k]) by {
                if k < i - from {
                    assert(s.take(i - from)[k] == next[k]);
                }
            }
            text::three_digits_are_small(s.take(i - from));
        }
        total = total * 10 + text::digit_value(c);
        i += 1;
    }
    assert(s.take(to - from) =~= s);
    if total > 255 {
        return None;
    }
    proof {
        text::plain_is_decimal(s);
    }
    Some(total as u8)
}

/// A decimal is followed by a dot at the first dot.
proof fn first_dot_ends_decimal(n: nat, rest: Seq<char>)
    ensures
        text::first_of(text::decimal(n) + seq!['.'] + rest, '.') == text::decimal(n).len(),
        (text::decimal(n) + seq!['.'] + rest).skip(text::decimal(n).len() as int + 1) == rest,
        (text::decimal(n) + seq!['.'] + rest).take(text::decimal(n).len() as int) == text::decimal(n),
{
    let d = text::decimal(n);
    let s = d + seq!['.'] + rest;
    text::decimal_is_plain(n);
    assert forall|i: int| 0 <= i < d.len() implies #[trigger] s[i] != '.' by {
        assert(text::is_digit(d[i]));
    }
    assert(s[d.len() as int] == '.');
    text::first_of_unique(s, '.', d.len() as int);
    assert(s.skip(d.len() as int + 1) =~= rest);
    assert(s.take(d.len() as int) =~= d);
}

/// In an address's dotted form the first three dots delimit the octets.
proof fn dots_separate_octets(ip: Ipv4Addr)
    ensures
        ({
            let s = ip.dotted();
            let p1 = text::first_of(s, '.');
            let p2 = p1 + 1 + text::first_of(s.skip(p1 + 1), '.');
            let p3 = p2 + 1 + text::first_of(s.skip(p2 + 1), '.');
            &&& 0 <= p1 < p2 < p3 < s.len()
            &&& s.subrange(0, p1) == text::decimal(ip.a as nat)
            &&& s.subrange(p1 + 1, p2) == text::decimal(ip.b as nat)
            &&& s.subrange(p2 + 1, p3) == text::decimal(ip.c as nat)
            &&& s.subrange(p3 + 1, s.len() as int) == text::decimal(ip.d as nat)
        }),
{
    reveal_strlit(".");
    let a = text::decimal(ip.a as nat);
    let b = text::decimal(ip.b as nat);
    let c = text::decimal(ip.c as nat);
    let d = text::decimal(ip.d as nat);
    let dot = seq!['.'];
    assert("."@ =~= dot);
    let s = ip.dotted();
    let s2 = b + dot + (c + dot + d);
    let s3 = c + dot + d;
    assert(s =~= a + dot + s2);
    first_dot_ends_decimal(ip.a as nat, s2);
    first_dot_ends_decimal(ip.b as nat, s3);
    first_dot_ends_decimal(ip.c as nat, d);
    let p1 = text::first_of(s, '.');
    let p2 = p1 + 1 + text::first_of(s.skip(p1 + 1), '.');
    let p3 = p2 + 1 + text::first_of(s.skip(p2 + 1), '.');
    assert(s.skip(p1 + 1) == s2);
    assert(p2 == a.len() + 1 + b.len());
    assert(s.skip(p2 + 1) =~= s3);
    assert(p3 == a.len() + 1 + b.len() + 1 + c.len());
    text::decimal_is_plain(ip.d as nat);
    assert(s.subrange(0, p1) =~= a);
    assert(s.subrange(p1 + 1, p2) =~= b);
    assert(s.subrange(p2 + 1, p3) =~= c);
    assert(s.subrange(p3 + 1, s.len() as int) =~= d);
}

/// An address's text holds three dots, with an octet on every side of them.
proof fn address_has_octets(s: Seq<char>)
    ensures
        addr_of(s) is Some ==> ({
            let ip = addr_of(s)->0;
            let p1 = text::first_of(s, '.');
            let p2 = p1 + 1 + text::first_of(s.skip(p1 + 1), '.');
            let p3 = p2 + 1 + text::first_of(s.skip(p2 + 1), '.');
            &&& 0 <= p1 < p2 < p3 < s.len()
            &&& s.subrange(0, p1) == text::decimal(ip.a as nat)
            &&& s.subrange(p1 + 1, p2) == text::decimal(ip.b as nat)
            &&& s.subrange(p2 + 1, p3) == text::decimal(ip.c as nat)
            &&& s.subrange(p3 + 1, s.len() as int) == text::decimal(ip.d as nat)
        }),
{
    if addr_of(s) is Some {
        dots_separate_octets(addr_of(s)->0);
    }
}

/// Four octets with dots between them are an address's text.
proof fn octets_make_address(s: Seq<char>, p1: int, p2: int, p3: int, ip: Ipv4Addr)
    requires
        0 <= p1 < p2 < p3 < s.len(),
        s[p1] == '.' && s[p2] == '.' && s[p3] == '.',
        s.subrange(0, p1) == text::decimal(ip.a as nat),
        s.subrange(p1 + 1, p2) == text::decimal(ip.b as nat),
        s.subrange(p2 + 1, p3) == text::decimal(ip.c as nat),
        s.subrange(p3 + 1, s.len() as int) == text::decimal(ip.d as nat),
    ensures
        addr_of(s) == Some(ip),
{
    reveal_strlit(".");
    let dot = seq!['.'];
    assert("."@ =~= dot);
    assert(s =~= s.subrange(0, p1) + dot + s.subrange(p1 + 1, p2) + dot + s.subrange(p2 + 1, p3) + dot
        + s.subrange(p3 + 1, s.len() as int));
    dotted_names_one_address(ip);
}

/// Addresses are read back from the text they are written as, and no two are
/// written alike.
pub proof fn dotted_names_one_address(ip: Ipv4Addr)
    ensures
        addr_of(ip.dotted()) == Some(ip),
{
    let s = ip.dotted();
    let other = choose|other: Ipv4Addr| #[trigger] other.dotted() == s;
    assert(ip.dotted() == s);
    dots_separate_octets(ip);
    dots_separate_octets(other);
    text::decimal_is_injective(ip.a as nat, other.a as nat);
    text::decimal_is_injective(ip.b as nat, other.b as nat);
    text::decimal_is_injective(ip.c as nat, other.c as nat);
    text::decimal_is_injective(ip.d as nat, other.d as nat);
}

/// An address in dotted decimal is its four octets, in order, with dots between them.
pub proof fn octets_stand_in_order(ip: Ipv4Addr)
    ensures
        text::pieces(ip.dotted(), '.') == seq![
            text::decimal(ip.a as nat),
            text::decimal(ip.b as nat),
            text::decimal(ip.c as nat),
            text::decimal(ip.d as nat),
        ],
        forall|c: char| c != '.' && !text::is_digit(c) ==> #[trigger] text::lacks(ip.dotted(), c),
{
    reveal_strlit(".");
    let a = text::decimal(ip.a as nat);
    let b = text::decimal(ip.b as nat);
    let c = text::decimal(ip.c as nat);
    let d = text::decimal(ip.d as nat);
    let dot = seq!['.'];
    assert("."@ =~= dot);
    text::decimals_lack(ip.a as nat, '.');
    text::decimals_lack(ip.b as nat, '.');
    text::decimals_lack(ip.c as nat, '.');
    text::decimals_lack(ip.d as nat, '.');
    text::pieces_split(c, '.', d);
    text::pieces_split(b, '.', c + dot + d);
    text::pieces_split(a, '.', b + dot + (c + dot + d));
    assert(ip.dotted() =~= a + dot + (b + dot + (c + dot + d)));
    assert forall|x: char| x != '.' && !text::is_digit(x) implies #[trigger] text::lacks(ip.dotted(), x) by {
        text::decimals_lack(ip.a as nat, x);
        text::decimals_lack(ip.b as nat, x);
        text::decimals_lack(ip.c as nat, x);
        text::decimals_lack(ip.d as nat, x);
        let s = ip.dotted();
        assert forall|i: int| 0 <= i < s.len() implies #[trigger] s[i] != x by {
            let n1 = a.len() as int;
            let n2 = n1 + 1 + b.len();
            let n3 = n2 + 1 + c.len();
            if i < n1 {
                assert(s[i] == a[i]);
            } else if n1 < i < n2 {
                assert(s[i] == b[i - n1 - 1]);
            } else if n2 < i < n3 {
                assert(s[i] == c[i - n2 - 1]);
            } else if n3 < i {
                assert(s[i] == d[i - n3 - 1]);
            }
        }
    }
}

/// Multicast addresses are those whose first four bits are `1110`.
pub proof fn multicast_is_a_prefix(ip: Ipv4Addr)
    ensures
        ip.multicast() == (ip.a / 16 == 14),
{
}

} // verus!
