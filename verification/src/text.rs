//! Text primitives: what trimming, splitting, searching and number formatting
//! mean on sequences of characters, and verified functions that compute them.

use vstd::prelude::*;
use vstd::string::*;

verus! {

// ---------------------------------------------------------------------------
// Model
// ---------------------------------------------------------------------------

/// The contents of a list of strings.
pub open spec fn texts(list: Seq<String>) -> Seq<Seq<char>> {
    list.map_values(|s: String| s@)
}

/// The contents of a list of string slices.
pub open spec fn strs(list: Seq<&str>) -> Seq<Seq<char>> {
    list.map_values(|s: &str| s@)
}

/// The content of an optional string.
pub open spec fn opt_text(o: Option<String>) -> Option<Seq<char>> {
    match o {
        Some(s) => Some(s@),
        None => None,
    }
}

/// Unicode `White_Space`.
pub open spec fn is_space(c: char) -> bool {
    ||| '\u{9}' <= c <= '\u{d}'
    ||| c == ' '
    ||| c == '\u{85}'
    ||| c == '\u{a0}'
    ||| c == '\u{1680}'
    ||| '\u{2000}' <= c <= '\u{200a}'
    ||| c == '\u{2028}'
    ||| c == '\u{2029}'
    ||| c == '\u{202f}'
    ||| c == '\u{205f}'
    ||| c == '\u{3000}'
}

/// `s` without its leading white space.
pub open spec fn trimmed_start(s: Seq<char>) -> Seq<char>
    decreases s.len(),
{
    if s.len() > 0 && is_space(s[0]) {
        trimmed_start(s.drop_first())
    } else {
        s
    }
}

/// `s` without its trailing white space.
pub open spec fn trimmed_end(s: Seq<char>) -> Seq<char>
    decreases s.len(),
{
    if s.len() > 0 && is_space(s.last()) {
        trimmed_end(s.drop_last())
    } else {
        s
    }
}

/// `s` without the white space around it.
pub open spec fn trimmed(s: Seq<char>) -> Seq<char> {
    trimmed_end(trimmed_start(s))
}

/// `s` holds some white space.
pub open spec fn has_space(s: Seq<char>) -> bool {
    exists|i: int| 0 <= i < s.len() && is_space(#[trigger] s[i])
}

/// `pat` stands in `s` at position `i`.
pub open spec fn stands_at(s: Seq<char>, pat: Seq<char>, i: int) -> bool {
    0 <= i && i + pat.len() <= s.len() && s.subrange(i, i + pat.len()) == pat
}

/// `pat` stands somewhere in `s`.
pub open spec fn has_text(s: Seq<char>, pat: Seq<char>) -> bool {
    exists|i: int| #[trigger] stands_at(s, pat, i)
}

/// `s` begins with `pat`.
pub open spec fn begins_with(s: Seq<char>, pat: Seq<char>) -> bool {
    stands_at(s, pat, 0)
}

/// `s` ends with `pat`.
pub open spec fn finishes_with(s: Seq<char>, pat: Seq<char>) -> bool {
    stands_at(s, pat, s.len() - pat.len())
}

/// What stands in `s` after the first `pat`, if `pat` stands there at all.
pub open spec fn after_first(s: Seq<char>, pat: Seq<char>) -> Option<Seq<char>>
    decreases s.len(),
{
    if begins_with(s, pat) {
        Some(s.skip(pat.len() as int))
    } else if s.len() == 0 {
        None
    } else {
        after_first(s.drop_first(), pat)
    }
}

/// `s` without the `c` that it begins with, however often it does.
pub open spec fn without_leading(s: Seq<char>, c: char) -> Seq<char>
    decreases s.len(),
{
    if s.len() > 0 && s[0] == c {
        without_leading(s.drop_first(), c)
    } else {
        s
    }
}

/// The position of the first `c` in `s`, or the length of `s` if there is none.
pub open spec fn first_of(s: Seq<char>, c: char) -> int
    decreases s.len(),
{
    if s.len() == 0 || s[0] == c {
        0
    } else {
        1 + first_of(s.drop_first(), c)
    }
}

/// The position of the first white space in `s`, or the length of `s`.
pub open spec fn first_space(s: Seq<char>) -> int
    decreases s.len(),
{
    if s.len() == 0 || is_space(s[0]) {
        0
    } else {
        1 + first_space(s.drop_first())
    }
}

/// A line that a line feed ended, without a carriage return before it.
pub open spec fn without_return(s: Seq<char>) -> Seq<char> {
    if s.len() > 0 && s.last() == '\r' {
        s.drop_last()
    } else {
        s
    }
}

/// The lines of `s`: what stands before each line feed, and what is left after
/// the last one unless nothing is.
pub open spec fn lines_of(s: Seq<char>) -> Seq<Seq<char>>
    decreases s.len(),
{
    if s.len() == 0 {
        Seq::empty()
    } else if first_of(s, '\n') == s.len() {
        seq![s]
    } else {
        proof {
            first_of_is_first(s, '\n');
        }
        seq![without_return(s.take(first_of(s, '\n')))] + lines_of(s.skip(first_of(s, '\n') + 1))
    }
}

/// The maximal runs of `s` that hold no white space.
pub open spec fn words_of(s: Seq<char>) -> Seq<Seq<char>>
    decreases s.len(),
{
    if s.len() == 0 {
        Seq::empty()
    } else if is_space(s[0]) {
        words_of(s.drop_first())
    } else {
        proof {
            first_space_is_first(s);
        }
        seq![s.take(first_space(s))] + words_of(s.skip(first_space(s)))
    }
}

/// `parts`, one after the other, with `sep` between them.
pub open spec fn joined(parts: Seq<Seq<char>>, sep: Seq<char>) -> Seq<char>
    decreases parts.len(),
{
    if parts.len() == 0 {
        Seq::empty()
    } else if parts.len() == 1 {
        parts[0]
    } else {
        joined(parts.drop_last(), sep) + sep + parts.last()
    }
}

/// The digit `d` as a character.
pub open spec fn digit(d: nat) -> char {
    ('0' as nat + d) as char
}

/// `n` in decimal, without leading zeros.
pub open spec fn decimal(n: nat) -> Seq<char>
    decreases n,
{
    if n < 10 {
        seq![digit(n)]
    } else {
        decimal(n / 10).push(digit(n % 10))
    }
}

/// `a` comes before `b` in the dictionary, or is `b`.
pub open spec fn ordered(a: Seq<char>, b: Seq<char>) -> bool
    decreases a.len(),
{
    if a.len() == 0 {
        true
    } else if b.len() == 0 {
        false
    } else if a[0] == b[0] {
        ordered(a.drop_first(), b.drop_first())
    } else {
        a[0] < b[0]
    }
}

/// How often `x` stands in a list.
pub open spec fn count_of(list: Seq<Seq<char>>, x: Seq<char>) -> nat
    decreases list.len(),
{
    if list.len() == 0 {
        0
    } else if list[0] == x {
        1 + count_of(list.drop_first(), x)
    } else {
        count_of(list.drop_first(), x)
    }
}

/// Somewhere in a list `key` is directly followed by `value`.
pub open spec fn says(list: Seq<Seq<char>>, key: Seq<char>, value: Seq<char>) -> bool {
    exists|i: int| 0 <= i < list.len() - 1 && #[trigger] list[i] == key && list[i + 1] == value
}

/// What stands after the first `key` in `s`, up to the next `stop` or the end.
pub open spec fn field(s: Seq<char>, key: Seq<char>, stop: char) -> Option<Seq<char>> {
    match after_first(s, key) {
        Some(rest) => Some(rest.take(first_of(rest, stop))),
        None => None,
    }
}

/// The parts of `s` between the places where it holds `c`.
pub open spec fn pieces(s: Seq<char>, c: char) -> Seq<Seq<char>>
    decreases s.len(),
{
    if lacks(s, c) {
        seq![s]
    } else {
        proof {
            first_of_is_first(s, c);
        }
        if first_of(s, c) < s.len() {
            seq![s.take(first_of(s, c))] + pieces(s.skip(first_of(s, c) + 1), c)
        } else {
            seq![s]
        }
    }
}

/// The number that a text means to a `u32` parser: digits with at most one plus
/// sign before them, and no more than fits.
pub open spec fn u32_of(s: Seq<char>) -> Option<u32> {
    let digits = if s.len() > 0 && s[0] == '+' {
        s.drop_first()
    } else {
        s
    };
    if digits.len() > 0 && all_digits(digits) && value_of(digits) <= u32::MAX {
        Some(value_of(digits) as u32)
    } else {
        None
    }
}

/// Every character of `s` is ASCII.
pub open spec fn is_ascii_text(s: Seq<char>) -> bool {
    forall|i: int| 0 <= i < s.len() ==> (#[trigger] s[i] as u32) < 128
}

/// An ASCII capital as its small letter; any other character as it is.
pub open spec fn ascii_lower(c: char) -> char {
    if 'A' <= c <= 'Z' {
        (c as u32 + 32) as char
    } else {
        c
    }
}

/// The Unicode lower-case form of a text.
pub uninterp spec fn lowercase(s: Seq<char>) -> Seq<char>;

/// `str::to_lowercase`: the Unicode lower-case form, which depends on the text
/// alone. On ASCII text it replaces each capital by its small letter.
pub assume_specification[ str::to_lowercase ](s: &str) -> (r: String)
    ensures
        r@ == lowercase(s@),
        is_ascii_text(s@) ==> r@ == s@.map_values(|c: char| ascii_lower(c)),
;

/// A text in lower case: letter by letter where it is ASCII, else its Unicode
/// form.
pub open spec fn lowered(s: Seq<char>) -> Seq<char> {
    if is_ascii_text(s) {
        s.map_values(|c: char| ascii_lower(c))
    } else {
        lowercase(s)
    }
}

/// `c` is a decimal digit.
pub open spec fn is_digit(c: char) -> bool {
    '0' <= c <= '9'
}

/// Every character of `s` is a decimal digit.
pub open spec fn all_digits(s: Seq<char>) -> bool {
    forall|i: int| 0 <= i < s.len() ==> is_digit(#[trigger] s[i])
}

/// The number that a string of decimal digits means.
pub open spec fn value_of(s: Seq<char>) -> nat
    decreases s.len(),
{
    if s.len() == 0 {
        0
    } else {
        (value_of(s.drop_last()) * 10 + (s.last() as int - '0' as int)) as nat
    }
}

/// `s` is how `decimal` would write some number.
pub open spec fn is_plain_decimal(s: Seq<char>) -> bool {
    s.len() > 0 && all_digits(s) && (s.len() > 1 ==> s[0] != '0')
}

// ---------------------------------------------------------------------------
// Facts about the model
// ---------------------------------------------------------------------------

/// `first_of` is the first position that holds `c`, if any does.
pub proof fn first_of_is_first(s: Seq<char>, c: char)
    ensures
        0 <= first_of(s, c) <= s.len(),
        first_of(s, c) < s.len() ==> s[first_of(s, c)] == c,
        forall|i: int| 0 <= i < first_of(s, c) ==> #[trigger] s[i] != c,
    decreases s.len(),
{
    if s.len() > 0 && s[0] != c {
        let t = s.drop_first();
        first_of_is_first(t, c);
        assert forall|i: int| 0 <= i < first_of(s, c) implies #[trigger] s[i] != c by {
            if i > 0 {
                assert(t[i - 1] == s[i]);
            }
        }
    }
}

/// A position that holds `c`, with none before it, is `first_of`.
pub proof fn first_of_unique(s: Seq<char>, c: char, n: int)
    requires
        0 <= n <= s.len(),
        n < s.len() ==> s[n] == c,
        forall|i: int| 0 <= i < n ==> #[trigger] s[i] != c,
    ensures
        first_of(s, c) == n,
{
    first_of_is_first(s, c);
    if first_of(s, c) < n {
        assert(s[first_of(s, c)] == c);
    }
}

/// `first_space` is the first position that holds white space, if any does.
pub proof fn first_space_is_first(s: Seq<char>)
    ensures
        0 <= first_space(s) <= s.len(),
        first_space(s) < s.len() ==> is_space(s[first_space(s)]),
        forall|i: int| 0 <= i < first_space(s) ==> !is_space(#[trigger] s[i]),
    decreases s.len(),
{
    if s.len() > 0 && !is_space(s[0]) {
        let t = s.drop_first();
        first_space_is_first(t);
        assert forall|i: int| 0 <= i < first_space(s) implies !is_space(#[trigger] s[i]) by {
            if i > 0 {
                assert(t[i - 1] == s[i]);
            }
        }
    }
}

/// A position that holds white space, with none before it, is `first_space`.
pub proof fn first_space_unique(s: Seq<char>, n: int)
    requires
        0 <= n <= s.len(),
        n < s.len() ==> is_space(s[n]),
        forall|i: int| 0 <= i < n ==> !is_space(#[trigger] s[i]),
    ensures
        first_space(s) == n,
{
    first_space_is_first(s);
    if first_space(s) < n {
        assert(is_space(s[first_space(s)]));
    }
}

/// `trimmed_start` drops exactly the white space before the first other character.
pub proof fn trimmed_start_unique(s: Seq<char>, n: int)
    requires
        0 <= n <= s.len(),
        n < s.len() ==> !is_space(s[n]),
        forall|i: int| 0 <= i < n ==> is_space(#[trigger] s[i]),
    ensures
        trimmed_start(s) == s.skip(n),
    decreases n,
{
    if n == 0 {
        assert(s.skip(0) =~= s);
    } else {
        let t = s.drop_first();
        assert forall|i: int| 0 <= i < n - 1 implies is_space(#[trigger] t[i]) by {
            assert(t[i] == s[i + 1]);
        }
        trimmed_start_unique(t, n - 1);
        assert(t.skip(n - 1) =~= s.skip(n));
        assert(is_space(s[0]));
    }
}

/// `trimmed_end` drops exactly the white space after the last other character.
pub proof fn trimmed_end_unique(s: Seq<char>, n: int)
    requires
        0 <= n <= s.len(),
        n > 0 ==> !is_space(s[n - 1]),
        forall|i: int| n <= i < s.len() ==> is_space(#[trigger] s[i]),
    ensures
        trimmed_end(s) == s.take(n),
    decreases s.len(),
{
    if n == s.len() {
        assert(s.take(n) =~= s);
    } else {
        let t = s.drop_last();
        assert(is_space(s.last()));
        trimmed_end_unique(t, n);
        assert(t.take(n) =~= s.take(n));
    }
}

/// What is left after trimming neither begins nor ends with white space.
pub proof fn trimmed_has_clean_ends(s: Seq<char>)
    ensures
        trimmed_start(s).len() <= s.len(),
        trimmed(s).len() > 0 ==> !is_space(trimmed(s)[0]) && !is_space(trimmed(s).last()),
{
    trimmed_start_is_clean(s);
    trimmed_end_is_clean(trimmed_start(s));
}

proof fn trimmed_start_is_clean(s: Seq<char>)
    ensures
        trimmed_start(s).len() <= s.len(),
        trimmed_start(s).len() > 0 ==> !is_space(trimmed_start(s)[0]),
    decreases s.len(),
{
    if s.len() > 0 && is_space(s[0]) {
        trimmed_start_is_clean(s.drop_first());
    }
}

proof fn trimmed_end_is_clean(s: Seq<char>)
    ensures
        trimmed_end(s).len() <= s.len(),
        trimmed_end(s).len() > 0 ==> !is_space(trimmed_end(s).last()) && trimmed_end(s)[0] == s[0],
    decreases s.len(),
{
    if s.len() > 0 && is_space(s.last()) {
        trimmed_end_is_clean(s.drop_last());
    }
}

/// Trimming twice is trimming once.
pub proof fn trimming_is_idempotent(s: Seq<char>)
    ensures
        trimmed(trimmed(s)) == trimmed(s),
{
    let t = trimmed(s);
    trimmed_has_clean_ends(s);
    if t.len() > 0 {
        assert(trimmed_start(t) == t);
        assert(trimmed_end(t) == t);
    }
}

/// White space at the end makes no difference once a text is trimmed.
pub proof fn trimming_drops_a_last_space(s: Seq<char>, c: char)
    requires
        is_space(c),
    ensures
        trimmed(s.push(c)) == trimmed(s),
        trimmed_start(s.push(c)) == (if trimmed_start(s).len() == 0 {
            Seq::empty()
        } else {
            trimmed_start(s).push(c)
        }),
{
    trimmed_start_of_longer(s, c);
    let head = trimmed_start(s);
    if head.len() > 0 {
        assert(head.push(c).drop_last() =~= head);
    } else {
        assert(head =~= Seq::empty());
    }
}

proof fn trimmed_start_of_longer(s: Seq<char>, c: char)
    requires
        is_space(c),
    ensures
        trimmed_start(s.push(c)) == (if trimmed_start(s).len() == 0 {
            Seq::empty()
        } else {
            trimmed_start(s).push(c)
        }),
    decreases s.len(),
{
    if s.len() == 0 {
        assert(s.push(c).drop_first() =~= Seq::empty());
        assert(trimmed_start(Seq::<char>::empty()) == Seq::<char>::empty());
    } else if is_space(s[0]) {
        assert(s.push(c).drop_first() =~= s.drop_first().push(c));
        trimmed_start_of_longer(s.drop_first(), c);
    }
}

/// A text of which trimming leaves nothing is all white space.
pub proof fn nothing_left_is_all_space(s: Seq<char>)
    requires
        trimmed_start(s).len() == 0,
    ensures
        forall|i: int| 0 <= i < s.len() ==> is_space(#[trigger] s[i]),
    decreases s.len(),
{
    if s.len() > 0 {
        nothing_left_is_all_space(s.drop_first());
        assert forall|i: int| 0 <= i < s.len() implies is_space(#[trigger] s[i]) by {
            if i > 0 {
                assert(s.drop_first()[i - 1] == s[i]);
            }
        }
    }
}

/// `c` stands nowhere in `s`.
pub open spec fn lacks(s: Seq<char>, c: char) -> bool {
    forall|i: int| 0 <= i < s.len() ==> #[trigger] s[i] != c
}

/// What is left after trimming holds no character that was not there before.
pub proof fn trimming_adds_nothing(s: Seq<char>, c: char)
    requires
        lacks(s, c),
    ensures
        lacks(trimmed(s), c),
{
    trimmed_start_adds_nothing(s, c);
    trimmed_end_adds_nothing(trimmed_start(s), c);
}

proof fn trimmed_start_adds_nothing(s: Seq<char>, c: char)
    requires
        lacks(s, c),
    ensures
        lacks(trimmed_start(s), c),
    decreases s.len(),
{
    if s.len() > 0 && is_space(s[0]) {
        assert forall|i: int| 0 <= i < s.drop_first().len() implies #[trigger] s.drop_first()[i] != c by {
            assert(s.drop_first()[i] == s[i + 1]);
        }
        trimmed_start_adds_nothing(s.drop_first(), c);
    }
}

proof fn trimmed_end_adds_nothing(s: Seq<char>, c: char)
    requires
        lacks(s, c),
    ensures
        lacks(trimmed_end(s), c),
    decreases s.len(),
{
    if s.len() > 0 && is_space(s.last()) {
        trimmed_end_adds_nothing(s.drop_last(), c);
    }
}

/// The lines of a text hold no character that the text does not.
pub proof fn lines_add_nothing(s: Seq<char>, c: char)
    requires
        lacks(s, c),
    ensures
        forall|i: int| 0 <= i < lines_of(s).len() ==> lacks(#[trigger] lines_of(s)[i], c),
    decreases s.len(),
{
    first_of_is_first(s, '\n');
    let end = first_of(s, '\n');
    if s.len() > 0 && end < s.len() {
        let rest = s.skip(end + 1);
        assert forall|i: int| 0 <= i < rest.len() implies #[trigger] rest[i] != c by {
            assert(rest[i] == s[i + end + 1]);
        }
        lines_add_nothing(rest, c);
        assert(lacks(without_return(s.take(end)), c));
        assert forall|i: int| 0 <= i < lines_of(s).len() implies lacks(#[trigger] lines_of(s)[i], c) by {
            if i > 0 {
                assert(lines_of(s)[i] == lines_of(rest)[i - 1]);
            }
        }
    }
}

/// What follows a line feed is read as lines of its own.
pub proof fn lines_split_at_a_feed(a: Seq<char>, b: Seq<char>)
    ensures
        lines_of(a.push('\n') + b) == lines_of(a.push('\n')) + lines_of(b),
    decreases a.len(),
{
    let ended = a.push('\n');
    let all = ended + b;
    first_of_is_first(a, '\n');
    let end = first_of(a, '\n');
    first_of_unique(ended, '\n', end);
    first_of_unique(all, '\n', end);
    assert(all.take(end) =~= a.take(end));
    assert(ended.take(end) =~= a.take(end));
    let line = without_return(a.take(end));
    if end == a.len() {
        assert(all.skip(end + 1) =~= b);
        assert(ended.skip(end + 1) =~= Seq::empty());
        assert(lines_of(Seq::<char>::empty()) == Seq::<Seq<char>>::empty());
        assert(lines_of(ended) =~= seq![line]);
        assert(lines_of(all) =~= lines_of(ended) + lines_of(b));
    } else {
        let rest = a.skip(end + 1);
        assert(all.skip(end + 1) =~= rest.push('\n') + b);
        assert(ended.skip(end + 1) =~= rest.push('\n'));
        lines_split_at_a_feed(rest, b);
        assert(lines_of(ended) == seq![line] + lines_of(rest.push('\n')));
        assert(lines_of(all) =~= lines_of(ended) + lines_of(b));
    }
}

/// A line feed at the end either ends the last line, which loses a carriage return,
/// or adds an empty one.
pub proof fn lines_of_an_ended_text(a: Seq<char>)
    ensures
        lines_of(a.push('\n')) == lines_of(a).push(Seq::empty()) || (lines_of(a).len() > 0 && lines_of(
            a.push('\n'),
        ) == lines_of(a).drop_last().push(without_return(lines_of(a).last()))),
    decreases a.len(),
{
    let ended = a.push('\n');
    first_of_is_first(a, '\n');
    let end = first_of(a, '\n');
    first_of_unique(ended, '\n', end);
    assert(ended.take(end) =~= a.take(end));
    let line = without_return(a.take(end));
    if end == a.len() {
        assert(a.take(end) =~= a);
        assert(ended.skip(end + 1) =~= Seq::empty());
        assert(lines_of(Seq::<char>::empty()) == Seq::<Seq<char>>::empty());
        assert(lines_of(ended) =~= seq![line]);
        if a.len() == 0 {
            assert(line =~= Seq::empty());
            assert(lines_of(ended) =~= lines_of(a).push(Seq::empty()));
        } else {
            assert(lines_of(ended) =~= lines_of(a).drop_last().push(without_return(lines_of(a).last())));
        }
    } else {
        let rest = a.skip(end + 1);
        assert(ended.skip(end + 1) =~= rest.push('\n'));
        lines_of_an_ended_text(rest);
        let l = lines_of(rest);
        let m = lines_of(rest.push('\n'));
        assert(lines_of(a) == seq![line] + l);
        assert(lines_of(ended) == seq![line] + m);
        if m == l.push(Seq::empty()) {
            assert(lines_of(ended) =~= lines_of(a).push(Seq::empty()));
        } else {
            assert(lines_of(a).last() == l.last());
            assert(lines_of(ended) =~= lines_of(a).drop_last().push(without_return(lines_of(a).last())));
        }
    }
}

/// What stands in two lists is counted in each.
pub proof fn counts_add_up(a: Seq<Seq<char>>, b: Seq<Seq<char>>, x: Seq<char>)
    ensures
        count_of(a + b, x) == count_of(a, x) + count_of(b, x),
    decreases a.len(),
{
    if a.len() == 0 {
        assert(a + b =~= b);
    } else {
        assert((a + b).drop_first() =~= a.drop_first() + b);
        counts_add_up(a.drop_first(), b, x);
    }
}

/// What stands nowhere in a list is counted zero times.
pub proof fn absent_counts_zero(list: Seq<Seq<char>>, x: Seq<char>)
    requires
        forall|i: int| 0 <= i < list.len() ==> #[trigger] list[i] != x,
    ensures
        count_of(list, x) == 0,
    decreases list.len(),
{
    if list.len() > 0 {
        let rest = list.drop_first();
        assert forall|i: int| 0 <= i < rest.len() implies #[trigger] rest[i] != x by {
            assert(rest[i] == list[i + 1]);
        }
        assert(list[0] != x);
        absent_counts_zero(rest, x);
    }
}

/// What stands at one position of a list and at no other is counted once.
pub proof fn unique_counts_one(list: Seq<Seq<char>>, x: Seq<char>, k: int)
    requires
        0 <= k < list.len(),
        list[k] == x,
        forall|i: int| 0 <= i < list.len() && i != k ==> #[trigger] list[i] != x,
    ensures
        count_of(list, x) == 1,
{
    let before = list.take(k);
    let after = list.skip(k + 1);
    assert(list =~= before + seq![x] + after);
    counts_add_up(before + seq![x], after, x);
    counts_add_up(before, seq![x], x);
    assert forall|i: int| 0 <= i < after.len() implies #[trigger] after[i] != x by {
        assert(after[i] == list[k + 1 + i]);
    }
    assert forall|i: int| 0 <= i < before.len() implies #[trigger] before[i] != x by {
        assert(before[i] == list[i]);
    }
    absent_counts_zero(before, x);
    absent_counts_zero(after, x);
    assert(seq![x].drop_first() =~= Seq::empty());
    assert(count_of(seq![x].drop_first(), x) == 0);
}

/// What stands in a list is counted.
pub proof fn counted_where_it_stands(list: Seq<Seq<char>>, x: Seq<char>, i: int)
    requires
        0 <= i < list.len(),
        list[i] == x,
    ensures
        count_of(list, x) >= 1,
    decreases list.len(),
{
    if i > 0 {
        assert(list.drop_first()[i - 1] == x);
        counted_where_it_stands(list.drop_first(), x, i - 1);
    }
}

/// What stands at two positions of a list is counted twice at least.
pub proof fn counted_twice_where_it_stands_twice(list: Seq<Seq<char>>, x: Seq<char>, i: int, j: int)
    requires
        0 <= i < j < list.len(),
        list[i] == x,
        list[j] == x,
    ensures
        count_of(list, x) >= 2,
{
    let before = list.take(j);
    let after = list.skip(j);
    assert(list =~= before + after);
    counts_add_up(before, after, x);
    assert(before[i] == x && after[0] == x);
    counted_where_it_stands(before, x, i);
    counted_where_it_stands(after, x, 0);
}

/// What a list says, it says as a part of a longer one.
pub proof fn parts_are_said(a: Seq<Seq<char>>, b: Seq<Seq<char>>, key: Seq<char>, value: Seq<char>)
    ensures
        says(a, key, value) || says(b, key, value) ==> says(a + b, key, value),
{
    let all = a + b;
    if says(a, key, value) {
        let i = choose|i: int| 0 <= i < a.len() - 1 && #[trigger] a[i] == key && a[i + 1] == value;
        assert(all[i] == key && all[i + 1] == value);
    }
    if says(b, key, value) {
        let i = choose|i: int| 0 <= i < b.len() - 1 && #[trigger] b[i] == key && b[i + 1] == value;
        assert(all[a.len() + i] == key && all[a.len() + i + 1] == value);
    }
}

/// A key whose first character does not stand before it is found where it stands.
pub proof fn keys_are_found(before: Seq<char>, key: Seq<char>, rest: Seq<char>)
    requires
        key.len() > 0,
        lacks(before, key[0]),
    ensures
        after_first(before + key + rest, key) == Some(rest),
    decreases before.len(),
{
    let s = before + key + rest;
    if before.len() == 0 {
        assert(s.subrange(0, key.len() as int) =~= key);
        assert(s.skip(key.len() as int) =~= rest);
    } else {
        assert(s[0] == before[0]);
        if begins_with(s, key) {
            assert(s.subrange(0, key.len() as int)[0] == s[0]);
        }
        assert(s.drop_first() =~= before.drop_first() + key + rest);
        assert(forall|i: int| 0 <= i < before.drop_first().len() ==> #[trigger] before.drop_first()[i] == before[i + 1]);
        keys_are_found(before.drop_first(), key, rest);
    }
}

/// A field is read where it was written: after its key, up to the next stop.
pub proof fn fields_are_read(before: Seq<char>, key: Seq<char>, value: Seq<char>, rest: Seq<char>, stop: char)
    requires
        key.len() > 0,
        lacks(before, key[0]),
        lacks(value, stop),
        rest.len() > 0 ==> rest[0] == stop,
    ensures
        field(before + key + value + rest, key, stop) == Some(value),
{
    assert(before + key + value + rest =~= before + key + (value + rest));
    keys_are_found(before, key, value + rest);
    let tail = value + rest;
    first_of_unique(tail, stop, value.len() as int);
    assert(tail.take(value.len() as int) =~= value);
}

/// A part and what follows its end are the pieces of both together.
pub proof fn pieces_split(a: Seq<char>, c: char, b: Seq<char>)
    requires
        lacks(a, c),
    ensures
        pieces(a + seq![c] + b, c) == seq![a] + pieces(b, c),
{
    let s = a + seq![c] + b;
    assert(s[a.len() as int] == c);
    assert forall|i: int| 0 <= i < a.len() implies #[trigger] s[i] != c by {
        assert(s[i] == a[i]);
    }
    first_of_unique(s, c, a.len() as int);
    assert(s.take(a.len() as int) =~= a);
    assert(s.skip(a.len() as int + 1) =~= b);
}

/// What neither of two texts holds, both together do not hold.
pub proof fn both_lack(a: Seq<char>, b: Seq<char>, c: char)
    requires
        lacks(a, c),
        lacks(b, c),
    ensures
        lacks(a + b, c),
{
    assert forall|i: int| 0 <= i < (a + b).len() implies #[trigger] (a + b)[i] != c by {
        if i < a.len() {
            assert((a + b)[i] == a[i]);
        } else {
            assert((a + b)[i] == b[i - a.len()]);
        }
    }
}

/// Joined parts that lack the separator are the pieces of the whole, whether or not
/// one more follows.
pub proof fn joined_parts_are_pieces(parts: Seq<Seq<char>>, c: char, last: Seq<char>)
    requires
        parts.len() > 0,
        forall|i: int| 0 <= i < parts.len() ==> lacks(#[trigger] parts[i], c),
    ensures
        pieces(joined(parts, seq![c]), c) == parts,
        pieces(joined(parts, seq![c]) + seq![c] + last, c) == parts + pieces(last, c),
    decreases parts.len(),
{
    let head = parts.drop_last();
    let end = parts.last();
    assert(lacks(end, c));
    pieces_split(end, c, last);
    assert(pieces(end, c) == seq![end]);
    if head.len() == 0 {
        assert(parts =~= seq![end]);
        assert(joined(parts, seq![c]) == end);
    } else {
        assert forall|i: int| 0 <= i < head.len() implies lacks(#[trigger] head[i], c) by {
            assert(head[i] == parts[i]);
        }
        joined_parts_are_pieces(head, c, end);
        joined_parts_are_pieces(head, c, end + seq![c] + last);
        assert(joined(parts, seq![c]) =~= joined(head, seq![c]) + seq![c] + end);
        assert(parts =~= head + seq![end]);
        assert(joined(parts, seq![c]) + seq![c] + last =~= joined(head, seq![c]) + seq![c] + (end + seq![c] + last));
        assert(parts + pieces(last, c) =~= head + (seq![end] + pieces(last, c)));
    }
}

/// What neither the parts nor the separator hold, the joined text does not hold.
pub proof fn joined_lacks(parts: Seq<Seq<char>>, sep: Seq<char>, c: char)
    requires
        lacks(sep, c),
        forall|i: int| 0 <= i < parts.len() ==> lacks(#[trigger] parts[i], c),
    ensures
        lacks(joined(parts, sep), c),
    decreases parts.len(),
{
    if parts.len() == 1 {
        assert(lacks(parts[0], c));
    } else if parts.len() > 1 {
        let head = parts.drop_last();
        assert forall|i: int| 0 <= i < head.len() implies lacks(#[trigger] head[i], c) by {
            assert(head[i] == parts[i]);
        }
        joined_lacks(head, sep, c);
        assert(lacks(parts[parts.len() - 1], c));
        both_lack(joined(head, sep), sep, c);
        both_lack(joined(head, sep) + sep, parts.last(), c);
    }
}

/// Parts joined by a separator and some padding are the pieces of the whole: the
/// first one behind its lead, each other one behind its padding.
pub proof fn padded_parts_are_pieces(lead: Seq<char>, parts: Seq<Seq<char>>, c: char, pad: Seq<char>)
    requires
        parts.len() > 0,
        lacks(lead, c),
        lacks(pad, c),
        forall|i: int| 0 <= i < parts.len() ==> lacks(#[trigger] parts[i], c),
    ensures
        pieces(lead + joined(parts, seq![c] + pad), c) == Seq::new(
            parts.len(),
            |i: int|
                if i == 0 {
                    lead + parts[0]
                } else {
                    pad + parts[i]
                },
        ),
{
    let padded = padded_parts(lead, parts, pad);
    padding_joins_the_parts(lead, parts, c, pad);
    assert forall|i: int| 0 <= i < padded.len() implies lacks(#[trigger] padded[i], c) by {
        assert(lacks(parts[i], c));
        if i == 0 {
            both_lack(lead, parts[0], c);
        } else {
            both_lack(pad, parts[i], c);
        }
    }
    joined_parts_are_pieces(padded, c, Seq::empty());
}

spec fn padded_parts(lead: Seq<char>, parts: Seq<Seq<char>>, pad: Seq<char>) -> Seq<Seq<char>> {
    Seq::new(
        parts.len(),
        |i: int|
            if i == 0 {
                lead + parts[0]
            } else {
                pad + parts[i]
            },
    )
}

proof fn padding_joins_the_parts(lead: Seq<char>, parts: Seq<Seq<char>>, c: char, pad: Seq<char>)
    requires
        parts.len() > 0,
    ensures
        lead + joined(parts, seq![c] + pad) == joined(padded_parts(lead, parts, pad), seq![c]),
    decreases parts.len(),
{
    let padded = padded_parts(lead, parts, pad);
    if parts.len() == 1 {
        assert(padded[0] == lead + parts[0]);
    } else {
        let head = parts.drop_last();
        padding_joins_the_parts(lead, head, c, pad);
        assert(padded.drop_last() =~= padded_parts(lead, head, pad));
        assert(lead + joined(parts, seq![c] + pad) =~= (lead + joined(head, seq![c] + pad)) + seq![c] + (pad
            + parts.last()));
    }
}

/// A pattern that stands nowhere earlier is found where it stands first.
pub proof fn first_occurrence_is_found(before: Seq<char>, pat: Seq<char>, rest: Seq<char>)
    requires
        forall|i: int| 0 <= i < before.len() ==> !stands_at(before + pat + rest, pat, i),
    ensures
        after_first(before + pat + rest, pat) == Some(rest),
    decreases before.len(),
{
    let s = before + pat + rest;
    if before.len() == 0 {
        assert(s.subrange(0, pat.len() as int) =~= pat);
        assert(s.skip(pat.len() as int) =~= rest);
    } else {
        assert(!stands_at(s, pat, 0));
        assert(!begins_with(s, pat));
        let tail = before.drop_first();
        let t = tail + pat + rest;
        assert(s.drop_first() =~= t);
        assert forall|i: int| 0 <= i < tail.len() implies !stands_at(t, pat, i) by {
            assert(!stands_at(s, pat, i + 1));
            if stands_at(t, pat, i) {
                assert(s.subrange(i + 1, i + 1 + pat.len()) =~= t.subrange(i, i + pat.len()));
            }
        }
        first_occurrence_is_found(tail, pat, rest);
    }
}

/// A text without white space is its only word, with or without white space behind
/// it.
pub proof fn lone_words_are_read(word: Seq<char>, space: Seq<char>)
    requires
        word.len() > 0,
        forall|i: int| 0 <= i < word.len() ==> !is_space(#[trigger] word[i]),
        forall|i: int| 0 <= i < space.len() ==> is_space(#[trigger] space[i]),
    ensures
        words_of(word + space) == seq![word],
{
    let s = word + space;
    assert(s[0] == word[0]);
    assert forall|i: int| 0 <= i < word.len() implies !is_space(#[trigger] s[i]) by {
        assert(s[i] == word[i]);
    }
    if space.len() > 0 {
        assert(s[word.len() as int] == space[0]);
    }
    first_space_unique(s, word.len() as int);
    assert(s.take(word.len() as int) =~= word);
    assert(s.skip(word.len() as int) =~= space);
    spaces_hold_no_word(space);
    assert(words_of(s) =~= seq![word] + words_of(space));
}

/// White space parts the words before it from those behind it.
pub proof fn words_are_parted(a: Seq<char>, c: char, b: Seq<char>)
    requires
        is_space(c),
    ensures
        words_of(a + seq![c] + b) == words_of(a) + words_of(b),
    decreases a.len(),
{
    let s = a + seq![c] + b;
    if a.len() == 0 {
        assert(s.drop_first() =~= b);
        assert(words_of(s) =~= words_of(b));
        assert(words_of(a) + words_of(b) =~= words_of(b));
    } else if is_space(a[0]) {
        assert(s[0] == a[0]);
        assert(s.drop_first() =~= a.drop_first() + seq![c] + b);
        words_are_parted(a.drop_first(), c, b);
    } else {
        assert(s[0] == a[0]);
        first_space_is_first(a);
        let n = first_space(a);
        assert(n > 0) by {
            if n == 0 {
                assert(is_space(a[0]));
            }
        }
        assert forall|i: int| 0 <= i < n implies !is_space(#[trigger] s[i]) by {
            assert(s[i] == a[i]);
        }
        if n < a.len() {
            assert(s[n] == a[n]);
            first_space_unique(s, n);
            assert(s.take(n) =~= a.take(n));
            assert(s.skip(n) =~= a.skip(n) + seq![c] + b);
            words_are_parted(a.skip(n), c, b);
            assert(words_of(s) =~= seq![a.take(n)] + (words_of(a.skip(n)) + words_of(b)));
        } else {
            assert(s[n] == c);
            first_space_unique(s, n);
            assert(s.take(n) =~= a.take(n));
            let rest = s.skip(n);
            assert(rest =~= seq![c] + b);
            assert(rest[0] == c);
            assert(rest.drop_first() =~= b);
            assert(words_of(rest) == words_of(b));
            assert(words_of(a.skip(n)) =~= Seq::empty());
            assert(words_of(s) =~= seq![a.take(n)] + words_of(b));
        }
        assert(words_of(s) =~= words_of(a) + words_of(b));
    }
}

/// White space alone holds no word.
proof fn spaces_hold_no_word(space: Seq<char>)
    requires
        forall|i: int| 0 <= i < space.len() ==> is_space(#[trigger] space[i]),
    ensures
        words_of(space) == Seq::<Seq<char>>::empty(),
    decreases space.len(),
{
    if space.len() > 0 {
        assert(is_space(space[0]));
        let rest = space.drop_first();
        assert forall|i: int| 0 <= i < rest.len() implies is_space(#[trigger] rest[i]) by {
            assert(rest[i] == space[i + 1]);
        }
        spaces_hold_no_word(rest);
    }
}

/// A line that ends as network protocols end theirs is the first line of the text.
pub proof fn first_line_is_read(line: Seq<char>, rest: Seq<char>)
    requires
        lacks(line, '\n'),
    ensures
        lines_of(line + "\r\n"@ + rest) == seq![line] + lines_of(rest),
{
    reveal_strlit("\r\n");
    let s = line + "\r\n"@ + rest;
    let n = line.len() + 1;
    assert(s[n as int] == '\n');
    assert forall|i: int| 0 <= i < n implies #[trigger] s[i] != '\n' by {
        if i < line.len() {
            assert(s[i] == line[i]);
        }
    }
    first_of_unique(s, '\n', n as int);
    let taken = s.take(n as int);
    assert(taken.last() == '\r');
    assert(taken.drop_last() =~= line);
    assert(s.skip(n as int + 1) =~= rest);
}

/// A number in decimal holds nothing but digits.
pub proof fn decimals_lack(n: nat, c: char)
    requires
        !is_digit(c),
    ensures
        lacks(decimal(n), c),
{
    decimal_is_plain(n);
    assert forall|i: int| 0 <= i < decimal(n).len() implies #[trigger] decimal(n)[i] != c by {
        assert(is_digit(decimal(n)[i]));
    }
}

/// A number in decimal is a plain decimal that means the number.
pub proof fn decimal_is_plain(n: nat)
    ensures
        is_plain_decimal(decimal(n)),
        value_of(decimal(n)) == n,
        n >= 10 ==> decimal(n).len() >= 2,
    decreases n,
{
    if n < 10 {
        assert(decimal(n).drop_last() =~= Seq::empty());
        assert(value_of(Seq::empty()) == 0);
    } else {
        decimal_is_plain(n / 10);
        let t = decimal(n / 10);
        let s = decimal(n);
        assert(s.drop_last() =~= t);
        assert forall|i: int| 0 <= i < s.len() implies is_digit(#[trigger] s[i]) by {
            if i < t.len() {
                assert(is_digit(t[i]));
            }
        }
        if t.len() == 1 {
            assert(t.drop_last() =~= Seq::empty());
            assert(n / 10 >= 1);
        }
    }
}

/// A plain decimal is what its number is written as.
pub proof fn plain_is_decimal(s: Seq<char>)
    requires
        is_plain_decimal(s),
    ensures
        decimal(value_of(s)) == s,
        s.len() > 1 ==> value_of(s) >= 10,
        s[0] != '0' ==> value_of(s) >= 1,
    decreases s.len(),
{
    let t = s.drop_last();
    assert(is_digit(s.last()));
    if s.len() == 1 {
        assert(t =~= Seq::empty());
        assert(value_of(t) == 0);
        assert(decimal(value_of(s)) =~= s);
    } else {
        assert forall|i: int| 0 <= i < t.len() implies is_digit(#[trigger] t[i]) by {
            assert(is_digit(s[i]));
        }
        assert(t[0] == s[0]);
        plain_is_decimal(t);
        assert(value_of(t) >= 1);
        assert(value_of(s) / 10 == value_of(t));
        assert(decimal(value_of(s)) =~= s);
    }
}

/// Two numbers that are written alike are the same.
pub proof fn decimal_is_injective(a: nat, b: nat)
    requires
        decimal(a) == decimal(b),
    ensures
        a == b,
{
    decimal_is_plain(a);
    decimal_is_plain(b);
}

/// The number of digits of a small number.
pub proof fn decimal_length(n: nat)
    requires
        n < 1000,
    ensures
        1 <= decimal(n).len() <= 3,
{
    reveal_with_fuel(decimal, 4);
}

/// A string of digits means less than ten to the power of its length.
pub proof fn three_digits_are_small(s: Seq<char>)
    requires
        all_digits(s),
        s.len() <= 3,
    ensures
        value_of(s) < 1000,
{
    reveal_with_fuel(value_of, 4);
    assert(forall|i: int| 0 <= i < s.len() ==> is_digit(#[trigger] s[i]));
    if s.len() > 0 {
        assert(is_digit(s.last()));
        let t = s.drop_last();
        if t.len() > 0 {
            assert(t.last() == s[s.len() - 2]);
            let u = t.drop_last();
            if u.len() > 0 {
                assert(u.last() == s[s.len() - 3]);
            }
        }
    }
}

/// A text that is shorter than a pattern does not hold it.
proof fn too_short_for(s: Seq<char>, pat: Seq<char>)
    requires
        s.len() < pat.len(),
    ensures
        after_first(s, pat) is None,
    decreases s.len(),
{
    if s.len() > 0 {
        too_short_for(s.drop_first(), pat);
    }
}

/// The dictionary order is total.
pub proof fn ordered_is_total(a: Seq<char>, b: Seq<char>)
    ensures
        ordered(a, b) || ordered(b, a),
    decreases a.len(),
{
    if a.len() > 0 && b.len() > 0 && a[0] == b[0] {
        ordered_is_total(a.drop_first(), b.drop_first());
    }
}

/// The dictionary order is transitive.
pub proof fn ordered_is_transitive(a: Seq<char>, b: Seq<char>, c: Seq<char>)
    requires
        ordered(a, b),
        ordered(b, c),
    ensures
        ordered(a, c),
    decreases a.len(),
{
    if a.len() > 0 && b.len() > 0 && c.len() > 0 && a[0] == b[0] && b[0] == c[0] {
        ordered_is_transitive(a.drop_first(), b.drop_first(), c.drop_first());
    }
}

/// Cutting digits off the end of a number never makes it larger.
proof fn value_of_prefix(s: Seq<char>, n: int)
    requires
        all_digits(s),
        0 <= n <= s.len(),
    ensures
        value_of(s.take(n)) <= value_of(s),
    decreases s.len() - n,
{
    if n == s.len() {
        assert(s.take(n) =~= s);
    } else {
        value_of_prefix(s, n + 1);
        assert(s.take(n + 1).drop_last() =~= s.take(n));
        assert(is_digit(s[n]));
    }
}

// ---------------------------------------------------------------------------
// Functions
// ---------------------------------------------------------------------------

/// The characters of a string.
pub fn chars_of(s: &str) -> (r: Vec<char>)
    ensures
        r@ == s@,
{
    let mut out: Vec<char> = Vec::new();
    for c in it: s.chars()
        invariant
            out@ == it.seq().take(it.index() as int),
    {
        out.push(c);
    }
    out
}

/// The value of a decimal digit.
pub fn digit_value(c: char) -> (r: u32)
    requires
        is_digit(c),
    ensures
        r == c as int - '0' as int,
{
    c as u32 - 48
}

/// Whether `c` is white space.
pub fn space(c: char) -> (r: bool)
    ensures
        r == is_space(c),
{
    ('\u{9}' <= c && c <= '\u{d}') || c == ' ' || c == '\u{85}' || c == '\u{a0}' || c == '\u{1680}'
        || ('\u{2000}' <= c && c <= '\u{200a}') || c == '\u{2028}' || c == '\u{2029}' || c
        == '\u{202f}' || c == '\u{205f}' || c == '\u{3000}'
}

/// `s` in lower case.
pub fn lower(s: &str) -> (r: String)
    ensures
        r@ == lowered(s@),
{
    s.to_lowercase()
}

/// Whether two strings hold the same characters.
pub fn same_text(a: &str, b: &str) -> (r: bool)
    ensures
        r == (a@ == b@),
{
    let x: String = a.to_owned();
    let y: String = b.to_owned();
    x == y
}

/// `s` without its leading white space.
pub fn trim_start(s: &str) -> (r: &str)
    ensures
        r@ == trimmed_start(s@),
{
    let chars = chars_of(s);
    let n: usize = chars.len();
    let mut from: usize = 0;
    while from < n && space(chars[from])
        invariant
            chars@ == s@,
            n == s@.len(),
            from <= n,
            forall|i: int| 0 <= i < from ==> is_space(#[trigger] s@[i]),
        decreases n - from,
    {
        from += 1;
    }
    proof {
        trimmed_start_unique(s@, from as int);
        assert(s@.skip(from as int) =~= s@.subrange(from as int, n as int));
    }
    s.substring_char(from, n)
}

/// `s` without the white space around it.
pub fn trim(s: &str) -> (r: &str)
    ensures
        r@ == trimmed(s@),
{
    let chars = chars_of(s);
    let n: usize = chars.len();
    let mut from: usize = 0;
    while from < n && space(chars[from])
        invariant
            chars@ == s@,
            n == s@.len(),
            from <= n,
            forall|i: int| 0 <= i < from ==> is_space(#[trigger] s@[i]),
        decreases n - from,
    {
        from += 1;
    }
    proof {
        trimmed_start_unique(s@, from as int);
    }
    let mut to: usize = n;
    while to > from && space(chars[to - 1])
        invariant
            chars@ == s@,
            n == s@.len(),
            from <= to <= n,
            forall|i: int| to <= i < n ==> is_space(#[trigger] s@[i]),
        decreases to,
    {
        to -= 1;
    }
    proof {
        let t = s@.skip(from as int);
        assert forall|i: int| to - from <= i < t.len() implies is_space(#[trigger] t[i]) by {
            assert(t[i] == s@[i + from]);
        }
        trimmed_end_unique(t, to - from);
        assert(t.take(to - from) =~= s@.subrange(from as int, to as int));
    }
    s.substring_char(from, to)
}

/// Whether `s` holds some white space.
pub fn contains_space(s: &str) -> (r: bool)
    ensures
        r == has_space(s@),
{
    for c in it: s.chars()
        invariant
            it.seq() == s@,
            forall|i: int| 0 <= i < it.index() ==> !is_space(#[trigger] s@[i]),
    {
        if space(c) {
            assert(is_space(s@[it.index() as int]));
            return true;
        }
    }
    false
}

/// Whether `pat` stands in `s` at position `at`.
fn matches_at(s: &Vec<char>, pat: &Vec<char>, at: usize) -> (r: bool)
    requires
        at + pat@.len() <= s@.len(),
    ensures
        r == stands_at(s@, pat@, at as int),
{
    let n: usize = pat.len();
    let total: usize = s.len();
    for i in 0..n
        invariant
            n == pat@.len(),
            total == s@.len(),
            at + n <= total,
            forall|j: int| 0 <= j < i ==> s@[at + j] == #[trigger] pat@[j],
    {
        if s[at + i] != pat[i] {
            assert(s@.subrange(at as int, at + n)[i as int] != pat@[i as int]);
            return false;
        }
    }
    assert(s@.subrange(at as int, at + n) =~= pat@);
    true
}

/// Whether `pat` stands somewhere in `s`.
pub fn contains(s: &str, pat: &str) -> (r: bool)
    ensures
        r == has_text(s@, pat@),
{
    let chars = chars_of(s);
    let want = chars_of(pat);
    let n: usize = chars.len();
    let m: usize = want.len();
    if m > n {
        return false;
    }
    let mut i: usize = 0;
    while i < n - m
        invariant
            chars@ == s@,
            want@ == pat@,
            n == s@.len(),
            m == pat@.len(),
            i <= n - m,
            m <= n,
            forall|j: int| 0 <= j < i ==> !#[trigger] stands_at(s@, pat@, j),
        decreases n - m - i,
    {
        if matches_at(&chars, &want, i) {
            return true;
        }
        i += 1;
    }
    matches_at(&chars, &want, i)
}

/// What stands in `s` after the first `pat`, if `pat` stands there at all.
pub fn rest_after<'a>(s: &'a str, pat: &str) -> (r: Option<&'a str>)
    ensures
        match r {
            Some(rest) => after_first(s@, pat@) == Some(rest@),
            None => after_first(s@, pat@) is None,
        },
{
    let chars = chars_of(s);
    let want = chars_of(pat);
    let n: usize = chars.len();
    let m: usize = want.len();
    let mut i: usize = 0;
    assert(s@.skip(0) =~= s@);
    while i < n && m <= n - i
        invariant
            chars@ == s@,
            want@ == pat@,
            n == s@.len(),
            m == pat@.len(),
            i <= n,
            after_first(s@, pat@) == after_first(s@.skip(i as int), pat@),
        decreases n - i,
    {
        let ghost rest = s@.skip(i as int);
        if matches_at(&chars, &want, i) {
            assert(rest.subrange(0, m as int) =~= s@.subrange(i as int, i + m));
            assert(rest.skip(m as int) =~= s@.subrange(i + m, n as int));
            return Some(s.substring_char(i + m, n));
        }
        proof {
            if begins_with(rest, pat@) {
                assert(rest.subrange(0, m as int) =~= s@.subrange(i as int, i + m));
            }
            assert(rest.drop_first() =~= s@.skip(i + 1));
        }
        i += 1;
    }
    if m == 0 {
        assert(s@.skip(i as int).len() == 0);
        assert(s@.skip(i as int).subrange(0, 0) =~= pat@);
        assert(s@.skip(i as int).skip(0) =~= s@.subrange(n as int, n as int));
        return Some(s.substring_char(n, n));
    }
    proof {
        too_short_for(s@.skip(i as int), pat@);
    }
    None
}

/// `s` without the `c` that it begins with, however often it does.
pub fn trim_leading(s: &str, c: char) -> (r: &str)
    ensures
        r@ == without_leading(s@, c),
{
    let chars = chars_of(s);
    let n: usize = chars.len();
    let mut i: usize = 0;
    assert(s@.skip(0) =~= s@);
    while i < n && chars[i] == c
        invariant
            chars@ == s@,
            n == s@.len(),
            i <= n,
            without_leading(s@, c) == without_leading(s@.skip(i as int), c),
        decreases n - i,
    {
        assert(s@.skip(i as int).drop_first() =~= s@.skip(i + 1));
        i += 1;
    }
    assert(s@.subrange(i as int, n as int) =~= s@.skip(i as int));
    s.substring_char(i, n)
}

/// Whether `s` begins with `pat`.
pub fn starts_with(s: &str, pat: &str) -> (r: bool)
    ensures
        r == begins_with(s@, pat@),
{
    let chars = chars_of(s);
    let want = chars_of(pat);
    want.len() <= chars.len() && matches_at(&chars, &want, 0)
}

/// Whether `s` ends with `pat`.
pub fn ends_with(s: &str, pat: &str) -> (r: bool)
    ensures
        r == finishes_with(s@, pat@),
{
    let chars = chars_of(s);
    let want = chars_of(pat);
    want.len() <= chars.len() && matches_at(&chars, &want, chars.len() - want.len())
}

/// The position of the first `c` at or after `from`, or the length of `chars`.
pub fn find_from(chars: &Vec<char>, c: char, from: usize) -> (r: usize)
    requires
        from <= chars@.len(),
    ensures
        r == from + first_of(chars@.skip(from as int), c),
        from <= r <= chars@.len(),
        r < chars@.len() ==> chars@[r as int] == c,
{
    let n: usize = chars.len();
    let mut i: usize = from;
    while i < n && chars[i] != c
        invariant
            n == chars@.len(),
            from <= i <= n,
            forall|j: int| from <= j < i ==> #[trigger] chars@[j] != c,
        decreases n - i,
    {
        i += 1;
    }
    proof {
        let t = chars@.skip(from as int);
        assert forall|j: int| 0 <= j < i - from implies #[trigger] t[j] != c by {
            assert(t[j] == chars@[j + from]);
        }
        first_of_unique(t, c, i - from);
    }
    i
}

/// The lines of `s`.
pub fn lines(s: &str) -> (r: Vec<String>)
    ensures
        texts(r@) == lines_of(s@),
{
    let chars = chars_of(s);
    let n: usize = chars.len();
    let mut out: Vec<String> = Vec::new();
    let mut at: usize = 0;
    proof {
        assert(s@.skip(0) =~= s@);
        assert(texts(out@) + lines_of(s@) =~= lines_of(s@));
    }
    while at < n
        invariant
            chars@ == s@,
            n == s@.len(),
            at <= n,
            texts(out@) + lines_of(s@.skip(at as int)) == lines_of(s@),
        decreases n - at,
    {
        let ghost rest = s@.skip(at as int);
        let ghost before = out@;
        let end: usize = find_from(&chars, '\n', at);
        if end == n {
            out.push(s.substring_char(at, n).to_string());
            proof {
                assert(s@.subrange(at as int, n as int) =~= rest);
                assert(lines_of(rest) == seq![rest]);
                assert(texts(out@) =~= texts(before) + seq![rest]);
                assert(s@.skip(n as int).len() == 0);
                assert(texts(out@) + lines_of(s@.skip(n as int)) =~= texts(out@));
            }
            at = n;
        } else {
            let mut to: usize = end;
            if to > at && chars[to - 1] == '\r' {
                to -= 1;
            }
            out.push(s.substring_char(at, to).to_string());
            proof {
                let line = without_return(rest.take(end - at));
                assert(s@.subrange(at as int, to as int) =~= line);
                assert(rest.skip(end - at + 1) =~= s@.skip(end + 1));
                assert(lines_of(rest) == seq![line] + lines_of(s@.skip(end + 1)));
                assert(texts(out@) =~= texts(before).push(line));
                assert(texts(out@) + lines_of(s@.skip(end + 1)) =~= texts(before) + lines_of(rest));
            }
            at = end + 1;
        }
    }
    proof {
        assert(s@.skip(at as int).len() == 0);
        assert(texts(out@) + lines_of(s@.skip(at as int)) =~= texts(out@));
    }
    out
}

/// The maximal runs of `s` that hold no white space.
pub fn words(s: &str) -> (r: Vec<String>)
    ensures
        texts(r@) == words_of(s@),
{
    let chars = chars_of(s);
    let n: usize = chars.len();
    let mut out: Vec<String> = Vec::new();
    let mut at: usize = 0;
    proof {
        assert(s@.skip(0) =~= s@);
        assert(texts(out@) + words_of(s@) =~= words_of(s@));
    }
    while at < n
        invariant
            chars@ == s@,
            n == s@.len(),
            at <= n,
            texts(out@) + words_of(s@.skip(at as int)) == words_of(s@),
        decreases n - at,
    {
        let ghost rest = s@.skip(at as int);
        let ghost before = out@;
        if space(chars[at]) {
            assert(rest.drop_first() =~= s@.skip(at + 1));
            at += 1;
        } else {
            let mut end: usize = at;
            while end < n && !space(chars[end])
                invariant
                    chars@ == s@,
                    n == s@.len(),
                    at <= end <= n,
                    forall|j: int| at <= j < end ==> !is_space(#[trigger] s@[j]),
                decreases n - end,
            {
                end += 1;
            }
            out.push(s.substring_char(at, end).to_string());
            proof {
                assert forall|j: int| 0 <= j < end - at implies !is_space(#[trigger] rest[j]) by {
                    assert(rest[j] == s@[j + at]);
                }
                first_space_unique(rest, end - at);
                let word = rest.take(end - at);
                assert(s@.subrange(at as int, end as int) =~= word);
                assert(rest.skip(end - at) =~= s@.skip(end as int));
                assert(texts(out@) =~= texts(before).push(word));
                assert(texts(out@) + words_of(s@.skip(end as int)) =~= texts(before) + words_of(rest));
                assert(!is_space(rest[0]));
                assert(end > at);
            }
            at = end;
        }
    }
    proof {
        assert(s@.skip(at as int).len() == 0);
        assert(texts(out@) + words_of(s@.skip(at as int)) =~= texts(out@));
    }
    out
}

/// `parts`, one after the other, with `sep` between them.
pub fn join(parts: &Vec<String>, sep: &str) -> (r: String)
    ensures
        r@ == joined(texts(parts@), sep@),
{
    let n: usize = parts.len();
    if n == 0 {
        return String::new();
    }
    let mut out: String = parts[0].clone();
    let ghost all = texts(parts@);
    proof {
        assert(all.take(1).len() == 1);
        assert(all.take(1)[0] == parts@[0]@);
    }
    for i in 1..n
        invariant
            n == parts@.len(),
            all == texts(parts@),
            out@ == joined(all.take(i as int), sep@),
    {
        out.append(sep);
        out.append(parts[i].as_str());
        proof {
            let t = all.take(i + 1);
            assert(t.drop_last() =~= all.take(i as int));
            assert(t.last() == parts@[i as int]@);
        }
    }
    assert(all.take(n as int) =~= all);
    out
}

/// The digit `d` as a string.
fn digit_text(d: u64) -> (r: &'static str)
    requires
        d < 10,
    ensures
        r@ == seq![digit(d as nat)],
{
    proof {
        reveal_strlit("0");
        reveal_strlit("1");
        reveal_strlit("2");
        reveal_strlit("3");
        reveal_strlit("4");
        reveal_strlit("5");
        reveal_strlit("6");
        reveal_strlit("7");
        reveal_strlit("8");
        reveal_strlit("9");
    }
    let r: &'static str = match d {
        0 => "0",
        1 => "1",
        2 => "2",
        3 => "3",
        4 => "4",
        5 => "5",
        6 => "6",
        7 => "7",
        8 => "8",
        _ => "9",
    };
    assert(r@ =~= seq![digit(d as nat)]);
    r
}

/// `n` in decimal.
pub fn number(n: u64) -> (r: String)
    ensures
        r@ == decimal(n as nat),
    decreases n,
{
    if n < 10 {
        digit_text(n).to_string()
    } else {
        let mut out: String = number(n / 10);
        out.append(digit_text(n % 10));
        assert(out@ =~= decimal(n as nat));
        out
    }
}

/// Whether `a` comes before `b` in the dictionary, or is `b`.
pub fn not_after(a: &str, b: &str) -> (r: bool)
    ensures
        r == ordered(a@, b@),
{
    let x = chars_of(a);
    let y = chars_of(b);
    let n: usize = x.len();
    let m: usize = y.len();
    let mut i: usize = 0;
    assert(a@.skip(0) =~= a@ && b@.skip(0) =~= b@);
    while i < n && i < m && x[i] == y[i]
        invariant
            x@ == a@,
            y@ == b@,
            n == a@.len(),
            m == b@.len(),
            i <= n,
            i <= m,
            ordered(a@, b@) == ordered(a@.skip(i as int), b@.skip(i as int)),
        decreases n - i,
    {
        assert(a@.skip(i as int).drop_first() =~= a@.skip(i + 1));
        assert(b@.skip(i as int).drop_first() =~= b@.skip(i + 1));
        i += 1;
    }
    if i == n {
        true
    } else if i == m {
        false
    } else {
        x[i] < y[i]
    }
}

/// The number that a text means, if it means one that fits.
pub fn parse_u32(s: &str) -> (r: Option<u32>)
    ensures
        r == u32_of(s@),
{
    let chars = chars_of(s);
    let n: usize = chars.len();
    let from: usize = if n > 0 && chars[0] == '+' {
        1
    } else {
        0
    };
    let ghost digits = s@.skip(from as int);
    proof {
        assert(s@.skip(0) =~= s@);
        if from == 1 {
            assert(s@.drop_first() =~= digits);
        }
    }
    if from == n {
        return None;
    }
    let mut total: u64 = 0;
    let mut i: usize = from;
    assert(digits.take(0) =~= Seq::empty());
    while i < n
        invariant
            chars@ == s@,
            n == s@.len(),
            from <= i <= n,
            digits == s@.skip(from as int),
            digits == (if s@.len() > 0 && s@[0] == '+' {
                s@.drop_first()
            } else {
                s@
            }),
            all_digits(digits.take(i - from)),
            total == value_of(digits.take(i - from)),
            total <= u32::MAX,
        decreases n - i,
    {
        let c = chars[i];
        assert(digits[i - from] == c);
        if !('0' <= c && c <= '9') {
            assert(!is_digit(digits[i - from]));
            return None;
        }
        let ghost next = digits.take(i - from + 1);
        proof {
            assert(next.drop_last() =~= digits.take(i - from));
            assert(next.last() == c);
            assert forall|k: int| 0 <= k < next.len() implies is_digit(#[trigger] next[k]) by {
                if k < i - from {
                    assert(digits.take(i - from)[k] == next[k]);
                }
            }
        }
        total = total * 10 + digit_value(c) as u64;
        if total > u32::MAX as u64 {
            proof {
                if all_digits(digits) {
                    value_of_prefix(digits, i - from + 1);
                }
            }
            return None;
        }
        i += 1;
    }
    assert(digits.take(n - from) =~= digits);
    Some(total as u32)
}

/// Append copies of `items` to a list of strings.
pub fn push_all(list: &mut Vec<String>, items: &[&str])
    ensures
        texts(final(list)@) == texts(old(list)@) + strs(items@),
{
    let ghost before = list@;
    let n: usize = items.len();
    for i in 0..n
        invariant
            n == items@.len(),
            texts(list@) == texts(before) + strs(items@).take(i as int),
    {
        let ghost sofar = list@;
        list.push(items[i].to_string());
        proof {
            assert(texts(list@) =~= texts(sofar).push(items@[i as int]@));
            assert(strs(items@).take(i + 1) =~= strs(items@).take(i as int).push(items@[i as int]@));
        }
    }
    assert(strs(items@).take(n as int) =~= strs(items@));
}

/// Append a string to a list of strings.
pub fn push_text(list: &mut Vec<String>, item: String)
    ensures
        texts(final(list)@) == texts(old(list)@).push(item@),
{
    list.push(item);
    assert(texts(list@) =~= texts(old(list)@).push(item@));
}

/// Whether `list` holds `s`.
pub fn list_has(list: &[String], s: &str) -> (r: bool)
    ensures
        r == texts(list@).contains(s@),
{
    let n: usize = list.len();
    for i in 0..n
        invariant
            n == list@.len(),
            forall|j: int| 0 <= j < i ==> (#[trigger] texts(list@)[j]) != s@,
    {
        if same_text(list[i].as_str(), s) {
            assert(texts(list@)[i as int] == s@);
            return true;
        }
    }
    false
}

// ---------------------------------------------------------------------------
// Laws
// ---------------------------------------------------------------------------

/// Texts are ordered by the first character in which they differ; one that goes on comes
/// after its beginning.
pub proof fn texts_are_ordered_by_the_first_difference(
    same: Seq<char>,
    x: char,
    a: Seq<char>,
    y: char,
    b: Seq<char>,
)
    ensures
        x != y ==> (ordered(same + seq![x] + a, same + seq![y] + b) <==> x < y),
        ordered(same, same + a),
        a.len() > 0 ==> !ordered(same + a, same),
    decreases same.len(),
{
    let p = same + seq![x] + a;
    let q = same + seq![y] + b;
    let longer = same + a;
    if same.len() == 0 {
        assert(p[0] == x && q[0] == y);
        assert(longer =~= a);
    } else {
        let rest = same.drop_first();
        assert(p.drop_first() =~= rest + seq![x] + a);
        assert(q.drop_first() =~= rest + seq![y] + b);
        assert(longer.drop_first() =~= rest + a);
        assert(p[0] == same[0] && q[0] == same[0] && longer[0] == same[0]);
        texts_are_ordered_by_the_first_difference(rest, x, a, y, b);
    }
}

/// A number is read back from its decimal form, with or without a plus sign; a text with
/// anything but digits is none.
pub proof fn numbers_read_back(n: u32, s: Seq<char>)
    ensures
        u32_of(decimal(n as nat)) == Some(n),
        u32_of(seq!['+'] + decimal(n as nat)) == Some(n),
        u32_of(s) is Some ==> forall|i: int| 1 <= i < s.len() ==> is_digit(#[trigger] s[i]),
        s.len() == 0 ==> u32_of(s) is None,
{
    let d = decimal(n as nat);
    decimal_is_plain(n as nat);
    assert(is_digit(d[0]));
    let signed = seq!['+'] + d;
    assert(signed[0] == '+');
    assert(signed.drop_first() =~= d);
    if u32_of(s) is Some {
        assert forall|i: int| 1 <= i < s.len() implies is_digit(#[trigger] s[i]) by {
            if s[0] == '+' {
                assert(s.drop_first()[i - 1] == s[i]);
            }
        }
    }
}

/// Lower case takes each ASCII capital to the small letter at its place in the alphabet,
/// and leaves every other ASCII character alone.
pub proof fn capitals_become_small(s: Seq<char>, i: int)
    requires
        is_ascii_text(s),
        0 <= i < s.len(),
    ensures
        lowered(s).len() == s.len(),
        'A' <= s[i] <= 'Z' ==> lowered(s)[i] as int - 'a' as int == s[i] as int - 'A' as int,
        !('A' <= s[i] <= 'Z') ==> lowered(s)[i] == s[i],
{
}

/// The white space of ASCII is the blank and what lies from the tab to the carriage return;
/// no letter, digit or mark is.
pub proof fn ascii_white_space(c: char)
    requires
        (c as u32) < 128,
    ensures
        is_space(c) <==> c == ' ' || c == '\t' || c == '\n' || c == '\r' || c as u32 == 11 || c as u32 == 12,
        '!' <= c <= '~' ==> !is_space(c),
{
}

/// Leading characters are dropped all, and nothing else is.
pub proof fn leading_characters_are_dropped(s: Seq<char>, c: char)
    ensures
        ({
            let rest = without_leading(s, c);
            &&& finishes_with(s, rest)
            &&& rest.len() > 0 ==> rest[0] != c
            &&& forall|i: int| 0 <= i < s.len() - rest.len() ==> #[trigger] s[i] == c
        }),
    decreases s.len(),
{
    let rest = without_leading(s, c);
    if s.len() > 0 && s[0] == c {
        let t = s.drop_first();
        leading_characters_are_dropped(t, c);
        assert(t.subrange(t.len() - rest.len(), t.len() as int) =~= s.subrange(
            s.len() - rest.len(),
            s.len() as int,
        ));
        assert forall|i: int| 0 <= i < s.len() - rest.len() implies #[trigger] s[i] == c by {
            if i > 0 {
                assert(t[i - 1] == s[i]);
            }
        }
    } else {
        assert(s.subrange(0, s.len() as int) =~= s);
    }
}

/// White space round a text is trimmed off, and none within it.
pub proof fn surrounding_space_is_trimmed(before: Seq<char>, s: Seq<char>, after: Seq<char>)
    requires
        s.len() > 0,
        !is_space(s[0]),
        !is_space(s.last()),
        forall|i: int| 0 <= i < before.len() ==> is_space(#[trigger] before[i]),
        forall|i: int| 0 <= i < after.len() ==> is_space(#[trigger] after[i]),
    ensures
        trimmed(before + s + after) == s,
{
    let all = before + s + after;
    let n = before.len() as int;
    assert(all[n] == s[0]);
    assert forall|i: int| 0 <= i < n implies is_space(#[trigger] all[i]) by {
        assert(all[i] == before[i]);
    }
    trimmed_start_unique(all, n);
    let rest = all.skip(n);
    assert(rest =~= s + after);
    let m = s.len() as int;
    assert(rest[m - 1] == s.last());
    assert forall|i: int| m <= i < rest.len() implies is_space(#[trigger] rest[i]) by {
        assert(rest[i] == after[i - m]);
    }
    trimmed_end_unique(rest, m);
    assert(rest.take(m) =~= s);
}

/// Filtering a list keeps the order of what it keeps.
pub proof fn filtering_keeps_order<A>(list: Seq<A>, keep: spec_fn(A) -> bool, i: int, j: int)
    requires
        0 <= i < j < list.filter(keep).len(),
    ensures
        exists|a: int, b: int|
            0 <= a < b < list.len() && #[trigger] list[a] == list.filter(keep)[i] && #[trigger] list[b]
                == list.filter(keep)[j],
    decreases list.len(),
{
    reveal(Seq::filter);
    if list.len() > 0 {
        let head = list.drop_last();
        let kept = head.filter(keep);
        let all = list.filter(keep);
        if j < kept.len() {
            filtering_keeps_order(head, keep, i, j);
            let (a, b) = choose|a: int, b: int|
                0 <= a < b < head.len() && #[trigger] head[a] == kept[i] && #[trigger] head[b] == kept[j];
            assert(list[a] == all[i] && list[b] == all[j]);
        } else {
            head.lemma_filter_contains_rev(keep, kept[i]);
            let a = choose|a: int| 0 <= a < head.len() && head[a] == kept[i];
            let b = list.len() - 1;
            assert(list[a] == all[i] && list[b] == all[j]);
        }
    }
}

/// The white space beyond ASCII: the next line, the no-break space and the spaces and
/// separators of the other blocks, and nothing past the ideographic space.
pub proof fn other_white_space(c: char)
    requires
        (c as u32) >= 128,
    ensures
        ({
            let n = c as u32;
            is_space(c) <==> n == 0x85 || n == 0xa0 || n == 0x1680 || 0x2000 <= n <= 0x200a || n == 0x2028 || n
                == 0x2029 || n == 0x202f || n == 0x205f || n == 0x3000
        }),
{
}

/// A text without a line feed is a line of its own; an empty text holds none.
pub proof fn last_line_needs_no_end(line: Seq<char>)
    requires
        lacks(line, '\n'),
    ensures
        line.len() > 0 ==> lines_of(line) == seq![line],
        line.len() == 0 ==> lines_of(line).len() == 0,
{
    first_of_unique(line, '\n', line.len() as int);
}

/// A number that does not fit is not read.
pub proof fn large_numbers_are_not_read(n: nat)
    requires
        n > u32::MAX,
    ensures
        u32_of(decimal(n)) is None,
{
    decimal_is_plain(n);
    assert(is_digit(decimal(n)[0]));
}

/// A pattern is found exactly if it stands somewhere in the text.
pub proof fn patterns_are_found(s: Seq<char>, pat: Seq<char>)
    ensures
        after_first(s, pat) is Some <==> exists|i: int|
            0 <= i && i + pat.len() <= s.len() && #[trigger] s.subrange(i, i + pat.len()) == pat,
    decreases s.len(),
{
    if begins_with(s, pat) {
        assert(s.subrange(0int, 0int + pat.len()) == pat);
    } else if s.len() == 0 {
        if exists|i: int| 0 <= i && i + pat.len() <= s.len() && #[trigger] s.subrange(i, i + pat.len()) == pat {
            assert(s.subrange(0, pat.len() as int) =~= pat);
        }
    } else {
        let t = s.drop_first();
        patterns_are_found(t, pat);
        if after_first(t, pat) is Some {
            let i = choose|i: int|
                0 <= i && i + pat.len() <= t.len() && #[trigger] t.subrange(i, i + pat.len()) == pat;
            assert(s.subrange(i + 1, i + 1 + pat.len()) =~= t.subrange(i, i + pat.len()));
        }
        if exists|i: int| 0 <= i && i + pat.len() <= s.len() && #[trigger] s.subrange(i, i + pat.len()) == pat {
            let i = choose|i: int|
                0 <= i && i + pat.len() <= s.len() && #[trigger] s.subrange(i, i + pat.len()) == pat;
            if i == 0 {
                assert(begins_with(s, pat));
            } else {
                assert(t.subrange(i - 1, i - 1 + pat.len()) =~= s.subrange(i, i + pat.len()));
            }
        }
    }
}

/// A text holds white space exactly if some character of it is.
pub proof fn white_space_is_found(s: Seq<char>)
    ensures
        has_space(s) <==> exists|i: int| 0 <= i < s.len() && is_space(#[trigger] s[i]),
{
}

} // verus!
