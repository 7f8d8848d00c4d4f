//! Text operations of std that the identity and model logic relies on.
use vstd::prelude::*;

verus! {

/// The pieces of `s` between occurrences of `sep`, in order; there is always
/// at least one.
pub open spec fn split_chars(s: Seq<char>, sep: char) -> Seq<Seq<char>>
    decreases s.len(),
{
    if s.len() == 0 {
        seq![Seq::<char>::empty()]
    } else {
        let rest = split_chars(s.drop_first(), sep);
        if s[0] == sep {
            seq![Seq::<char>::empty()] + rest
        } else {
            rest.update(0, seq![s[0]] + rest[0])
        }
    }
}

/// The text of each string.
pub open spec fn texts(v: Seq<String>) -> Seq<Seq<char>> {
    v.map_values(|s: String| s@)
}

/// Whether `needle` occurs in `hay`.
pub open spec fn has_infix(hay: Seq<char>, needle: Seq<char>) -> bool {
    exists|i: int|
        0 <= i && i + needle.len() <= hay.len() && #[trigger] hay.subrange(i, i + needle.len())
            == needle
}

/// The lowercase mapping of a text, character by character, as Unicode
/// defines it.
pub uninterp spec fn lower_of(s: Seq<char>) -> Seq<char>;

/// Index of the first `c` in `s`, or the length of `s` when there is none.
pub open spec fn first_index(s: Seq<char>, c: char) -> int
    decreases s.len(),
{
    if s.len() == 0 {
        0
    } else if s[0] == c {
        0
    } else {
        1 + first_index(s.drop_first(), c)
    }
}

/// The text before and after the first `c` in `s`, if it holds one.
pub open spec fn split_once(s: Seq<char>, c: char) -> Option<(Seq<char>, Seq<char>)> {
    let i = first_index(s, c);
    if i < s.len() {
        Some((s.take(i), s.skip(i + 1)))
    } else {
        None
    }
}

/// Whether every character is an ASCII decimal digit.
pub open spec fn all_dec_digits(s: Seq<char>) -> bool {
    forall|i: int| 0 <= i < s.len() ==> '0' <= #[trigger] s[i] <= '9'
}

/// The value of a sequence of decimal digit characters.
pub open spec fn dec_chars_value(s: Seq<char>) -> int
    decreases s.len(),
{
    if s.len() == 0 {
        0
    } else {
        dec_chars_value(s.drop_last()) * 10 + (s.last() as int - '0' as int)
    }
}

/// An unsigned 32-bit number written in decimal, with an optional leading
/// '+': at least one digit and no more than the largest value.
pub open spec fn dec_u32(s: Seq<char>) -> Option<u32> {
    let d = if s.len() > 0 && s[0] == '+' {
        s.drop_first()
    } else {
        s
    };
    if d.len() > 0 && all_dec_digits(d) && dec_chars_value(d) <= u32::MAX {
        Some(dec_chars_value(d) as u32)
    } else {
        None
    }
}

/// Relies on str::split with a character pattern: the pieces of `s` between
/// occurrences of `sep`, in order.
#[verifier::external_body]
pub(crate) fn split_on(s: &str, sep: char) -> (r: Vec<String>)
    ensures
        texts(r@) == split_chars(s@, sep),
{
    s.split(sep).map(String::from).collect()
}

/// Relies on str::split_once with a character pattern: the text around the
/// first `c`.
#[verifier::external_body]
pub(crate) fn split_once_at(s: &str, c: char) -> (r: Option<(String, String)>)
    ensures
        match split_once(s@, c) {
            Some((a, b)) => r matches Some(p) && p.0@ == a && p.1@ == b,
            None => r is None,
        },
{
    s.split_once(c).map(|(a, b)| (String::from(a), String::from(b)))
}

/// Relies on str::strip_prefix with a string pattern: what follows `prefix`
/// when `s` begins with it.
#[verifier::external_body]
pub(crate) fn strip_prefix(s: &str, prefix: &str) -> (r: Option<String>)
    ensures
        r is Some == prefix@.is_prefix_of(s@),
        r is Some ==> r->Some_0@ == s@.skip(prefix@.len() as int),
{
    s.strip_prefix(prefix).map(String::from)
}

/// Relies on u32's FromStr: a decimal number with an optional '+'.
#[verifier::external_body]
pub(crate) fn parse_u32(s: &str) -> (r: Option<u32>)
    ensures
        r == dec_u32(s@),
{
    s.parse::<u32>().ok()
}

/// Relies on str's PartialEq: whether two texts are the same.
#[verifier::external_body]
pub(crate) fn str_eq(a: &str, b: &str) -> (r: bool)
    ensures
        r == (a@ == b@),
{
    a == b
}

/// Relies on String::push_str: appends `t` to `s`.
#[verifier::external_body]
pub(crate) fn push_str(s: &mut String, t: &str)
    ensures
        final(s)@ == old(s)@ + t@,
{
    s.push_str(t)
}

/// Relies on str::to_lowercase: the result depends on the characters alone.
#[verifier::external_body]
pub(crate) fn lowercase(s: &str) -> (r: String)
    ensures
        r@ == lower_of(s@),
{
    s.to_lowercase()
}

/// Relies on str::contains with a string pattern: whether `needle` occurs
/// in `hay`.
#[verifier::external_body]
pub(crate) fn contains(hay: &str, needle: &str) -> (r: bool)
    ensures
        r == has_infix(hay@, needle@),
{
    hay.contains(needle)
}

/// Relies on str::starts_with with a string pattern: whether `s` begins
/// with `prefix`.
#[verifier::external_body]
pub(crate) fn starts_with(s: &str, prefix: &str) -> (r: bool)
    ensures
        r == prefix@.is_prefix_of(s@),
{
    s.starts_with(prefix)
}

} // verus!
