//! From a code-source locator to the path of the container that owns a class.
use vstd::prelude::*;
use crate::text::{chars_of, string_of, find_first, starts_with, contains_seq, first_occurrence,
    occurs_at, starts_with_seq};

verus! {

pub open spec fn is_hex_digit(c: char) -> bool {
    ('0' <= c && c <= '9') || ('a' <= c && c <= 'f') || ('A' <= c && c <= 'F')
}

/// Value of one hexadecimal digit.
pub open spec fn hex_value(c: char) -> int {
    if '0' <= c && c <= '9' {
        c as int - 48
    } else if 'a' <= c && c <= 'f' {
        c as int - 87
    } else {
        c as int - 55
    }
}

/// The character whose code point is the byte written by two hex digits.
pub open spec fn hex_pair(hi: char, lo: char) -> char {
    ((hex_value(hi) * 16 + hex_value(lo)) as u8) as char
}

/// Percent-decoding, read from the front of the input.
///
/// `+` gives a space and `%XY` with two hex digits gives the character with
/// that byte value. An escape cut short by the end of the input is dropped
/// with whatever followed the `%`. An escape with a non-hex digit keeps the
/// `%` and the first character, loses the second one and repeats the
/// character after it, which is then decoded again in its own right.
pub open spec fn url_decode_spec(s: Seq<char>) -> Seq<char>
    decreases s.len(),
{
    if s.len() == 0 {
        Seq::empty()
    } else if s[0] == '+' {
        seq![' '] + url_decode_spec(s.skip(1))
    } else if s[0] == '%' {
        if s.len() < 3 {
            Seq::empty()
        } else if is_hex_digit(s[1]) && is_hex_digit(s[2]) {
            seq![hex_pair(s[1], s[2])] + url_decode_spec(s.skip(3))
        } else if s.len() == 3 {
            seq!['%', s[1]]
        } else {
            seq!['%', s[1], s[3]] + url_decode_spec(s.skip(3))
        }
    } else {
        seq![s[0]] + url_decode_spec(s.skip(1))
    }
}

/// The scheme prefix that a locator may carry: `file:/`.
pub open spec fn file_scheme() -> Seq<char> {
    seq!['f', 'i', 'l', 'e', ':', '/']
}

/// The token that ends a container's path: `.jar`.
pub open spec fn container_token() -> Seq<char> {
    seq!['.', 'j', 'a', 'r']
}

/// The decoded locator without its scheme, or without the one leading `/`
/// of a locator that was written as an absolute URL path.
pub open spec fn strip_scheme(decoded: Seq<char>, raw: Seq<char>) -> Seq<char> {
    if starts_with_seq(decoded, file_scheme()) {
        decoded.skip(6)
    } else if raw.len() > 0 && raw[0] == '/' && decoded.len() > 0 {
        decoded.skip(1)
    } else {
        decoded
    }
}

/// The path cut off behind the first container token, if it holds one.
pub open spec fn truncate_at_container(path: Seq<char>) -> Option<Seq<char>> {
    if contains_seq(path, container_token()) {
        let i = choose|i: int| first_occurrence(path, container_token(), i);
        Some(path.take(i + 4))
    } else {
        None
    }
}

/// The container path that a locator resolves to.
pub open spec fn resolve_spec(locator: Seq<char>) -> Option<Seq<char>> {
    truncate_at_container(strip_scheme(url_decode_spec(locator), locator))
}

fn hex_digit(c: char) -> (r: Option<u8>)
    ensures
        r is Some == is_hex_digit(c),
        r matches Some(v) ==> v as int == hex_value(c) && v < 16,
{
    let n: u32 = c as u32;
    if '0' <= c && c <= '9' {
        Some((n - 48) as u8)
    } else if 'a' <= c && c <= 'f' {
        Some((n - 87) as u8)
    } else if 'A' <= c && c <= 'F' {
        Some((n - 55) as u8)
    } else {
        None
    }
}

/// Percent-decodes a sequence of characters.
pub fn url_decode_chars(input: &[char]) -> (out: Vec<char>)
    ensures
        out@ == url_decode_spec(input@),
{
    let mut out: Vec<char> = Vec::new();
    let n: usize = input.len();
    let mut i: usize = 0;
    assert(input@.skip(0) =~= input@);
    assert(out@ + url_decode_spec(input@) =~= url_decode_spec(input@));
    while i < n
        invariant
            n == input.len(),
            i <= n,
            out@ + url_decode_spec(input@.skip(i as int)) == url_decode_spec(input@),
        decreases n - i,
    {
        let ghost rest = input@.skip(i as int);
        let ghost before = out@;
        let c = input[i];
        assert(rest[0] == c);
        if c == '+' {
            out.push(' ');
            assert(rest.skip(1) == input@.skip(i + 1));
            assert(before + (seq![' '] + url_decode_spec(rest.skip(1))) =~= before.push(' ')
                + url_decode_spec(rest.skip(1)));
            i += 1;
        } else if c == '%' {
            if n - i < 3 {
                assert(url_decode_spec(rest) == Seq::<char>::empty());
                assert(before + Seq::<char>::empty() =~= before);
                assert(input@.skip(n as int).len() == 0);
                i = n;
            } else {
                let h1 = input[i + 1];
                let h2 = input[i + 2];
                assert(rest[1] == h1 && rest[2] == h2);
                assert(rest.skip(3) == input@.skip(i + 3));
                let d1 = hex_digit(h1);
                let d2 = hex_digit(h2);
                match (d1, d2) {
                    (Some(a), Some(b)) => {
                        let v: u8 = a * 16 + b;
                        out.push(v as char);
                        assert(before + (seq![hex_pair(h1, h2)] + url_decode_spec(rest.skip(3)))
                            =~= before.push(hex_pair(h1, h2)) + url_decode_spec(rest.skip(3)));
                    },
                    _ => {
                        out.push('%');
                        out.push(h1);
                        if n - i > 3 {
                            let next = input[i + 3];
                            assert(rest[3] == next);
                            out.push(next);
                            assert(before + (seq!['%', h1, next] + url_decode_spec(rest.skip(3)))
                                =~= before.push('%').push(h1).push(next) + url_decode_spec(
                                rest.skip(3),
                            ));
                        } else {
                            assert(input@.skip(i + 3).len() == 0);
                            assert(before + seq!['%', h1] =~= before.push('%').push(h1)
                                + url_decode_spec(rest.skip(3)));
                        }
                    },
                }
                i += 3;
            }
        } else {
            out.push(c);
            assert(rest.skip(1) == input@.skip(i + 1));
            assert(before + (seq![c] + url_decode_spec(rest.skip(1))) =~= before.push(c)
                + url_decode_spec(rest.skip(1)));
            i += 1;
        }
    }
    assert(input@.skip(i as int).len() == 0);
    assert(out@ + Seq::<char>::empty() =~= out@);
    out
}

/// Percent-decodes a locator.
pub fn url_decode(input: &str) -> (out: String)
    ensures
        out@ == url_decode_spec(input@),
{
    let chars = chars_of(input);
    let decoded = url_decode_chars(chars.as_slice());
    string_of(decoded.as_slice())
}

/// Text that holds neither `+` nor `%` decodes to itself.
pub proof fn lemma_decode_plain_text(s: Seq<char>)
    requires
        forall|i: int| 0 <= i < s.len() ==> s[i] != '+' && s[i] != '%',
    ensures
        url_decode_spec(s) == s,
    decreases s.len(),
{
    if s.len() > 0 {
        lemma_decode_plain_text(s.skip(1));
        assert(seq![s[0]] + s.skip(1) =~= s);
    }
}

/// Decoding goes from left to right: a `+` gives a space and an escape of
/// two hex digits gives the character with that byte value, whatever
/// follows them.
pub proof fn lemma_decode_front(rest: Seq<char>, hi: char, lo: char)
    requires
        is_hex_digit(hi),
        is_hex_digit(lo),
    ensures
        url_decode_spec(seq!['+'] + rest) == seq![' '] + url_decode_spec(rest),
        url_decode_spec(seq!['%', hi, lo] + rest) == seq![hex_pair(hi, lo)] + url_decode_spec(
            rest,
        ),
{
    assert((seq!['+'] + rest).skip(1) =~= rest);
    assert((seq!['%', hi, lo] + rest).skip(3) =~= rest);
}

/// A front part that holds neither `+` nor `%` is decoded to itself, and
/// the rest is decoded as if it stood alone.
pub proof fn lemma_decode_plain_prefix(prefix: Seq<char>, rest: Seq<char>)
    requires
        forall|i: int| 0 <= i < prefix.len() ==> prefix[i] != '+' && prefix[i] != '%',
    ensures
        url_decode_spec(prefix + rest) == prefix + url_decode_spec(rest),
    decreases prefix.len(),
{
    if prefix.len() == 0 {
        assert(prefix + rest =~= rest);
        assert(prefix + url_decode_spec(rest) =~= url_decode_spec(rest));
    } else {
        let tail = prefix.skip(1);
        lemma_decode_plain_prefix(tail, rest);
        assert((prefix + rest).skip(1) =~= tail + rest);
        assert((prefix + rest)[0] == prefix[0]);
        assert(seq![prefix[0]] + (tail + url_decode_spec(rest)) =~= prefix + url_decode_spec(rest));
    }
}

/// A locator with the `file:/` scheme and the same locator written as an
/// absolute path, with one leading `/` in place of the scheme, resolve to
/// the same container.
pub proof fn lemma_scheme_and_slash_agree(path: Seq<char>)
    ensures
        resolve_spec(file_scheme() + path) == resolve_spec(seq!['/'] + path),
{
    let decoded = url_decode_spec(path);
    lemma_decode_plain_prefix(file_scheme(), path);
    lemma_decode_plain_prefix(seq!['/'], path);
    let with_scheme = file_scheme() + decoded;
    let with_slash = seq!['/'] + decoded;
    assert(with_scheme.subrange(0, 6) =~= file_scheme());
    assert(with_scheme.skip(6) =~= decoded);
    assert(with_slash.skip(1) =~= decoded);
    assert(!starts_with_seq(with_slash, file_scheme())) by {
        if starts_with_seq(with_slash, file_scheme()) {
            assert(with_slash.subrange(0, 6)[0] == file_scheme()[0]);
        }
    }
    assert(strip_scheme(with_scheme, file_scheme() + path) == decoded);
    assert(strip_scheme(with_slash, seq!['/'] + path) == decoded);
}

/// A locator that starts with `/` decodes to a path that starts with `/`.
pub proof fn lemma_decode_keeps_leading_slash(raw: Seq<char>)
    requires
        raw.len() > 0,
        raw[0] == '/',
    ensures
        url_decode_spec(raw).len() > 0,
        url_decode_spec(raw)[0] == '/',
{
    assert(url_decode_spec(raw) == seq!['/'] + url_decode_spec(raw.skip(1)));
}

/// Resolves a code-source locator to the path of its container: decode,
/// drop the scheme, and cut behind the first container token. `None` when
/// the decoded path names no container.
pub fn resolve_container(locator: &str) -> (r: Option<String>)
    ensures
        match r {
            Some(p) => resolve_spec(locator@) == Some(p@),
            None => resolve_spec(locator@) is None,
        },
{
    let raw = chars_of(locator);
    let decoded = url_decode_chars(raw.as_slice());
    let scheme: Vec<char> = vec!['f', 'i', 'l', 'e', ':', '/'];
    let token: Vec<char> = vec!['.', 'j', 'a', 'r'];
    assert(scheme@ =~= file_scheme());
    assert(token@ =~= container_token());
    let start: usize = if starts_with(decoded.as_slice(), scheme.as_slice()) {
        6
    } else if raw.len() > 0 && raw[0] == '/' && decoded.len() > 0 {
        1
    } else {
        0
    };
    let path = vstd::slice::slice_subrange(decoded.as_slice(), start, decoded.len());
    assert(path@ =~= strip_scheme(decoded@, raw@));
    match find_first(path, token.as_slice()) {
        Some(i) => {
            let ghost j = choose|j: int| first_occurrence(path@, container_token(), j);
            assert(occurs_at(path@, container_token(), i as int));
            assert(first_occurrence(path@, container_token(), j));
            assert(j == i);
            let cut = vstd::slice::slice_subrange(path, 0, i + 4);
            assert(cut@ =~= path@.take(i + 4));
            Some(string_of(cut))
        },
        None => None,
    }
}

} // verus!
