//! Small string toolkit: conversions between `&str`, `String` and `Vec<char>`,
//! decimal rendering of integers, ASCII case folding, and substring search.
//!
//! Text is handled as sequences of characters so that every operation has a
//! direct mathematical statement; only the final packing of characters into a
//! `String` is delegated to the standard library.

use vstd::prelude::*;
use vstd::std_specs::iter::IteratorSpec;
use vstd::string::StringExecFns;

verus! {

/// The characters of a string, in order.
pub fn str_to_chars(s: &str) -> (v: Vec<char>)
    ensures
        v@ == s@,
{
    broadcast use vstd::string::axiom_spec_iter, vstd::string::next_postcondition;

    let mut it = s.chars();
    let mut v: Vec<char> = Vec::new();
    loop
        invariant
            it.obeys_prophetic_iter_laws(),
            it.decrease() is Some,
            v@ + it.remaining() == s@,
        decreases it.decrease()->0,
    {
        match it.next() {
            Some(c) => {
                v.push(c);
            },
            None => {
                proof {
                    assert(v@ =~= s@);
                }
                return v;
            },
        }
    }
}

/// Relies on `String`'s `FromIterator<char>` implementation: collecting
/// characters yields the string of exactly those characters, in order.
#[verifier::external_body]
pub(crate) fn chars_to_string(v: &Vec<char>) -> (s: String)
    ensures
        s@ == v@,
{
    v.iter().collect()
}

/// Relies on `core::str::from_utf8`: it accepts exactly the valid UTF-8
/// byte sequences and decodes them; the resulting characters are those
/// of vstd's UTF-8 decoding of the bytes.
#[verifier::external_body]
pub(crate) fn bytes_to_string(v: &[u8]) -> (r: Option<String>)
    ensures
        (r is Some) <==> vstd::utf8::valid_utf8(v@),
        match r {
            Some(s) => s@ == vstd::utf8::decode_utf8(v@),
            None => !vstd::utf8::valid_utf8(v@),
        },
{
    match core::str::from_utf8(v) {
        Ok(s) => Some(s.to_string()),
        Err(_) => None,
    }
}

/// Whether two string slices hold the same characters.
pub fn str_eq(a: &str, b: &str) -> (r: bool)
    ensures
        r == (a@ == b@),
{
    let oa = a.to_owned();
    let ob = b.to_owned();
    let r = oa == ob;
    proof {
        if a@ == b@ {
            assert(oa@ == ob@);
        }
    }
    r
}

/// The decimal digit character for a value below ten.
pub open spec fn spec_digit_char(d: int) -> char {
    if d == 0 {
        '0'
    } else if d == 1 {
        '1'
    } else if d == 2 {
        '2'
    } else if d == 3 {
        '3'
    } else if d == 4 {
        '4'
    } else if d == 5 {
        '5'
    } else if d == 6 {
        '6'
    } else if d == 7 {
        '7'
    } else if d == 8 {
        '8'
    } else {
        '9'
    }
}

/// The usual decimal rendering of a natural number, most significant digit
/// first, with no leading zeros (except for zero itself).
pub open spec fn spec_dec(n: int) -> Seq<char>
    decreases n,
{
    if n < 10 {
        seq![spec_digit_char(n)]
    } else {
        spec_dec(n / 10) + seq![spec_digit_char(n % 10)]
    }
}

fn digit_char(d: u64) -> (c: char)
    requires
        d < 10,
    ensures
        c == spec_digit_char(d as int),
{
    match d {
        0 => '0',
        1 => '1',
        2 => '2',
        3 => '3',
        4 => '4',
        5 => '5',
        6 => '6',
        7 => '7',
        8 => '8',
        _ => '9',
    }
}

/// Appends the decimal rendering of `n`.
pub fn push_dec(n: u64, out: &mut Vec<char>)
    ensures
        final(out)@ == old(out)@ + spec_dec(n as int),
    decreases n,
{
    if n < 10 {
        out.push(digit_char(n));
    } else {
        push_dec(n / 10, out);
        out.push(digit_char(n % 10));
    }
}

/// The decimal rendering of `n` as characters.
pub fn dec_chars(n: u64) -> (v: Vec<char>)
    ensures
        v@ == spec_dec(n as int),
{
    let mut v: Vec<char> = Vec::new();
    push_dec(n, &mut v);
    v
}

/// The decimal rendering of `n` as a string.
pub fn dec_string(n: u64) -> (s: String)
    ensures
        s@ == spec_dec(n as int),
{
    let v = dec_chars(n);
    chars_to_string(&v)
}

/// ASCII case folding of one character; characters outside `A`..=`Z` are kept.
pub open spec fn spec_lower_char(c: char) -> char {
    if 'A' <= c && c <= 'Z' {
        (((c as u8) + 32) as u8) as char
    } else {
        c
    }
}

/// ASCII case folding, character by character.
pub open spec fn spec_lower(s: Seq<char>) -> Seq<char> {
    s.map_values(|c: char| spec_lower_char(c))
}

fn lower_char(c: char) -> (r: char)
    ensures
        r == spec_lower_char(c),
{
    if 'A' <= c && c <= 'Z' {
        (((c as u8) + 32) as u8) as char
    } else {
        c
    }
}

/// ASCII-lowercases the characters of a slice.
pub fn lower_chars(s: &[char]) -> (v: Vec<char>)
    ensures
        v@ == spec_lower(s@),
{
    let mut v: Vec<char> = Vec::new();
    let mut i: usize = 0;
    while i < s.len()
        invariant
            i <= s@.len(),
            v@ == spec_lower(s@.subrange(0, i as int)),
        decreases s@.len() - i,
    {
        v.push(lower_char(s[i]));
        proof {
            assert(s@.subrange(0, i + 1).map_values(|c: char| spec_lower_char(c)) =~= s@.subrange(
                0,
                i as int,
            ).map_values(|c: char| spec_lower_char(c)) + seq![spec_lower_char(s@[i as int])]);
        }
        i = i + 1;
    }
    proof {
        assert(s@.subrange(0, s@.len() as int) =~= s@);
    }
    v
}

/// Whether `needle` occurs at position `at` of `hay`.
pub open spec fn spec_match_at(hay: Seq<char>, at: int, needle: Seq<char>) -> bool {
    &&& 0 <= at
    &&& at + needle.len() <= hay.len()
    &&& hay.subrange(at, at + needle.len()) == needle
}

/// Whether `needle` occurs verbatim at position `at` of `hay`.
pub fn chars_match_at(hay: &[char], at: usize, needle: &[char]) -> (r: bool)
    requires
        at + needle@.len() <= hay@.len(),
    ensures
        r == spec_match_at(hay@, at as int, needle@),
{
    let hlen: usize = hay.len();
    let mut j: usize = 0;
    while j < needle.len()
        invariant
            j <= needle@.len(),
            at + needle@.len() <= hay@.len(),
            hlen == hay@.len(),
            forall|k: int| 0 <= k < j ==> hay@[at + k] == needle@[k],
        decreases needle@.len() - j,
    {
        proof {
            assert(at + j < hay@.len());
        }
        if hay[at + j] != needle[j] {
            proof {
                assert(hay@.subrange(at as int, at + needle@.len())[j as int] == hay@[at + j]);
            }
            return false;
        }
        j = j + 1;
    }
    proof {
        assert(hay@.subrange(at as int, at + needle@.len()) =~= needle@);
    }
    true
}

/// Whether `needle` occurs anywhere in `hay`.
pub open spec fn spec_contains(hay: Seq<char>, needle: Seq<char>) -> bool {
    exists|i: int| spec_match_at(hay, i, needle)
}

/// Substring search.
pub fn chars_contain(hay: &[char], needle: &[char]) -> (r: bool)
    ensures
        r == spec_contains(hay@, needle@),
{
    if needle.len() > hay.len() {
        return false;
    }
    if needle.len() == 0 {
        proof {
            assert(hay@.subrange(0, 0) =~= needle@);
            assert(spec_match_at(hay@, 0, needle@));
        }
        return true;
    }
    let hlen: usize = hay.len();
    let last: usize = hlen - needle.len();
    let mut i: usize = 0;
    loop
        invariant
            1 <= needle@.len() <= hay@.len(),
            hlen == hay@.len(),
            last == hay@.len() - needle@.len(),
            i <= last + 1,
            forall|k: int| 0 <= k < i ==> !spec_match_at(hay@, k, needle@),
        decreases last + 1 - i,
    {
        if i > last {
            return false;
        }
        if chars_match_at(hay, i, needle) {
            proof {
                assert(spec_match_at(hay@, i as int, needle@));
            }
            return true;
        }
        proof {
            assert(last < hay@.len());
        }
        i = i + 1;
    }
}

/// Whether `hay` ends with `needle`.
pub open spec fn spec_ends_with(hay: Seq<char>, needle: Seq<char>) -> bool {
    needle.len() <= hay.len() && spec_match_at(hay, hay.len() - needle.len(), needle)
}

/// Suffix test.
pub fn chars_end_with(hay: &[char], needle: &[char]) -> (r: bool)
    ensures
        r == spec_ends_with(hay@, needle@),
{
    if needle.len() > hay.len() {
        return false;
    }
    chars_match_at(hay, hay.len() - needle.len(), needle)
}

/// Whether `hay` starts with `needle`.
pub open spec fn spec_starts_with(hay: Seq<char>, needle: Seq<char>) -> bool {
    needle.len() <= hay.len() && spec_match_at(hay, 0, needle)
}

/// Prefix test.
pub fn chars_start_with(hay: &[char], needle: &[char]) -> (r: bool)
    ensures
        r == spec_starts_with(hay@, needle@),
{
    if needle.len() > hay.len() {
        return false;
    }
    chars_match_at(hay, 0, needle)
}

} // verus!
