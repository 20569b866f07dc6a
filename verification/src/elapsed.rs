//! Uptime from the text of a process listing.
//!
//! A process-listing utility, asked for the elapsed-seconds field of one
//! process and no header line, prints the age of the process in whole seconds
//! as decimal text. The uptime is that number of seconds. The text is read as
//! the standard library reads an unsigned integer from a trimmed string:
//! white space around the number is dropped, one `+` may stand before the
//! digits, and anything else makes the uptime unknown.
//!
//! Of the ways to measure an uptime this one is the coarsest and the most
//! costly, since it takes a child process; it is meant for systems that offer
//! nothing better.

use vstd::prelude::*;
use vstd::string::StringSliceAdditionalSpecFns;
use vstd::utf8::{decode_utf8, encode_utf8_decode_utf8, valid_utf8};
use crate::uptime::{Uptime, uptime_nanos};

verus! {

/// The characters that Unicode counts as white space (`White_Space`).
pub open spec fn whitespace(c: char) -> bool {
    let u = c as u32;
    ||| 0x09 <= u <= 0x0d
    ||| u == 0x20
    ||| u == 0x85
    ||| u == 0xa0
    ||| u == 0x1680
    ||| 0x2000 <= u <= 0x200a
    ||| u == 0x2028
    ||| u == 0x2029
    ||| u == 0x202f
    ||| u == 0x205f
    ||| u == 0x3000
}

/// `s` without the white space that it begins with.
pub open spec fn trim_start(s: Seq<char>) -> Seq<char>
    decreases s.len(),
{
    if s.len() > 0 && whitespace(s.first()) {
        trim_start(s.drop_first())
    } else {
        s
    }
}

/// `s` without the white space that it ends with.
pub open spec fn trim_end(s: Seq<char>) -> Seq<char>
    decreases s.len(),
{
    if s.len() > 0 && whitespace(s.last()) {
        trim_end(s.drop_last())
    } else {
        s
    }
}

/// `s` without the white space at either end.
pub open spec fn trim(s: Seq<char>) -> Seq<char> {
    trim_end(trim_start(s))
}

/// The ten decimal digits.
pub open spec fn digit(c: char) -> bool {
    '0' <= c <= '9'
}

/// The number that a decimal digit stands for.
pub open spec fn digit_value(c: char) -> nat {
    if digit(c) {
        (c as u32 - 0x30) as nat
    } else {
        0
    }
}

/// Whether `s` holds decimal digits only.
pub open spec fn all_digits(s: Seq<char>) -> bool {
    forall|i: int| 0 <= i < s.len() ==> digit(#[trigger] s[i])
}

/// The number that a sequence of decimal digits stands for, the most
/// significant digit first.
pub open spec fn decimal_value(digits: Seq<char>) -> nat
    decreases digits.len(),
{
    if digits.len() == 0 {
        0
    } else {
        decimal_value(digits.drop_last()) * 10 + digit_value(digits.last())
    }
}

/// `s` without the `+` that may stand before the digits.
pub open spec fn unsigned_digits(s: Seq<char>) -> Seq<char> {
    if s.len() > 0 && s.first() == '+' {
        s.drop_first()
    } else {
        s
    }
}

/// The unsigned 64-bit number that `s` spells: one or more decimal digits,
/// after at most one `+`, whose value fits in 64 bits. Anything else spells
/// no number; so does a `-`, as no uptime is negative.
pub open spec fn parse_unsigned(s: Seq<char>) -> Option<int> {
    let digits = unsigned_digits(s);
    if digits.len() > 0 && all_digits(digits) && decimal_value(digits) <= u64::MAX {
        Some(decimal_value(digits) as int)
    } else {
        None
    }
}

/// The seconds that the text of an elapsed-seconds field spells.
pub open spec fn elapsed_seconds(text: Seq<char>) -> Option<int> {
    parse_unsigned(trim(text))
}

/// The uptime, in nanoseconds, that the text of an elapsed-seconds field
/// reports.
pub open spec fn text_uptime(text: Seq<char>) -> Option<int> {
    match elapsed_seconds(text) {
        Some(secs) => Some(secs * 1_000_000_000),
        None => None,
    }
}

/// The uptime, in nanoseconds, that the output of a process listing reports:
/// that of its text, and nothing where the output is not UTF-8.
pub open spec fn listing_uptime(output: Seq<u8>) -> Option<int> {
    if valid_utf8(output) {
        text_uptime(decode_utf8(output))
    } else {
        None
    }
}

/// Dropping white space from the start leaves what follows the first `lo`
/// characters, where these are white space and the next one is not.
proof fn lemma_trim_start_skips(s: Seq<char>, lo: int)
    requires
        0 <= lo <= s.len(),
        forall|i: int| 0 <= i < lo ==> whitespace(#[trigger] s[i]),
        lo < s.len() ==> !whitespace(s[lo]),
    ensures
        trim_start(s) == s.subrange(lo, s.len() as int),
    decreases lo,
{
    if lo == 0 {
        assert(s.subrange(0, s.len() as int) =~= s);
    } else {
        let rest = s.drop_first();
        assert forall|i: int| 0 <= i < lo - 1 implies whitespace(#[trigger] rest[i]) by {
            assert(rest[i] == s[i + 1]);
        }
        lemma_trim_start_skips(rest, lo - 1);
        assert(rest.subrange(lo - 1, rest.len() as int) =~= s.subrange(lo, s.len() as int));
    }
}

/// Dropping white space from the end leaves the first `hi` characters, where
/// all that follow are white space and the last of them is not.
proof fn lemma_trim_end_takes(s: Seq<char>, hi: int)
    requires
        0 <= hi <= s.len(),
        forall|i: int| hi <= i < s.len() ==> whitespace(#[trigger] s[i]),
        0 < hi ==> !whitespace(s[hi - 1]),
    ensures
        trim_end(s) == s.subrange(0, hi),
    decreases s.len() - hi,
{
    if hi == s.len() {
        assert(s.subrange(0, hi) =~= s);
    } else {
        let rest = s.drop_last();
        lemma_trim_end_takes(rest, hi);
        assert(rest.subrange(0, hi) =~= s.subrange(0, hi));
    }
}

/// The value of the first `k` digits is at most the value of them all.
proof fn lemma_decimal_prefix(digits: Seq<char>, k: int)
    requires
        0 <= k <= digits.len(),
    ensures
        decimal_value(digits.take(k)) <= decimal_value(digits),
    decreases digits.len() - k,
{
    if k == digits.len() {
        assert(digits.take(k) =~= digits);
    } else {
        lemma_decimal_prefix(digits.drop_last(), k);
        assert(digits.drop_last().take(k) =~= digits.take(k));
    }
}

/// Whether `c` is white space.
pub fn is_whitespace(c: char) -> (b: bool)
    ensures
        b == whitespace(c),
{
    let u: u32 = c as u32;
    (0x09 <= u && u <= 0x0d) || u == 0x20 || u == 0x85 || u == 0xa0 || u == 0x1680 || (0x2000 <= u
        && u <= 0x200a) || u == 0x2028 || u == 0x2029 || u == 0x202f || u == 0x205f || u == 0x3000
}

/// The characters of `text`, in order.
fn chars_of(text: &str) -> (chars: Vec<char>)
    ensures
        chars@ == text@,
{
    let mut chars: Vec<char> = Vec::new();
    for c in it: text.chars()
        invariant
            chars@ == it.seq().take(it.index() as int),
            it.seq() == text@,
    {
        chars.push(c);
    }
    chars
}

/// Where the trimmed text lies in `chars`: from `lo` up to, not including,
/// `hi`.
fn trimmed_range(chars: &Vec<char>) -> (range: (usize, usize))
    ensures
        range.0 <= range.1 <= chars.len(),
        chars@.subrange(range.0 as int, range.1 as int) == trim(chars@),
{
    let len: usize = chars.len();
    let mut lo: usize = 0;
    while lo < len && is_whitespace(chars[lo])
        invariant
            lo <= len == chars.len(),
            forall|i: int| 0 <= i < lo ==> whitespace(#[trigger] chars@[i]),
        decreases len - lo,
    {
        lo += 1;
    }
    let mut hi: usize = len;
    while hi > lo && is_whitespace(chars[hi - 1])
        invariant
            lo <= hi <= len == chars.len(),
            forall|i: int| hi <= i < len ==> whitespace(#[trigger] chars@[i]),
        decreases hi,
    {
        hi -= 1;
    }
    proof {
        let s = chars@;
        let tail = s.subrange(lo as int, len as int);
        lemma_trim_start_skips(s, lo as int);
        lemma_trim_end_takes(tail, hi - lo);
        assert(tail.subrange(0, hi - lo) =~= s.subrange(lo as int, hi as int));
    }
    (lo, hi)
}

/// The number that the characters of `chars` from `lo` up to `hi` spell.
fn parse_range(chars: &Vec<char>, lo: usize, hi: usize) -> (r: Option<u64>)
    requires
        lo <= hi <= chars.len(),
    ensures
        match r {
            Some(n) => parse_unsigned(chars@.subrange(lo as int, hi as int)) == Some(n as int),
            None => parse_unsigned(chars@.subrange(lo as int, hi as int)) is None,
        },
{
    let ghost s = chars@.subrange(lo as int, hi as int);
    let start: usize = if lo < hi && chars[lo] == '+' {
        lo + 1
    } else {
        lo
    };
    let ghost digits = chars@.subrange(start as int, hi as int);
    assert(digits =~= unsigned_digits(s));
    if start == hi {
        return None;
    }
    let mut value: u64 = 0;
    let mut i: usize = start;
    while i < hi
        invariant
            lo <= start <= i <= hi <= chars.len(),
            digits == chars@.subrange(start as int, hi as int),
            digits == unsigned_digits(chars@.subrange(lo as int, hi as int)),
            all_digits(digits.take(i - start)),
            value == decimal_value(digits.take(i - start)),
        decreases hi - i,
    {
        let c: char = chars[i];
        let ghost next = digits.take(i - start + 1);
        assert(next.drop_last() =~= digits.take(i - start));
        assert(next.last() == c);
        if !(c >= '0' && c <= '9') {
            assert(!digit(digits[i - start]));
            return None;
        }
        let d: u64 = (c as u32 - 0x30) as u64;
        let shifted = match value.checked_mul(10) {
            Some(v) => v,
            None => {
                proof {
                    lemma_decimal_prefix(digits, i - start + 1);
                }
                return None;
            },
        };
        value = match shifted.checked_add(d) {
            Some(v) => v,
            None => {
                proof {
                    lemma_decimal_prefix(digits, i - start + 1);
                }
                return None;
            },
        };
        i += 1;
    }
    assert(digits.take(hi - start) =~= digits);
    Some(value)
}

/// The uptime that the text of an elapsed-seconds field reports: the whole
/// seconds that the trimmed text spells, and nothing where it spells no
/// unsigned 64-bit number.
pub fn parse_elapsed_seconds(text: &str) -> (r: Option<Uptime>)
    ensures
        uptime_nanos(r) == text_uptime(text@),
        r matches Some(u) ==> u.wf(),
{
    let chars = chars_of(text);
    let (lo, hi) = trimmed_range(&chars);
    match parse_range(&chars, lo, hi) {
        Some(secs) => Some(Uptime::from_secs(secs)),
        None => None,
    }
}

/// The text that `bytes` encode, where they are UTF-8.
///
/// Calls `core::str::from_utf8`, and states of it what its documentation
/// says: it succeeds on the byte slices that are well-formed UTF-8 and on no
/// others, and the string slice that it gives is made of the very bytes that
/// it was given. The error is dropped.
#[verifier::external_body]
fn utf8_text(bytes: &[u8]) -> (r: Option<&str>)
    ensures
        r is Some <==> valid_utf8(bytes@),
        r matches Some(text) ==> text.spec_bytes() == bytes@,
{
    match core::str::from_utf8(bytes) {
        Ok(text) => Some(text),
        Err(_) => None,
    }
}

/// The uptime that the output of a process listing reports: that of its
/// text, and nothing where the output is not UTF-8.
pub fn uptime_from_listing(output: &[u8]) -> (r: Option<Uptime>)
    ensures
        uptime_nanos(r) == listing_uptime(output@),
        r matches Some(u) ==> u.wf(),
{
    match utf8_text(output) {
        Some(text) => {
            proof {
                encode_utf8_decode_utf8(text@);
            }
            parse_elapsed_seconds(text)
        },
        None => None,
    }
}

} // verus!
