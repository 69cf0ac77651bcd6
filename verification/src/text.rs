//! Decimal text: rendering numbers into escape sequences, and reading the
//! numbers a user typed.

use vstd::prelude::*;

verus! {

/// ASCII code of the digit `0`.
pub const ZERO: u8 = 48;

/// The decimal digits of `n` as ASCII bytes, most significant first, without
/// leading zeros (`0` itself is the single byte `0`).
pub open spec fn decimal(n: nat) -> Seq<u8>
    decreases n,
{
    if n < 10 {
        seq![(ZERO + n) as u8]
    } else {
        decimal(n / 10).push((ZERO + n % 10) as u8)
    }
}

/// Appends the decimal rendering of `n` to `out`.
pub fn push_decimal(out: &mut Vec<u8>, n: u128)
    ensures
        final(out)@ == old(out)@ + decimal(n as nat),
    decreases n,
{
    if n >= 10 {
        push_decimal(out, n / 10);
    }
    let digit: u8 = (n % 10) as u8;
    out.push(ZERO + digit);
    proof {
        if n >= 10 {
            assert(final(out)@ == (old(out)@ + decimal((n / 10) as nat)).push((ZERO + n % 10) as u8));
        }
        assert(out@ =~= old(out)@ + decimal(n as nat));
    }
}

/// Whether `c` is one of the ten ASCII digits.
pub open spec fn is_digit(c: char) -> bool {
    '0' <= c <= '9'
}

/// Whether `s` holds ASCII digits only.
pub open spec fn all_digits(s: Seq<char>) -> bool {
    forall|i: int| 0 <= i < s.len() ==> is_digit(#[trigger] s[i])
}

/// The number a string of ASCII digits denotes in base ten (the empty
/// string denotes zero; leading zeros are allowed).
pub open spec fn digits_value(s: Seq<char>) -> nat
    decreases s.len(),
{
    if s.len() == 0 {
        0
    } else {
        (digits_value(s.drop_last()) * 10 + (s.last() as nat - '0' as nat)) as nat
    }
}

/// The value of `body` if it is a non-empty string of digits that denotes at
/// most `max`.
pub open spec fn digits_within(body: Seq<char>, max: nat) -> Option<nat> {
    if body.len() > 0 && all_digits(body) && digits_value(body) <= max {
        Some(digits_value(body))
    } else {
        None
    }
}

/// Reading of an unsigned number: an optional `+`, then at least one digit
/// and nothing else, denoting at most `max`.
pub open spec fn unsigned_value(s: Seq<char>, max: nat) -> Option<nat> {
    if s.len() > 0 && s[0] == '+' {
        digits_within(s.skip(1), max)
    } else {
        digits_within(s, max)
    }
}

/// Reading of a signed number: an optional `+` or `-`, then at least one
/// digit and nothing else, denoting a value from `-(max + 1)` to `max`.
pub open spec fn signed_value(s: Seq<char>, max: nat) -> Option<int> {
    if s.len() > 0 && s[0] == '-' {
        match digits_within(s.skip(1), max + 1) {
            Some(v) => Some(-(v as int)),
            None => None,
        }
    } else {
        match unsigned_value(s, max) {
            Some(v) => Some(v as int),
            None => None,
        }
    }
}

/// A longer string of digits denotes at least what any prefix of it does.
pub proof fn lemma_digits_value_prefix(s: Seq<char>, k: int)
    requires
        0 <= k <= s.len(),
        all_digits(s),
    ensures
        digits_value(s.take(k)) <= digits_value(s),
    decreases s.len(),
{
    if k == s.len() {
        assert(s.take(k) =~= s);
    } else {
        lemma_digits_value_prefix(s.drop_last(), k);
        assert(s.drop_last().take(k) =~= s.take(k));
        assert(is_digit(s.last()));
    }
}

/// The characters of `s`, one by one.
pub fn chars_of(s: &str) -> (chars: Vec<char>)
    ensures
        chars@ == s@,
{
    broadcast use vstd::string::axiom_spec_iter;

    let mut chars: Vec<char> = Vec::new();
    for c in iter: s.chars()
        invariant
            iter.seq() == s@,
            chars@ == s@.take(iter.index() as int),
    {
        chars.push(c);
        assert(chars@ =~= s@.take(iter.index() + 1));
    }
    assert(s@.take(s@.len() as int) =~= s@);
    chars
}

/// Whether `r` is the number `value`, or neither is there.
pub open spec fn same_number(r: Option<u64>, value: Option<nat>) -> bool {
    match (r, value) {
        (Some(a), Some(b)) => a == b,
        (None, None) => true,
        _ => false,
    }
}

/// Whether `r` is the signed number `value`, or neither is there.
pub open spec fn same_signed(r: Option<i64>, value: Option<int>) -> bool {
    match (r, value) {
        (Some(a), Some(b)) => a == b,
        (None, None) => true,
        _ => false,
    }
}

/// Reads the digits of `chars` from index `start` to the end.
pub fn parse_digits(chars: &Vec<char>, start: usize, max: u64) -> (r: Option<u64>)
    requires
        start <= chars.len(),
    ensures
        same_number(r, digits_within(chars@.skip(start as int), max as nat)),
{
    let ghost body = chars@.skip(start as int);
    if start == chars.len() {
        return None;
    }
    let mut acc: u64 = 0;
    let mut i: usize = start;
    while i < chars.len()
        invariant
            start <= i <= chars.len(),
            body == chars@.skip(start as int),
            all_digits(body.take(i - start)),
            acc as nat == digits_value(body.take(i - start)),
            acc <= max,
        decreases chars.len() - i,
    {
        let c = chars[i];
        let ghost seen = body.take(i - start);
        let ghost next = body.take(i + 1 - start);
        assert(next.drop_last() =~= seen);
        assert(next.last() == c);
        if c < '0' || c > '9' {
            assert(!is_digit(body[i - start]));
            return None;
        }
        let digit: u64 = (c as u32 - '0' as u32) as u64;
        if digit > max || acc > (max - digit) / 10 {
            proof {
                assert(digits_value(next) > max);
                if all_digits(body) {
                    lemma_digits_value_prefix(body, i + 1 - start);
                }
            }
            return None;
        }
        acc = acc * 10 + digit;
        i += 1;
        assert(all_digits(next)) by {
            assert forall|j: int| 0 <= j < next.len() implies is_digit(#[trigger] next[j]) by {
                if j < seen.len() {
                    assert(next[j] == seen[j]);
                }
            }
        }
    }
    assert(body.take(i - start) =~= body);
    Some(acc)
}

/// Reads an unsigned decimal number no larger than `max`.
pub fn parse_unsigned(s: &str, max: u64) -> (r: Option<u64>)
    ensures
        same_number(r, unsigned_value(s@, max as nat)),
{
    let chars = chars_of(s);
    if chars.len() > 0 && chars[0] == '+' {
        parse_digits(&chars, 1, max)
    } else {
        assert(chars@.skip(0) =~= chars@);
        parse_digits(&chars, 0, max)
    }
}

/// Reads a signed decimal number that fits in 64 bits from the whole of
/// `chars`.
pub fn parse_signed_chars(chars: &Vec<char>) -> (r: Option<i64>)
    ensures
        same_signed(r, signed_value(chars@, i64::MAX as nat)),
{
    if chars.len() > 0 && chars[0] == '-' {
        match parse_digits(chars, 1, 0x8000_0000_0000_0000u64) {
            Some(v) => {
                if v == 0x8000_0000_0000_0000u64 {
                    Some(i64::MIN)
                } else {
                    Some(0 - (v as i64))
                }
            },
            None => None,
        }
    } else if chars.len() > 0 && chars[0] == '+' {
        match parse_digits(chars, 1, 0x7fff_ffff_ffff_ffffu64) {
            Some(v) => Some(v as i64),
            None => None,
        }
    } else {
        assert(chars@.skip(0) =~= chars@);
        match parse_digits(chars, 0, 0x7fff_ffff_ffff_ffffu64) {
            Some(v) => Some(v as i64),
            None => None,
        }
    }
}

/// Reads a signed decimal number that fits in 64 bits.
pub fn parse_signed(s: &str) -> (r: Option<i64>)
    ensures
        same_signed(r, signed_value(s@, i64::MAX as nat)),
{
    let chars = chars_of(s);
    parse_signed_chars(&chars)
}

/// `s` without the white space at its two ends.
pub uninterp spec fn trimmed(s: Seq<char>) -> Seq<char>;

/// `s` with every character in lower case.
pub uninterp spec fn lowercased(s: Seq<char>) -> Seq<char>;

/// Trusted: what `str::trim` returns is named `trimmed` of its argument.
pub assume_specification[ str::trim ](s: &str) -> (r: &str)
    ensures
        r@ == trimmed(s@),
;

/// Trusted: what `str::to_lowercase` returns is named `lowercased` of its
/// argument.
pub assume_specification[ str::to_lowercase ](s: &str) -> (r: String)
    ensures
        r@ == lowercased(s@),
;

} // verus!
