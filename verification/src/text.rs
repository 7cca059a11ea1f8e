//! The text of sensor and control files: trimming, and unsigned decimal
//! numbers read and written.

use vstd::prelude::*;
use vstd::string::*;

verus! {

/// Whether a character is white space in the sense of Unicode's `White_Space`
/// property, as `char::is_whitespace` decides it.
pub uninterp spec fn white_space(c: char) -> bool;

/// `char::is_whitespace`: the answer is the character's `White_Space`
/// property and nothing else, so the same character always gives the same
/// answer. Which characters have the property is not stated here.
#[verifier::external_body]
fn is_whitespace(c: char) -> (ws: bool)
    ensures
        ws == white_space(c),
{
    c.is_whitespace()
}

/// The number of leading characters of `s` that are left once trailing white
/// space is removed.
pub open spec fn trimmed_end(s: Seq<char>) -> nat
    decreases s.len(),
{
    if s.len() > 0 && white_space(s.last()) {
        trimmed_end(s.drop_last())
    } else {
        s.len()
    }
}

/// The number of leading white-space characters of `s`.
pub open spec fn trimmed_start(s: Seq<char>) -> nat
    decreases s.len(),
{
    if s.len() > 0 && white_space(s.first()) {
        1 + trimmed_start(s.drop_first())
    } else {
        0
    }
}

/// `s` without its trailing white space.
pub open spec fn trim_end(s: Seq<char>) -> Seq<char> {
    s.take(trimmed_end(s) as int)
}

/// `s` without its leading and trailing white space.
pub open spec fn trim(s: Seq<char>) -> Seq<char> {
    let kept = trim_end(s);
    kept.skip(trimmed_start(kept) as int)
}

/// Trailing white space ends where `trimmed_end` says, and no earlier.
pub proof fn lemma_trimmed_end(s: Seq<char>)
    ensures
        trimmed_end(s) <= s.len(),
        forall|i: int| trimmed_end(s) <= i < s.len() ==> white_space(#[trigger] s[i]),
        trimmed_end(s) > 0 ==> !white_space(s[trimmed_end(s) - 1]),
    decreases s.len(),
{
    if s.len() > 0 && white_space(s.last()) {
        let rest = s.drop_last();
        lemma_trimmed_end(rest);
        assert forall|i: int| trimmed_end(s) <= i < s.len() implies white_space(
            #[trigger] s[i],
        ) by {
            if i < rest.len() {
                assert(s[i] == rest[i]);
            }
        }
        if trimmed_end(s) > 0 {
            assert(s[trimmed_end(s) - 1] == rest[trimmed_end(rest) - 1]);
        }
    }
}

/// A cut after which all is white space, and before which the last character
/// is not, is the cut that `trimmed_end` makes.
pub proof fn lemma_trimmed_end_is(s: Seq<char>, end: int)
    requires
        0 <= end <= s.len(),
        forall|i: int| end <= i < s.len() ==> white_space(#[trigger] s[i]),
        end > 0 ==> !white_space(s[end - 1]),
    ensures
        trimmed_end(s) == end,
    decreases s.len(),
{
    if s.len() > end {
        assert(white_space(s[s.len() - 1]));
        let rest = s.drop_last();
        assert forall|i: int| end <= i < rest.len() implies white_space(#[trigger] rest[i]) by {
            assert(rest[i] == s[i]);
        }
        if end > 0 {
            assert(rest[end - 1] == s[end - 1]);
        }
        lemma_trimmed_end_is(rest, end);
    }
}

/// A cut before which all is white space, and at which the character is
/// not, is the cut that `trimmed_start` makes.
pub proof fn lemma_trimmed_start_is(s: Seq<char>, start: int)
    requires
        0 <= start <= s.len(),
        forall|i: int| 0 <= i < start ==> white_space(#[trigger] s[i]),
        start < s.len() ==> !white_space(s[start]),
    ensures
        trimmed_start(s) == start,
    decreases s.len(),
{
    if start > 0 {
        assert(white_space(s[0]));
        let rest = s.drop_first();
        assert forall|i: int| 0 <= i < start - 1 implies white_space(#[trigger] rest[i]) by {
            assert(rest[i] == s[i + 1]);
        }
        if start - 1 < rest.len() {
            assert(rest[start - 1] == s[start]);
        }
        lemma_trimmed_start_is(rest, start - 1);
    }
}

/// Where `s` ends once its trailing white space is removed.
pub fn trim_end_at(s: &str) -> (end: usize)
    ensures
        end == trimmed_end(s@),
        end <= s@.len(),
{
    let mut end: usize = s.unicode_len();
    while end > 0 && is_whitespace(s.get_char(end - 1))
        invariant
            end <= s@.len(),
            forall|i: int| end <= i < s@.len() ==> white_space(#[trigger] s@[i]),
        decreases end,
    {
        end = end - 1;
    }
    proof {
        lemma_trimmed_end_is(s@, end as int);
    }
    end
}

/// Where `s` begins once the leading white space of its first `end`
/// characters is removed.
pub fn trim_start_at(s: &str, end: usize) -> (start: usize)
    requires
        end <= s@.len(),
    ensures
        start == trimmed_start(s@.take(end as int)),
        start <= end,
{
    let mut start: usize = 0;
    while start < end && is_whitespace(s.get_char(start))
        invariant
            start <= end <= s@.len(),
            forall|i: int| 0 <= i < start ==> white_space(#[trigger] s@[i]),
        decreases end - start,
    {
        start = start + 1;
    }
    proof {
        lemma_trimmed_start_is(s@.take(end as int), start as int);
    }
    start
}

/// Whether two texts are the same, character by character.
pub fn same_text(a: &str, b: &str) -> (same: bool)
    ensures
        same == (a@ == b@),
{
    let len = a.unicode_len();
    if len != b.unicode_len() {
        return false;
    }
    let mut at: usize = 0;
    while at < len
        invariant
            at <= len == a@.len() == b@.len(),
            forall|i: int| 0 <= i < at ==> a@[i] == b@[i],
        decreases len - at,
    {
        if a.get_char(at) != b.get_char(at) {
            return false;
        }
        at = at + 1;
    }
    assert(a@ =~= b@);
    true
}

/// Whether a character is one of the ten decimal digits.
pub open spec fn is_digit(c: char) -> bool {
    '0' <= c <= '9'
}

/// The number that a run of decimal digits writes.
pub open spec fn digits_value(s: Seq<char>) -> nat
    decreases s.len(),
{
    if s.len() == 0 {
        0
    } else {
        (digits_value(s.drop_last()) * 10 + (s.last() as nat - '0' as nat)) as nat
    }
}

/// `s` without the `+` that it may begin with.
pub open spec fn without_plus(s: Seq<char>) -> Seq<char> {
    if s.len() > 0 && s[0] == '+' {
        s.skip(1)
    } else {
        s
    }
}

/// The number that `s` writes, if it is an unsigned decimal number no greater
/// than `max`: an optional `+`, then one digit or more and nothing else.
pub open spec fn parse_unsigned(s: Seq<char>, max: nat) -> Option<nat> {
    let digits = without_plus(s);
    if digits.len() > 0 && (forall|i: int| 0 <= i < digits.len() ==> is_digit(#[trigger] digits[i]))
        && digits_value(digits) <= max {
        Some(digits_value(digits))
    } else {
        None
    }
}

/// A run of digits is worth no less than any of its beginnings.
pub proof fn lemma_digits_value_prefix(s: Seq<char>, n: int)
    requires
        0 <= n <= s.len(),
        forall|i: int| 0 <= i < s.len() ==> is_digit(#[trigger] s[i]),
    ensures
        digits_value(s.take(n)) <= digits_value(s),
    decreases s.len(),
{
    if n == s.len() {
        assert(s.take(n) =~= s);
    } else {
        let rest = s.drop_last();
        assert(rest.take(n) =~= s.take(n));
        lemma_digits_value_prefix(rest, n);
        assert(is_digit(s[s.len() - 1]));
    }
}

/// The unsigned decimal number, no greater than `max`, that the characters
/// of `s` from `from` up to `to` write; `None` where they write none.
pub fn parse_unsigned_in(s: &str, from: usize, to: usize, max: u32) -> (parsed: Option<u32>)
    requires
        from <= to <= s@.len(),
    ensures
        match parse_unsigned(s@.subrange(from as int, to as int), max as nat) {
            Some(n) => parsed == Some(n as u32),
            None => parsed is None,
        },
{
    let ghost text = s@.subrange(from as int, to as int);
    let mut at: usize = from;
    if at < to && s.get_char(at) == '+' {
        at = at + 1;
    }
    let ghost digits = s@.subrange(at as int, to as int);
    assert(digits =~= without_plus(text));
    if at == to {
        return None;
    }
    let first: usize = at;
    let mut value: u64 = 0;
    while at < to
        invariant
            first <= at <= to <= s@.len(),
            digits == s@.subrange(first as int, to as int),
            digits == without_plus(s@.subrange(from as int, to as int)),
            forall|i: int| 0 <= i < at - first ==> is_digit(#[trigger] digits[i]),
            value == digits_value(digits.take(at - first)),
            value <= max,
        decreases to - at,
    {
        let c = s.get_char(at);
        assert(c == digits[at - first]);
        let code: u32 = c as u32;
        if code < 48 || code > 57 {
            assert(!is_digit(digits[at - first]));
            return None;
        }
        let ghost upto = digits.take(at - first + 1);
        assert(upto.drop_last() =~= digits.take(at - first));
        assert(upto.last() == c);
        value = value * 10 + (code - 48) as u64;
        assert(value == digits_value(upto));
        at = at + 1;
        if value > max as u64 {
            proof {
                if forall|i: int| 0 <= i < digits.len() ==> is_digit(#[trigger] digits[i]) {
                    lemma_digits_value_prefix(digits, at - first);
                }
            }
            return None;
        }
    }
    assert(digits.take(at - first) =~= digits);
    Some(value as u32)
}

/// The digit that writes a number below ten.
pub open spec fn digit_char(d: nat) -> char {
    (d + '0' as nat) as char
}

/// A number written in decimal digits, without sign or leading zeros.
pub open spec fn decimal(n: nat) -> Seq<char>
    decreases n,
{
    if n < 10 {
        seq![digit_char(n)]
    } else {
        decimal(n / 10).push(digit_char(n % 10))
    }
}

/// A number's decimal digits are digits, begin with no sign, and write the
/// number.
pub proof fn lemma_decimal_writes(n: nat)
    ensures
        decimal(n).len() >= 1,
        forall|i: int| 0 <= i < decimal(n).len() ==> is_digit(#[trigger] decimal(n)[i]),
        without_plus(decimal(n)) == decimal(n),
        digits_value(decimal(n)) == n,
    decreases n,
{
    if n < 10 {
        assert(decimal(n).drop_last() =~= Seq::<char>::empty());
        assert(digits_value(decimal(n).drop_last()) == 0);
    } else {
        lemma_decimal_writes(n / 10);
        let front = decimal(n / 10);
        assert(decimal(n).drop_last() =~= front);
        assert(decimal(n)[0] == front[0]);
        assert forall|i: int| 0 <= i < decimal(n).len() implies is_digit(
            #[trigger] decimal(n)[i],
        ) by {
            if i < front.len() {
                assert(decimal(n)[i] == front[i]);
            }
        }
    }
}

/// What is written in decimal digits reads back as the number written,
/// where the number is within the limit.
pub proof fn lemma_decimal_reads_back(n: nat, max: nat)
    requires
        n <= max,
    ensures
        parse_unsigned(decimal(n), max) == Some(n),
{
    lemma_decimal_writes(n);
}

/// Different numbers are written differently.
pub proof fn lemma_decimal_injective(a: nat, b: nat)
    requires
        decimal(a) == decimal(b),
    ensures
        a == b,
{
    lemma_decimal_writes(a);
    lemma_decimal_writes(b);
}

/// `u32`'s `to_string`: the number in decimal digits, without sign, padding
/// or leading zeros.
#[verifier::external_body]
pub(crate) fn decimal_string(n: u32) -> (s: String)
    ensures
        s@ == decimal(n as nat),
{
    n.to_string()
}

} // verus!
