//! Decimal numbers as text: rendering, and parsing with the rules of std's
//! `u64::from_str`.

use vstd::prelude::*;

verus! {

/// Appends one character to a `String` (std's `String::push`).
#[verifier::external_body]
pub(crate) fn push_char(s: &mut String, c: char)
    ensures
        final(s)@ == old(s)@.push(c),
{
    s.push(c);
}

/// The character of a decimal digit value (below 10).
pub open spec fn digit_char(d: nat) -> char {
    (d + 48) as char
}

/// Whether `c` is one of the ASCII digits `0` to `9`.
pub open spec fn is_digit(c: char) -> bool {
    '0' <= c <= '9'
}

/// The value of an ASCII digit.
pub open spec fn digit_value(c: char) -> nat {
    (c as int - 48) as nat
}

/// The decimal rendering of `n`, without leading zeros (`0` for zero).
pub open spec fn decimal(n: nat) -> Seq<char>
    decreases n,
{
    if n < 10 {
        seq![digit_char(n)]
    } else {
        decimal(n / 10).push(digit_char(n % 10))
    }
}

/// The decimal rendering of `n`, padded with a leading zero to two characters.
pub open spec fn decimal_pad2(n: nat) -> Seq<char> {
    if n < 10 {
        seq!['0'] + decimal(n)
    } else {
        decimal(n)
    }
}

/// Whether every character of `s` is an ASCII digit.
pub open spec fn all_digits(s: Seq<char>) -> bool {
    forall|i: int| 0 <= i < s.len() ==> is_digit(#[trigger] s[i])
}

/// The number that a string of decimal digits denotes.
pub open spec fn digits_value(s: Seq<char>) -> nat
    decreases s.len(),
{
    if s.len() == 0 {
        0
    } else {
        digits_value(s.drop_last()) * 10 + digit_value(s.last())
    }
}

/// The digits that std's unsigned parser reads: everything after one
/// optional leading `+`.
pub open spec fn unsigned_digits(s: Seq<char>) -> Seq<char> {
    if s.len() > 0 && s[0] == '+' {
        s.drop_first()
    } else {
        s
    }
}

/// The result of `u64::from_str` on `s`: an optional `+`, then one or more
/// ASCII digits whose value fits in a `u64`; anything else is rejected.
pub open spec fn u64_from_str(s: Seq<char>) -> Option<u64> {
    let digits = unsigned_digits(s);
    if digits.len() > 0 && all_digits(digits) && digits_value(digits) <= u64::MAX {
        Some(digits_value(digits) as u64)
    } else {
        None
    }
}

/// Appends the decimal rendering of `n` to `s`.
pub(crate) fn push_decimal(s: &mut String, n: u64)
    ensures
        final(s)@ == old(s)@ + decimal(n as nat),
    decreases n,
{
    if n >= 10 {
        push_decimal(s, n / 10);
    }
    let d = n % 10;
    let c = if d == 0 {
        '0'
    } else if d == 1 {
        '1'
    } else if d == 2 {
        '2'
    } else if d == 3 {
        '3'
    } else if d == 4 {
        '4'
    } else if d == 5 {
        '5'
    } else if d == 6 {
        '6'
    } else if d == 7 {
        '7'
    } else if d == 8 {
        '8'
    } else {
        '9'
    };
    assert(c == digit_char(d as nat));
    push_char(s, c);
}

/// The decimal rendering of `n` as a new `String`.
pub fn decimal_string(n: u64) -> (s: String)
    ensures
        s@ == decimal(n as nat),
{
    let mut s = String::new();
    push_decimal(&mut s, n);
    s
}

proof fn lemma_digits_value_monotone(s: Seq<char>, k: int, j: int)
    requires
        0 <= k <= j <= s.len(),
    ensures
        digits_value(s.subrange(0, k)) <= digits_value(s.subrange(0, j)),
    decreases j - k,
{
    if k < j {
        lemma_digits_value_monotone(s, k, j - 1);
        assert(s.subrange(0, j).drop_last() == s.subrange(0, j - 1));
    }
}

/// Parses `given` as std's `u64::from_str` does.
pub(crate) fn parse_u64(given: &str) -> (parsed: Option<u64>)
    ensures
        parsed == u64_from_str(given@),
{
    let n = given.unicode_len();
    if n == 0 {
        return None;
    }
    let first = given.get_char(0);
    let start: usize = if first == '+' {
        1
    } else {
        0
    };
    let ghost digits = unsigned_digits(given@);
    assert(digits == given@.subrange(start as int, n as int));
    if start == n {
        return None;
    }
    let mut value: u64 = 0;
    let mut i: usize = start;
    while i < n
        invariant
            n == given@.len(),
            start <= i <= n,
            start < n,
            digits == given@.subrange(start as int, n as int),
            digits == unsigned_digits(given@),
            all_digits(digits.subrange(0, i - start)),
            value == digits_value(digits.subrange(0, i - start)),
        decreases n - i,
    {
        let c = given.get_char(i);
        assert(digits[i - start] == c);
        assert(digits.subrange(0, i - start + 1).drop_last() == digits.subrange(0, i - start));
        if c < '0' || c > '9' {
            assert(!all_digits(digits));
            return None;
        }
        let d = (c as u32 - 48) as u64;
        match value.checked_mul(10) {
            None => {
                proof {
                    lemma_digits_value_monotone(digits, i - start + 1, digits.len() as int);
                    assert(digits.subrange(0, digits.len() as int) == digits);
                }
                return None;
            },
            Some(tens) => match tens.checked_add(d) {
                None => {
                    proof {
                        lemma_digits_value_monotone(digits, i - start + 1, digits.len() as int);
                        assert(digits.subrange(0, digits.len() as int) == digits);
                    }
                    return None;
                },
                Some(next) => {
                    value = next;
                },
            },
        }
        i = i + 1;
    }
    assert(digits.subrange(0, n - start) == digits);
    Some(value)
}

pub(crate) proof fn lemma_decimal_is_digits(n: nat)
    ensures
        decimal(n).len() > 0,
        all_digits(decimal(n)),
        digits_value(decimal(n)) == n,
    decreases n,
{
    assert(digit_value(digit_char(n % 10)) == n % 10);
    if n < 10 {
        assert(decimal(n).drop_last() == Seq::<char>::empty());
        assert(decimal(n).last() == digit_char(n));
        assert(digits_value(decimal(n)) == digits_value(decimal(n).drop_last()) * 10 + digit_value(decimal(n).last()));
    } else {
        lemma_decimal_is_digits(n / 10);
        assert(decimal(n).drop_last() == decimal(n / 10));
        assert(decimal(n).last() == digit_char(n % 10));
        assert(digits_value(decimal(n)) == digits_value(decimal(n / 10)) * 10 + n % 10);
        assert forall|i: int| 0 <= i < decimal(n).len() implies is_digit(#[trigger] decimal(n)[i]) by {
            if i < decimal(n).len() - 1 {
                assert(decimal(n)[i] == decimal(n / 10)[i]);
            }
        }
    }
}

/// Reading back a rendered number: `u64::from_str` accepts the decimal
/// rendering of any `u64` and gives back that number.
pub proof fn lemma_parse_decimal_roundtrip(n: u64)
    ensures
        u64_from_str(decimal(n as nat)) == Some(n),
{
    lemma_decimal_is_digits(n as nat);
    assert(is_digit(decimal(n as nat)[0]));
    assert(unsigned_digits(decimal(n as nat)) == decimal(n as nat));
}

/// Whether `c` has the Unicode `White_Space` property, which std's `char::is_whitespace`
/// and `str::trim` go by.
pub open spec fn is_unicode_whitespace(c: char) -> bool {
    let u = c as u32;
    ||| 0x09 <= u <= 0x0D
    ||| u == 0x20
    ||| u == 0x85
    ||| u == 0xA0
    ||| u == 0x1680
    ||| 0x2000 <= u <= 0x200A
    ||| u == 0x2028
    ||| u == 0x2029
    ||| u == 0x202F
    ||| u == 0x205F
    ||| u == 0x3000
}

/// Whether `c` has the Unicode `White_Space` property.
pub fn is_whitespace(c: char) -> (ws: bool)
    ensures
        ws == is_unicode_whitespace(c),
{
    let u = c as u32;
    (0x09 <= u && u <= 0x0D) || u == 0x20 || u == 0x85 || u == 0xA0 || u == 0x1680 || (0x2000 <= u
        && u <= 0x200A) || u == 0x2028 || u == 0x2029 || u == 0x202F || u == 0x205F || u == 0x3000
}

/// Whether `s` is `t` with whitespace removed at both ends, as `str::trim` gives.
pub open spec fn is_trim_of(s: Seq<char>, t: Seq<char>) -> bool {
    exists|a: int, b: int|
        #![trigger s.subrange(a, b)]
        0 <= a <= b <= s.len() && t == s.subrange(a, b) && (forall|i: int|
            0 <= i < a ==> is_unicode_whitespace(#[trigger] s[i])) && (forall|i: int|
            b <= i < s.len() ==> is_unicode_whitespace(#[trigger] s[i])) && (a < b ==> (
        !is_unicode_whitespace(s[a]) && !is_unicode_whitespace(s[b - 1])))
}

/// `s` without its leading and trailing whitespace.
pub open spec fn trim_spec(s: Seq<char>) -> Seq<char> {
    choose|t: Seq<char>| is_trim_of(s, t)
}

/// `s` without its leading and trailing whitespace (as `str::trim` does).
pub fn trim(s: &str) -> (t: &str)
    ensures
        is_trim_of(s@, t@),
        t@ == trim_spec(s@),
{
    let n = s.unicode_len();
    let mut a: usize = 0;
    while a < n && is_whitespace(s.get_char(a))
        invariant
            n == s@.len(),
            a <= n,
            forall|i: int| 0 <= i < a ==> is_unicode_whitespace(#[trigger] s@[i]),
        decreases n - a,
    {
        a += 1;
    }
    let mut b: usize = n;
    while b > a && is_whitespace(s.get_char(b - 1))
        invariant
            n == s@.len(),
            a <= b <= n,
            forall|i: int| b <= i < n ==> is_unicode_whitespace(#[trigger] s@[i]),
        decreases b,
    {
        b -= 1;
    }
    let t = s.substring_char(a, b);
    assert(is_trim_of(s@, t@));
    proof {
        lemma_trim_unique(s@, t@, trim_spec(s@));
    }
    t
}

pub(crate) proof fn lemma_trim_unique(s: Seq<char>, t1: Seq<char>, t2: Seq<char>)
    requires
        is_trim_of(s, t1),
        is_trim_of(s, t2),
    ensures
        t1 == t2,
{
    let (a1, b1) = choose|a: int, b: int|
        #![trigger s.subrange(a, b)]
        0 <= a <= b <= s.len() && t1 == s.subrange(a, b) && (forall|i: int|
            0 <= i < a ==> is_unicode_whitespace(#[trigger] s[i])) && (forall|i: int|
            b <= i < s.len() ==> is_unicode_whitespace(#[trigger] s[i])) && (a < b ==> (
        !is_unicode_whitespace(s[a]) && !is_unicode_whitespace(s[b - 1])));
    let (a2, b2) = choose|a: int, b: int|
        #![trigger s.subrange(a, b)]
        0 <= a <= b <= s.len() && t2 == s.subrange(a, b) && (forall|i: int|
            0 <= i < a ==> is_unicode_whitespace(#[trigger] s[i])) && (forall|i: int|
            b <= i < s.len() ==> is_unicode_whitespace(#[trigger] s[i])) && (a < b ==> (
        !is_unicode_whitespace(s[a]) && !is_unicode_whitespace(s[b - 1])));
    if a1 < b1 && a2 < b2 {
        assert(a1 == a2 && b1 == b2);
    } else if a1 < b1 {
        assert(is_unicode_whitespace(s[a1]));
    } else if a2 < b2 {
        assert(is_unicode_whitespace(s[a2]));
    } else {
        assert(t1 == Seq::<char>::empty());
    }
}

} // verus!
