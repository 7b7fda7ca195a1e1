//! Decimal and hexadecimal notation.
use vstd::prelude::*;
use super::chars::{chars_of, digit, is_digit};

verus! {

/// The character of a decimal or lower case hexadecimal digit.
pub open spec fn digit_char(d: nat) -> char {
    if d < 10 {
        ('0' as u32 + d) as char
    } else {
        ('a' as u32 + (d - 10)) as char
    }
}

/// The decimal notation of a number, without leading zeroes.
pub open spec fn decimal(n: nat) -> Seq<char>
    decreases n,
{
    if n < 10 {
        seq![digit_char(n)]
    } else {
        decimal(n / 10).push(digit_char(n % 10))
    }
}

/// Every character is a decimal digit.
pub open spec fn all_digits(s: Seq<char>) -> bool {
    forall|i: int| 0 <= i < s.len() ==> is_digit(#[trigger] s[i])
}

/// The number that a text of decimal digits denotes.
pub open spec fn digits_value(s: Seq<char>) -> nat
    decreases s.len(),
{
    if s.len() == 0 {
        0
    } else {
        digits_value(s.drop_last()) * 10 + (s.last() as u32 - '0' as u32) as nat
    }
}

/// The text without the plus sign it may start with.
pub open spec fn unsigned_part(s: Seq<char>) -> Seq<char> {
    if s.len() > 0 && s[0] == '+' {
        s.skip(1)
    } else {
        s
    }
}

/// The number that a text denotes: an optional plus sign followed by one or more decimal digits,
/// of a value that fits into 64 bits.
pub open spec fn parse_u64(s: Seq<char>) -> Option<u64> {
    let digits = unsigned_part(s);
    if digits.len() > 0 && all_digits(digits) && digits_value(digits) <= u64::MAX {
        Some(digits_value(digits) as u64)
    } else {
        None
    }
}

/// The character of a digit.
fn digit_of(d: u8) -> (res: char)
    requires
        d < 16,
    ensures
        res == digit_char(d as nat),
{
    if d < 10 {
        ('0' as u8 + d) as char
    } else {
        ('a' as u8 + (d - 10)) as char
    }
}

/// The decimal notation of a number.
pub fn decimal_text(n: u64) -> (res: String)
    ensures
        res@ == decimal(n as nat),
    decreases n,
{
    if n < 10 {
        let mut res = String::new();
        res.push(digit_of(n as u8));
        assert(res@ =~= decimal(n as nat));
        res
    } else {
        let mut res = decimal_text(n / 10);
        res.push(digit_of((n % 10) as u8));
        res
    }
}

/// The two digit hexadecimal notation of a number below 256.
pub open spec fn hex2(n: nat) -> Seq<char> {
    seq![digit_char(n / 16), digit_char(n % 16)]
}

/// The two digit hexadecimal notation of a number below 256.
pub fn hex2_text(n: u8) -> (res: String)
    ensures
        res@ == hex2(n as nat),
{
    let mut res = String::new();
    res.push(digit_of(n / 16));
    res.push(digit_of(n % 16));
    assert(res@ =~= hex2(n as nat));
    res
}

proof fn lemma_digits_value_grows(s: Seq<char>, n: int)
    requires
        0 <= n <= s.len(),
    ensures
        digits_value(s.take(n)) <= digits_value(s),
    decreases s.len() - n,
{
    if n == s.len() {
        assert(s.take(n) =~= s);
    } else {
        assert(s.take(n + 1).drop_last() =~= s.take(n));
        lemma_digits_value_grows(s, n + 1);
    }
}

/// The value of decimal digits, where it fits into 64 bits.
pub fn digits_value_of(chars: &Vec<char>, from: usize, to: usize) -> (res: Option<u64>)
    requires
        from <= to <= chars@.len(),
        all_digits(chars@.subrange(from as int, to as int)),
    ensures
        match res {
            Some(n) => n == digits_value(chars@.subrange(from as int, to as int)),
            None => digits_value(chars@.subrange(from as int, to as int)) > u64::MAX,
        },
{
    let ghost all = chars@.subrange(from as int, to as int);
    let mut value: u64 = 0;
    for i in from..to
        invariant
            from <= to <= chars@.len(),
            all == chars@.subrange(from as int, to as int),
            all_digits(all),
            value == digits_value(all.take(i - from)),
    {
        proof {
            assert(all.take(i - from + 1).drop_last() =~= all.take(i - from));
            lemma_digits_value_grows(all, i - from + 1);
            assert(is_digit(all[i - from]));
        }
        let d: u64 = (chars[i] as u32 - '0' as u32) as u64;
        match value.checked_mul(10) {
            Some(tens) => match tens.checked_add(d) {
                Some(next) => {
                    value = next;
                },
                None => {
                    return None;
                },
            },
            None => {
                return None;
            },
        }
    }
    assert(all.take(all.len() as int) =~= all);
    Some(value)
}

/// The number that a text denotes, see `parse_u64`.
pub fn parse_u64_text(s: &str) -> (res: Option<u64>)
    ensures
        res == parse_u64(s@),
{
    let chars = chars_of(s);
    let n = chars.len();
    let from: usize = if n > 0 && chars[0] == '+' {
        1
    } else {
        0
    };
    let ghost digits = unsigned_part(s@);
    assert(digits =~= s@.subrange(from as int, n as int));
    if from == n {
        return None;
    }
    for i in from..n
        invariant
            chars@ == s@,
            n == s@.len(),
            from <= n,
            digits == unsigned_part(s@),
            digits == s@.subrange(from as int, n as int),
            forall|j: int| from <= j < i ==> is_digit(s@[j]),
    {
        if !digit(chars[i]) {
            assert(!is_digit(digits[i - from]));
            return None;
        }
    }
    assert(all_digits(digits)) by {
        assert forall|j: int| 0 <= j < digits.len() implies is_digit(#[trigger] digits[j]) by {
            assert(is_digit(s@[from + j]));
        }
    }
    digits_value_of(&chars, from, n)
}

/// The decimal notation consists of digits, at least one, and denotes the number.
pub proof fn lemma_decimal(n: nat)
    ensures
        decimal(n).len() > 0,
        all_digits(decimal(n)),
        digits_value(decimal(n)) == n,
    decreases n,
{
    if n < 10 {
        assert(decimal(n).drop_last() =~= Seq::<char>::empty());
        assert(digits_value(Seq::<char>::empty()) == 0);
    } else {
        lemma_decimal(n / 10);
        assert(decimal(n).drop_last() =~= decimal(n / 10));
    }
}

/// Reading the decimal notation of a number gives the number back.
pub proof fn lemma_parse_decimal(n: u64)
    ensures
        parse_u64(decimal(n as nat)) == Some(n),
{
    lemma_decimal(n as nat);
    assert(is_digit(decimal(n as nat)[0]));
}

} // verus!
