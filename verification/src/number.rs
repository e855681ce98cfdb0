//! Reading integers from decimal text, as the inverse of writing them.

use crate::text::{decimal, decimal_nat, digit_char};
use vstd::prelude::*;
use vstd::string::*;

verus! {

/// The digit that a character writes, if it is one of `0` to `9`.
pub open spec fn digit_value(c: char) -> Option<int> {
    if c == '0' {
        Some(0)
    } else if c == '1' {
        Some(1)
    } else if c == '2' {
        Some(2)
    } else if c == '3' {
        Some(3)
    } else if c == '4' {
        Some(4)
    } else if c == '5' {
        Some(5)
    } else if c == '6' {
        Some(6)
    } else if c == '7' {
        Some(7)
    } else if c == '8' {
        Some(8)
    } else if c == '9' {
        Some(9)
    } else {
        None
    }
}

/// The number that a run of digits writes, if every character is a digit;
/// the empty run writes zero.
pub open spec fn digits_value(s: Seq<char>) -> Option<int>
    decreases s.len(),
{
    if s.len() == 0 {
        Some(0)
    } else {
        match (digits_value(s.drop_last()), digit_value(s.last())) {
            (Some(front), Some(digit)) => Some(front * 10 + digit),
            _ => None,
        }
    }
}

/// The integer that a text writes: an optional sign, `+` or `-`, followed by
/// at least one digit and nothing else.
pub open spec fn integer_value(s: Seq<char>) -> Option<int> {
    if s.len() == 0 {
        None
    } else if s[0] == '-' || s[0] == '+' {
        if s.len() == 1 {
            None
        } else {
            match digits_value(s.skip(1)) {
                Some(size) => Some(
                    if s[0] == '-' {
                        -size
                    } else {
                        size
                    },
                ),
                None => None,
            }
        }
    } else {
        digits_value(s)
    }
}

/// The integer that a text writes, if it lies between `low` and `high`.
pub open spec fn integer_within(s: Seq<char>, low: int, high: int) -> Option<int> {
    match integer_value(s) {
        Some(value) => if low <= value <= high {
            Some(value)
        } else {
            None
        },
        None => None,
    }
}

/// A run of digits writes a number that is not negative and not smaller
/// than what any of its beginnings writes.
pub proof fn lemma_digits_grow(s: Seq<char>, upto: int)
    requires
        0 <= upto <= s.len(),
        digits_value(s) is Some,
    ensures
        digits_value(s.take(upto)) matches Some(front) && 0 <= front <= digits_value(s)->0,
    decreases s.len(),
{
    if upto == s.len() {
        assert(s.take(upto) =~= s);
        if s.len() > 0 {
            lemma_digits_grow(s.drop_last(), s.len() - 1);
        }
    } else {
        assert(s.drop_last().take(upto) =~= s.take(upto));
        lemma_digits_grow(s.drop_last(), upto);
    }
}

/// Reads the digit that a character writes.
fn read_digit(c: char) -> (digit: Option<u64>)
    ensures
        match digit {
            Some(d) => digit_value(c) == Some(d as int) && d <= 9,
            None => digit_value(c) is None,
        },
{
    if c == '0' {
        Some(0)
    } else if c == '1' {
        Some(1)
    } else if c == '2' {
        Some(2)
    } else if c == '3' {
        Some(3)
    } else if c == '4' {
        Some(4)
    } else if c == '5' {
        Some(5)
    } else if c == '6' {
        Some(6)
    } else if c == '7' {
        Some(7)
    } else if c == '8' {
        Some(8)
    } else if c == '9' {
        Some(9)
    } else {
        None
    }
}

/// Reads the digits of `text` from position `from` on, if they write a
/// number of at most `limit`.
fn read_digits(text: &str, from: usize, limit: u64) -> (size: Option<u64>)
    requires
        from <= text@.len(),
    ensures
        match size {
            Some(n) => digits_value(text@.skip(from as int)) == Some(n as int) && n <= limit,
            None => match digits_value(text@.skip(from as int)) {
                Some(n) => n > limit,
                None => true,
            },
        },
{
    let ghost run = text@.skip(from as int);
    let n: usize = text.unicode_len();
    let mut i: usize = from;
    let mut size: u64 = 0;
    while i < n
        invariant
            n == text@.len(),
            from <= i <= n,
            run == text@.skip(from as int),
            digits_value(run.take(i - from)) == Some(size as int),
            size <= limit,
        decreases n - i,
    {
        let ghost next = run.take(i - from + 1);
        proof {
            assert(next.drop_last() =~= run.take(i - from));
        }
        let digit: u64 = match read_digit(text.get_char(i)) {
            Some(digit) => digit,
            None => {
                proof {
                    if digits_value(run) is Some {
                        lemma_digits_grow(run, i - from + 1);
                    }
                }
                return None;
            },
        };
        if digit > limit || size > (limit - digit) / 10 {
            proof {
                if digits_value(run) is Some {
                    lemma_digits_grow(run, i - from + 1);
                }
            }
            return None;
        }
        size = size * 10 + digit;
        i = i + 1;
    }
    assert(run.take(n - from) =~= run);
    Some(size)
}

/// Reads a signed 64-bit integer from decimal text.
///
/// The text is an optional sign followed by at least one digit; leading
/// zeros are allowed. Anything else, and a number that does not fit, gives
/// `None`.
pub fn parse_i64(text: &str) -> (value: Option<i64>)
    ensures
        match value {
            Some(v) => integer_within(text@, i64::MIN as int, i64::MAX as int) == Some(v as int),
            None => integer_within(text@, i64::MIN as int, i64::MAX as int) is None,
        },
{
    let n: usize = text.unicode_len();
    if n == 0 {
        return None;
    }
    let first: char = text.get_char(0);
    if first == '-' {
        if n == 1 {
            return None;
        }
        match read_digits(text, 1, 0x8000_0000_0000_0000u64) {
            Some(size) => {
                if size == 0x8000_0000_0000_0000u64 {
                    Some(i64::MIN)
                } else {
                    Some(-(size as i64))
                }
            },
            None => None,
        }
    } else if first == '+' {
        if n == 1 {
            return None;
        }
        match read_digits(text, 1, 0x7fff_ffff_ffff_ffffu64) {
            Some(size) => Some(size as i64),
            None => None,
        }
    } else {
        assert(text@.skip(0) =~= text@);
        match read_digits(text, 0, 0x7fff_ffff_ffff_ffffu64) {
            Some(size) => Some(size as i64),
            None => None,
        }
    }
}

/// Reads a signed 32-bit integer from decimal text, under the same rules.
pub fn parse_i32(text: &str) -> (value: Option<i32>)
    ensures
        match value {
            Some(v) => integer_within(text@, i32::MIN as int, i32::MAX as int) == Some(v as int),
            None => integer_within(text@, i32::MIN as int, i32::MAX as int) is None,
        },
{
    match parse_i64(text) {
        Some(wide) => {
            if -2147483648 <= wide && wide <= 2147483647 {
                Some(wide as i32)
            } else {
                None
            }
        },
        None => None,
    }
}

/// Reads the key of a document from a parameter of its address; a parameter
/// that is missing or is no number gives the key zero.
pub fn parse_id(parameter: Option<&str>) -> (id: i64)
    ensures
        id == match parameter {
            Some(text) => match integer_within(text@, i64::MIN as int, i64::MAX as int) {
                Some(value) => value,
                None => 0,
            },
            None => 0,
        },
{
    match parameter {
        Some(text) => match parse_i64(text) {
            Some(id) => id,
            None => 0,
        },
        None => 0,
    }
}

/// The digits that write a natural number are read back as that number.
pub proof fn lemma_digits_round_trip(n: nat)
    ensures
        digits_value(decimal_nat(n)) == Some(n as int),
        decimal_nat(n).len() > 0,
        decimal_nat(n)[0] != '-',
        decimal_nat(n)[0] != '+',
    decreases n,
{
    if n < 10 {
        let one = seq![digit_char(n as int)];
        assert(digits_value(one.drop_last()) == Some(0int));
    } else {
        lemma_digits_round_trip(n / 10);
        let front = decimal_nat(n / 10);
        let all = front + seq![digit_char((n % 10) as int)];
        assert(all.drop_last() =~= front);
    }
}

/// Reading is the inverse of writing: the decimal notation of an integer is
/// read back as that integer.
pub proof fn lemma_integer_round_trip(n: int)
    ensures
        integer_value(decimal(n)) == Some(n),
{
    if n < 0 {
        let size = (-n) as nat;
        lemma_digits_round_trip(size);
        let text = seq!['-'] + decimal_nat(size);
        assert(text.skip(1) =~= decimal_nat(size));
    } else {
        lemma_digits_round_trip(n as nat);
    }
}

} // verus!
