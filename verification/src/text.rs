//! Text building blocks: comparison, decimal rendering and quote escaping,
//! each specified over sequences of characters.

use vstd::prelude::*;
use vstd::string::*;

verus! {

/// The character that writes the digit `d`, for `0 <= d <= 9`.
pub open spec fn digit_char(d: int) -> char {
    if d == 0 {
        '0'
    } else if d == 1 {
        '1'
    } else if d == 2 {
        '2'
    } else if d == 3 {
        '3'
    } else if d == 4 {
        '4'
    } else if d == 5 {
        '5'
    } else if d == 6 {
        '6'
    } else if d == 7 {
        '7'
    } else if d == 8 {
        '8'
    } else {
        '9'
    }
}

/// Decimal notation of a natural number, without leading zeros.
pub open spec fn decimal_nat(n: nat) -> Seq<char>
    decreases n,
{
    if n < 10 {
        seq![digit_char(n as int)]
    } else {
        decimal_nat(n / 10) + seq![digit_char((n % 10) as int)]
    }
}

/// Decimal notation of an integer: a minus sign for negatives, then the digits.
pub open spec fn decimal(n: int) -> Seq<char> {
    if n < 0 {
        seq!['-'] + decimal_nat((-n) as nat)
    } else {
        decimal_nat(n as nat)
    }
}

/// The digits behind the decimal point for `frac` thousandths, `0 <= frac < 1000`:
/// nothing for zero, else a point and up to three digits with no trailing zero.
pub open spec fn fraction_digits(frac: int) -> Seq<char> {
    if frac == 0 {
        Seq::empty()
    } else if frac % 100 == 0 {
        seq!['.', digit_char(frac / 100)]
    } else if frac % 10 == 0 {
        seq!['.', digit_char(frac / 100), digit_char(frac / 10 % 10)]
    } else {
        seq!['.', digit_char(frac / 100), digit_char(frac / 10 % 10), digit_char(frac % 10)]
    }
}

/// Decimal notation of the fixed-point number `millis / 1000`: sign, whole part,
/// and the fraction as far as it is not zero.
pub open spec fn decimal_thousandths(millis: int) -> Seq<char> {
    let size = if millis < 0 {
        -millis
    } else {
        millis
    };
    let sign = if millis < 0 {
        seq!['-']
    } else {
        Seq::empty()
    };
    sign + decimal_nat((size / 1000) as nat) + fraction_digits(size % 1000)
}

/// Texts joined with a separator between neighbours.
pub open spec fn joined(parts: Seq<Seq<char>>, separator: Seq<char>) -> Seq<char>
    decreases parts.len(),
{
    if parts.len() == 0 {
        Seq::empty()
    } else if parts.len() == 1 {
        parts[0]
    } else {
        joined(parts.drop_last(), separator) + separator + parts.last()
    }
}

/// What a character becomes inside a double-quoted literal: a quote gets a
/// backslash in front, anything else stays.
pub open spec fn escape_char(c: char) -> Seq<char> {
    if c == '"' {
        seq!['\\', '"']
    } else {
        seq![c]
    }
}

/// A text with every double quote escaped by a backslash.
pub open spec fn escape_quotes(s: Seq<char>) -> Seq<char>
    decreases s.len(),
{
    if s.len() == 0 {
        Seq::empty()
    } else {
        escape_quotes(s.drop_last()) + escape_char(s.last())
    }
}

/// Tells whether two texts hold the same characters.
pub fn same_text(a: &str, b: &str) -> (same: bool)
    ensures
        same == (a@ == b@),
{
    let left = String::from_str(a);
    let right = String::from_str(b);
    left == right
}

/// The one-character text of a digit.
fn digit_text(d: u64) -> (t: &'static str)
    requires
        d < 10,
    ensures
        t@ == seq![digit_char(d as int)],
{
    proof {
        reveal_strlit("0");
        reveal_strlit("1");
        reveal_strlit("2");
        reveal_strlit("3");
        reveal_strlit("4");
        reveal_strlit("5");
        reveal_strlit("6");
        reveal_strlit("7");
        reveal_strlit("8");
        reveal_strlit("9");
    }
    let t = if d == 0 {
        "0"
    } else if d == 1 {
        "1"
    } else if d == 2 {
        "2"
    } else if d == 3 {
        "3"
    } else if d == 4 {
        "4"
    } else if d == 5 {
        "5"
    } else if d == 6 {
        "6"
    } else if d == 7 {
        "7"
    } else if d == 8 {
        "8"
    } else {
        "9"
    };
    t
}

/// Appends the decimal notation of `n` to `out`.
pub fn push_decimal_nat(out: &mut String, n: u64)
    ensures
        final(out)@ == old(out)@ + decimal_nat(n as nat),
    decreases n,
{
    if n >= 10 {
        push_decimal_nat(out, n / 10);
    }
    out.append(digit_text(n % 10));
}

/// The magnitude of a signed number, which always fits unsigned.
pub fn magnitude(n: i64) -> (m: u64)
    ensures
        m == if n < 0 { -(n as int) } else { n as int },
{
    if n < 0 {
        let below: i64 = -(n + 1);
        (below as u64) + 1
    } else {
        n as u64
    }
}

/// Appends the decimal notation of the signed number `n` to `out`.
pub fn push_decimal(out: &mut String, n: i64)
    ensures
        final(out)@ == old(out)@ + decimal(n as int),
{
    if n < 0 {
        proof {
            reveal_strlit("-");
        }
        out.append("-");
    }
    push_decimal_nat(out, magnitude(n));
}

/// Appends the decimal notation of `millis / 1000` to `out`.
pub fn push_decimal_thousandths(out: &mut String, millis: i64)
    ensures
        final(out)@ == old(out)@ + decimal_thousandths(millis as int),
{
    if millis < 0 {
        proof {
            reveal_strlit("-");
        }
        out.append("-");
    }
    let size: u64 = magnitude(millis);
    push_decimal_nat(out, size / 1000);
    let frac: u64 = size % 1000;
    if frac != 0 {
        proof {
            reveal_strlit(".");
        }
        out.append(".");
        out.append(digit_text(frac / 100));
        if frac % 100 != 0 {
            out.append(digit_text(frac / 10 % 10));
            if frac % 10 != 0 {
                out.append(digit_text(frac % 10));
            }
        }
    }
}

/// Joins `parts` with `separator` between neighbours.
pub fn join(parts: &Vec<String>, separator: &str) -> (text: String)
    ensures
        text@ == joined(parts.deep_view(), separator@),
{
    let mut text = String::new();
    let n: usize = parts.len();
    let mut i: usize = 0;
    while i < n
        invariant
            n == parts.len(),
            i <= n,
            text@ == joined(parts.deep_view().take(i as int), separator@),
        decreases n - i,
    {
        proof {
            let upto = parts.deep_view().take(i as int + 1);
            assert(upto.drop_last() =~= parts.deep_view().take(i as int));
        }
        if i > 0 {
            text.append(separator);
        }
        text.append(parts[i].as_str());
        i = i + 1;
    }
    assert(parts.deep_view().take(n as int) =~= parts.deep_view());
    text
}

/// Appends `s` to `out` with its double quotes escaped.
pub fn push_escaped(out: &mut String, s: &str)
    ensures
        final(out)@ == old(out)@ + escape_quotes(s@),
{
    let n: usize = s.unicode_len();
    let mut i: usize = 0;
    while i < n
        invariant
            n == s@.len(),
            i <= n,
            out@ == old(out)@ + escape_quotes(s@.take(i as int)),
        decreases n - i,
    {
        let c: char = s.get_char(i);
        proof {
            reveal_strlit("\\\"");
            let upto = s@.take(i as int + 1);
            assert(upto.drop_last() =~= s@.take(i as int));
        }
        if c == '"' {
            out.append("\\\"");
        } else {
            out.append(s.substring_char(i, i + 1));
        }
        i = i + 1;
    }
    assert(s@.take(n as int) =~= s@);
}

} // verus!
