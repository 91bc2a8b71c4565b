//! Decimal text: reading integers from ASCII bytes and writing them as text.

use vstd::prelude::*;
use vstd::string::StringExecFns;

verus! {

/// `b` is one of the ASCII bytes `0` to `9`.
pub open spec fn is_ascii_digit(b: u8) -> bool {
    48 <= b <= 57
}

/// Every byte of `s` is an ASCII digit.
pub open spec fn all_ascii_digits(s: Seq<u8>) -> bool {
    forall|i: int| 0 <= i < s.len() ==> #[trigger] is_ascii_digit(s[i])
}

/// The number that the ASCII digits `s` write in base ten (0 for no digits).
pub open spec fn digits_value(s: Seq<u8>) -> nat
    decreases s.len(),
{
    if s.len() == 0 {
        0
    } else {
        digits_value(s.drop_last()) * 10 + (s.last() - 48) as nat
    }
}

/// `s` starts with a `+` or `-` sign.
pub open spec fn has_sign(s: Seq<u8>) -> bool {
    s.len() > 0 && (s[0] == 45u8 || s[0] == 43u8)
}

/// The integer that `s` writes in base ten, if it lies in `min..=max`.
///
/// The text is an optional sign (`+` or `-`) followed by at least one ASCII
/// digit and nothing else: the same text that the standard library's
/// `from_str` accepts for a signed integer type.
pub open spec fn parsed_int(s: Seq<u8>, min: int, max: int) -> Option<int> {
    let digits = if has_sign(s) { s.skip(1) } else { s };
    let magnitude = digits_value(digits) as int;
    let value = if s.len() > 0 && s[0] == 45u8 { -magnitude } else { magnitude };
    if digits.len() > 0 && all_ascii_digits(digits) && min <= value <= max {
        Some(value)
    } else {
        None
    }
}

/// Ten to the power `w`.
pub open spec fn pow10(w: nat) -> nat
    decreases w,
{
    if w == 0 {
        1
    } else {
        10 * pow10((w - 1) as nat)
    }
}

/// The last `width` decimal digits of `n`, as ASCII bytes, with leading zeros:
/// `decimal_digits(9, 2)` is `09`.
pub open spec fn decimal_digits(n: nat, width: nat) -> Seq<u8>
    decreases width,
{
    if width == 0 {
        Seq::empty()
    } else {
        decimal_digits(n / 10, (width - 1) as nat).push((48 + n % 10) as u8)
    }
}

/// The `width` digits of a number below `10^width` write that number.
pub proof fn lemma_decimal_digits_value(n: nat, width: nat)
    requires
        n < pow10(width),
    ensures
        decimal_digits(n, width).len() == width,
        all_ascii_digits(decimal_digits(n, width)),
        digits_value(decimal_digits(n, width)) == n,
    decreases width,
{
    if width > 0 {
        let w1 = (width - 1) as nat;
        assert(n / 10 < pow10(w1)) by (nonlinear_arith)
            requires
                n < 10 * pow10(w1),
        ;
        lemma_decimal_digits_value(n / 10, w1);
        let front = decimal_digits(n / 10, w1);
        let s = decimal_digits(n, width);
        assert(s.drop_last() =~= front);
        assert(all_ascii_digits(s)) by {
            assert forall|i: int| 0 <= i < s.len() implies #[trigger] is_ascii_digit(s[i]) by {
                if i < front.len() {
                    assert(is_ascii_digit(front[i]));
                }
            }
        }
    }
}

/// Reading back the `width` digits of a number below `10^width` gives that
/// number, wherever it lies within the bounds read against.
pub proof fn lemma_parsed_decimal_digits(n: nat, width: nat, min: int, max: int)
    requires
        1 <= width,
        n < pow10(width),
        min <= n <= max,
    ensures
        parsed_int(decimal_digits(n, width), min, max) == Some(n as int),
{
    lemma_decimal_digits_value(n, width);
    let s = decimal_digits(n, width);
    assert(is_ascii_digit(s[0]));
    assert(!has_sign(s));
}

/// A longer run of digits never writes a smaller number than its prefix.
pub proof fn lemma_digits_value_prefix(s: Seq<u8>, k: int)
    requires
        0 <= k <= s.len(),
        all_ascii_digits(s),
    ensures
        digits_value(s.take(k)) <= digits_value(s),
    decreases s.len(),
{
    if k < s.len() {
        let shorter = s.drop_last();
        assert(shorter.take(k) =~= s.take(k));
        assert(all_ascii_digits(shorter)) by {
            assert forall|i: int| 0 <= i < shorter.len() implies #[trigger] is_ascii_digit(
                shorter[i],
            ) by {
                assert(is_ascii_digit(s[i]));
            }
        }
        lemma_digits_value_prefix(shorter, k);
    } else {
        assert(s.take(k) =~= s);
    }
}

/// Reads the integer written in `text[start..end]`, as the standard library's
/// `from_str` reads a signed integer: `None` unless the text is an optional
/// sign and at least one ASCII digit whose value lies in `min..=max`.
pub fn parse_int(text: &[u8], start: usize, end: usize, min: i32, max: i32) -> (res: Option<i32>)
    requires
        start <= end <= text@.len(),
        min <= 0 <= max,
    ensures
        match res {
            Some(v) => parsed_int(text@.subrange(start as int, end as int), min as int, max as int)
                == Some(v as int),
            None => parsed_int(text@.subrange(start as int, end as int), min as int, max as int)
                is None,
        },
{
    let ghost s = text@.subrange(start as int, end as int);
    let negative = start < end && text[start] == 45u8;
    let signed = start < end && (text[start] == 45u8 || text[start] == 43u8);
    let first = if signed { start + 1 } else { start };
    let ghost digits = if has_sign(s) { s.skip(1) } else { s };
    assert(digits =~= text@.subrange(first as int, end as int));
    if first == end {
        return None;
    }
    let limit: i64 = if negative { -(min as i64) } else { max as i64 };
    let mut acc: i64 = 0;
    let mut i: usize = first;
    while i < end
        invariant
            start <= first < end,
            first <= i <= end <= text@.len(),
            s == text@.subrange(start as int, end as int),
            digits == (if has_sign(s) { s.skip(1) } else { s }),
            negative == (s.len() > 0 && s[0] == 45u8),
            limit == (if negative { -(min as int) } else { max as int }),
            min <= 0 <= max,
            digits =~= text@.subrange(first as int, end as int),
            0 <= limit <= 2_147_483_648,
            0 <= acc <= limit,
            acc == digits_value(digits.take(i - first)),
            forall|j: int| 0 <= j < i - first ==> #[trigger] is_ascii_digit(digits[j]),
        decreases end - i,
    {
        let b = text[i];
        if b < 48u8 || b > 57u8 {
            assert(!is_ascii_digit(digits[i - first]));
            return None;
        }
        assert(digits.take(i - first + 1).drop_last() =~= digits.take(i - first));
        acc = acc * 10 + (b - 48u8) as i64;
        assert(acc == digits_value(digits.take(i - first + 1)));
        if acc > limit {
            proof {
                if all_ascii_digits(digits) {
                    lemma_digits_value_prefix(digits, i - first + 1);
                    assert(digits.take(digits.len() as int) =~= digits);
                }
            }
            return None;
        }
        i = i + 1;
    }
    assert(digits.take(i - first) =~= digits);
    if negative {
        Some((-acc) as i32)
    } else {
        Some(acc as i32)
    }
}


/// The ASCII character of the decimal digit `d` (0 to 9).
pub open spec fn digit_char(d: int) -> char {
    (48 + d) as char
}

/// `n` written in base ten, without leading zeros.
pub open spec fn decimal_text(n: nat) -> Seq<char>
    decreases n,
{
    if n < 10 {
        seq![digit_char(n as int)]
    } else {
        decimal_text(n / 10).push(digit_char((n % 10) as int))
    }
}

fn digit_str(d: u16) -> (s: &'static str)
    requires
        d < 10,
    ensures
        s@ == seq![digit_char(d as int)],
{
    proof {
        reveal_strlit("0");
        reveal_strlit("1");
        reveal_strlit("2");
        reveal_strlit("3");
        reveal_strlit("4");
        reveal_strlit("5");
        reveal_strlit("6");
        reveal_strlit("7");
        reveal_strlit("8");
        reveal_strlit("9");
    }
    if d == 0 {
        "0"
    } else if d == 1 {
        "1"
    } else if d == 2 {
        "2"
    } else if d == 3 {
        "3"
    } else if d == 4 {
        "4"
    } else if d == 5 {
        "5"
    } else if d == 6 {
        "6"
    } else if d == 7 {
        "7"
    } else if d == 8 {
        "8"
    } else {
        "9"
    }
}

/// `n` written in base ten, as `format!("{n}")` writes it.
pub fn decimal(n: u16) -> (s: String)
    ensures
        s@ == decimal_text(n as nat),
    decreases n,
{
    if n < 10 {
        String::from_str(digit_str(n))
    } else {
        let mut s = decimal(n / 10);
        s.append(digit_str(n % 10));
        s
    }
}

} // verus!
