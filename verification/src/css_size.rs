//! Sizes as the configuration writes them: "12px" or "12" is a size in
//! pixels, "4%" a share of the widget's size.
use vstd::prelude::*;

use crate::text::{spec_decimal, spec_digit, spec_signed_decimal};

verus! {

/// Whether `c` is an ASCII digit.
pub open spec fn spec_is_digit(c: char) -> bool {
    '0' <= c && c <= '9'
}

/// Whether every character of `s` is an ASCII digit.
pub open spec fn spec_all_digits(s: Seq<char>) -> bool {
    forall|i: int| 0 <= i < s.len() ==> spec_is_digit(#[trigger] s[i])
}

/// The number that the decimal digits `s` write.
pub open spec fn spec_digits_value(s: Seq<char>) -> int
    decreases s.len(),
{
    if s.len() == 0 {
        0
    } else {
        spec_digits_value(s.drop_last()) * 10 + (s.last() as int - '0' as int)
    }
}

/// What reading `s` as an `i32` in decimal gives: an optional `+` or `-`,
/// then one or more ASCII digits, whose value must lie in the range of
/// `i32`; anything else reads as nothing.
pub open spec fn spec_parse_i32(s: Seq<char>) -> Option<i32> {
    let signed = s.len() > 0 && (s[0] == '-' || s[0] == '+');
    let body = if signed {
        s.drop_first()
    } else {
        s
    };
    let v = if s.len() > 0 && s[0] == '-' {
        -spec_digits_value(body)
    } else {
        spec_digits_value(body)
    };
    if body.len() == 0 || !spec_all_digits(body) || v < i32::MIN || v > i32::MAX {
        None
    } else {
        Some(v as i32)
    }
}

/// A longer run of digits writes a larger number.
proof fn lemma_digits_value_step(s: Seq<char>, c: char)
    requires
        spec_is_digit(c),
    ensures
        spec_digits_value(s.push(c)) == spec_digits_value(s) * 10 + (c as int - '0' as int),
{
    assert(s.push(c).drop_last() =~= s);
}

/// Digits are never negative in value.
proof fn lemma_digits_value_nonneg(s: Seq<char>)
    requires
        spec_all_digits(s),
    ensures
        spec_digits_value(s) >= 0,
    decreases s.len(),
{
    if s.len() > 0 {
        lemma_digits_value_nonneg(s.drop_last());
    }
}

/// Reads the characters `from..to` of `s` as an `i32`; see `spec_parse_i32`.
fn parse_i32_range(s: &str, from: usize, to: usize) -> (r: Option<i32>)
    requires
        from <= to <= s@.len(),
    ensures
        r == spec_parse_i32(s@.subrange(from as int, to as int)),
{
    let ghost t = s@.subrange(from as int, to as int);
    let mut start = from;
    let mut negative = false;
    if from < to {
        let c = s.get_char(from);
        if c == '-' || c == '+' {
            negative = c == '-';
            start = from + 1;
        }
    }
    let ghost body = s@.subrange(start as int, to as int);
    assert(body =~= (if t.len() > 0 && (t[0] == '-' || t[0] == '+') {
        t.drop_first()
    } else {
        t
    }));
    if start == to {
        return None;
    }
    // The magnitude read so far, capped at one more than the largest
    // magnitude of an `i32`.
    let mut acc: u64 = 0;
    let mut i = start;
    while i < to
        invariant
            from <= start <= i <= to <= s@.len(),
            body == s@.subrange(start as int, to as int),
            t == s@.subrange(from as int, to as int),
            body == (if t.len() > 0 && (t[0] == '-' || t[0] == '+') {
                t.drop_first()
            } else {
                t
            }),
            spec_all_digits(s@.subrange(start as int, i as int)),
            acc as int == if spec_digits_value(s@.subrange(start as int, i as int)) < 2_147_483_649 {
                spec_digits_value(s@.subrange(start as int, i as int))
            } else {
                2_147_483_649
            },
        decreases to - i,
    {
        let c = s.get_char(i);
        if !('0' <= c && c <= '9') {
            proof {
                assert(body[i - start] == c);
                assert(!spec_is_digit(body[i - start]));
                assert(!spec_all_digits(body));
            }
            return None;
        }
        let d = (c as u32 - '0' as u32) as u64;
        proof {
            let prefix = s@.subrange(start as int, i as int);
            assert(s@.subrange(start as int, i as int + 1) =~= prefix.push(c));
            lemma_digits_value_step(prefix, c);
            lemma_digits_value_nonneg(prefix);
        }
        acc = if acc * 10 + d < 2_147_483_649 {
            acc * 10 + d
        } else {
            2_147_483_649
        };
        i += 1;
    }
    assert(s@.subrange(start as int, i as int) =~= body);
    proof {
        lemma_digits_value_nonneg(body);
    }
    if negative {
        if acc <= 2_147_483_648 {
            Some((0 - acc as i64) as i32)
        } else {
            None
        }
    } else {
        if acc <= 2_147_483_647 {
            Some(acc as i32)
        } else {
            None
        }
    }
}

/// How a size is written.
#[derive(Clone, Copy, Debug, PartialEq, Eq, Structural)]
pub enum CssSizeForm {
    /// A size in pixels.
    Fixed(i32),
    /// A share of the widget's size, written as a number followed by `%`;
    /// the number is read where shares are computed.
    Percent,
}

/// Why a size was refused.
#[derive(Clone, Copy, Debug, PartialEq, Eq, Structural)]
pub enum CssSizeError {
    /// The pixels are not a decimal `i32`.
    InvalidPixels,
}

/// Whether `s` ends with `%`.
pub open spec fn spec_ends_with_percent(s: Seq<char>) -> bool {
    s.len() >= 1 && s[s.len() - 1] == '%'
}

/// Whether `s` ends with "px".
pub open spec fn spec_ends_with_px(s: Seq<char>) -> bool {
    s.len() >= 2 && s[s.len() - 2] == 'p' && s[s.len() - 1] == 'x'
}

/// What a size written as `s` is: a share where it ends with `%`; else
/// pixels, the number before "px" or the whole text, which must read as an
/// `i32`.
pub open spec fn spec_css_size(s: Seq<char>) -> Result<CssSizeForm, CssSizeError> {
    let pixels = if spec_ends_with_px(s) {
        s.subrange(0, s.len() - 2)
    } else {
        s
    };
    if spec_ends_with_percent(s) {
        Ok(CssSizeForm::Percent)
    } else {
        match spec_parse_i32(pixels) {
            Some(v) => Ok(CssSizeForm::Fixed(v)),
            None => Err(CssSizeError::InvalidPixels),
        }
    }
}

/// Reads a size: "12px" and "12" are 12 pixels, "4%" is a share, and
/// anything else is refused.
pub fn parse_css_size(s: &str) -> (r: Result<CssSizeForm, CssSizeError>)
    ensures
        r == spec_css_size(s@),
{
    let n = s.unicode_len();
    if n >= 1 && s.get_char(n - 1) == '%' {
        return Ok(CssSizeForm::Percent);
    }
    let end = if n >= 2 && s.get_char(n - 2) == 'p' && s.get_char(n - 1) == 'x' {
        n - 2
    } else {
        n
    };
    assert(s@.subrange(0, n as int) =~= s@);
    match parse_i32_range(s, 0, end) {
        Some(v) => Ok(CssSizeForm::Fixed(v)),
        None => Err(CssSizeError::InvalidPixels),
    }
}

/// Each decimal digit is an ASCII digit worth its number.
proof fn lemma_digit_value(d: nat)
    requires
        d < 10,
    ensures
        spec_is_digit(spec_digit(d)),
        spec_digit(d) as int - '0' as int == d,
{
}

/// Decimal text is made of digits and reads back as the number it writes.
pub proof fn lemma_decimal_reads_back(n: nat)
    ensures
        spec_all_digits(spec_decimal(n)),
        spec_digits_value(spec_decimal(n)) == n,
        spec_decimal(n).len() >= 1,
    decreases n,
{
    if n < 10 {
        lemma_digit_value(n);
        assert(spec_decimal(n) =~= Seq::<char>::empty().push(spec_digit(n)));
        lemma_digits_value_step(Seq::<char>::empty(), spec_digit(n));
    } else {
        lemma_decimal_reads_back(n / 10);
        lemma_digit_value(n % 10);
        lemma_digits_value_step(spec_decimal(n / 10), spec_digit(n % 10));
    }
}

/// Every `i32`, written in decimal, reads back as itself.
pub proof fn lemma_signed_decimal_parses(n: i32)
    ensures
        spec_parse_i32(spec_signed_decimal(n as int)) == Some(n),
{
    if n < 0 {
        let m = (-(n as int)) as nat;
        lemma_decimal_reads_back(m);
        let t = spec_signed_decimal(n as int);
        assert(t.drop_first() =~= spec_decimal(m));
    } else {
        lemma_decimal_reads_back(n as nat);
        let t = spec_decimal(n as nat);
        assert(spec_is_digit(t[0]));
    }
}

/// A size in pixels written as its number, with or without "px", reads back
/// as that size.
pub proof fn lemma_css_size_round_trip(n: i32)
    ensures
        spec_css_size(spec_signed_decimal(n as int) + seq!['p', 'x']) == Ok::<CssSizeForm, CssSizeError>(
            CssSizeForm::Fixed(n),
        ),
        spec_css_size(spec_signed_decimal(n as int)) == Ok::<CssSizeForm, CssSizeError>(
            CssSizeForm::Fixed(n),
        ),
{
    lemma_signed_decimal_parses(n);
    let t = spec_signed_decimal(n as int);
    if n < 0 {
        lemma_decimal_reads_back((-(n as int)) as nat);
    } else {
        lemma_decimal_reads_back(n as nat);
    }
    let last = t[t.len() - 1];
    assert(spec_is_digit(last)) by {
        if n < 0 {
            assert(last == spec_decimal((-(n as int)) as nat)[t.len() - 2]);
        }
    }
    let px = t + seq!['p', 'x'];
    assert(px.subrange(0, px.len() - 2) =~= t);
    if t.len() >= 2 {
        assert(t[t.len() - 1] != 'x');
    }
}

} // verus!
