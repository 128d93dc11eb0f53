//! Decimal numbers as text.
use vstd::prelude::*;

verus! {

/// The decimal digit for `d` (0 to 9).
pub open spec fn spec_digit(d: nat) -> char {
    if d == 0 {
        '0'
    } else if d == 1 {
        '1'
    } else if d == 2 {
        '2'
    } else if d == 3 {
        '3'
    } else if d == 4 {
        '4'
    } else if d == 5 {
        '5'
    } else if d == 6 {
        '6'
    } else if d == 7 {
        '7'
    } else if d == 8 {
        '8'
    } else {
        '9'
    }
}

/// `n` in decimal, without leading zeros ("0" for zero).
pub open spec fn spec_decimal(n: nat) -> Seq<char>
    decreases n,
{
    if n < 10 {
        seq![spec_digit(n)]
    } else {
        spec_decimal(n / 10).push(spec_digit(n % 10))
    }
}

/// `n` in decimal, with a minus sign when negative.
pub open spec fn spec_signed_decimal(n: int) -> Seq<char> {
    if n < 0 {
        seq!['-'] + spec_decimal((-n) as nat)
    } else {
        spec_decimal(n as nat)
    }
}

/// Appends the decimal digit `d`.
pub fn push_digit(s: &mut String, d: u128)
    requires
        d < 10,
    ensures
        final(s)@ == old(s)@.push(spec_digit(d as nat)),
{
    let digit = if d == 0 {
        let t = "0";
        proof {
            reveal_strlit("0");
        }
        t
    } else if d == 1 {
        let t = "1";
        proof {
            reveal_strlit("1");
        }
        t
    } else if d == 2 {
        let t = "2";
        proof {
            reveal_strlit("2");
        }
        t
    } else if d == 3 {
        let t = "3";
        proof {
            reveal_strlit("3");
        }
        t
    } else if d == 4 {
        let t = "4";
        proof {
            reveal_strlit("4");
        }
        t
    } else if d == 5 {
        let t = "5";
        proof {
            reveal_strlit("5");
        }
        t
    } else if d == 6 {
        let t = "6";
        proof {
            reveal_strlit("6");
        }
        t
    } else if d == 7 {
        let t = "7";
        proof {
            reveal_strlit("7");
        }
        t
    } else if d == 8 {
        let t = "8";
        proof {
            reveal_strlit("8");
        }
        t
    } else {
        let t = "9";
        proof {
            reveal_strlit("9");
        }
        t
    };
    s.append(digit);
    assert(final(s)@ =~= old(s)@.push(spec_digit(d as nat)));
}

/// Appends `n` in decimal.
pub fn push_decimal(s: &mut String, n: u128)
    ensures
        final(s)@ == old(s)@ + spec_decimal(n as nat),
    decreases n,
{
    if n >= 10 {
        push_decimal(s, n / 10);
    }
    push_digit(s, n % 10);
    assert(final(s)@ =~= old(s)@ + spec_decimal(n as nat));
}

/// Appends `n` in decimal, with a minus sign when negative.
pub fn push_signed_decimal(s: &mut String, n: i64)
    ensures
        final(s)@ == old(s)@ + spec_signed_decimal(n as int),
{
    if n < 0 {
        let minus = "-";
        proof {
            reveal_strlit("-");
        }
        s.append(minus);
        let magnitude: u128 = (0 - (n as i128)) as u128;
        push_decimal(s, magnitude);
    } else {
        push_decimal(s, n as u128);
    }
    assert(final(s)@ =~= old(s)@ + spec_signed_decimal(n as int));
}

} // verus!
