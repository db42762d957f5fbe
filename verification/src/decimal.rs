//! Decimal text for integers: plain, zero-padded and signed forms, used by
//! the URL builder and the report renderer.

use vstd::prelude::*;
use vstd::string::StringExecFns;

verus! {

/// The character for one decimal digit value.
pub open spec fn digit_char(d: int) -> char {
    if d == 0 {
        '0'
    } else if d == 1 {
        '1'
    } else if d == 2 {
        '2'
    } else if d == 3 {
        '3'
    } else if d == 4 {
        '4'
    } else if d == 5 {
        '5'
    } else if d == 6 {
        '6'
    } else if d == 7 {
        '7'
    } else if d == 8 {
        '8'
    } else {
        '9'
    }
}

/// Decimal representation of a nonnegative integer, without padding.
pub open spec fn dec_rep(n: nat) -> Seq<char>
    decreases n,
{
    if n < 10 {
        seq![digit_char(n as int)]
    } else {
        dec_rep(n / 10) + seq![digit_char((n % 10) as int)]
    }
}

/// Decimal representation of a signed integer.
pub open spec fn int_rep(n: int) -> Seq<char> {
    if n < 0 {
        seq!['-'] + dec_rep((-n) as nat)
    } else {
        dec_rep(n as nat)
    }
}

/// Two decimal digits, zero padded (meaningful for 0 <= n < 100).
pub open spec fn pad2(n: int) -> Seq<char> {
    seq![digit_char(n / 10), digit_char(n % 10)]
}

/// Four decimal digits, zero padded (meaningful for 0 <= n < 10000).
pub open spec fn pad4(n: int) -> Seq<char> {
    seq![digit_char(n / 1000), digit_char((n / 100) % 10), digit_char((n / 10) % 10), digit_char(
        n % 10,
    )]
}

/// A year as rendered in dates: zero padded to four digits, wider years
/// written out in full, negative years with a leading minus sign.
pub open spec fn year_rep(y: int) -> Seq<char> {
    if y < 0 {
        seq!['-'] + nonneg_year_rep(-y)
    } else {
        nonneg_year_rep(y)
    }
}

pub open spec fn nonneg_year_rep(n: int) -> Seq<char> {
    if n < 10000 {
        pad4(n)
    } else {
        dec_rep(n as nat)
    }
}

/// The literal for one decimal digit value.
pub fn digit_literal(d: u32) -> (r: &'static str)
    requires
        d < 10,
    ensures
        r@ == seq![digit_char(d as int)],
{
    let r: &'static str = match d {
        0 => "0",
        1 => "1",
        2 => "2",
        3 => "3",
        4 => "4",
        5 => "5",
        6 => "6",
        7 => "7",
        8 => "8",
        _ => "9",
    };
    proof {
        reveal_strlit("0");
        reveal_strlit("1");
        reveal_strlit("2");
        reveal_strlit("3");
        reveal_strlit("4");
        reveal_strlit("5");
        reveal_strlit("6");
        reveal_strlit("7");
        reveal_strlit("8");
        reveal_strlit("9");
        assert(r@ =~= seq![digit_char(d as int)]);
    }
    r
}

/// Appends one decimal digit.
pub fn push_digit(s: &mut String, d: u32)
    requires
        d < 10,
    ensures
        final(s)@ == old(s)@ + seq![digit_char(d as int)],
{
    s.append(digit_literal(d));
}

/// Appends the decimal representation of `n`.
pub fn push_u64(s: &mut String, n: u64)
    ensures
        final(s)@ == old(s)@ + dec_rep(n as nat),
    decreases n,
{
    if n < 10 {
        push_digit(s, n as u32);
    } else {
        push_u64(s, n / 10);
        push_digit(s, (n % 10) as u32);
        assert(s@ =~= old(s)@ + dec_rep(n as nat));
    }
}

/// Appends the decimal representation of a signed count.
pub fn push_i64(s: &mut String, n: i64)
    ensures
        final(s)@ == old(s)@ + int_rep(n as int),
{
    if n >= 0 {
        push_u64(s, n as u64);
    } else {
        s.append("-");
        let m: u64 = if n == i64::MIN {
            proof {
                assert((-(i64::MIN as int)) == 0x8000_0000_0000_0000int);
            }
            0x8000_0000_0000_0000u64
        } else {
            (-n) as u64
        };
        push_u64(s, m);
        proof {
            reveal_strlit("-");
            assert(s@ =~= old(s)@ + int_rep(n as int));
        }
    }
}

/// Appends two zero-padded decimal digits.
pub fn push_pad2(s: &mut String, n: u32)
    requires
        n < 100,
    ensures
        final(s)@ == old(s)@ + pad2(n as int),
{
    push_digit(s, n / 10);
    push_digit(s, n % 10);
    assert(s@ =~= old(s)@ + pad2(n as int));
}

/// Appends four zero-padded decimal digits.
pub fn push_pad4(s: &mut String, n: u32)
    requires
        n < 10000,
    ensures
        final(s)@ == old(s)@ + pad4(n as int),
{
    push_digit(s, n / 1000);
    push_digit(s, (n / 100) % 10);
    push_digit(s, (n / 10) % 10);
    push_digit(s, n % 10);
    assert(s@ =~= old(s)@ + pad4(n as int));
}

/// Appends a year in its date rendering.
pub fn push_year(s: &mut String, y: i32)
    ensures
        final(s)@ == old(s)@ + year_rep(y as int),
{
    if y >= 0 {
        if y < 10000 {
            push_pad4(s, y as u32);
        } else {
            push_u64(s, y as u64);
        }
    } else {
        s.append("-");
        let m: i64 = -(y as i64);
        if m < 10000 {
            push_pad4(s, m as u32);
        } else {
            push_u64(s, m as u64);
        }
        proof {
            reveal_strlit("-");
            assert(s@ =~= old(s)@ + year_rep(y as int));
        }
    }
}

} // verus!
