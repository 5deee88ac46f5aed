//! Decimal notation for integers.

use vstd::prelude::*;

verus! {

/// The character of a single decimal digit.
pub open spec fn digit(d: int) -> char
    recommends
        0 <= d < 10,
{
    (48 + d) as char
}

/// A natural number in decimal, without leading zeros.
pub open spec fn decimal_nat(n: nat) -> Seq<char>
    decreases n,
{
    if n < 10 {
        seq![digit(n as int)]
    } else {
        decimal_nat(n / 10) + seq![digit((n % 10) as int)]
    }
}

/// An integer in decimal, with a minus sign in front where it is negative.
pub open spec fn decimal(n: int) -> Seq<char> {
    if n < 0 {
        seq!['-'] + decimal_nat((-n) as nat)
    } else {
        decimal_nat(n as nat)
    }
}

/// The digit `d` as a string.
fn digit_str(d: u32) -> (s: &'static str)
    requires
        d < 10,
    ensures
        s@ == seq![digit(d as int)],
{
    proof {
        reveal_strlit("0");
        reveal_strlit("1");
        reveal_strlit("2");
        reveal_strlit("3");
        reveal_strlit("4");
        reveal_strlit("5");
        reveal_strlit("6");
        reveal_strlit("7");
        reveal_strlit("8");
        reveal_strlit("9");
    }
    let s = match d {
        0 => "0",
        1 => "1",
        2 => "2",
        3 => "3",
        4 => "4",
        5 => "5",
        6 => "6",
        7 => "7",
        8 => "8",
        _ => "9",
    };
    assert(s@ =~= seq![digit(d as int)]);
    s
}

/// Appends `n` in decimal to `out`.
fn write_decimal_nat(n: u32, out: &mut String)
    ensures
        final(out)@ == old(out)@ + decimal_nat(n as nat),
    decreases n,
{
    if n >= 10 {
        write_decimal_nat(n / 10, out);
    }
    out.append(digit_str(n % 10));
    assert(final(out)@ =~= old(out)@ + decimal_nat(n as nat));
}

/// Appends `n` in decimal to `out`, as `i32`'s `Display` writes it.
pub fn write_decimal(n: i32, out: &mut String)
    ensures
        final(out)@ == old(out)@ + decimal(n as int),
{
    if n < 0 {
        out.append("-");
        proof {
            reveal_strlit("-");
        }
        let magnitude: i64 = 0 - (n as i64);
        write_decimal_nat(magnitude as u32, out);
        assert(final(out)@ =~= old(out)@ + decimal(n as int));
    } else {
        write_decimal_nat(n as u32, out);
    }
}

} // verus!
