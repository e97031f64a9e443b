//! Integers and two-place decimals as text.

use vstd::prelude::*;

verus! {

/// The character of the decimal digit `d`.
pub open spec fn digit(d: int) -> char {
    if d == 0 {
        '0'
    } else if d == 1 {
        '1'
    } else if d == 2 {
        '2'
    } else if d == 3 {
        '3'
    } else if d == 4 {
        '4'
    } else if d == 5 {
        '5'
    } else if d == 6 {
        '6'
    } else if d == 7 {
        '7'
    } else if d == 8 {
        '8'
    } else {
        '9'
    }
}

/// The decimal digits of `n`, most significant first, without leading zeros.
pub open spec fn nat_text(n: nat) -> Seq<char>
    decreases n,
{
    if n < 10 {
        seq![digit(n as int)]
    } else {
        nat_text(n / 10).push(digit((n % 10) as int))
    }
}

/// The sign that goes before a number: a minus where it is negative.
pub open spec fn sign_text(v: int) -> Seq<char> {
    if v < 0 {
        seq!['-']
    } else {
        Seq::<char>::empty()
    }
}

/// The size of `v` without its sign.
pub open spec fn magnitude(v: int) -> nat {
    if v < 0 {
        (-v) as nat
    } else {
        v as nat
    }
}

/// The integer `v` as text.
pub open spec fn int_text(v: int) -> Seq<char> {
    sign_text(v) + nat_text(magnitude(v))
}

/// The amount of `v` hundredths as text with two decimal places: the sign,
/// the whole part, a point, and the two digits of the hundredths.
pub open spec fn decimal_text(v: int) -> Seq<char> {
    let m = magnitude(v);
    sign_text(v) + nat_text(m / 100) + seq![
        '.',
        digit(((m % 100) / 10) as int),
        digit((m % 10) as int),
    ]
}

fn digit_str(d: u8) -> (s: &'static str)
    requires
        d < 10,
    ensures
        s@ == seq![digit(d as int)],
{
    proof {
        reveal_strlit("0");
        reveal_strlit("1");
        reveal_strlit("2");
        reveal_strlit("3");
        reveal_strlit("4");
        reveal_strlit("5");
        reveal_strlit("6");
        reveal_strlit("7");
        reveal_strlit("8");
        reveal_strlit("9");
    }
    let s = match d {
        0 => "0",
        1 => "1",
        2 => "2",
        3 => "3",
        4 => "4",
        5 => "5",
        6 => "6",
        7 => "7",
        8 => "8",
        _ => "9",
    };
    assert(s@ =~= seq![digit(d as int)]);
    s
}

fn push_digit(s: &mut String, d: u8)
    requires
        d < 10,
    ensures
        final(s)@ == old(s)@.push(digit(d as int)),
{
    s.append(digit_str(d));
    assert(s@ =~= old(s)@.push(digit(d as int)));
}

fn push_nat(s: &mut String, n: u128)
    ensures
        final(s)@ == old(s)@ + nat_text(n as nat),
    decreases n,
{
    if n >= 10 {
        push_nat(s, n / 10);
    }
    push_digit(s, (n % 10) as u8);
    assert(s@ =~= old(s)@ + nat_text(n as nat));
}

fn push_sign(s: &mut String, v: i128) -> (m: u128)
    ensures
        final(s)@ == old(s)@ + sign_text(v as int),
        m == magnitude(v as int),
{
    if v < 0 {
        proof {
            reveal_strlit("-");
        }
        s.append("-");
        assert(s@ =~= old(s)@ + sign_text(v as int));
        (-(v + 1)) as u128 + 1
    } else {
        assert(s@ =~= old(s)@ + sign_text(v as int));
        v as u128
    }
}

/// Appends the integer `v` to `s`.
pub fn push_int(s: &mut String, v: i128)
    ensures
        final(s)@ == old(s)@ + int_text(v as int),
{
    let m = push_sign(s, v);
    push_nat(s, m);
    assert(s@ =~= old(s)@ + int_text(v as int));
}

/// Appends the amount of `v` hundredths to `s`, with two decimal places.
pub fn push_decimal(s: &mut String, v: i128)
    ensures
        final(s)@ == old(s)@ + decimal_text(v as int),
{
    let m = push_sign(s, v);
    push_nat(s, m / 100);
    proof {
        reveal_strlit(".");
    }
    s.append(".");
    push_digit(s, ((m % 100) / 10) as u8);
    push_digit(s, (m % 10) as u8);
    assert(s@ =~= old(s)@ + decimal_text(v as int));
}

/// The amount of `v` hundredths as text with two decimal places.
pub fn decimal_to_string(v: i128) -> (s: String)
    ensures
        s@ == decimal_text(v as int),
{
    let mut s = String::new();
    push_decimal(&mut s, v);
    assert(s@ =~= decimal_text(v as int));
    s
}

} // verus!
