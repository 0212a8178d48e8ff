//! Decimal text for unsigned integers and exact ratios.

use vstd::arithmetic::div_mod::{
    lemma_div_is_ordered_by_denominator, lemma_fundamental_div_mod,
    lemma_fundamental_div_mod_converse,
};
use vstd::prelude::*;
use vstd::string::StringExecFns;

verus! {

/// The character that writes the decimal digit `d`.
pub open spec fn digit_char(d: int) -> char {
    if d == 0 {
        '0'
    } else if d == 1 {
        '1'
    } else if d == 2 {
        '2'
    } else if d == 3 {
        '3'
    } else if d == 4 {
        '4'
    } else if d == 5 {
        '5'
    } else if d == 6 {
        '6'
    } else if d == 7 {
        '7'
    } else if d == 8 {
        '8'
    } else {
        '9'
    }
}

/// The decimal digits of `n`, most significant first, without leading zeros.
pub open spec fn decimal(n: nat) -> Seq<char>
    decreases n,
{
    if n < 10 {
        seq![digit_char(n as int)]
    } else {
        decimal(n / 10).push(digit_char((n % 10) as int))
    }
}

/// `n / d` rounded to the nearest integer, a tie going to the even neighbour.
#[verifier::opaque]
pub open spec fn round_half_even(n: nat, d: nat) -> nat
    recommends
        d > 0,
{
    let q = n / d;
    let r = n % d;
    if 2 * r > d || (2 * r == d && q % 2 == 1) {
        q + 1
    } else {
        q
    }
}

/// The text of `n / d` with one digit after the point, rounded half to even.
pub open spec fn one_decimal(n: nat, d: nat) -> Seq<char>
    recommends
        d > 0,
{
    let t = round_half_even(n * 10, d);
    decimal(t / 10) + seq!['.', digit_char((t % 10) as int)]
}

/// The text of `n / d` with two digits after the point, rounded half to even.
pub open spec fn two_decimals(n: nat, d: nat) -> Seq<char>
    recommends
        d > 0,
{
    let h = round_half_even(n * 100, d);
    decimal(h / 100) + seq!['.', digit_char((h / 10 % 10) as int), digit_char((h % 10) as int)]
}

/// The one-character string for a decimal digit.
pub fn digit_str(d: u8) -> (s: &'static str)
    requires
        d < 10,
    ensures
        s@ == seq![digit_char(d as int)],
{
    proof {
        reveal_strlit("0");
        reveal_strlit("1");
        reveal_strlit("2");
        reveal_strlit("3");
        reveal_strlit("4");
        reveal_strlit("5");
        reveal_strlit("6");
        reveal_strlit("7");
        reveal_strlit("8");
        reveal_strlit("9");
    }
    let s: &'static str = match d {
        0 => "0",
        1 => "1",
        2 => "2",
        3 => "3",
        4 => "4",
        5 => "5",
        6 => "6",
        7 => "7",
        8 => "8",
        _ => "9",
    };
    assert(s@ =~= seq![digit_char(d as int)]);
    s
}

/// Appends the decimal digits of `n` to `out`.
pub fn append_decimal(out: &mut String, n: u128)
    ensures
        final(out)@ == old(out)@ + decimal(n as nat),
    decreases n,
{
    if n >= 10 {
        append_decimal(out, n / 10);
    }
    let d: u8 = (n % 10) as u8;
    out.append(digit_str(d));
    assert(out@ =~= old(out)@ + decimal(n as nat));
}

/// The decimal digits of `n` as a string.
pub fn to_decimal(n: u128) -> (s: String)
    ensures
        s@ == decimal(n as nat),
{
    let mut s: String = String::new();
    append_decimal(&mut s, n);
    assert(s@ =~= decimal(n as nat));
    s
}

/// Rounding a scaled quotient can be done on the remainder alone: with an even
/// scale `k`, the whole part `n / d` contributes `k` units each and does not
/// change which neighbour is even.
pub proof fn lemma_round_half_even_split(n: nat, d: nat, k: nat)
    requires
        d > 0,
        k > 0,
        k % 2 == 0,
    ensures
        round_half_even(n * k, d) == (n / d) * k + round_half_even((n % d) * k, d),
        round_half_even((n % d) * k, d) <= k,
{
    reveal(round_half_even);
    let q = (n / d) as int;
    let r = (n % d) as int;
    let x = (n * k) as int;
    let y = r * k;
    let a = y / (d as int);
    let b = y % (d as int);
    lemma_fundamental_div_mod(n as int, d as int);
    lemma_fundamental_div_mod(y, d as int);
    assert(0 <= y) by (nonlinear_arith)
        requires
            y == r * k,
            0 <= r,
            0 <= k,
    ;
    assert(x == (q * k + a) * d + b) by (nonlinear_arith)
        requires
            x == n * k,
            n == d * q + r,
            y == r * k,
            y == d * a + b,
    ;
    lemma_fundamental_div_mod_converse(x, d as int, q * k + a, b);
    assert(a < k) by (nonlinear_arith)
        requires
            y == r * k,
            y == d * a + b,
            0 <= r < d,
            0 <= b,
            0 < k,
    ;
    let m = q * (k / 2);
    assert(q * k == 2 * m) by (nonlinear_arith)
        requires
            k == 2 * (k / 2),
            m == q * (k / 2),
    ;
    assert((q * k + a) % 2 == a % 2);
}

/// `n / d` rounded half to even.
pub fn rounded_quotient(n: u128, d: u128) -> (q: u128)
    requires
        d > 0,
    ensures
        q == round_half_even(n as nat, d as nat),
{
    reveal(round_half_even);
    let q: u128 = n / d;
    let r: u128 = n % d;
    if r > d - r || (r == d - r && q % 2 == 1) {
        proof {
            lemma_div_is_ordered_by_denominator(n as int, 2, d as int);
        }
        q + 1
    } else {
        q
    }
}

/// `n * k / d` rounded half to even, as a whole part and a part below `k`.
/// The divisor is bounded so that a scaled remainder fits 128 bits.
fn rounded_parts(n: u128, d: u128, k: u128) -> (parts: (u128, u128))
    requires
        0 < d <= u128::MAX / 100,
        k == 10 || k == 100,
    ensures
        round_half_even(n as nat * k as nat, d as nat) == parts.0 * k + parts.1,
        parts.1 < k,
{
    let q: u128 = n / d;
    let r: u128 = n % d;
    assert(r * k <= u128::MAX) by (nonlinear_arith)
        requires
            r < d,
            d <= u128::MAX / 100,
            k <= 100,
    ;
    let f: u128 = rounded_quotient(r * k, d);
    proof {
        lemma_round_half_even_split(n as nat, d as nat, k as nat);
    }
    if f == k {
        proof {
            if d == 1 {
                reveal(round_half_even);
                assert(r == 0);
                assert(r * k == 0);
            }
            lemma_div_is_ordered_by_denominator(n as int, 2, d as int);
            assert((q + 1) * k + 0 == q * k + k) by (nonlinear_arith);
        }
        (q + 1, 0)
    } else {
        (q, f)
    }
}

/// Appends `n / d` with one digit after the point.
pub fn append_one_decimal(out: &mut String, n: u128, d: u128)
    requires
        0 < d <= u128::MAX / 100,
    ensures
        final(out)@ == old(out)@ + one_decimal(n as nat, d as nat),
{
    let (whole, frac) = rounded_parts(n, d, 10);
    append_decimal(out, whole);
    out.append(".");
    out.append(digit_str(frac as u8));
    proof {
        reveal_strlit(".");
        assert(out@ =~= old(out)@ + one_decimal(n as nat, d as nat));
    }
}

/// Appends `n / d` with two digits after the point.
pub fn append_two_decimals(out: &mut String, n: u128, d: u128)
    requires
        0 < d <= u128::MAX / 100,
    ensures
        final(out)@ == old(out)@ + two_decimals(n as nat, d as nat),
{
    let (whole, frac) = rounded_parts(n, d, 100);
    append_decimal(out, whole);
    out.append(".");
    out.append(digit_str((frac / 10) as u8));
    out.append(digit_str((frac % 10) as u8));
    proof {
        reveal_strlit(".");
        assert(out@ =~= old(out)@ + two_decimals(n as nat, d as nat));
    }
}

} // verus!
