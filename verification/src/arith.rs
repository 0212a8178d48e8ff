//! Exact scaling of wide integers: products that would not fit 128 bits are
//! never formed, only their quotients and remainders.

use vstd::arithmetic::div_mod::{lemma_fundamental_div_mod, lemma_fundamental_div_mod_converse};
use vstd::prelude::*;

verus! {

/// `n / d` rounded up to the next integer.
pub open spec fn ceil_div(n: nat, d: nat) -> nat
    recommends
        d > 0,
{
    if n % d == 0 {
        n / d
    } else {
        n / d + 1
    }
}

/// `value * num / den`, rounded down, for a fraction `num / den` of at most
/// one.
pub fn scaled_floor(value: u128, num: u32, den: u32) -> (scaled: u128)
    requires
        den > 0,
        num <= den,
    ensures
        scaled == (value * num) / (den as int),
        scaled <= value,
{
    let q: u128 = value / (den as u128);
    let r: u128 = value % (den as u128);
    assert(r * num <= u64::MAX) by (nonlinear_arith)
        requires
            r < den,
            num <= u32::MAX,
            den <= u32::MAX,
    ;
    let low: u128 = r * (num as u128);
    let a: u128 = low / (den as u128);
    let b: u128 = low % (den as u128);
    proof {
        lemma_fundamental_div_mod(value as int, den as int);
        lemma_fundamental_div_mod(low as int, den as int);
        let x = value * num;
        assert(x == (q * num + a) * den + b) by (nonlinear_arith)
            requires
                x == value * num,
                value == den * q + r,
                low == r * num,
                low == den * a + b,
        ;
        lemma_fundamental_div_mod_converse(x, den as int, q * num + a, b as int);
        assert(q * num + a <= value) by (nonlinear_arith)
            requires
                x == (q * num + a) * den + b,
                x == value * num,
                0 <= num <= den,
                0 < den,
                0 <= b,
                0 <= value,
        ;
        assert(0 <= q * num) by (nonlinear_arith)
            requires
                0 <= q,
                0 <= num,
        ;
    }
    q * (num as u128) + a
}

/// `count * part` divided by `den`, as quotient and remainder, for a `part`
/// below `den`. The product is built by doubling, so that no intermediate
/// value reaches `2 * den`.
pub fn times_div_rem(count: u32, part: u128, den: u128) -> (qr: (u32, u128))
    requires
        part < den,
    ensures
        count * part == qr.0 * den + qr.1,
        qr.1 < den,
        qr.0 <= count,
        count > 0 ==> qr.0 < count,
    decreases count,
{
    if count == 0 {
        assert(count * part == 0 * den + 0) by (nonlinear_arith)
            requires
                count == 0,
        ;
        return (0, 0);
    }
    let half: u32 = count / 2;
    let (hq, hr) = times_div_rem(half, part, den);
    // Double: 2 * half * part == dq * den + dr.
    let (dq, dr): (u64, u128) = if hr >= den - hr {
        (2 * (hq as u64) + 1, hr - (den - hr))
    } else {
        (2 * (hq as u64), hr + hr)
    };
    assert(2 * (half * part) == dq * den + dr) by (nonlinear_arith)
        requires
            half * part == hq * den + hr,
            (dq == 2 * hq + 1 && dr == 2 * hr - den) || (dq == 2 * hq && dr == 2 * hr),
    ;
    // Add `part` once more where `count` is odd.
    let (tq, tr): (u64, u128) = if count % 2 == 1 {
        if dr >= den - part {
            (dq + 1, dr - (den - part))
        } else {
            (dq, dr + part)
        }
    } else {
        (dq, dr)
    };
    assert(count * part == tq * den + tr) by (nonlinear_arith)
        requires
            2 * (half * part) == dq * den + dr,
            (count == 2 * half + 1 && ((tq == dq + 1 && tr == dr + part - den) || (tq == dq && tr == dr
                + part))) || (count == 2 * half && tq == dq && tr == dr),
    ;
    assert(tq < count) by (nonlinear_arith)
        requires
            count * part == tq * den + tr,
            0 <= part < den,
            0 <= tr,
            count > 0,
            0 <= tq,
    ;
    (tq as u32, tr)
}

/// `count * num / den` rounded up, or `None` where that exceeds 32 bits.
pub fn scaled_ceil(count: u32, num: u128, den: u128) -> (scaled: Option<u32>)
    requires
        den > 0,
    ensures
        match scaled {
            Some(v) => v == ceil_div((count * num) as nat, den as nat),
            None => ceil_div((count * num) as nat, den as nat) > u32::MAX,
        },
{
    let whole: u128 = num / den;
    let part: u128 = num % den;
    let (pq, pr) = times_div_rem(count, part, den);
    let x: Ghost<int> = Ghost(count * num);
    proof {
        lemma_fundamental_div_mod(num as int, den as int);
        assert(0 <= count * whole) by (nonlinear_arith)
            requires
                0 <= count,
                0 <= whole,
        ;
        assert(x@ == (count * whole + pq) * den + pr) by (nonlinear_arith)
            requires
                x@ == count * num,
                num == den * whole + part,
                count * part == pq * den + pr,
        ;
        lemma_fundamental_div_mod_converse(x@, den as int, count * whole + pq, pr as int);
        assert(0 <= x@) by (nonlinear_arith)
            requires
                x@ == count * num,
                0 <= count,
                0 <= num,
        ;
    }
    let round_up: u128 = if pr > 0 {
        1
    } else {
        0
    };
    if whole > u32::MAX as u128 {
        if count == 0 {
            assert(count * whole == 0) by (nonlinear_arith)
                requires
                    count == 0,
            ;
            Some(0)
        } else {
            assert(count * whole > u32::MAX) by (nonlinear_arith)
                requires
                    count >= 1,
                    whole > u32::MAX,
            ;
            None
        }
    } else {
        assert(count * whole <= u64::MAX) by (nonlinear_arith)
            requires
                count <= u32::MAX,
                whole <= u32::MAX,
                0 <= count,
                0 <= whole,
        ;
        let total: u128 = (count as u128) * whole + (pq as u128) + round_up;
        if total > u32::MAX as u128 {
            None
        } else {
            Some(total as u32)
        }
    }
}

} // verus!
