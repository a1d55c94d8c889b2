//! Progress ratios, rounded to whole units.
use vstd::prelude::*;

verus! {

/// `n / d` rounded to the nearest whole number, halves rounded up.
pub open spec fn rounded_ratio(n: nat, d: nat) -> nat
    recommends
        d > 0,
{
    ((2 * n + d) / (2 * d)) as nat
}

/// The number of cells out of `width` that a bar at `current` of `total`
/// fills: the progress `min(current / total, 1)` times `width`, rounded. An
/// empty total counts as complete.
pub open spec fn filled_spec(current: nat, total: nat, width: nat) -> nat {
    if total == 0 {
        width
    } else if current >= total {
        width
    } else {
        rounded_ratio(current * width, total)
    }
}

/// The percentage shown beside a bar at `current` of `total`: the filled
/// share of a bar one hundred cells wide.
pub open spec fn percent_spec(current: nat, total: nat) -> nat {
    filled_spec(current, total, 100)
}

/// A rounded ratio of at most `d * w` over `d` is at most `w`.
pub proof fn lemma_rounded_ratio_bound(n: nat, d: nat, w: nat)
    requires
        d > 0,
        n <= d * w,
    ensures
        rounded_ratio(n, d) <= w,
{
    let top = (2 * d * w + d) as int;
    assert(2 * n + d <= top) by (nonlinear_arith)
        requires
            n <= d * w,
            top == 2 * d * w + d,
    ;
    vstd::arithmetic::div_mod::lemma_div_is_ordered((2 * n + d) as int, top, (2 * d) as int);
    assert(top == w * (2 * d) + d) by (nonlinear_arith)
        requires
            top == 2 * d * w + d,
    ;
    vstd::arithmetic::div_mod::lemma_fundamental_div_mod_converse(top, (2 * d) as int, w as int, d as int);
}

/// Divides `num` by `den`, rounding to the nearest whole number with halves
/// rounded up.
pub fn rounded_div(num: u128, den: u128) -> (r: u128)
    requires
        den > 0,
    ensures
        r == rounded_ratio(num as nat, den as nat),
{
    let a = num / den;
    let b = num % den;
    proof {
        vstd::arithmetic::div_mod::lemma_fundamental_div_mod(num as int, den as int);
        assert(num == a * den + b) by (nonlinear_arith)
            requires
                num == den * (num / den) + num % den,
                a == num / den,
                b == num % den,
        ;
    }
    if b >= den - b {
        proof {
            assert(a + 1 <= u128::MAX) by (nonlinear_arith)
                requires
                    a * den + b == num,
                    den >= 2,
                    num <= u128::MAX,
                    b >= 0,
                    a >= 0,
            ;
            assert(2 * num + den == (a + 1) * (2 * den) + (2 * b - den)) by (nonlinear_arith)
                requires
                    num == a * den + b,
            ;
            vstd::arithmetic::div_mod::lemma_fundamental_div_mod_converse(
                2 * num + den,
                2 * den,
                a + 1,
                2 * b - den,
            );
        }
        a + 1
    } else {
        proof {
            assert(2 * num + den == a * (2 * den) + (2 * b + den)) by (nonlinear_arith)
                requires
                    num == a * den + b,
            ;
            vstd::arithmetic::div_mod::lemma_fundamental_div_mod_converse(
                2 * num + den,
                2 * den,
                a as int,
                2 * b + den,
            );
        }
        a
    }
}

/// The number of cells out of `width` that a bar at `current` of `total`
/// fills.
pub fn filled_len(current: u64, total: u64, width: usize) -> (r: usize)
    ensures
        r == filled_spec(current as nat, total as nat, width as nat),
        r <= width,
{
    if total == 0 || current >= total {
        width
    } else {
        proof {
            assert((current as u128) * (width as u128) <= u128::MAX) by (nonlinear_arith)
                requires
                    current <= u64::MAX,
                    width <= u64::MAX,
            ;
        }
        let num = (current as u128) * (width as u128);
        proof {
            assert(num <= total * width) by (nonlinear_arith)
                requires
                    num == current * width,
                    current < total,
            ;
            lemma_rounded_ratio_bound(num as nat, total as nat, width as nat);
        }
        let r = rounded_div(num, total as u128);
        r as usize
    }
}

/// The percentage shown beside a bar at `current` of `total`.
pub fn percent(current: u64, total: u64) -> (r: u64)
    ensures
        r == percent_spec(current as nat, total as nat),
        r <= 100,
{
    filled_len(current, total, 100) as u64
}

} // verus!
