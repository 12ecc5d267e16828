//! Fixed-point prices and the percent change derived from them.
//!
//! A price is a signed count of ten-thousandths of one unit of currency, so
//! `1_234_500` stands for 123.45. A percent change is a signed count of
//! ten-thousandths of one percent, so `12_500` stands for 1.25 %.

use vstd::prelude::*;

verus! {

/// Number of price units in one unit of currency.
pub const PRICE_SCALE: i64 = 10_000;

/// Number of percent-change units in one percent.
pub const PERCENT_SCALE: i64 = 10_000;

/// Number of percent-change units in a ratio of one (a change of 100 %).
pub const RATIO_SCALE: i64 = 1_000_000;

/// Absolute value of an integer.
pub open spec fn magnitude(x: int) -> int {
    if x < 0 {
        -x
    } else {
        x
    }
}

/// Quotient of `n` by `d` rounded toward zero. Meaningful for `d != 0`.
pub open spec fn quotient_toward_zero(n: int, d: int) -> int {
    if (n < 0) == (d < 0) {
        magnitude(n) / magnitude(d)
    } else {
        -(magnitude(n) / magnitude(d))
    }
}

/// Percent change from `previous_close` to `price`, in percent-change units:
/// zero when there is no previous close, otherwise
/// `(price - previous_close) / previous_close * 100` percent, rounded toward
/// zero to a whole unit.
pub open spec fn percent_change_of(price: int, previous_close: int) -> int {
    if previous_close == 0 {
        0
    } else {
        quotient_toward_zero((price - previous_close) * (RATIO_SCALE as int), previous_close)
    }
}

/// Difference between a price and the previous close, in price units.
pub open spec fn change_of(price: int, previous_close: int) -> int {
    price - previous_close
}

/// Largest magnitude that a percent change of two prices can have.
pub const PERCENT_LIMIT: i128 = 18_446_744_073_709_551_615_000_000;

/// Computes the percent change from `previous_close` to `price`.
pub fn percent_change(price: i64, previous_close: i64) -> (pct: i128)
    ensures
        pct == percent_change_of(price as int, previous_close as int),
        -PERCENT_LIMIT <= pct <= PERCENT_LIMIT,
{
    if previous_close == 0 {
        return 0;
    }
    let diff: i128 = price as i128 - previous_close as i128;
    let scaled: i128 = diff * 1_000_000;
    let den: i128 = previous_close as i128;
    let n_abs: u128 = if scaled < 0 {
        (-scaled) as u128
    } else {
        scaled as u128
    };
    let d_abs: u128 = if den < 0 {
        (-den) as u128
    } else {
        den as u128
    };
    let q_abs: u128 = n_abs / d_abs;
    assert(q_abs <= n_abs) by (nonlinear_arith)
        requires
            q_abs == n_abs / d_abs,
            d_abs >= 1,
    ;
    let q: i128 = q_abs as i128;
    if (scaled < 0) == (den < 0) {
        q
    } else {
        -q
    }
}

/// Computes the difference between a price and the previous close.
pub fn change(price: i64, previous_close: i64) -> (diff: i128)
    ensures
        diff == change_of(price as int, previous_close as int),
{
    price as i128 - previous_close as i128
}

/// The percent change is zero whenever the previous close is zero. Otherwise
/// it is the exact ratio `(price - previous_close) * RATIO_SCALE /
/// previous_close` with its fraction dropped: multiplied back by the previous
/// close it never exceeds the exact numerator in magnitude, has its sign, and
/// misses it by less than one previous close.
pub proof fn lemma_percent_change_exact(price: int, previous_close: int)
    ensures
        previous_close == 0 ==> percent_change_of(price, previous_close) == 0,
        previous_close != 0 ==> ({
            let exact = (price - previous_close) * (RATIO_SCALE as int);
            let back = percent_change_of(price, previous_close) * previous_close;
            &&& magnitude(back) <= magnitude(exact)
            &&& magnitude(exact - back) < magnitude(previous_close)
            &&& (exact >= 0 ==> back >= 0)
            &&& (exact <= 0 ==> back <= 0)
        }),
{
    if previous_close != 0 {
        let exact = (price - previous_close) * (RATIO_SCALE as int);
        let n = magnitude(exact);
        let d = magnitude(previous_close);
        let q = n / d;
        vstd::arithmetic::div_mod::lemma_fundamental_div_mod(n, d);
        vstd::arithmetic::div_mod::lemma_mod_bound(n, d);
        vstd::arithmetic::div_mod::lemma_div_pos_is_pos(n, d);
        assert(n == d * q + n % d);
        assert(0 <= n % d < d);
        assert(0 <= q);
        assert(d * q >= 0) by (nonlinear_arith)
            requires
                d > 0,
                q >= 0,
        ;
        let pq = percent_change_of(price, previous_close);
        assert(magnitude(pq * previous_close) == d * q && (exact >= 0 ==> pq * previous_close
            == d * q) && (exact <= 0 ==> pq * previous_close == -(d * q))) by (nonlinear_arith)
            requires
                d == magnitude(previous_close),
                previous_close != 0,
                q >= 0,
                d * q >= 0,
                n == magnitude(exact),
                n == 0 ==> q == 0,
                pq == (if (exact < 0) == (previous_close < 0) {
                    q
                } else {
                    -q
                }),
        ;
    }
}

} // verus!
