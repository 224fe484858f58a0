//! Exact decisions about the lower bound of the Wilson score confidence interval.
//!
//! The lower bound of the Wilson score interval for `k` positive votes out of `n`, with the
//! z-score 1.96 of a ~95% confidence, is
//!
//! ```text
//! lb = (p + z²/(2n) - z·sqrt((p(1-p) + z²/(4n)) / n)) / (1 + z²/n),   p = k/n
//! ```
//!
//! It is irrational in general, so it is never computed here. What the ratings service
//! needs of it is whether it lies strictly above a threshold `t = percent/100`. Multiplying
//! out the (positive) denominators, with `z = 49/25`, that question becomes one about
//! integers:
//!
//! ```text
//! lb > t  <=>  M > 0  and  n·M² > 6002500·R
//! M = 62500k + 120050 - 625·percent·n - 2401·percent
//! R = 2500·k·(n-k) + 2401·n          (the radicand, scaled; sqrt is undefined when R < 0)
//! ```
//!
//! This module decides that question without overflow for every `0 <= k <= n < 2^64`.
use vstd::prelude::*;
use vstd::arithmetic::div_mod::{lemma_fundamental_div_mod, lemma_fundamental_div_mod_converse_div};

verus! {

/// `M`: the scaled distance between the centre of the interval and the threshold.
pub open spec fn scaled_margin(positive: int, total: int, percent: int) -> int {
    62500 * positive + 120050 - 625 * percent * total - 2401 * percent
}

/// `R`: the scaled radicand under the square root of the interval's half-width.
pub open spec fn scaled_radicand(positive: int, total: int) -> int {
    2500 * (positive * (total - positive)) + 2401 * total
}

/// The Wilson score lower bound of `positive` out of `total` votes (z = 1.96) lies strictly
/// above `percent / 100`. Where the square root is undefined (a negative radicand), no
/// bound exists and nothing lies above a threshold.
pub open spec fn lower_bound_exceeds(positive: int, total: int, percent: int) -> bool {
    let m = scaled_margin(positive, total, percent);
    &&& total > 0
    &&& scaled_radicand(positive, total) >= 0
    &&& m > 0
    &&& total * (m * m) > 6002500 * scaled_radicand(positive, total)
}

/// For `n > 0` and `x >= 0`: `n·a > x` exactly when `a > x / n`.
proof fn lemma_mul_gt_iff_gt_div(n: int, a: int, x: int)
    requires
        n > 0,
        x >= 0,
    ensures
        n * a > x <==> a > x / n,
{
    lemma_fundamental_div_mod(x, n);
    let q = x / n;
    let r = x % n;
    assert(0 <= r < n);
    if a > q {
        assert(n * a >= n * (q + 1)) by (nonlinear_arith)
            requires
                n > 0,
                a >= q + 1,
        ;
        assert(n * (q + 1) == n * q + n) by (nonlinear_arith);
    } else {
        assert(n * a <= n * q) by (nonlinear_arith)
            requires
                n > 0,
                a <= q,
        ;
    }
}

/// For `m > 0` and `s = isqrt(f)`: `m² > f` exactly when `m > s`.
proof fn lemma_square_gt_iff_gt_root(m: int, s: int, f: int)
    requires
        m > 0,
        s >= 0,
        s * s <= f,
        f < (s + 1) * (s + 1),
    ensures
        m * m > f <==> m > s,
{
    if m > s {
        assert(m * m >= (s + 1) * (s + 1)) by (nonlinear_arith)
            requires
                m >= s + 1,
                s >= 0,
        ;
    } else {
        assert(m * m <= s * s) by (nonlinear_arith)
            requires
                0 < m <= s,
        ;
    }
}

/// Outside `0 <= k <= n` (with `n > 0`) the radicand is negative.
pub proof fn lemma_radicand_negative_outside(positive: int, total: int)
    requires
        total > 0,
        positive < 0 || positive > total,
    ensures
        scaled_radicand(positive, total) < 0,
{
    assert(positive * (total - positive) <= -(total + 1)) by (nonlinear_arith)
        requires
            total > 0,
            positive < 0 || positive > total,
    ;
}

/// Inside `0 <= k <= n` the radicand is never negative.
pub proof fn lemma_radicand_nonnegative_inside(positive: int, total: int)
    requires
        0 <= positive <= total,
    ensures
        scaled_radicand(positive, total) >= 0,
{
    assert(positive * (total - positive) >= 0) by (nonlinear_arith)
        requires
            0 <= positive <= total,
    ;
}

/// The integer square root: the largest `s` with `s·s <= x`.
fn isqrt(x: u128) -> (s: u128)
    requires
        x < 0x10_0000_0000_0000_0000_0000_0000,
    ensures
        s * s <= x,
        x < (s + 1) * (s + 1),
        s < 0x4_0000_0000_0000,
{
    let mut lo: u128 = 0;
    let mut hi: u128 = 0x4_0000_0000_0000;
    assert(x < hi * hi);
    while hi - lo > 1
        invariant
            lo < hi <= 0x4_0000_0000_0000,
            lo * lo <= x,
            x < hi * hi,
        decreases hi - lo,
    {
        let mid: u128 = lo + (hi - lo) / 2;
        assert(mid * mid <= 0x10_0000_0000_0000_0000_0000_0000) by (nonlinear_arith)
            requires
                mid <= 0x4_0000_0000_0000,
        ;
        if mid * mid <= x {
            lo = mid;
        } else {
            hi = mid;
        }
    }
    assert(hi == lo + 1);
    lo
}

/// Decides `lower_bound_exceeds` for counts that fit in `u64`, with `positive <= total`.
pub fn lower_bound_exceeds_counts(positive: u64, total: u64, percent: u64) -> (r: bool)
    requires
        positive <= total,
        0 < total,
        percent <= 100,
    ensures
        r == lower_bound_exceeds(positive as int, total as int, percent as int),
{
    proof {
        lemma_radicand_nonnegative_inside(positive as int, total as int);
    }
    let k = positive as i128;
    let n = total as i128;
    let t = percent as i128;
    assert(625 * t * n <= 62500 * 0x1_0000_0000_0000_0000) by (nonlinear_arith)
        requires
            0 <= t <= 100,
            0 <= n < 0x1_0000_0000_0000_0000,
    ;
    let m: i128 = 62500 * k + 120050 - 625 * t * n - 2401 * t;
    assert(m == scaled_margin(positive as int, total as int, percent as int));
    if m <= 0 {
        return false;
    }
    let rest: u64 = total - positive;
    assert((positive as int) * (rest as int) <= (positive as int) * (total as int)) by (nonlinear_arith)
        requires
            rest <= total,
    ;
    assert((positive as int) * (total as int) < 0x1_0000_0000_0000_0000_0000_0000_0000_0000) by (nonlinear_arith)
        requires
            positive < 0x1_0000_0000_0000_0000,
            total < 0x1_0000_0000_0000_0000,
    ;
    let q_all: u128 = (positive as u128) * (rest as u128);
    let nn: u128 = total as u128;
    let q: u128 = q_all / nn;
    let r: u128 = q_all % nn;
    proof {
        lemma_fundamental_div_mod(q_all as int, nn as int);
        assert(q <= positive) by (nonlinear_arith)
            requires
                q_all as int == (nn as int) * (q as int) + r as int,
                r >= 0,
                q_all <= (positive as int) * (total as int),
                nn == total,
                total > 0,
        ;
    }
    let b: u128 = 15006250000 * r;
    let f: u128 = 15006250000 * q + 14412002500 + b / nn;
    proof {
        let x: int = 6002500 * scaled_radicand(positive as int, total as int);
        assert(scaled_radicand(positive as int, total as int) == 2500 * (q_all as int) + 2401 * (nn as int));
        lemma_fundamental_div_mod(b as int, nn as int);
        assert(x == (nn as int) * (15006250000 * (q as int) + 14412002500 + (b / nn) as int) + (b % nn) as int) by (nonlinear_arith)
            requires
                x == 6002500 * (2500 * (q_all as int) + 2401 * (nn as int)),
                q_all as int == (nn as int) * (q as int) + r as int,
                b as int == 15006250000 * (r as int),
                b as int == (nn as int) * ((b / nn) as int) + (b % nn) as int,
        ;
        lemma_fundamental_div_mod_converse_div(
            x,
            nn as int,
            15006250000 * (q as int) + 14412002500 + (b / nn) as int,
            (b % nn) as int,
        );
        assert(f as int == x / (nn as int));
        lemma_mul_gt_iff_gt_div(nn as int, (m * m) as int, x);
    }
    let s = isqrt(f);
    proof {
        lemma_square_gt_iff_gt_root(m as int, s as int, f as int);
    }
    m > s as i128
}

/// Decides `lower_bound_exceeds` for any signed counts with `total > 0`.
pub fn lower_bound_exceeds_signed(positive: i64, total: i64, percent: u64) -> (r: bool)
    requires
        0 < total,
        percent <= 100,
    ensures
        r == lower_bound_exceeds(positive as int, total as int, percent as int),
{
    if positive < 0 || positive > total {
        proof {
            lemma_radicand_negative_outside(positive as int, total as int);
        }
        false
    } else {
        lower_bound_exceeds_counts(positive as u64, total as u64, percent)
    }
}

/// The lower bound never lies above the observed ratio of positive votes: whatever
/// threshold it exceeds, the raw ratio `positive / total` exceeds too.
pub proof fn lemma_lower_bound_below_ratio(positive: int, total: int, percent: int)
    requires
        0 <= positive <= total,
        0 < total,
        0 <= percent <= 100,
        lower_bound_exceeds(positive, total, percent),
    ensures
        100 * positive > percent * total,
{
    if 100 * positive <= percent * total {
        let m = scaled_margin(positive, total, percent);
        let c: int = 2401 * (50 - percent);
        assert(m <= c) by (nonlinear_arith)
            requires
                m == 62500 * positive + 120050 - 625 * percent * total - 2401 * percent,
                100 * positive <= percent * total,
                c == 2401 * (50 - percent),
        ;
        lemma_radicand_nonnegative_inside(positive, total);
        assert(positive * (total - positive) >= 0) by (nonlinear_arith)
            requires
                0 <= positive <= total,
        ;
        assert(c * c <= 14412002500) by (nonlinear_arith)
            requires
                c == 2401 * (50 - percent),
                0 <= percent <= 100,
        ;
        assert(total * (m * m) <= total * 14412002500) by (nonlinear_arith)
            requires
                0 < m <= c,
                c * c <= 14412002500,
                total > 0,
        ;
        assert(6002500 * scaled_radicand(positive, total) >= total * 14412002500) by (nonlinear_arith)
            requires
                positive * (total - positive) >= 0,
                scaled_radicand(positive, total) == 2500 * (positive * (total - positive)) + 2401 * total,
        ;
    }
}

/// A lower bound above a threshold is also above every smaller threshold.
pub proof fn lemma_lower_bound_exceeds_smaller(positive: int, total: int, high: int, low: int)
    requires
        0 <= low <= high,
        lower_bound_exceeds(positive, total, high),
    ensures
        lower_bound_exceeds(positive, total, low),
{
    let mh = scaled_margin(positive, total, high);
    let ml = scaled_margin(positive, total, low);
    assert(ml >= mh) by (nonlinear_arith)
        requires
            mh == 62500 * positive + 120050 - 625 * high * total - 2401 * high,
            ml == 62500 * positive + 120050 - 625 * low * total - 2401 * low,
            low <= high,
            total > 0,
    ;
    assert(total * (ml * ml) >= total * (mh * mh)) by (nonlinear_arith)
        requires
            ml >= mh > 0,
            total > 0,
    ;
}

/// When every vote is positive, sixteen votes already put the lower bound above 80%.
pub proof fn lemma_unanimous_exceeds_eighty(total: int)
    requires
        total >= 16,
    ensures
        lower_bound_exceeds(total, total, 80),
{
    let m = scaled_margin(total, total, 80);
    assert(m == 12500 * total - 72030) by (nonlinear_arith)
        requires
            m == 62500 * total + 120050 - 625 * 80 * total - 2401 * 80,
    ;
    assert(scaled_radicand(total, total) == 2401 * total) by (nonlinear_arith);
    assert(m * m > 14412002500) by (nonlinear_arith)
        requires
            m == 12500 * total - 72030,
            total >= 16,
    ;
    assert(total * (m * m) > total * 14412002500) by (nonlinear_arith)
        requires
            m * m > 14412002500,
            total > 0,
    ;
}

/// With no positive vote at all, the lower bound is zero and exceeds no threshold.
pub proof fn lemma_no_positive_exceeds_nothing(total: int, percent: int)
    requires
        total > 0,
        0 <= percent <= 100,
    ensures
        !lower_bound_exceeds(0, total, percent),
{
    let m = scaled_margin(0, total, percent);
    if m > 0 {
        assert(m <= 120050 - 2401 * percent) by (nonlinear_arith)
            requires
                m == 120050 - 625 * percent * total - 2401 * percent,
                percent >= 0,
                total > 0,
        ;
        assert(scaled_radicand(0, total) == 2401 * total);
        assert(m * m <= 14412002500) by (nonlinear_arith)
            requires
                0 < m <= 120050 - 2401 * percent,
                percent >= 0,
        ;
        assert(total * (m * m) <= total * 14412002500) by (nonlinear_arith)
            requires
                m * m <= 14412002500,
                total > 0,
        ;
    }
}

/// A quadratic with a positive leading coefficient lies below its chords.
proof fn lemma_quadratic_chord(a: int, b: int, d: int, u0: int, u1: int, u2: int)
    requires
        a > 0,
        u0 < u1 < u2,
    ensures
        (u2 - u0) * (a * u1 * u1 + b * u1 + d) <= (u2 - u1) * (a * u0 * u0 + b * u0 + d) + (u1 - u0) * (
        a * u2 * u2 + b * u2 + d),
{
    let x = u1 - u0;
    let y = u2 - u1;
    assert(x > 0 && y > 0);
    // Centred at u0 the quadratic is a·t² + b'·t + d' with t = u - u0.
    let b1 = 2 * a * u0 + b;
    let d1 = a * u0 * u0 + b * u0 + d;
    assert(a * u1 * u1 + b * u1 + d == a * x * x + b1 * x + d1) by (nonlinear_arith)
        requires
            x == u1 - u0,
            b1 == 2 * a * u0 + b,
            d1 == a * u0 * u0 + b * u0 + d,
    ;
    assert(a * u2 * u2 + b * u2 + d == a * (x + y) * (x + y) + b1 * (x + y) + d1) by (nonlinear_arith)
        requires
            x + y == u2 - u0,
            b1 == 2 * a * u0 + b,
            d1 == a * u0 * u0 + b * u0 + d,
    ;
    assert((x + y) * (a * x * x + b1 * x + d1) == y * d1 + x * (a * (x + y) * (x + y) + b1 * (x + y) + d1) - a * x * y * (x + y)) by (nonlinear_arith);
    assert(a * x * y * (x + y) > 0) by (nonlinear_arith)
        requires
            a > 0,
            x > 0,
            y > 0,
    ;
}

/// The test of the lower bound against a threshold, as a quadratic in `u = 62500·k`:
/// `62500²·(n·M² - 6002500·R)` at `k = u / 62500`.
spec fn scaled_test(u: int, total: int, c0: int) -> int {
    62500 * 62500 * total * ((u + c0) * (u + c0)) - 6002500 * (2500 * (u * (62500 * total - u)) + 2401 * total * 62500 * 62500)
}

proof fn lemma_scaled_test_quadratic(u: int, total: int, c0: int)
    ensures
        scaled_test(u, total, c0) == (62500 * 62500 * total + 6002500 * 2500) * u * u
            + (2 * 62500 * 62500 * total * c0 - 6002500 * 2500 * 62500 * total) * u
            + (62500 * 62500 * total * c0 * c0 - 6002500 * 2401 * total * 62500 * 62500),
{
    let w = u + c0;
    assert(w * w == u * u + 2 * c0 * u + c0 * c0) by (nonlinear_arith)
        requires
            w == u + c0,
    ;
    assert(u * (62500 * total - u) == 62500 * total * u - u * u) by (nonlinear_arith);
    assert(62500 * 62500 * total * (w * w) == 62500 * 62500 * total * (u * u) + 2 * 62500 * 62500 * total * c0 * u
        + 62500 * 62500 * total * c0 * c0) by (nonlinear_arith)
        requires
            w * w == u * u + 2 * c0 * u + c0 * c0,
    ;
    assert(62500 * 62500 * total * (u * u) + 6002500 * 2500 * (u * u) == (62500 * 62500 * total + 6002500 * 2500) * u * u) by (nonlinear_arith);
    assert(2 * 62500 * 62500 * total * c0 * u - 6002500 * 2500 * (62500 * total * u) == (2 * 62500 * 62500 * total * c0 - 6002500 * 2500 * 62500 * total) * u) by (nonlinear_arith);
    let q = u * (62500 * total - u);
    assert(scaled_test(u, total, c0) == 62500 * 62500 * total * (w * w) - 6002500 * (2500 * q + 2401 * total * 62500 * 62500));
    assert(62500 * 62500 * total * c0 * c0 == 62500 * 62500 * total * (c0 * c0)) by (nonlinear_arith);
    assert(2 * 62500 * 62500 * total * c0 * u == 2 * 62500 * 62500 * total * (c0 * u)) by (nonlinear_arith);
    assert(scaled_test(u, total, c0) == (62500 * 62500 * total + 6002500 * 2500) * u * u
        + (2 * 62500 * 62500 * total * c0 - 6002500 * 2500 * 62500 * total) * u
        + (62500 * 62500 * total * c0 * c0 - 6002500 * 2401 * total * 62500 * 62500)) by (nonlinear_arith)
        requires
            scaled_test(u, total, c0) == 62500 * 62500 * total * (w * w) - 6002500 * (2500 * q + 2401 * total * 62500 * 62500),
            q == 62500 * total * u - u * u,
            62500 * 62500 * total * (w * w) == 62500 * 62500 * total * (u * u) + 2 * 62500 * 62500 * total * c0 * u
                + 62500 * 62500 * total * c0 * c0,
            62500 * 62500 * total * (u * u) + 6002500 * 2500 * (u * u) == (62500 * 62500 * total + 6002500 * 2500) * u * u,
            2 * 62500 * 62500 * total * c0 * u - 6002500 * 2500 * (62500 * total * u) == (2 * 62500 * 62500 * total * c0 - 6002500 * 2500 * 62500 * total) * u,
    ;
}

proof fn lemma_scaled_test_at_count(k: int, total: int, percent: int)
    ensures
        scaled_test(62500 * k, total, 120050 - 625 * percent * total - 2401 * percent) == 62500 * 62500 * (
        total * (scaled_margin(k, total, percent) * scaled_margin(k, total, percent)) - 6002500 * scaled_radicand(k, total)),
{
    let c0 = 120050 - 625 * percent * total - 2401 * percent;
    let m = scaled_margin(k, total, percent);
    assert(m == 62500 * k + c0);
    assert(scaled_test(62500 * k, total, c0) == 62500 * 62500 * (total * (m * m) - 6002500 * (2500 * (k * (total - k)) + 2401 * total))) by (nonlinear_arith)
        requires
            m == 62500 * k + c0,
    ;
}

/// More positive votes among the same total never lower the lower bound below a
/// threshold that fewer positive votes already exceeded.
pub proof fn lemma_lower_bound_monotonic(low: int, high: int, total: int, percent: int)
    requires
        0 <= low <= high <= total,
        0 <= percent <= 100,
        lower_bound_exceeds(low, total, percent),
    ensures
        lower_bound_exceeds(high, total, percent),
{
    if low < high {
        let c0 = 120050 - 625 * percent * total - 2401 * percent;
        let a = 62500 * 62500 * total + 6002500 * 2500;
        let b = 2 * 62500 * 62500 * total * c0 - 6002500 * 2500 * 62500 * total;
        let d = 62500 * 62500 * total * c0 * c0 - 6002500 * 2401 * total * 62500 * 62500;
        assert(a > 0) by (nonlinear_arith)
            requires
                total > 0,
                a == 62500 * 62500 * total + 6002500 * 2500,
        ;
        let u1 = 62500 * low;
        let u2 = 62500 * high;
        lemma_scaled_test_at_count(low, total, percent);
        lemma_scaled_test_at_count(high, total, percent);
        lemma_radicand_nonnegative_inside(high, total);
        let ml = scaled_margin(low, total, percent);
        let mh = scaled_margin(high, total, percent);
        assert(ml == 62500 * low + c0 && mh == 62500 * high + c0);
        assert(scaled_test(u1, total, c0) > 0) by (nonlinear_arith)
            requires
                scaled_test(u1, total, c0) == 62500 * 62500 * (total * (ml * ml) - 6002500 * scaled_radicand(low, total)),
                total * (ml * ml) > 6002500 * scaled_radicand(low, total),
        ;
        // An anchor below `u1` where the test fails: where the margin vanishes, or at no
        // positive vote when the margin is positive throughout.
        let u0 = if c0 <= 0 { -c0 } else { 0 };
        if c0 > 0 && low == 0 {
            lemma_no_positive_exceeds_nothing(total, percent);
        }
        assert(u0 < u1);
        assert(scaled_test(u0, total, c0) <= 0) by {
            if c0 <= 0 {
                assert(scaled_test(-c0, total, c0) == -6002500 * (2500 * ((-c0) * (62500 * total + c0)) + 2401 * total * 62500 * 62500)) by (nonlinear_arith);
                assert(-c0 < 62500 * total) by (nonlinear_arith)
                    requires
                        -c0 < u1,
                        u1 == 62500 * low,
                        low <= total,
                ;
                assert((-c0) * (62500 * total + c0) >= 0) by (nonlinear_arith)
                    requires
                        0 <= -c0 <= 62500 * total,
                ;
                assert(2401 * total * 62500 * 62500 >= 0) by (nonlinear_arith)
                    requires
                        total > 0,
                ;
            } else {
                lemma_no_positive_exceeds_nothing(total, percent);
                lemma_scaled_test_at_count(0, total, percent);
                assert(scaled_margin(0, total, percent) == c0);
                assert(scaled_radicand(0, total) == 2401 * total);
                assert(total * (c0 * c0) <= 6002500 * (2401 * total));
                assert(scaled_test(0, total, c0) == 62500 * 62500 * (total * (c0 * c0) - 6002500 * (2401 * total))) by (nonlinear_arith)
                    requires
                        scaled_test(62500 * 0int, total, c0) == 62500 * 62500 * (total * (scaled_margin(0, total, percent) * scaled_margin(0, total, percent)) - 6002500 * scaled_radicand(0, total)),
                        scaled_margin(0, total, percent) == c0,
                        scaled_radicand(0, total) == 2401 * total,
                ;
            }
        }
        lemma_scaled_test_quadratic(u0, total, c0);
        lemma_scaled_test_quadratic(u1, total, c0);
        lemma_scaled_test_quadratic(u2, total, c0);
        assert(u1 < u2);
        lemma_quadratic_chord(a, b, d, u0, u1, u2);
        assert(scaled_test(u2, total, c0) > 0) by (nonlinear_arith)
            requires
                (u2 - u0) * scaled_test(u1, total, c0) <= (u2 - u1) * scaled_test(u0, total, c0) + (u1 - u0) * scaled_test(u2, total, c0),
                scaled_test(u1, total, c0) > 0,
                scaled_test(u0, total, c0) <= 0,
                u0 < u1 < u2,
        ;
        assert(mh > 0);
        assert(total * (mh * mh) > 6002500 * scaled_radicand(high, total)) by (nonlinear_arith)
            requires
                scaled_test(u2, total, c0) == 62500 * 62500 * (total * (mh * mh) - 6002500 * scaled_radicand(high, total)),
                scaled_test(u2, total, c0) > 0,
        ;
    }
}

/// `M` for a threshold `p / q`: the scaled distance between the centre of the interval and
/// the threshold, `q` times [`scaled_margin`] where `q = 100`.
pub open spec fn fraction_margin(positive: int, total: int, p: int, q: int) -> int {
    62500 * q * positive + 120050 * q - 62500 * p * total - 240100 * p
}

/// The Wilson score lower bound of `positive` out of `total` votes (z = 1.96) lies strictly
/// above the fraction `p / q` (with `q > 0`). Where the square root is undefined, no bound
/// exists and nothing lies above a threshold.
pub open spec fn lower_bound_above(positive: int, total: int, p: int, q: int) -> bool {
    let m = fraction_margin(positive, total, p, q);
    &&& total > 0
    &&& scaled_radicand(positive, total) >= 0
    &&& m > 0
    &&& total * (m * m) > 6002500 * (q * q) * scaled_radicand(positive, total)
}

/// The percentage thresholds are the fractions over a hundred.
pub proof fn lemma_percent_is_fraction(positive: int, total: int, percent: int)
    ensures
        lower_bound_exceeds(positive, total, percent) == lower_bound_above(positive, total, percent, 100),
{
    let m = scaled_margin(positive, total, percent);
    let mq = fraction_margin(positive, total, percent, 100);
    let r = scaled_radicand(positive, total);
    let pt = percent * total;
    assert(625 * percent * total == 625 * pt && 62500 * percent * total == 62500 * pt) by (nonlinear_arith)
        requires
            pt == percent * total,
    ;
    assert(mq == 100 * m) by (nonlinear_arith)
        requires
            m == 62500 * positive + 120050 - 625 * percent * total - 2401 * percent,
            mq == 62500 * 100 * positive + 120050 * 100 - 62500 * percent * total - 240100 * percent,
    ;
    assert(mq * mq == 10000 * (m * m)) by (nonlinear_arith)
        requires
            mq == 100 * m,
    ;
    assert(total * (mq * mq) == 10000 * (total * (m * m))) by (nonlinear_arith)
        requires
            mq * mq == 10000 * (m * m),
    ;
    assert(6002500 * (100 * 100) * r == 10000 * (6002500 * r)) by (nonlinear_arith);
}

/// A quadratic in `v`: `x·(v + c)² - y·(2500·v·(w - v) + z)`.
spec fn quadratic_test(v: int, c: int, x: int, y: int, w: int, z: int) -> int {
    x * ((v + c) * (v + c)) - y * (2500 * (v * (w - v)) + z)
}

proof fn lemma_quadratic_test_expanded(v: int, c: int, x: int, y: int, w: int, z: int)
    ensures
        quadratic_test(v, c, x, y, w, z) == (x + 2500 * y) * v * v + (2 * x * c - 2500 * y * w) * v + (x * (c * c) - y * z),
{
    assert((v + c) * (v + c) == v * v + 2 * c * v + c * c) by (nonlinear_arith);
    assert(x * (v * v + 2 * c * v + c * c) == x * (v * v) + 2 * x * c * v + x * (c * c)) by (nonlinear_arith);
    assert(v * (w - v) == w * v - v * v) by (nonlinear_arith);
    assert(y * (2500 * (w * v - v * v) + z) == 2500 * y * w * v - 2500 * y * (v * v) + y * z) by (nonlinear_arith);
    assert((x + 2500 * y) * v * v == x * (v * v) + 2500 * y * (v * v)) by (nonlinear_arith);
    assert((2 * x * c - 2500 * y * w) * v == 2 * x * c * v - 2500 * y * w * v) by (nonlinear_arith);
}

/// At `v = s·k` with `s = 62500·q`, the quadratic is `s²` times the fraction test of `k`.
proof fn lemma_quadratic_test_at_count(k: int, total: int, p: int, q: int)
    ensures
        ({
            let s = 62500 * q;
            let c = 120050 * q - 62500 * p * total - 240100 * p;
            let m = fraction_margin(k, total, p, q);
            let y = 6002500 * (q * q);
            quadratic_test(s * k, c, (s * s) * total, y, s * total, 2401 * total * (s * s))
                == (s * s) * (total * (m * m) - y * scaled_radicand(k, total))
        }),
{
    let s = 62500 * q;
    let c = 120050 * q - 62500 * p * total - 240100 * p;
    let m = fraction_margin(k, total, p, q);
    let y = 6002500 * (q * q);
    let ss = s * s;
    let v = s * k;
    let pt = p * total;
    assert(62500 * p * total == 62500 * pt) by (nonlinear_arith)
        requires
            pt == p * total,
    ;
    assert(62500 * q * k == v);
    assert(m == v + c);
    let kk = k * (total - k);
    assert(v * (s * total - v) == ss * kk) by (nonlinear_arith)
        requires
            v == s * k,
            ss == s * s,
            kk == k * (total - k),
    ;
    let r = scaled_radicand(k, total);
    assert(r == 2500 * kk + 2401 * total);
    assert(2500 * (v * (s * total - v)) + 2401 * total * ss == ss * r) by (nonlinear_arith)
        requires
            v * (s * total - v) == ss * kk,
            r == 2500 * kk + 2401 * total,
    ;
    assert(ss * total * ((v + c) * (v + c)) == ss * (total * (m * m))) by (nonlinear_arith)
        requires
            m == v + c,
    ;
    assert(y * (ss * r) == ss * (y * r)) by (nonlinear_arith);
    assert(ss * (total * (m * m)) - ss * (y * r) == ss * (total * (m * m) - y * r)) by (nonlinear_arith);
}

/// More positive votes among the same total never lower the lower bound below a
/// fraction that fewer positive votes already exceeded.
pub proof fn lemma_lower_bound_above_monotonic(low: int, high: int, total: int, p: int, q: int)
    requires
        0 <= low <= high <= total,
        0 <= p,
        0 < q,
        lower_bound_above(low, total, p, q),
    ensures
        lower_bound_above(high, total, p, q),
{
    if low < high {
        let s = 62500 * q;
        let c = 120050 * q - 62500 * p * total - 240100 * p;
        let ss = s * s;
        let x = ss * total;
        let y = 6002500 * (q * q);
        let w = s * total;
        let z = 2401 * total * ss;
        assert(ss > 0 && x > 0 && y > 0) by (nonlinear_arith)
            requires
                s > 0,
                total > 0,
                q > 0,
                ss == s * s,
                x == ss * total,
                y == 6002500 * (q * q),
        ;
        let v1 = s * low;
        let v2 = s * high;
        assert(0 <= v1 < v2 <= w) by (nonlinear_arith)
            requires
                s > 0,
                0 <= low < high <= total,
                v1 == s * low,
                v2 == s * high,
                w == s * total,
        ;
        lemma_quadratic_test_at_count(low, total, p, q);
        lemma_quadratic_test_at_count(high, total, p, q);
        lemma_radicand_nonnegative_inside(high, total);
        let ml = fraction_margin(low, total, p, q);
        let mh = fraction_margin(high, total, p, q);
        let rl = scaled_radicand(low, total);
        let rh = scaled_radicand(high, total);
        let t1 = quadratic_test(v1, c, x, y, w, z);
        let t2 = quadratic_test(v2, c, x, y, w, z);
        assert(t1 == ss * (total * (ml * ml) - y * rl));
        assert(t2 == ss * (total * (mh * mh) - y * rh));
        assert(total * (ml * ml) > y * rl);
        assert(t1 > 0) by (nonlinear_arith)
            requires
                t1 == ss * (total * (ml * ml) - y * rl),
                total * (ml * ml) > y * rl,
                ss > 0,
        ;
        assert(120050 * 120050 == 14412002500);
        assert(c <= 120050 * q) by (nonlinear_arith)
            requires
                c == 120050 * q - 62500 * p * total - 240100 * p,
                p >= 0,
                total > 0,
        ;
        // An anchor below `v1` where the test fails: where the margin vanishes, or at no
        // positive vote when the margin is positive throughout.
        let v0 = if c <= 0 { -c } else { 0 };
        let t0 = quadratic_test(v0, c, x, y, w, z);
        if c > 0 {
            assert(c * c <= 14412002500 * (q * q)) by (nonlinear_arith)
                requires
                    0 < c <= 120050 * q,
            ;
            assert(t0 == x * (c * c) - y * z) by (nonlinear_arith)
                requires
                    t0 == x * ((0 + c) * (0 + c)) - y * (2500 * (0 * (w - 0)) + z),
            ;
            assert(y * z == x * (14412002500 * (q * q))) by (nonlinear_arith)
                requires
                    y == 6002500 * (q * q),
                    z == 2401 * total * ss,
                    x == ss * total,
            ;
            assert(x * (c * c) <= x * (14412002500 * (q * q))) by (nonlinear_arith)
                requires
                    c * c <= 14412002500 * (q * q),
                    x > 0,
            ;
            assert(t0 <= 0);
            if low == 0 {
                assert(v1 == 0) by (nonlinear_arith)
                    requires
                        v1 == s * low,
                        low == 0,
                ;
                assert(t1 == t0);
            }
            assert(v1 > 0) by (nonlinear_arith)
                requires
                    s > 0,
                    low > 0 || v1 != 0,
                    v1 == s * low,
                    low >= 0,
            ;
        } else {
            assert(ml == v1 + c) by {
                lemma_quadratic_test_at_count(low, total, p, q);
                let pt = p * total;
                assert(62500 * p * total == 62500 * pt) by (nonlinear_arith)
                    requires
                        pt == p * total,
                ;
                assert(62500 * q * low == v1);
            }
            assert(0 <= -c < v1);
            assert(t0 == -(y * (2500 * ((-c) * (w + c)) + z))) by (nonlinear_arith)
                requires
                    t0 == x * ((-c + c) * (-c + c)) - y * (2500 * ((-c) * (w - (-c))) + z),
            ;
            assert((-c) * (w + c) >= 0) by (nonlinear_arith)
                requires
                    0 <= -c <= w,
            ;
            assert(z >= 0) by (nonlinear_arith)
                requires
                    z == 2401 * total * ss,
                    total > 0,
                    ss > 0,
            ;
            assert(y * (2500 * ((-c) * (w + c)) + z) >= 0) by (nonlinear_arith)
                requires
                    y > 0,
                    (-c) * (w + c) >= 0,
                    z >= 0,
            ;
        }
        assert(v0 < v1 && t0 <= 0);
        lemma_quadratic_test_expanded(v0, c, x, y, w, z);
        lemma_quadratic_test_expanded(v1, c, x, y, w, z);
        lemma_quadratic_test_expanded(v2, c, x, y, w, z);
        lemma_quadratic_chord(x + 2500 * y, 2 * x * c - 2500 * y * w, x * (c * c) - y * z, v0, v1, v2);
        assert(t2 > 0) by (nonlinear_arith)
            requires
                (v2 - v0) * t1 <= (v2 - v1) * t0 + (v1 - v0) * t2,
                t1 > 0,
                t0 <= 0,
                v0 < v1 < v2,
        ;
        assert(total * (mh * mh) > y * rh) by (nonlinear_arith)
            requires
                t2 == ss * (total * (mh * mh) - y * rh),
                t2 > 0,
                ss > 0,
        ;
        assert(mh > ml) by {
            let pt = p * total;
            assert(62500 * p * total == 62500 * pt) by (nonlinear_arith)
                requires
                    pt == p * total,
            ;
            assert(62500 * q * low == v1 && 62500 * q * high == v2);
        }
    }
}

} // verus!
