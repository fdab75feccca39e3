//! What amounts are worth, and how near to it a rounded one stays.

use crate::decimal::{lemma_normal_form, normal_form, pow10, rounded_to, Amount, MAX_SCALE};
use vstd::prelude::*;

verus! {

proof fn lemma_pow10_sum(m: nat, n: nat)
    ensures
        pow10(m + n) == pow10(m) * pow10(n),
        pow10(m) > 0,
    decreases m,
{
    if m == 0 {
        assert(1 * pow10(n) == pow10(n));
    } else {
        let p = pow10((m - 1) as nat);
        let q = pow10(n);
        lemma_pow10_sum((m - 1) as nat, n);
        assert((m + n - 1) as nat == (m - 1) as nat + n);
        assert((10 * p) * q == 10 * (p * q)) by (nonlinear_arith);
    }
}

/// An amount is worth its mantissa over ten to the power of its scale: shifted by
/// its scale, its units are its mantissa shifted by 28 places.
pub proof fn law_units_are_the_value(a: Amount)
    requires
        a.wf(),
    ensures
        a.units() * pow10(a.scale as nat) == a.mantissa * pow10(28),
{
    lemma_pow10_sum((MAX_SCALE - a.scale) as nat, a.scale as nat);
    let m = a.mantissa as int;
    let p = pow10((MAX_SCALE - a.scale) as nat) as int;
    let q = pow10(a.scale as nat) as int;
    assert((m * p) * q == m * (p * q)) by (nonlinear_arith);
}

/// Rounding keeps an amount that has no more places than asked for, and moves any
/// other one by at most half a unit of the last place; from the middle it goes to
/// the even neighbour.
pub proof fn law_rounding_is_nearest(a: Amount, places: u32)
    requires
        a.wf(),
    ensures
        a.scale <= places ==> rounded_to(a, places) == a,
        a.scale > places ==> {
            let r = rounded_to(a, places);
            let step = pow10((a.scale - places) as nat) as int;
            &&& r.scale == places
            &&& step > 0
            &&& -step <= 2 * (r.mantissa * step - a.mantissa) <= step
            &&& (2 * (r.mantissa * step - a.mantissa) == step || 2 * (r.mantissa * step
                - a.mantissa) == -step) ==> r.mantissa as int % 2 == 0
        },
{
    if a.scale > places {
        let step = pow10((a.scale - places) as nat) as int;
        lemma_pow10_sum((a.scale - places) as nat, 0);
        let m = if a.mantissa < 0 {
            -(a.mantissa as int)
        } else {
            a.mantissa as int
        };
        let q = m / step;
        let r = m % step;
        assert(m == q * step + r && 0 <= r < step && 0 <= q <= m) by (nonlinear_arith)
            requires
                step > 0,
                m >= 0,
                q == m / step,
                r == m % step,
        ;
        assert((q + 1) * step == q * step + step) by (nonlinear_arith);
        assert((-q) * step == -(q * step)) by (nonlinear_arith);
        assert((-(q + 1)) * step == -((q + 1) * step)) by (nonlinear_arith);
    }
}

/// Rounding to two places does not carry an amount past a whole number: what is at
/// least `q` stays at least `q`, and what is at most `q` stays at most `q`.
pub proof fn law_rounding_stays_between_whole_numbers(a: Amount, q: int)
    requires
        a.wf(),
    ensures
        a.units() >= q * pow10(28) ==> rounded_to(a, 2).units() >= q * pow10(28),
        a.units() <= q * pow10(28) ==> rounded_to(a, 2).units() <= q * pow10(28),
{
    law_rounding_is_nearest(a, 2);
    if a.scale > 2 {
        let r = rounded_to(a, 2).mantissa as int;
        let m = a.mantissa as int;
        let s = a.scale;
        let step = pow10((s - 2) as nat) as int;
        let low = pow10((28 - s) as nat) as int;
        let p26 = pow10(26) as int;
        lemma_pow10_sum((28 - s) as nat, (s - 2) as nat);
        lemma_pow10_sum(26, 0);
        assert(p26 == low * step);
        assert(pow10(27) == 10 * p26);
        assert(pow10(28) == 100 * p26);
        let h = 100 * q;
        assert(q * pow10(28) == (h * step) * low) by (nonlinear_arith)
            requires
                pow10(28) == 100 * p26,
                p26 == low * step,
                h == 100 * q,
        ;
        assert(m * low >= (h * step) * low ==> m >= h * step) by (nonlinear_arith)
            requires
                low > 0,
        ;
        assert(m * low <= (h * step) * low ==> m <= h * step) by (nonlinear_arith)
            requires
                low > 0,
        ;
        if m >= h * step {
            assert(r >= h) by (nonlinear_arith)
                requires
                    m >= h * step,
                    -step <= 2 * (r * step - m),
                    step > 0,
            ;
            assert(r * p26 >= q * pow10(28)) by (nonlinear_arith)
                requires
                    r >= h,
                    h == 100 * q,
                    pow10(28) == 100 * p26,
                    p26 > 0,
            ;
        }
        if m <= h * step {
            assert(r <= h) by (nonlinear_arith)
                requires
                    m <= h * step,
                    2 * (r * step - m) <= step,
                    step > 0,
            ;
            assert(r * p26 <= q * pow10(28)) by (nonlinear_arith)
                requires
                    r <= h,
                    h == 100 * q,
                    pow10(28) == 100 * p26,
                    p26 > 0,
            ;
        }
    }
}

/// Without trailing zeros an amount is worth the same and ends in no zero behind the
/// point.
pub proof fn law_normal_form_ends_in_no_zero(a: Amount)
    requires
        a.wf(),
    ensures
        normal_form(a).units() == a.units(),
        normal_form(a).scale == 0 || normal_form(a).mantissa as int % 10 != 0,
        normal_form(a).scale <= a.scale,
    decreases a.scale,
{
    lemma_normal_form(a);
    if a.mantissa != 0 && a.scale > 0 && a.mantissa as int % 10 == 0 {
        law_normal_form_ends_in_no_zero(
            Amount { mantissa: (a.mantissa as int / 10) as i128, scale: (a.scale - 1) as u32 },
        );
    }
}

} // verus!
