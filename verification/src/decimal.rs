//! Exact decimal amounts.
//!
//! An [`Amount`] is a mantissa and a number of decimal places. Reading, printing,
//! rounding and arithmetic are done by the `rust_decimal` crate; the functions
//! here hand amounts to it as plain numbers and take plain numbers back. An
//! amount has no negative zero: `-0` reads as `0`.

use crate::text::{
    all_digits, digits, digits_value, is_digit, lemma_digits_denote, lemma_trimmed_fixed, trimmed,
};
use rust_decimal::Decimal;
use std::str::FromStr;
use vstd::prelude::*;

verus! {

/// The largest mantissa of an amount: 96 bits.
pub const MAX_MANTISSA: i128 = 79228162514264337593543950335;

/// The largest number of decimal places of an amount.
pub const MAX_SCALE: u32 = 28;

/// The decimal number `mantissa / 10^scale`.
#[derive(Clone, Copy, Debug, PartialEq, Eq, Structural)]
pub struct Amount {
    pub mantissa: i128,
    pub scale: u32,
}

pub open spec fn pow10(n: nat) -> nat
    decreases n,
{
    if n == 0 {
        1
    } else {
        10 * pow10((n - 1) as nat)
    }
}

impl Amount {
    /// The amounts that 96 bits and 28 decimal places can hold.
    pub open spec fn wf(self) -> bool {
        &&& -MAX_MANTISSA <= self.mantissa <= MAX_MANTISSA
        &&& self.scale <= MAX_SCALE
    }

    /// The value of the amount, counted in units of `10^-28`.
    pub open spec fn units(self) -> int {
        self.mantissa * pow10((MAX_SCALE - self.scale) as nat)
    }

    /// The mantissa that denotes the same value with `scale` decimal places.
    pub open spec fn mantissa_at(self, scale: int) -> int {
        self.mantissa * pow10((scale - self.scale) as nat)
    }
}

/// Whether an integer fits the mantissa of an amount.
pub open spec fn fits_mantissa(m: int) -> bool {
    -MAX_MANTISSA <= m <= MAX_MANTISSA
}

/// The more precise of two scales.
pub open spec fn finer_scale(a: Amount, b: Amount) -> int {
    if a.scale >= b.scale {
        a.scale as int
    } else {
        b.scale as int
    }
}

/// The sum of two amounts needs no rounding: both of them and their sum fit the
/// mantissa at the finer scale.
pub open spec fn adds_exactly(a: Amount, b: Amount) -> bool {
    let s = finer_scale(a, b);
    &&& fits_mantissa(a.mantissa_at(s))
    &&& fits_mantissa(b.mantissa_at(s))
    &&& fits_mantissa(a.mantissa_at(s) + b.mantissa_at(s))
}

/// The difference of two amounts needs no rounding.
pub open spec fn subtracts_exactly(a: Amount, b: Amount) -> bool {
    let s = finer_scale(a, b);
    &&& fits_mantissa(a.mantissa_at(s))
    &&& fits_mantissa(b.mantissa_at(s))
    &&& fits_mantissa(a.mantissa_at(s) - b.mantissa_at(s))
}

/// The product of two amounts needs no rounding.
pub open spec fn multiplies_exactly(a: Amount, b: Amount) -> bool {
    &&& fits_mantissa(a.mantissa * b.mantissa)
    &&& a.scale + b.scale <= MAX_SCALE
}

/// The sum of two amounts where it needs no rounding: a zero hands back the other
/// amount, and any other sum has the finer scale.
pub open spec fn exact_sum(a: Amount, b: Amount) -> Option<Amount> {
    let s = finer_scale(a, b);
    if a.mantissa == 0 {
        Some(b)
    } else if b.mantissa == 0 {
        Some(a)
    } else if adds_exactly(a, b) {
        Some(Amount { mantissa: (a.mantissa_at(s) + b.mantissa_at(s)) as i128, scale: s as u32 })
    } else {
        None
    }
}

/// The difference of two amounts where it needs no rounding.
pub open spec fn exact_difference(a: Amount, b: Amount) -> Option<Amount> {
    let s = finer_scale(a, b);
    if a.mantissa == 0 {
        Some(Amount { mantissa: (-b.mantissa) as i128, scale: b.scale })
    } else if b.mantissa == 0 {
        Some(a)
    } else if subtracts_exactly(a, b) {
        Some(Amount { mantissa: (a.mantissa_at(s) - b.mantissa_at(s)) as i128, scale: s as u32 })
    } else {
        None
    }
}

/// The product of two amounts where it needs no rounding: a zero makes a plain
/// zero, and any other product has the scales of both together.
pub open spec fn exact_product(a: Amount, b: Amount) -> Option<Amount> {
    if a.mantissa == 0 || b.mantissa == 0 {
        Some(Amount { mantissa: 0, scale: 0 })
    } else if multiplies_exactly(a, b) {
        Some(
            Amount {
                mantissa: (a.mantissa * b.mantissa) as i128,
                scale: (a.scale + b.scale) as u32,
            },
        )
    } else {
        None
    }
}

/// The quotient of `a` and a positive `b` is at least the whole number `q`.
pub open spec fn reaches(a: Amount, b: Amount, q: i64) -> bool {
    q * b.units() <= a.units()
}

/// The quotient of `a` and a positive `b` is at most the whole number `q`.
pub open spec fn stays_within(a: Amount, b: Amount, q: i64) -> bool {
    a.units() <= q * b.units()
}

/// The quotient of two amounts is the whole number `q`.
pub open spec fn divides_to(a: Amount, b: Amount, q: i64) -> bool {
    q * b.units() == a.units()
}

/// The position of the first point in `s`, or its length.
pub open spec fn point_position(s: Seq<char>) -> nat
    decreases s.len(),
{
    if s.len() == 0 || s[0] == '.' {
        0
    } else {
        1 + point_position(s.drop_first())
    }
}

/// The amount that plain decimal notation denotes: 1 to 28 digits, with at most
/// one point before, between or behind them. `None` for any other text.
pub open spec fn plain_number(s: Seq<char>) -> Option<Amount> {
    let p = point_position(s) as int;
    let whole = s.take(p);
    let places = if p < s.len() {
        s.skip(p + 1)
    } else {
        Seq::<char>::empty()
    };
    if 1 <= whole.len() + places.len() <= MAX_SCALE && all_digits(whole + places) {
        Some(
            Amount {
                mantissa: digits_value(whole + places) as i128,
                scale: places.len() as u32,
            },
        )
    } else {
        None
    }
}

/// The amount without trailing zeros behind the point.
pub open spec fn normal_form(a: Amount) -> Amount
    decreases a.scale,
{
    if a.mantissa == 0 {
        Amount { mantissa: 0, scale: 0 }
    } else if a.scale > 0 && a.mantissa as int % 10 == 0 {
        normal_form(
            Amount { mantissa: (a.mantissa as int / 10) as i128, scale: (a.scale - 1) as u32 },
        )
    } else {
        a
    }
}

/// `m / d` rounded to the nearest integer, halves to the even one.
pub open spec fn half_even(m: nat, d: nat) -> nat {
    let q = m / d;
    let r = m % d;
    if 2 * r > d || (2 * r == d && q % 2 == 1) {
        q + 1
    } else {
        q
    }
}

pub open spec fn magnitude(m: int) -> nat {
    if m < 0 {
        (-m) as nat
    } else {
        m as nat
    }
}

/// The amount rounded to at most `places` decimal places, halves to even.
pub open spec fn rounded_to(a: Amount, places: u32) -> Amount {
    if a.scale <= places {
        a
    } else {
        let q = half_even(magnitude(a.mantissa as int), pow10((a.scale - places) as nat)) as int;
        Amount {
            mantissa: (if a.mantissa < 0 {
                -q
            } else {
                q
            }) as i128,
            scale: places,
        }
    }
}

pub open spec fn zeros(n: nat) -> Seq<char> {
    Seq::new(n, |i: int| '0')
}

/// The decimal notation of an amount: a minus sign if it is negative, at least
/// one digit before the point, and exactly `scale` digits behind it.
pub open spec fn amount_text(a: Amount) -> Seq<char> {
    let shown = digits(magnitude(a.mantissa as int));
    let padded = if shown.len() > a.scale {
        shown
    } else {
        zeros((a.scale + 1 - shown.len()) as nat) + shown
    };
    let whole = padded.take(padded.len() - a.scale);
    let number = if a.scale == 0 {
        whole
    } else {
        whole + seq!['.'] + padded.skip(padded.len() - a.scale)
    };
    if a.mantissa < 0 {
        seq!['-'] + number
    } else {
        number
    }
}

/// The outcome of reading a text, with the error as its characters.
pub open spec fn reading(r: Result<Amount, String>) -> Result<Amount, Seq<char>> {
    match r {
        Ok(a) => Ok(a),
        Err(e) => Err(e@),
    }
}

/// The outcome of reading a text that denotes `a`.
pub open spec fn reads_as(a: Amount) -> Result<Amount, Seq<char>> {
    Ok(a)
}

/// What `rust_decimal` reads in a text: the amount, or the text of its error.
pub uninterp spec fn decimal_from_str(s: Seq<char>) -> Result<Amount, Seq<char>>;

/// What `rust_decimal` gives for the sum of two amounts; `None` beyond its range.
pub uninterp spec fn decimal_sum(a: Amount, b: Amount) -> Option<Amount>;

/// What `rust_decimal` gives for the difference of two amounts.
pub uninterp spec fn decimal_difference(a: Amount, b: Amount) -> Option<Amount>;

/// What `rust_decimal` gives for the product of two amounts.
pub uninterp spec fn decimal_product(a: Amount, b: Amount) -> Option<Amount>;

/// What `rust_decimal` gives for the quotient of two amounts.
pub uninterp spec fn decimal_quotient(a: Amount, b: Amount) -> Option<Amount>;

/// Reads a decimal number with `Decimal::from_str`.
///
/// Believed: the outcome depends on the text alone, an amount that is read lies
/// within 96 bits and 28 places, and plain decimal notation of up to 28 digits
/// is read digit by digit. What is read in any other text is not said.
#[verifier::external_body]
pub(crate) fn parse_amount(text: &str) -> (r: Result<Amount, String>)
    ensures
        reading(r) == decimal_from_str(text@),
        r is Ok ==> r->Ok_0.wf(),
        plain_number(text@) is Some ==> (r is Ok && r->Ok_0 == plain_number(text@)->0),
{
    match Decimal::from_str(text) {
        Ok(d) => Ok(Amount { mantissa: d.mantissa(), scale: d.scale() }),
        Err(e) => Err(e.to_string()),
    }
}

/// Compares two amounts with `<=` of `Decimal`, which orders by value.
#[verifier::external_body]
pub(crate) fn at_most(a: &Amount, b: &Amount) -> (r: bool)
    requires
        a.wf(),
        b.wf(),
    ensures
        r == (a.units() <= b.units()),
{
    Decimal::from_i128_with_scale(a.mantissa, a.scale) <= Decimal::from_i128_with_scale(
        b.mantissa,
        b.scale,
    )
}

/// Adds two amounts with `Decimal::checked_add`, which is `None` on overflow.
///
/// Believed: the sum is exact, and has the finer scale, where it can be held
/// without rounding; a zero hands back the other amount. How any other sum is
/// rounded is not said.
#[verifier::external_body]
pub(crate) fn sum(a: &Amount, b: &Amount) -> (r: Option<Amount>)
    requires
        a.wf(),
        b.wf(),
    ensures
        r == decimal_sum(*a, *b),
        r is Some ==> r->0.wf(),
        adds_exactly(*a, *b) ==> (r is Some && r->0.units() == a.units() + b.units()),
        exact_sum(*a, *b) is Some ==> r == exact_sum(*a, *b),
{
    let left = Decimal::from_i128_with_scale(a.mantissa, a.scale);
    let right = Decimal::from_i128_with_scale(b.mantissa, b.scale);
    left.checked_add(right).map(|d| Amount { mantissa: d.mantissa(), scale: d.scale() })
}

/// Subtracts two amounts with `Decimal::checked_sub`, which is `None` on overflow.
///
/// Believed: the difference is exact, and has the finer scale, where it can be held
/// without rounding; a zero to take away hands back the other amount, and one to
/// take away from negates it. How any other difference is rounded is not said.
#[verifier::external_body]
pub(crate) fn difference(a: &Amount, b: &Amount) -> (r: Option<Amount>)
    requires
        a.wf(),
        b.wf(),
    ensures
        r == decimal_difference(*a, *b),
        r is Some ==> r->0.wf(),
        subtracts_exactly(*a, *b) ==> (r is Some && r->0.units() == a.units() - b.units()),
        exact_difference(*a, *b) is Some ==> r == exact_difference(*a, *b),
{
    let left = Decimal::from_i128_with_scale(a.mantissa, a.scale);
    let right = Decimal::from_i128_with_scale(b.mantissa, b.scale);
    left.checked_sub(right).map(|d| Amount { mantissa: d.mantissa(), scale: d.scale() })
}

/// Multiplies two amounts with `Decimal::checked_mul`, which is `None` on overflow.
///
/// Believed: the product is exact, and has the scales of both together, where it
/// can be held without rounding; a zero makes a plain zero. How any other product
/// is rounded is not said.
#[verifier::external_body]
pub(crate) fn product(a: &Amount, b: &Amount) -> (r: Option<Amount>)
    requires
        a.wf(),
        b.wf(),
    ensures
        r == decimal_product(*a, *b),
        r is Some ==> r->0.wf(),
        multiplies_exactly(*a, *b) ==> (r is Some && r->0.units() == a.mantissa * b.mantissa
            * pow10((MAX_SCALE - (a.scale + b.scale)) as nat)),
        exact_product(*a, *b) is Some ==> r == exact_product(*a, *b),
{
    let left = Decimal::from_i128_with_scale(a.mantissa, a.scale);
    let right = Decimal::from_i128_with_scale(b.mantissa, b.scale);
    left.checked_mul(right).map(|d| Amount { mantissa: d.mantissa(), scale: d.scale() })
}

/// Divides two amounts with `Decimal::checked_div`, which is `None` on overflow.
///
/// Believed: a quotient that is a whole number of 64 bits is exact, and by a
/// positive divisor no quotient is rounded past a whole number. How else a quotient
/// is rounded is not said.
#[verifier::external_body]
pub(crate) fn quotient(a: &Amount, b: &Amount) -> (r: Option<Amount>)
    requires
        a.wf(),
        b.wf(),
        b.mantissa != 0,
    ensures
        r == decimal_quotient(*a, *b),
        r is Some ==> r->0.wf(),
        forall|q: i64| #[trigger]
            divides_to(*a, *b, q) ==> (r is Some && r->0.units() == q * pow10(MAX_SCALE as nat)),
        forall|q: i64| #[trigger]
            reaches(*a, *b, q) ==> (b.mantissa > 0 && r is Some ==> r->0.units() >= q * pow10(
                MAX_SCALE as nat,
            )),
        forall|q: i64| #[trigger]
            stays_within(*a, *b, q) ==> (b.mantissa > 0 && r is Some ==> r->0.units() <= q * pow10(
                MAX_SCALE as nat,
            )),
{
    let left = Decimal::from_i128_with_scale(a.mantissa, a.scale);
    let right = Decimal::from_i128_with_scale(b.mantissa, b.scale);
    left.checked_div(right).map(|d| Amount { mantissa: d.mantissa(), scale: d.scale() })
}

/// Drops trailing zeros behind the point with `Decimal::normalize`.
#[verifier::external_body]
pub(crate) fn normalize(a: &Amount) -> (r: Amount)
    requires
        a.wf(),
    ensures
        r == normal_form(*a),
        r.wf(),
{
    let d = Decimal::from_i128_with_scale(a.mantissa, a.scale).normalize();
    Amount { mantissa: d.mantissa(), scale: d.scale() }
}

/// Rounds half to even with `Decimal::round_dp`.
#[verifier::external_body]
pub(crate) fn round_places(a: &Amount, places: u32) -> (r: Amount)
    requires
        a.wf(),
    ensures
        r == rounded_to(*a, places),
        r.wf(),
{
    let d = Decimal::from_i128_with_scale(a.mantissa, a.scale).round_dp(places);
    Amount { mantissa: d.mantissa(), scale: d.scale() }
}

/// Prints an amount with `Decimal::to_string`.
///
/// Believed: the text is the decimal notation with all `scale` places, and
/// `Decimal::from_str` reads the same amount back.
#[verifier::external_body]
pub(crate) fn print_amount(a: &Amount) -> (r: String)
    requires
        a.wf(),
    ensures
        r@ == amount_text(*a),
        decimal_from_str(r@) == reads_as(*a),
{
    Decimal::from_i128_with_scale(a.mantissa, a.scale).to_string()
}

proof fn lemma_pow10_positive(n: nat)
    ensures
        pow10(n) > 0,
    decreases n,
{
    if n > 0 {
        lemma_pow10_positive((n - 1) as nat);
    }
}

/// The sign of an amount is the sign of its mantissa.
pub proof fn lemma_units_sign(a: Amount)
    requires
        a.wf(),
    ensures
        a.units() > 0 <==> a.mantissa > 0,
        a.units() < 0 <==> a.mantissa < 0,
{
    let p = pow10((MAX_SCALE - a.scale) as nat) as int;
    let m = a.mantissa as int;
    lemma_pow10_positive((MAX_SCALE - a.scale) as nat);
    assert(m > 0 ==> m * p > 0) by (nonlinear_arith)
        requires
            p > 0,
    ;
    assert(m < 0 ==> m * p < 0) by (nonlinear_arith)
        requires
            p > 0,
    ;
    assert(m == 0 ==> m * p == 0) by (nonlinear_arith);
}

/// Dropping trailing zeros keeps the value, and doing it twice changes nothing.
pub proof fn lemma_normal_form(a: Amount)
    requires
        a.wf(),
    ensures
        normal_form(a).wf(),
        normal_form(a).units() == a.units(),
        normal_form(normal_form(a)) == normal_form(a),
    decreases a.scale,
{
    if a.mantissa == 0 {
    } else if a.scale > 0 && a.mantissa as int % 10 == 0 {
        let b = Amount {
            mantissa: (a.mantissa as int / 10) as i128,
            scale: (a.scale - 1) as u32,
        };
        let p = pow10((MAX_SCALE - a.scale) as nat) as int;
        let q = b.mantissa as int;
        assert(a.mantissa == 10 * q);
        assert(pow10((MAX_SCALE - b.scale) as nat) == 10 * p);
        assert(q * (10 * p) == (10 * q) * p) by (nonlinear_arith);
        lemma_normal_form(b);
    }
}

proof fn lemma_pow10_step(m: int, n: int, i: nat, j: nat)
    requires
        m * pow10(i) == n * pow10(j),
        i < j,
    ensures
        m % 10 == 0,
        (m / 10) * pow10(i) == n * pow10((j - 1) as nat),
    decreases i,
{
    if i == 0 {
        let p = pow10((j - 1) as nat) as int;
        assert(pow10(j) == 10 * p);
        assert(n * (10 * p) == 10 * (n * p)) by (nonlinear_arith);
        assert(m * 1 == m && (m / 10) * 1 == m / 10);
    } else {
        let p = pow10((i - 1) as nat) as int;
        let q = pow10((j - 1) as nat) as int;
        assert(m * (10 * p) == 10 * (m * p)) by (nonlinear_arith);
        assert(n * (10 * q) == 10 * (n * q)) by (nonlinear_arith);
        lemma_pow10_step(m, n, (i - 1) as nat, (j - 1) as nat);
        let d = m / 10;
        let r = pow10((j - 2) as nat) as int;
        assert(d * (10 * p) == 10 * (d * p)) by (nonlinear_arith);
        assert(n * (10 * r) == 10 * (n * r)) by (nonlinear_arith);
    }
}

/// Amounts of one value have one normal form, whatever their trailing zeros.
pub proof fn lemma_normal_form_unique(a: Amount, b: Amount)
    requires
        a.wf(),
        b.wf(),
        a.units() == b.units(),
    ensures
        normal_form(a) == normal_form(b),
    decreases a.scale + b.scale,
{
    lemma_units_sign(a);
    lemma_units_sign(b);
    if a.mantissa != 0 {
        let i = (MAX_SCALE - a.scale) as nat;
        let j = (MAX_SCALE - b.scale) as nat;
        if i < j {
            lemma_pow10_step(a.mantissa as int, b.mantissa as int, i, j);
            let c = Amount {
                mantissa: (a.mantissa as int / 10) as i128,
                scale: (a.scale - 1) as u32,
            };
            lemma_normal_form_shift(a, c);
            lemma_normal_form_unique(c, b);
        } else if j < i {
            lemma_pow10_step(b.mantissa as int, a.mantissa as int, j, i);
            let c = Amount {
                mantissa: (b.mantissa as int / 10) as i128,
                scale: (b.scale - 1) as u32,
            };
            lemma_normal_form_shift(b, c);
            lemma_normal_form_unique(a, c);
        } else {
            let p = pow10(i) as int;
            lemma_pow10_positive(i);
            let m = a.mantissa as int;
            let n = b.mantissa as int;
            assert(m == n) by (nonlinear_arith)
                requires
                    m * p == n * p,
                    p > 0,
            ;
        }
    }
}

proof fn lemma_normal_form_shift(a: Amount, c: Amount)
    requires
        a.wf(),
        a.mantissa != 0,
        a.scale > 0,
        a.mantissa as int % 10 == 0,
        c == (Amount { mantissa: (a.mantissa as int / 10) as i128, scale: (a.scale - 1) as u32 }),
    ensures
        c.wf(),
        c.units() == a.units(),
        normal_form(a) == normal_form(c),
{
    let p = pow10((MAX_SCALE - a.scale) as nat) as int;
    let q = c.mantissa as int;
    assert(a.mantissa == 10 * q);
    assert(q * (10 * p) == (10 * q) * p) by (nonlinear_arith);
}

/// The notation of an amount starts with a digit or a minus sign and ends with a
/// digit, so trimming leaves it as it is.
pub proof fn lemma_amount_text_trimmed(a: Amount)
    requires
        a.wf(),
    ensures
        amount_text(a).len() > 0,
        trimmed(amount_text(a)) == amount_text(a),
{
    let shown = digits(magnitude(a.mantissa as int));
    lemma_digits_denote(magnitude(a.mantissa as int));
    let padded = if shown.len() > a.scale {
        shown
    } else {
        zeros((a.scale + 1 - shown.len()) as nat) + shown
    };
    assert(all_digits(padded));
    assert(is_digit(padded.first()));
    assert(is_digit(padded.last()));
    lemma_trimmed_fixed(amount_text(a));
}

impl Amount {
    /// The whole number `n`.
    pub fn whole(n: i64) -> (r: Amount)
        ensures
            r == (Amount { mantissa: n as i128, scale: 0 }),
            r.wf(),
    {
        Amount { mantissa: n as i128, scale: 0 }
    }
}

} // verus!
