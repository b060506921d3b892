//! Monetary amounts: decimal numbers with a 96-bit mantissa and up to 28
//! fractional digits.
//!
//! Sums, differences, comparisons and roundings are `rust_decimal`'s. What
//! its sums and differences are is not stated here: they are named
//! (`decimal_sum`, `decimal_difference`), and `adds_up_to` tells an exact
//! one from a rounded one.

use rust_decimal::Decimal;
use vstd::arithmetic::power::{lemma_pow_adds, lemma_pow_increases, lemma_pow_positive, pow};
use vstd::prelude::*;
use vstd::std_specs::cmp::PartialEqSpecImpl;
use vstd::std_specs::convert::FromSpecImpl;

verus! {

/// The largest mantissa of an amount, `2^96 - 1`.
pub const MAX_MANTISSA: i128 = 0x0000_0000_FFFF_FFFF_FFFF_FFFF_FFFF_FFFF;

/// The largest number of fractional digits of an amount.
pub const MAX_SCALE: u32 = 28;

/// `10^n`.
pub open spec fn pow10(n: nat) -> int {
    pow(10, n)
}

/// The mantissa that stands at the finer scale `to` for `mantissa / 10^scale`.
pub open spec fn rescaled(mantissa: int, scale: nat, to: nat) -> int {
    mantissa * pow10((to - scale) as nat)
}

/// The finest of three scales.
pub open spec fn finest(a: nat, b: nat, c: nat) -> nat {
    if a >= b && a >= c {
        a
    } else if b >= c {
        b
    } else {
        c
    }
}

/// Whether `x` is a 128-bit signed integer.
pub open spec fn fits_i128(x: int) -> bool {
    i128::MIN <= x <= i128::MAX
}

/// `m / d` rounded to the nearest integer, a tie to the even one, for `m >= 0` and `d > 0`.
pub open spec fn round_half_even(m: int, d: int) -> int {
    let q = m / d;
    let r = m % d;
    if 2 * r > d || (2 * r == d && q % 2 == 1) {
        q + 1
    } else {
        q
    }
}

/// `m / d` rounded to the nearest integer, a tie to the even one, for any sign of `m`.
pub open spec fn rounded_quotient(m: int, d: int) -> int {
    if m >= 0 {
        round_half_even(m, d)
    } else {
        -round_half_even(-m, d)
    }
}

/// What `Decimal::checked_add` returns for `a_mantissa / 10^a_scale` and
/// `b_mantissa / 10^b_scale`, as mantissa and scale.
pub uninterp spec fn decimal_sum(a_mantissa: int, a_scale: int, b_mantissa: int, b_scale: int) -> Option<(int, int)>;

/// What `Decimal::checked_sub` returns for `a_mantissa / 10^a_scale` less
/// `b_mantissa / 10^b_scale`, as mantissa and scale.
pub uninterp spec fn decimal_difference(a_mantissa: int, a_scale: int, b_mantissa: int, b_scale: int) -> Option<(int, int)>;

/// A decimal amount `mantissa / 10^scale`.
#[derive(Clone, Copy, Debug)]
pub struct Money {
    mantissa: i128,
    scale: u32,
}

impl View for Money {
    type V = int;

    /// The amount counted in steps of `10^-28`, the finest step an amount can have.
    open spec fn view(&self) -> int {
        self.spec_mantissa() * pow10((MAX_SCALE - self.spec_scale()) as nat)
    }
}

/// Whether `total` is exactly `a + b`: brought to the finest of the three
/// scales, the three mantissas are 128-bit integers and add up.
pub open spec fn exact_sum(a: Money, b: Money, total: Money) -> bool {
    let t = finest(a.spec_scale(), b.spec_scale(), total.spec_scale());
    let x = rescaled(a.spec_mantissa(), a.spec_scale(), t);
    let y = rescaled(b.spec_mantissa(), b.spec_scale(), t);
    let z = rescaled(total.spec_mantissa(), total.spec_scale(), t);
    fits_i128(x) && fits_i128(y) && fits_i128(z) && x + y == z
}

/// Each power of ten is ten times the one before.
pub proof fn lemma_pow10_step(n: nat)
    ensures
        pow10(n + 1) == 10 * pow10(n),
{
    reveal(pow);
}

/// The 28th power of ten, written out.
pub proof fn lemma_pow10_28()
    ensures
        pow10(28) == 10_000_000_000_000_000_000_000_000_000,
{
    lemma_pow10_step(0);
    lemma_pow10_step(1);
    lemma_pow10_step(2);
    lemma_pow10_step(3);
    lemma_pow10_step(4);
    lemma_pow10_step(5);
    lemma_pow10_step(6);
    lemma_pow10_step(7);
    lemma_pow10_step(8);
    lemma_pow10_step(9);
    lemma_pow10_step(10);
    lemma_pow10_step(11);
    lemma_pow10_step(12);
    lemma_pow10_step(13);
    lemma_pow10_step(14);
    lemma_pow10_step(15);
    lemma_pow10_step(16);
    lemma_pow10_step(17);
    lemma_pow10_step(18);
    lemma_pow10_step(19);
    lemma_pow10_step(20);
    lemma_pow10_step(21);
    lemma_pow10_step(22);
    lemma_pow10_step(23);
    lemma_pow10_step(24);
    lemma_pow10_step(25);
    lemma_pow10_step(26);
    lemma_pow10_step(27);
    assert(pow10(0) == 1) by {
        reveal(pow);
    }
}

/// Every power of ten up to the 28th lies between 1 and `10^28`.
pub proof fn lemma_pow10_range(n: nat)
    requires
        n <= 28,
    ensures
        1 <= pow10(n) <= 10_000_000_000_000_000_000_000_000_000,
{
    lemma_pow10_28();
    lemma_pow_positive(10, n);
    lemma_pow_increases(10, n, 28);
}

/// A valid amount counts `rescaled(..) * 10^(28 - to)` steps, whatever finer scale `to` is taken.
pub proof fn lemma_view_rescaled(a: Money, to: nat)
    requires
        a.wf(),
        a.spec_scale() <= to <= MAX_SCALE,
    ensures
        a@ == rescaled(a.spec_mantissa(), a.spec_scale(), to) * pow10((MAX_SCALE - to) as nat),
{
    let up = (to - a.spec_scale()) as nat;
    let rest = (MAX_SCALE - to) as nat;
    lemma_pow_adds(10, up, rest);
    assert(pow10((MAX_SCALE - a.spec_scale()) as nat) == pow10(up) * pow10(rest));
    assert(a.spec_mantissa() * (pow10(up) * pow10(rest)) == (a.spec_mantissa() * pow10(up)) * pow10(
        rest,
    )) by (nonlinear_arith);
}

/// An exact sum is the sum of the amounts.
pub proof fn lemma_exact_sum(a: Money, b: Money, total: Money)
    requires
        a.wf(),
        b.wf(),
        total.wf(),
        exact_sum(a, b, total),
    ensures
        total@ == a@ + b@,
{
    let t = finest(a.spec_scale(), b.spec_scale(), total.spec_scale());
    let x = rescaled(a.spec_mantissa(), a.spec_scale(), t);
    let y = rescaled(b.spec_mantissa(), b.spec_scale(), t);
    let z = rescaled(total.spec_mantissa(), total.spec_scale(), t);
    let p = pow10((MAX_SCALE - t) as nat);
    lemma_view_rescaled(a, t);
    lemma_view_rescaled(b, t);
    lemma_view_rescaled(total, t);
    assert((x + y) * p == x * p + y * p) by (nonlinear_arith);
}

/// The sign of an amount is the sign of its mantissa.
pub proof fn lemma_sign(a: Money)
    requires
        a.wf(),
    ensures
        a@ >= 0 <==> a.spec_mantissa() >= 0,
        a@ == 0 <==> a.spec_mantissa() == 0,
{
    let p = pow10((MAX_SCALE - a.spec_scale()) as nat);
    let m = a.spec_mantissa();
    lemma_pow10_range((MAX_SCALE - a.spec_scale()) as nat);
    assert(p >= 1 ==> ((m * p >= 0 <==> m >= 0) && (m * p == 0 <==> m == 0))) by (nonlinear_arith);
}

/// Rounding keeps an amount valid and on its side of zero, and leaves
/// alone an amount that has no more than `dp` fractional digits.
pub proof fn lemma_rounded(a: Money, dp: nat)
    requires
        a.wf(),
    ensures
        a.rounded(dp).wf(),
        a@ >= 0 ==> a.rounded(dp)@ >= 0,
        a@ <= 0 ==> a.rounded(dp)@ <= 0,
        a.spec_scale() <= dp ==> a.rounded(dp) == a,
{
    if a.spec_scale() > dp {
        let k = (a.spec_scale() - dp) as nat;
        let d = pow10(k);
        let m = a.spec_mantissa();
        let n = if m >= 0 {
            m
        } else {
            -m
        };
        lemma_pow10_range(k);
        lemma_pow10_step((k - 1) as nat);
        lemma_pow10_range((k - 1) as nat);
        assert(d >= 10);
        assert(0 <= n / d && (n / d) * 10 <= n) by (nonlinear_arith)
            requires
                n >= 0,
                d >= 10,
        ;
        let q = rounded_quotient(m, d);
        assert(-MAX_MANTISSA <= q <= MAX_MANTISSA);
        assert(m >= 0 ==> q >= 0);
        assert(m <= 0 ==> q <= 0) by {
            if m == 0 {
                assert(0int / d == 0 && 0int % d == 0) by (nonlinear_arith)
                    requires
                        d >= 10,
                ;
            }
        }
        Money::lemma_spec_new(q, dp);
        lemma_sign(a);
        lemma_sign(a.rounded(dp));
    }
}

/// `10^k`.
fn power_of_ten(k: u32) -> (p: i128)
    requires
        k <= MAX_SCALE,
    ensures
        p == pow10(k as nat),
        1 <= p <= 10_000_000_000_000_000_000_000_000_000,
{
    let mut p: i128 = 1;
    let mut i: u32 = 0;
    proof {
        lemma_pow10_range(0);
        reveal(pow);
    }
    while i < k
        invariant
            i <= k <= MAX_SCALE,
            p == pow10(i as nat),
        decreases k - i,
    {
        proof {
            lemma_pow10_range(i as nat);
            lemma_pow10_range((i + 1) as nat);
            lemma_pow10_step(i as nat);
        }
        p = p * 10;
        i = i + 1;
    }
    proof {
        lemma_pow10_range(k as nat);
    }
    p
}

/// Calls `Decimal::checked_add` on the two amounts. The result is named, not
/// described: `decimal_sum` of the operands' mantissas and scales. A result
/// that comes back is a valid amount, as every `Decimal` has a mantissa of
/// at most 96 bits and a scale of at most 28.
#[verifier::external_body]
fn decimal_checked_add(a: Money, b: Money) -> (r: Option<Money>)
    requires
        a.wf(),
        b.wf(),
    ensures
        r matches Some(s) ==> s.wf() && decimal_sum(
            a.spec_mantissa(),
            a.spec_scale() as int,
            b.spec_mantissa(),
            b.spec_scale() as int,
        ) == Some((s.spec_mantissa(), s.spec_scale() as int)),
        r is None ==> decimal_sum(
            a.spec_mantissa(),
            a.spec_scale() as int,
            b.spec_mantissa(),
            b.spec_scale() as int,
        ) is None,
{
    let x = Decimal::from_i128_with_scale(a.mantissa, a.scale);
    let y = Decimal::from_i128_with_scale(b.mantissa, b.scale);
    match x.checked_add(y) {
        Some(d) => Some(Money { mantissa: d.mantissa(), scale: d.scale() }),
        None => None,
    }
}

/// Calls `Decimal::checked_sub` on the two amounts. The result is named, not
/// described: `decimal_difference` of the operands' mantissas and scales. A
/// result that comes back is a valid amount.
#[verifier::external_body]
fn decimal_checked_sub(a: Money, b: Money) -> (r: Option<Money>)
    requires
        a.wf(),
        b.wf(),
    ensures
        r matches Some(s) ==> s.wf() && decimal_difference(
            a.spec_mantissa(),
            a.spec_scale() as int,
            b.spec_mantissa(),
            b.spec_scale() as int,
        ) == Some((s.spec_mantissa(), s.spec_scale() as int)),
        r is None ==> decimal_difference(
            a.spec_mantissa(),
            a.spec_scale() as int,
            b.spec_mantissa(),
            b.spec_scale() as int,
        ) is None,
{
    let x = Decimal::from_i128_with_scale(a.mantissa, a.scale);
    let y = Decimal::from_i128_with_scale(b.mantissa, b.scale);
    match x.checked_sub(y) {
        Some(d) => Some(Money { mantissa: d.mantissa(), scale: d.scale() }),
        None => None,
    }
}

/// Compares the two amounts with `Decimal`'s `<=`, which orders decimals by
/// their numeric value, whatever their scales.
#[verifier::external_body]
fn decimal_le(a: Money, b: Money) -> (r: bool)
    requires
        a.wf(),
        b.wf(),
    ensures
        r == (a@ <= b@),
{
    let x = Decimal::from_i128_with_scale(a.mantissa, a.scale);
    let y = Decimal::from_i128_with_scale(b.mantissa, b.scale);
    x <= y
}

/// Calls `Decimal::round_dp`. An amount with at most `dp` fractional digits
/// comes back as it is. Any other comes back with `dp` digits, its mantissa
/// divided by the power of ten that drops the others and rounded to the
/// nearest integer, a tie to the even one, the sign kept.
#[verifier::external_body]
fn decimal_round_dp(a: Money, dp: u32) -> (r: Money)
    requires
        a.wf(),
    ensures
        r.wf(),
        a.spec_scale() <= dp ==> r == a,
        a.spec_scale() > dp ==> r.spec_scale() == dp && r.spec_mantissa() == rounded_quotient(
            a.spec_mantissa(),
            pow10((a.spec_scale() - dp) as nat),
        ),
{
    let d = Decimal::from_i128_with_scale(a.mantissa, a.scale).round_dp(dp);
    Money { mantissa: d.mantissa(), scale: d.scale() }
}

impl Money {
    /// The mantissa, in contracts.
    pub closed spec fn spec_mantissa(self) -> int {
        self.mantissa as int
    }

    /// The number of fractional digits, in contracts.
    pub closed spec fn spec_scale(self) -> nat {
        self.scale as nat
    }

    /// Validity of the representation: a mantissa of at most 96 bits and at most 28 fractional digits.
    #[verifier::type_invariant]
    pub open spec fn wf(self) -> bool {
        &&& -MAX_MANTISSA <= self.spec_mantissa() <= MAX_MANTISSA
        &&& self.spec_scale() <= MAX_SCALE
    }

    /// What `Decimal::checked_add` returns for `self` and `rhs`.
    pub closed spec fn sum(self, rhs: Money) -> Option<Money> {
        match decimal_sum(self.spec_mantissa(), self.spec_scale() as int, rhs.spec_mantissa(), rhs.spec_scale() as int) {
            Some((m, s)) => Some(Money { mantissa: m as i128, scale: s as u32 }),
            None => None,
        }
    }

    /// What `Decimal::checked_sub` returns for `self` less `rhs`.
    pub closed spec fn difference(self, rhs: Money) -> Option<Money> {
        match decimal_difference(self.spec_mantissa(), self.spec_scale() as int, rhs.spec_mantissa(), rhs.spec_scale() as int) {
            Some((m, s)) => Some(Money { mantissa: m as i128, scale: s as u32 }),
            None => None,
        }
    }

    /// `self` with at most `dp` fractional digits, rounded half to even.
    pub open spec fn rounded(self, dp: nat) -> Money
        recommends
            self.wf(),
    {
        if self.spec_scale() <= dp {
            self
        } else {
            Money::spec_new(
                rounded_quotient(self.spec_mantissa(), pow10((self.spec_scale() - dp) as nat)),
                dp,
            )
        }
    }

    /// The amount `mantissa / 10^scale`, in contracts.
    pub closed spec fn spec_new(mantissa: int, scale: nat) -> Money {
        Money { mantissa: mantissa as i128, scale: scale as u32 }
    }

    /// The parts of `spec_new(mantissa, scale)` are `mantissa` and `scale`, where these are in range.
    pub proof fn lemma_spec_new(mantissa: int, scale: nat)
        requires
            -MAX_MANTISSA <= mantissa <= MAX_MANTISSA,
            scale <= MAX_SCALE,
        ensures
            Money::spec_new(mantissa, scale).spec_mantissa() == mantissa,
            Money::spec_new(mantissa, scale).spec_scale() == scale,
            Money::spec_new(mantissa, scale).wf(),
    {
    }

    /// The amount `mantissa / 10^scale`, or `None` if either part is out of range.
    pub fn new(mantissa: i128, scale: u32) -> (r: Option<Money>)
        ensures
            r is Some <==> -MAX_MANTISSA <= mantissa <= MAX_MANTISSA && scale <= MAX_SCALE,
            r matches Some(m) ==> m == Money::spec_new(mantissa as int, scale as nat) && m.wf()
                && m.spec_mantissa() == mantissa && m.spec_scale() == scale,
    {
        if scale <= MAX_SCALE && -MAX_MANTISSA <= mantissa && mantissa <= MAX_MANTISSA {
            Some(Money { mantissa, scale })
        } else {
            None
        }
    }

    /// The amount zero.
    pub fn zero() -> (r: Money)
        ensures
            r == Money::spec_new(0, 0),
            r.wf(),
            r@ == 0,
    {
        Money { mantissa: 0, scale: 0 }
    }

    /// The mantissa.
    pub fn mantissa(&self) -> (m: i128)
        ensures
            m == self.spec_mantissa(),
            self.wf(),
    {
        proof {
            use_type_invariant(self);
        }
        self.mantissa
    }

    /// The number of fractional digits.
    pub fn scale(&self) -> (s: u32)
        ensures
            s == self.spec_scale(),
            self.wf(),
    {
        proof {
            use_type_invariant(self);
        }
        self.scale
    }

    /// Whether the amount is below zero.
    pub fn is_negative(&self) -> (r: bool)
        ensures
            r == (self@ < 0),
            self.wf(),
    {
        proof {
            use_type_invariant(self);
            lemma_sign(*self);
        }
        self.mantissa < 0
    }

    /// Whether the two amounts have the same mantissa and the same scale.
    pub fn same_as(&self, other: &Money) -> (r: bool)
        ensures
            r == (*self == *other),
    {
        self.mantissa == other.mantissa && self.scale == other.scale
    }

    /// Whether `self` is at most `rhs`.
    pub fn le(&self, rhs: &Money) -> (r: bool)
        ensures
            r == (self@ <= rhs@),
    {
        proof {
            use_type_invariant(self);
            use_type_invariant(rhs);
        }
        decimal_le(*self, *rhs)
    }

    /// The decimal sum of `self` and `rhs`, which may be rounded, or `None` on overflow.
    pub fn checked_add(&self, rhs: &Money) -> (r: Option<Money>)
        ensures
            r == self.sum(*rhs),
            r matches Some(s) ==> s.wf(),
    {
        proof {
            use_type_invariant(self);
            use_type_invariant(rhs);
        }
        decimal_checked_add(*self, *rhs)
    }

    /// The decimal difference of `self` and `rhs`, which may be rounded, or `None` on overflow.
    pub fn checked_sub(&self, rhs: &Money) -> (r: Option<Money>)
        ensures
            r == self.difference(*rhs),
            r matches Some(s) ==> s.wf(),
    {
        proof {
            use_type_invariant(self);
            use_type_invariant(rhs);
        }
        decimal_checked_sub(*self, *rhs)
    }

    /// `self` with at most `dp` fractional digits, rounded half to even.
    pub fn round_dp(&self, dp: u32) -> (r: Money)
        ensures
            r == self.rounded(dp as nat),
            r.wf(),
    {
        proof {
            use_type_invariant(self);
        }
        decimal_round_dp(*self, dp)
    }

    /// Whether `total` is exactly `self + rhs`.
    pub fn adds_up_to(&self, rhs: &Money, total: &Money) -> (r: bool)
        ensures
            r == exact_sum(*self, *rhs, *total),
            r ==> total@ == self@ + rhs@,
    {
        proof {
            use_type_invariant(self);
            use_type_invariant(rhs);
            use_type_invariant(total);
        }
        let t = if self.scale >= rhs.scale && self.scale >= total.scale {
            self.scale
        } else if rhs.scale >= total.scale {
            rhs.scale
        } else {
            total.scale
        };
        let x = self.mantissa.checked_mul(power_of_ten(t - self.scale));
        let y = rhs.mantissa.checked_mul(power_of_ten(t - rhs.scale));
        let z = total.mantissa.checked_mul(power_of_ten(t - total.scale));
        let r = match (x, y, z) {
            (Some(x), Some(y), Some(z)) => match x.checked_add(y) {
                Some(s) => s == z,
                None => false,
            },
            _ => false,
        };
        proof {
            if r {
                lemma_exact_sum(*self, *rhs, *total);
            }
        }
        r
    }
}

impl PartialEq for Money {
    /// Equality of the amounts, whatever their scales: `1.50 == 1.5`.
    fn eq(&self, other: &Money) -> (r: bool) {
        self.le(other) && other.le(self)
    }
}

impl PartialEqSpecImpl for Money {
    open spec fn obeys_eq_spec() -> bool {
        true
    }

    open spec fn eq_spec(&self, other: &Money) -> bool {
        self@ == other@
    }
}

impl From<i32> for Money {
    /// The whole amount `n`.
    fn from(n: i32) -> (r: Money) {
        Money { mantissa: n as i128, scale: 0 }
    }
}

impl FromSpecImpl<i32> for Money {
    open spec fn obeys_from_spec() -> bool {
        true
    }

    open spec fn from_spec(n: i32) -> Money {
        Money::spec_new(n as int, 0)
    }
}

} // verus!
