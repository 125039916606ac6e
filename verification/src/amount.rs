//! Exact base-10 amounts: prices, sizes, market capitalisations and P&L.
//!
//! An [`Amount`] is a signed 96-bit mantissa together with a scale between 0
//! and 28: the number `mantissa / 10^scale`. Contracts speak of an amount
//! through its view, the same number counted in units of `10^-28`, so that
//! two amounts compare as their views do, whatever their scales.
//!
//! Arithmetic and ordering are done by `rust_decimal`; the functions that
//! call it are the only unproved ones in this module.

use vstd::prelude::*;

verus! {

/// Ten to the power `e`.
pub open spec fn pow10(e: nat) -> int
    decreases e,
{
    if e == 0 {
        1
    } else {
        10 * pow10((e - 1) as nat)
    }
}

/// The largest scale an amount can have.
pub const MAX_SCALE: u32 = 28;

/// The number one in the units of a view: `10^28`.
pub open spec fn unit() -> int {
    pow10(28)
}

/// Mantissas lie strictly between `-2^96` and `2^96`.
pub open spec fn mantissa_limit() -> int {
    0x1_0000_0000_0000_0000_0000_0000
}

/// What `rust_decimal` gives for the product of `am / 10^a_scale` and
/// `bm / 10^b_scale`, as mantissa and scale; `None` where it reports overflow.
pub uninterp spec fn decimal_product(am: int, a_scale: nat, bm: int, b_scale: nat) -> Option<(int, nat)>;

/// What `rust_decimal` gives for `am / 10^a_scale` minus `bm / 10^b_scale`.
pub uninterp spec fn decimal_difference(am: int, a_scale: nat, bm: int, b_scale: nat) -> Option<(int, nat)>;

/// What `rust_decimal` gives for `am / 10^a_scale` plus `bm / 10^b_scale`.
pub uninterp spec fn decimal_sum(am: int, a_scale: nat, bm: int, b_scale: nat) -> Option<(int, nat)>;

/// What `rust_decimal` gives for `am / 10^a_scale` divided by
/// `bm / 10^b_scale`; `None` on overflow and where the divisor is zero.
pub uninterp spec fn decimal_quotient(am: int, a_scale: nat, bm: int, b_scale: nat) -> Option<(int, nat)>;

/// The text `rust_decimal` prints for `m / 10^scale`.
pub uninterp spec fn decimal_text(m: int, scale: nat) -> Seq<char>;

/// An exact decimal number.
#[derive(Clone, Copy, Debug)]
pub struct Amount {
    mantissa: i128,
    scale: u32,
}

impl View for Amount {
    type V = int;

    /// The amount in units of `10^-28`.
    open spec fn view(&self) -> int {
        self.mantissa_spec() * pow10((28 - self.scale_spec()) as nat)
    }
}

/// `pow10` is positive.
pub proof fn lemma_pow10_positive(e: nat)
    ensures
        pow10(e) > 0,
    decreases e,
{
    if e > 0 {
        lemma_pow10_positive((e - 1) as nat);
    }
}

/// Powers of ten multiply as their exponents add.
pub proof fn lemma_pow10_adds(a: nat, b: nat)
    ensures
        pow10(a + b) == pow10(a) * pow10(b),
    decreases a,
{
    if a == 0 {
        assert(pow10(0 + b) == 1 * pow10(b));
    } else {
        lemma_pow10_adds((a - 1) as nat, b);
        let x = pow10((a - 1) as nat);
        let y = pow10(b);
        assert(pow10(a + b) == 10 * pow10(((a - 1) as nat) + b));
        assert(10 * (x * y) == (10 * x) * y) by (nonlinear_arith);
    }
}

impl Amount {
    /// The mantissa, as a mathematical integer.
    pub closed spec fn mantissa_spec(self) -> int {
        self.mantissa as int
    }

    /// The scale, as a natural number.
    pub closed spec fn scale_spec(self) -> nat {
        self.scale as nat
    }

    /// Every amount that executable code can hold is within the range of
    /// `rust_decimal::Decimal`.
    #[verifier::type_invariant]
    pub open spec fn in_range(self) -> bool {
        &&& -mantissa_limit() < self.mantissa_spec() < mantissa_limit()
        &&& self.scale_spec() <= 28
    }

    /// The amount with the given mantissa and scale.
    pub closed spec fn from_parts_spec(mantissa: int, scale: nat) -> Amount {
        Amount { mantissa: mantissa as i128, scale: scale as u32 }
    }

    /// The parts of an amount built from parts in range.
    pub proof fn lemma_from_parts(mantissa: int, scale: nat)
        requires
            -mantissa_limit() < mantissa < mantissa_limit(),
            scale <= 28,
        ensures
            Amount::from_parts_spec(mantissa, scale).mantissa_spec() == mantissa,
            Amount::from_parts_spec(mantissa, scale).scale_spec() == scale,
            Amount::from_parts_spec(mantissa, scale).in_range(),
    {
    }

    /// `num / 10^scale`. A decimal has no scale above 28.
    pub fn new(num: i64, scale: u32) -> (r: Amount)
        requires
            scale <= 28,
        ensures
            r == Amount::from_parts_spec(num as int, scale as nat),
            r.mantissa_spec() == num,
            r.scale_spec() == scale,
    {
        Amount { mantissa: num as i128, scale }
    }

    /// The amount with the given mantissa and scale, where `rust_decimal`
    /// can hold it.
    pub fn from_parts(mantissa: i128, scale: u32) -> (r: Option<Amount>)
        ensures
            r is Some <==> (-mantissa_limit() < mantissa < mantissa_limit() && scale <= 28),
            r matches Some(a) ==> a == Amount::from_parts_spec(mantissa as int, scale as nat)
                && a.mantissa_spec() == mantissa && a.scale_spec() == scale,
    {
        if scale <= MAX_SCALE && -0x1_0000_0000_0000_0000_0000_0000i128 < mantissa && mantissa
            < 0x1_0000_0000_0000_0000_0000_0000i128 {
            Some(Amount { mantissa, scale })
        } else {
            None
        }
    }

    /// A whole number.
    pub fn from_u64(num: u64) -> (r: Amount)
        ensures
            r == Amount::from_parts_spec(num as int, 0),
            r.mantissa_spec() == num,
            r.scale_spec() == 0,
            r@ == num * unit(),
    {
        Amount { mantissa: num as i128, scale: 0 }
    }

    /// A whole number.
    pub fn from_i64(num: i64) -> (r: Amount)
        ensures
            r == Amount::from_parts_spec(num as int, 0),
            r.mantissa_spec() == num,
            r.scale_spec() == 0,
            r@ == num * unit(),
    {
        Amount { mantissa: num as i128, scale: 0 }
    }

    /// The view, brought back to the amount's own scale, is the mantissa in
    /// whole units.
    pub proof fn lemma_view_scaled(self)
        requires
            self.scale_spec() <= 28,
        ensures
            self@ * pow10(self.scale_spec()) == self.mantissa_spec() * unit(),
    {
        let s = self.scale_spec();
        let rest = (28 - s) as nat;
        lemma_pow10_adds(rest, s);
        let m = self.mantissa_spec();
        let x = pow10(rest);
        let y = pow10(s);
        assert(rest + s == 28);
        assert((m * x) * y == m * (x * y)) by (nonlinear_arith);
    }

    /// An amount has the sign of its mantissa.
    pub proof fn lemma_sign(self)
        ensures
            (self@ > 0) == (self.mantissa_spec() > 0),
            (self@ < 0) == (self.mantissa_spec() < 0),
            (self@ == 0) == (self.mantissa_spec() == 0),
    {
        let p = pow10((28 - self.scale_spec()) as nat);
        let m = self.mantissa_spec();
        lemma_pow10_positive((28 - self.scale_spec()) as nat);
        assert((m * p > 0) == (m > 0) && (m * p < 0) == (m < 0) && (m * p == 0) == (m == 0))
            by (nonlinear_arith)
            requires
                p > 0,
        ;
    }

    /// The amount is greater than zero.
    pub fn is_positive(&self) -> (r: bool)
        ensures
            r == (self@ > 0),
    {
        proof {
            self.lemma_sign();
        }
        self.mantissa > 0
    }

    /// The amount is zero.
    pub fn is_zero(&self) -> (r: bool)
        ensures
            r == (self@ == 0),
    {
        proof {
            self.lemma_sign();
        }
        self.mantissa == 0
    }

    /// The amount is less than zero.
    pub fn is_negative(&self) -> (r: bool)
        ensures
            r == (self@ < 0),
    {
        proof {
            self.lemma_sign();
        }
        self.mantissa < 0
    }

    /// One.
    pub fn one() -> (r: Amount)
        ensures
            r == Amount::from_parts_spec(1, 0),
            r@ == unit(),
            r.mantissa_spec() == 1,
            r.scale_spec() == 0,
    {
        Amount { mantissa: 1, scale: 0 }
    }

    /// Zero.
    pub open spec fn spec_zero() -> Amount {
        Amount::from_parts_spec(0, 0)
    }

    /// Zero is zero.
    pub proof fn lemma_zero()
        ensures
            Amount::spec_zero()@ == 0,
            Amount::spec_zero().in_range(),
    {
        Amount::spec_zero().lemma_sign();
    }

    /// Zero.
    pub fn zero() -> (r: Amount)
        ensures
            r == Amount::spec_zero(),
            r@ == 0,
            r.mantissa_spec() == 0,
            r.scale_spec() == 0,
    {
        Amount { mantissa: 0, scale: 0 }
    }

    /// The mantissa.
    pub fn mantissa(&self) -> (m: i128)
        ensures
            m == self.mantissa_spec(),
    {
        self.mantissa
    }

    /// The scale.
    pub fn scale(&self) -> (s: u32)
        ensures
            s == self.scale_spec(),
    {
        self.scale
    }
}

impl PartialEq for Amount {
    /// Two amounts are equal where they are the same number: `1.0 == 1.00`.
    fn eq(&self, other: &Amount) -> (r: bool) {
        outside_le(self, other) && outside_le(other, self)
    }
}

impl vstd::std_specs::cmp::PartialEqSpecImpl for Amount {
    open spec fn obeys_eq_spec() -> bool {
        true
    }

    open spec fn eq_spec(&self, other: &Amount) -> bool {
        self@ == other@
    }
}

/// `rust_decimal`'s `<=` on two decimals (`PartialOrd::le`, which goes by
/// `Ord::cmp`): it compares the numbers, not their representations. The
/// conversions cannot fail on amounts in range.
#[verifier::external_body]
fn outside_le(a: &Amount, b: &Amount) -> (r: bool)
    ensures
        r == (a@ <= b@),
{
    let x = rust_decimal::Decimal::from_i128_with_scale(a.mantissa, a.scale);
    let y = rust_decimal::Decimal::from_i128_with_scale(b.mantissa, b.scale);
    x <= y
}

/// `rust_decimal::Decimal::checked_mul`. The result is whatever the crate
/// computes, `None` on overflow. Where the product of the mantissas stays
/// below `2^96` and the scales add up to at most 28 the crate does not round,
/// and the result is the exact product.
#[verifier::external_body]
fn outside_mul(a: &Amount, b: &Amount) -> (r: Option<Amount>)
    ensures
        decimal_product(a.mantissa_spec(), a.scale_spec(), b.mantissa_spec(), b.scale_spec())
            == match r {
            Some(p) => Some((p.mantissa_spec(), p.scale_spec())),
            None => None,
        },
        a.multiplies_exactly(*b) ==> r is Some && r.unwrap()@ * unit() == a@ * b@,
{
    let x = rust_decimal::Decimal::from_i128_with_scale(a.mantissa, a.scale);
    let y = rust_decimal::Decimal::from_i128_with_scale(b.mantissa, b.scale);
    match x.checked_mul(y) {
        Some(p) => Some(Amount { mantissa: p.mantissa(), scale: p.scale() }),
        None => None,
    }
}

/// `rust_decimal::Decimal::checked_sub`: whatever the crate computes for
/// `a - b`, `None` on overflow. Where both amounts, brought to the larger of
/// their scales, and their difference at that scale stay below `2^96`, the
/// crate aligns the scales and subtracts without rounding, and the result is
/// the exact difference.
#[verifier::external_body]
fn outside_sub(a: &Amount, b: &Amount) -> (r: Option<Amount>)
    ensures
        decimal_difference(a.mantissa_spec(), a.scale_spec(), b.mantissa_spec(), b.scale_spec())
            == match r {
            Some(p) => Some((p.mantissa_spec(), p.scale_spec())),
            None => None,
        },
        a.subtracts_exactly(*b) ==> r is Some && r.unwrap()@ == a@ - b@,
{
    let x = rust_decimal::Decimal::from_i128_with_scale(a.mantissa, a.scale);
    let y = rust_decimal::Decimal::from_i128_with_scale(b.mantissa, b.scale);
    match x.checked_sub(y) {
        Some(p) => Some(Amount { mantissa: p.mantissa(), scale: p.scale() }),
        None => None,
    }
}

/// `rust_decimal::Decimal::checked_add`: whatever the crate computes for
/// `a + b`, `None` on overflow. Where both amounts, brought to the larger of
/// their scales, and their sum at that scale stay below `2^96`, the crate
/// aligns the scales and adds without rounding, and the result is the exact
/// sum.
#[verifier::external_body]
fn outside_add(a: &Amount, b: &Amount) -> (r: Option<Amount>)
    ensures
        decimal_sum(a.mantissa_spec(), a.scale_spec(), b.mantissa_spec(), b.scale_spec())
            == match r {
            Some(p) => Some((p.mantissa_spec(), p.scale_spec())),
            None => None,
        },
        a.adds_exactly(*b) ==> r is Some && r.unwrap()@ == a@ + b@,
{
    let x = rust_decimal::Decimal::from_i128_with_scale(a.mantissa, a.scale);
    let y = rust_decimal::Decimal::from_i128_with_scale(b.mantissa, b.scale);
    match x.checked_add(y) {
        Some(p) => Some(Amount { mantissa: p.mantissa(), scale: p.scale() }),
        None => None,
    }
}

/// `rust_decimal::Decimal::checked_div`: whatever the crate computes for
/// `a / b`, `None` on overflow. For a zero divisor the crate reports a
/// division by zero, which is `None` here.
#[verifier::external_body]
fn outside_div(a: &Amount, b: &Amount) -> (r: Option<Amount>)
    ensures
        decimal_quotient(a.mantissa_spec(), a.scale_spec(), b.mantissa_spec(), b.scale_spec())
            == match r {
            Some(p) => Some((p.mantissa_spec(), p.scale_spec())),
            None => None,
        },
        b.mantissa_spec() == 0 ==> r is None,
{
    let x = rust_decimal::Decimal::from_i128_with_scale(a.mantissa, a.scale);
    let y = rust_decimal::Decimal::from_i128_with_scale(b.mantissa, b.scale);
    match x.checked_div(y) {
        Some(p) => Some(Amount { mantissa: p.mantissa(), scale: p.scale() }),
        None => None,
    }
}

/// `rust_decimal`'s `Display` for a decimal, through `to_string`: the text
/// that the crate prints for the number.
#[verifier::external_body]
fn outside_text(a: &Amount) -> (r: String)
    ensures
        r@ == decimal_text(a.mantissa_spec(), a.scale_spec()),
{
    rust_decimal::Decimal::from_i128_with_scale(a.mantissa, a.scale).to_string()
}

impl Amount {
    /// The product of the two amounts needs no rounding: the product of the
    /// mantissas is within range and so is the sum of the scales.
    pub open spec fn multiplies_exactly(self, rhs: Amount) -> bool {
        &&& -mantissa_limit() < self.mantissa_spec() * rhs.mantissa_spec() < mantissa_limit()
        &&& self.scale_spec() + rhs.scale_spec() <= 28
    }

    /// The larger of the two scales.
    pub open spec fn common_scale(self, rhs: Amount) -> nat {
        if self.scale_spec() >= rhs.scale_spec() {
            self.scale_spec()
        } else {
            rhs.scale_spec()
        }
    }

    /// The mantissa that the amount has at a scale not below its own.
    pub open spec fn aligned(self, scale: nat) -> int {
        self.mantissa_spec() * pow10((scale - self.scale_spec()) as nat)
    }

    /// The sum of the two amounts needs no rounding: at the larger of their
    /// scales both mantissas and their sum are within range.
    pub open spec fn adds_exactly(self, rhs: Amount) -> bool {
        let scale = self.common_scale(rhs);
        &&& -mantissa_limit() < self.aligned(scale) < mantissa_limit()
        &&& -mantissa_limit() < rhs.aligned(scale) < mantissa_limit()
        &&& -mantissa_limit() < self.aligned(scale) + rhs.aligned(scale) < mantissa_limit()
    }

    /// The difference of the two amounts needs no rounding: at the larger of
    /// their scales both mantissas and their difference are within range.
    pub open spec fn subtracts_exactly(self, rhs: Amount) -> bool {
        let scale = self.common_scale(rhs);
        &&& -mantissa_limit() < self.aligned(scale) < mantissa_limit()
        &&& -mantissa_limit() < rhs.aligned(scale) < mantissa_limit()
        &&& -mantissa_limit() < self.aligned(scale) - rhs.aligned(scale) < mantissa_limit()
    }

    /// The amount with the given parts, if there are any.
    pub open spec fn from_optional_parts(parts: Option<(int, nat)>) -> Option<Amount> {
        match parts {
            Some((m, s)) => Some(Amount::from_parts_spec(m, s)),
            None => None,
        }
    }

    /// `self * rhs` as `rust_decimal` computes it.
    pub open spec fn spec_checked_mul(self, rhs: Amount) -> Option<Amount> {
        Amount::from_optional_parts(
            decimal_product(
                self.mantissa_spec(),
                self.scale_spec(),
                rhs.mantissa_spec(),
                rhs.scale_spec(),
            ),
        )
    }

    /// `self - rhs` as `rust_decimal` computes it.
    pub open spec fn spec_checked_sub(self, rhs: Amount) -> Option<Amount> {
        Amount::from_optional_parts(
            decimal_difference(
                self.mantissa_spec(),
                self.scale_spec(),
                rhs.mantissa_spec(),
                rhs.scale_spec(),
            ),
        )
    }

    /// `self + rhs` as `rust_decimal` computes it.
    pub open spec fn spec_checked_add(self, rhs: Amount) -> Option<Amount> {
        Amount::from_optional_parts(
            decimal_sum(
                self.mantissa_spec(),
                self.scale_spec(),
                rhs.mantissa_spec(),
                rhs.scale_spec(),
            ),
        )
    }

    /// `self / rhs` as `rust_decimal` computes it.
    pub open spec fn spec_checked_div(self, rhs: Amount) -> Option<Amount> {
        Amount::from_optional_parts(
            decimal_quotient(
                self.mantissa_spec(),
                self.scale_spec(),
                rhs.mantissa_spec(),
                rhs.scale_spec(),
            ),
        )
    }

    /// The text of the amount.
    pub open spec fn spec_text(self) -> Seq<char> {
        decimal_text(self.mantissa_spec(), self.scale_spec())
    }

    /// `self <= rhs`, as numbers.
    pub fn le(&self, rhs: &Amount) -> (r: bool)
        ensures
            r == (self@ <= rhs@),
    {
        outside_le(self, rhs)
    }

    /// `self < rhs`, as numbers.
    pub fn lt(&self, rhs: &Amount) -> (r: bool)
        ensures
            r == (self@ < rhs@),
    {
        !outside_le(rhs, self)
    }

    /// `self >= rhs`, as numbers.
    pub fn ge(&self, rhs: &Amount) -> (r: bool)
        ensures
            r == (self@ >= rhs@),
    {
        outside_le(rhs, self)
    }

    /// `self > rhs`, as numbers.
    pub fn gt(&self, rhs: &Amount) -> (r: bool)
        ensures
            r == (self@ > rhs@),
    {
        !outside_le(self, rhs)
    }

    /// The two amounts are the same number.
    pub fn same_value(&self, rhs: &Amount) -> (r: bool)
        ensures
            r == (self@ == rhs@),
    {
        outside_le(self, rhs) && outside_le(rhs, self)
    }

    /// The larger of the two; `self` where they are the same number.
    pub fn max(self, rhs: Amount) -> (r: Amount)
        ensures
            r == (if self@ >= rhs@ { self } else { rhs }),
    {
        if outside_le(&rhs, &self) {
            self
        } else {
            rhs
        }
    }

    /// The smaller of the two; `self` where they are the same number.
    pub fn min(self, rhs: Amount) -> (r: Amount)
        ensures
            r == (if self@ <= rhs@ { self } else { rhs }),
    {
        if outside_le(&self, &rhs) {
            self
        } else {
            rhs
        }
    }

    /// The product, `None` on overflow. It is exact where
    /// [`Amount::multiplies_exactly`] holds.
    pub fn checked_mul(&self, rhs: &Amount) -> (r: Option<Amount>)
        ensures
            r == self.spec_checked_mul(*rhs),
            self.multiplies_exactly(*rhs) ==> r is Some && r.unwrap()@ * unit() == self@ * rhs@,
    {
        outside_mul(self, rhs)
    }

    /// The difference, `None` on overflow. It is exact where
    /// [`Amount::subtracts_exactly`] holds.
    pub fn checked_sub(&self, rhs: &Amount) -> (r: Option<Amount>)
        ensures
            r == self.spec_checked_sub(*rhs),
            self.subtracts_exactly(*rhs) ==> r is Some && r.unwrap()@ == self@ - rhs@,
    {
        outside_sub(self, rhs)
    }

    /// The sum, `None` on overflow. It is exact where
    /// [`Amount::adds_exactly`] holds.
    pub fn checked_add(&self, rhs: &Amount) -> (r: Option<Amount>)
        ensures
            r == self.spec_checked_add(*rhs),
            self.adds_exactly(*rhs) ==> r is Some && r.unwrap()@ == self@ + rhs@,
    {
        outside_add(self, rhs)
    }

    /// The quotient, `None` on overflow and for a zero divisor.
    pub fn checked_div(&self, rhs: &Amount) -> (r: Option<Amount>)
        ensures
            r == self.spec_checked_div(*rhs),
            rhs@ == 0 ==> r is None,
    {
        proof {
            rhs.lemma_sign();
        }
        outside_div(self, rhs)
    }

    /// The amount as text.
    pub fn to_text(&self) -> (r: String)
        ensures
            r@ == self.spec_text(),
    {
        outside_text(self)
    }
}

} // verus!
