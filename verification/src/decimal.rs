//! Non-negative decimal numbers: a run of digits and the number of them that
//! stand behind the decimal point.
//!
//! Products and numerals are computed by the `bigdecimal` crate; this module
//! states what comes back and proves the order facts the prices rest on.

use bigdecimal::num_bigint::BigInt;
use bigdecimal::BigDecimal;
use bigdecimal::ToPrimitive;
use vstd::prelude::*;

use crate::text::{nat_text, zeros};

verus! {

/// Ten to the power `e`.
pub open spec fn pow10(e: nat) -> nat
    decreases e,
{
    if e == 0 {
        1
    } else {
        10 * pow10((e - 1) as nat)
    }
}

/// The number `digits / 10^scale`.
pub struct DecimalValue {
    pub digits: nat,
    pub scale: nat,
}

impl DecimalValue {
    /// The product of two decimals: the digits multiply, the scales add up.
    pub open spec fn times(self, other: DecimalValue) -> DecimalValue {
        DecimalValue { digits: self.digits * other.digits, scale: self.scale + other.scale }
    }

    /// Whether this number is less than or equal to `other`.
    pub open spec fn at_most(self, other: DecimalValue) -> bool {
        self.digits * pow10(other.scale) <= other.digits * pow10(self.scale)
    }

    /// Whether this number is zero.
    pub open spec fn is_zero(self) -> bool {
        self.digits == 0
    }

    /// Whether this number lies between nine and eleven tenths of `base`,
    /// both ends included.
    pub open spec fn within_tenth_of(self, base: DecimalValue) -> bool {
        &&& base.times(tenths(9)).at_most(self)
        &&& self.at_most(base.times(tenths(11)))
    }
}

/// The number `k / 10`.
pub open spec fn tenths(k: nat) -> DecimalValue {
    DecimalValue { digits: k, scale: 1 }
}

/// The numeral of a decimal: the digits with a point before the last `scale`
/// of them, filled up with zeros where there are not enough, and with a zero
/// before the point where nothing else stands there.
pub open spec fn decimal_text(v: DecimalValue) -> Seq<char> {
    let digits = nat_text(v.digits);
    if v.scale == 0 {
        digits
    } else if v.scale >= digits.len() {
        seq!['0', '.'] + zeros((v.scale - digits.len()) as nat) + digits
    } else {
        digits.subrange(0, digits.len() - v.scale) + seq!['.'] + digits.subrange(
            digits.len() - v.scale,
            digits.len() as int,
        )
    }
}

/// A non-negative decimal number with up to 38 digits.
///
/// Two values are equal when digits and scale are: `2` and `2.0` differ.
#[derive(Clone, Copy, Debug, PartialEq, Eq, Structural)]
pub struct Decimal {
    /// The digits, read as one whole number.
    pub digits: u128,
    /// How many of the digits stand behind the decimal point.
    pub scale: u32,
}

impl View for Decimal {
    type V = DecimalValue;

    open spec fn view(&self) -> DecimalValue {
        DecimalValue { digits: self.digits as nat, scale: self.scale as nat }
    }
}

/// Multiplies through `BigDecimal`: both factors are built with
/// `BigDecimal::new`, multiplied with its `Mul` impl, which multiplies the
/// digits and adds the scales, and taken apart again with
/// `into_bigint_and_exponent`.
#[verifier::external_body]
fn product(a: Decimal, b: Decimal) -> (r: Decimal)
    requires
        a.digits * b.digits <= u128::MAX,
        a.scale + b.scale <= u32::MAX,
    ensures
        r@ == a@.times(b@),
{
    let left = BigDecimal::new(BigInt::from(a.digits), i64::from(a.scale));
    let right = BigDecimal::new(BigInt::from(b.digits), i64::from(b.scale));
    let (digits, scale) = (left * right).into_bigint_and_exponent();
    Decimal { digits: digits.to_u128().unwrap(), scale: u32::try_from(scale).unwrap() }
}

/// Writes a decimal through the `Display` impl of `BigDecimal`, which splits
/// the digits' numeral at the decimal point as `decimal_text` says.
#[verifier::external_body]
fn rendered(d: Decimal) -> (r: String)
    ensures
        r@ == decimal_text(d@),
{
    BigDecimal::new(BigInt::from(d.digits), i64::from(d.scale)).to_string()
}

impl Decimal {
    /// The whole number `n`.
    pub fn whole(n: u64) -> (r: Decimal)
        ensures
            r@ == (DecimalValue { digits: n as nat, scale: 0 }),
    {
        Decimal { digits: n as u128, scale: 0 }
    }

    /// The product of two decimals, or `None` where its digits or its scale
    /// do not fit.
    pub fn times(self, other: Decimal) -> (r: Option<Decimal>)
        ensures
            match r {
                Some(p) => p@ == self@.times(other@),
                None => self.digits * other.digits > u128::MAX || self.scale + other.scale
                    > u32::MAX,
            },
    {
        let fits = match self.digits.checked_mul(other.digits) {
            Some(_) => self.scale.checked_add(other.scale).is_some(),
            None => false,
        };
        if fits {
            Some(product(self, other))
        } else {
            None
        }
    }

    /// The numeral of this decimal.
    pub fn to_text(&self) -> (r: String)
        ensures
            r@ == decimal_text(self@),
    {
        rendered(*self)
    }
}

/// Powers of ten add up in the exponent.
pub proof fn lemma_pow10_adds(a: nat, b: nat)
    ensures
        pow10(a + b) == pow10(a) * pow10(b),
        pow10(a) >= 1,
    decreases a,
{
    if a == 0 {
        assert(a + b == b);
        assert(pow10(a) == 1);
    } else {
        let before = (a - 1) as nat;
        lemma_pow10_adds(before, b);
        assert((a + b - 1) as nat == before + b);
        let x = pow10(before);
        let y = pow10(b);
        assert(pow10(a) == 10 * x);
        assert(pow10(a + b) == 10 * pow10(before + b));
        assert(10 * (x * y) == (10 * x) * y) by (nonlinear_arith);
    }
}

/// Multiplying by the same number keeps the order: where `x` is at most `y`,
/// `base` times `x` is at most `base` times `y`.
pub proof fn lemma_times_keeps_order(base: DecimalValue, x: DecimalValue, y: DecimalValue)
    requires
        x.at_most(y),
    ensures
        base.times(x).at_most(base.times(y)),
{
    lemma_pow10_adds(base.scale, x.scale);
    lemma_pow10_adds(base.scale, y.scale);
    let bd = base.digits;
    let bp = pow10(base.scale);
    let xd = x.digits;
    let yd = y.digits;
    let xp = pow10(x.scale);
    let yp = pow10(y.scale);
    assert((bd * xd) * (bp * yp) <= (bd * yd) * (bp * xp)) by (nonlinear_arith)
        requires
            xd * yp <= yd * xp,
    ;
}

} // verus!
