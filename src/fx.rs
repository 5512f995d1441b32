//! Signed fixed-point numbers with 80 integer bits and 48 fractional bits.
//!
//! A value is held as its raw `i128` bits; the number it denotes is
//! `bits / 2^48`. All arithmetic is done by the `fixed` crate's `I80F48`
//! and checked: a result that does not fit is reported, never wrapped.
use vstd::prelude::*;
use vstd::arithmetic::div_mod::{lemma_div_is_ordered, lemma_div_by_multiple};
use vstd::arithmetic::mul::lemma_mul_inequality;
use fixed::types::I80F48;
use crate::error::LendingError;

verus! {

/// Ten thousand basis points make one whole.
pub const MAX_BASIS_POINTS: u16 = 10000;

/// The raw representation of one (`2^48`).
pub open spec fn scale() -> int {
    281474976710656
}

pub open spec fn fits(x: int) -> bool {
    i128::MIN <= x <= i128::MAX
}

pub open spec fn abs_int(x: int) -> int {
    if x < 0 { -x } else { x }
}

/// Integer division rounding toward zero.
pub open spec fn trunc_div(n: int, d: int) -> int {
    if (n >= 0) == (d > 0) { abs_int(n) / abs_int(d) } else { -(abs_int(n) / abs_int(d)) }
}

/// Raw bits of a fixed-point product: the exact product rounded toward minus infinity.
pub open spec fn mul_raw(a: int, b: int) -> int {
    (a * b) / scale()
}

/// Raw bits of a fixed-point quotient: the exact quotient rounded toward zero.
pub open spec fn div_raw(a: int, b: int) -> int {
    trunc_div(a * scale(), b)
}

/// Raw bits of the largest integer not above `a`.
pub open spec fn floor_raw(a: int) -> int {
    (a / scale()) * scale()
}

/// Raw bits of the smallest integer not below `a`.
pub open spec fn ceil_raw(a: int) -> int {
    ((a + scale() - 1) / scale()) * scale()
}

/// The integer part (rounded toward minus infinity) of the number with raw bits `a`.
pub open spec fn int_part(a: int) -> int {
    a / scale()
}

/// Relies on fixed's `I80F48::checked_add`: the sum of the raw bits, or `None` on overflow.
#[verifier::external_body]
fn fixed_add(a: i128, b: i128) -> (r: Option<i128>)
    ensures
        fits(a + b) ==> r == Some((a + b) as i128),
        !fits(a + b) ==> r.is_none(),
{
    I80F48::from_bits(a).checked_add(I80F48::from_bits(b)).map(|x| x.to_bits())
}

/// Relies on fixed's `I80F48::checked_sub`: the difference of the raw bits, or `None` on overflow.
#[verifier::external_body]
fn fixed_sub(a: i128, b: i128) -> (r: Option<i128>)
    ensures
        fits(a - b) ==> r == Some((a - b) as i128),
        !fits(a - b) ==> r.is_none(),
{
    I80F48::from_bits(a).checked_sub(I80F48::from_bits(b)).map(|x| x.to_bits())
}

/// Relies on fixed's `I80F48::checked_mul`: the 256-bit product of the raw bits shifted
/// right arithmetically by 48, or `None` when that does not fit in 128 bits.
#[verifier::external_body]
fn fixed_mul(a: i128, b: i128) -> (r: Option<i128>)
    ensures
        fits(mul_raw(a as int, b as int)) ==> r == Some(mul_raw(a as int, b as int) as i128),
        !fits(mul_raw(a as int, b as int)) ==> r.is_none(),
{
    I80F48::from_bits(a).checked_mul(I80F48::from_bits(b)).map(|x| x.to_bits())
}

/// Relies on fixed's `I80F48::checked_div`: `None` for a zero divisor, else the raw
/// dividend shifted left by 48 and divided with truncation, or `None` on overflow.
#[verifier::external_body]
fn fixed_div(a: i128, b: i128) -> (r: Option<i128>)
    ensures
        b == 0 ==> r.is_none(),
        b != 0 && fits(div_raw(a as int, b as int)) ==> r == Some(div_raw(a as int, b as int) as i128),
        b != 0 && !fits(div_raw(a as int, b as int)) ==> r.is_none(),
{
    I80F48::from_bits(a).checked_div(I80F48::from_bits(b)).map(|x| x.to_bits())
}

/// Relies on fixed's `I80F48::floor`, which cannot overflow for a type with integer bits.
#[verifier::external_body]
fn fixed_floor(a: i128) -> (r: i128)
    ensures
        r == floor_raw(a as int),
{
    I80F48::from_bits(a).floor().to_bits()
}

/// Relies on fixed's `I80F48::checked_ceil`: the next integer toward plus infinity, or `None` on overflow.
#[verifier::external_body]
fn fixed_ceil(a: i128) -> (r: Option<i128>)
    ensures
        fits(ceil_raw(a as int)) ==> r == Some(ceil_raw(a as int) as i128),
        !fits(ceil_raw(a as int)) ==> r.is_none(),
{
    I80F48::from_bits(a).checked_ceil().map(|x| x.to_bits())
}

/// Relies on fixed's `I80F48::checked_to_num::<u64>`: fractional bits are discarded
/// (rounding toward minus infinity), and `None` is returned when that integer is not a `u64`.
#[verifier::external_body]
fn fixed_to_u64(a: i128) -> (r: Option<u64>)
    ensures
        0 <= int_part(a as int) <= u64::MAX ==> r == Some(int_part(a as int) as u64),
        !(0 <= int_part(a as int) <= u64::MAX) ==> r.is_none(),
{
    I80F48::from_bits(a).checked_to_num::<u64>()
}

/// Relies on fixed's lossless `From<u64> for I80F48`: the raw bits are `n * 2^48`.
#[verifier::external_body]
fn fixed_from_u64(n: u64) -> (r: i128)
    ensures
        r == n * scale(),
{
    I80F48::from(n).to_bits()
}

pub open spec fn fx_add(a: Fx, b: Fx) -> Result<Fx, LendingError> {
    if fits(a.raw() + b.raw()) { Ok(Fx { bits: (a.raw() + b.raw()) as i128 }) } else { Err(LendingError::MathOverflow) }
}

pub open spec fn fx_sub(a: Fx, b: Fx) -> Result<Fx, LendingError> {
    if fits(a.raw() - b.raw()) { Ok(Fx { bits: (a.raw() - b.raw()) as i128 }) } else { Err(LendingError::MathOverflow) }
}

pub open spec fn fx_mul(a: Fx, b: Fx) -> Result<Fx, LendingError> {
    if fits(mul_raw(a.raw(), b.raw())) { Ok(Fx { bits: mul_raw(a.raw(), b.raw()) as i128 }) } else { Err(LendingError::MathOverflow) }
}

pub open spec fn fx_div(a: Fx, b: Fx) -> Result<Fx, LendingError> {
    if b.raw() != 0 && fits(div_raw(a.raw(), b.raw())) {
        Ok(Fx { bits: div_raw(a.raw(), b.raw()) as i128 })
    } else {
        Err(LendingError::MathOverflow)
    }
}

pub open spec fn fx_ceil(a: Fx) -> Result<Fx, LendingError> {
    if fits(ceil_raw(a.raw())) { Ok(Fx { bits: ceil_raw(a.raw()) as i128 }) } else { Err(LendingError::MathOverflow) }
}

pub open spec fn fx_floor(a: Fx) -> Fx {
    Fx { bits: floor_raw(a.raw()) as i128 }
}

pub open spec fn fx_to_u64(a: Fx) -> Result<u64, LendingError> {
    if 0 <= int_part(a.raw()) <= u64::MAX { Ok(int_part(a.raw()) as u64) } else { Err(LendingError::ConversionFailed) }
}

/// Rounds up, then narrows to `u64`.
pub open spec fn fx_ceil_u64(a: Fx) -> Result<u64, LendingError> {
    match fx_ceil(a) {
        Ok(c) => fx_to_u64(c),
        Err(e) => Err(e),
    }
}

/// Rounds down, then narrows to `u64`.
pub open spec fn fx_floor_u64(a: Fx) -> Result<u64, LendingError> {
    fx_to_u64(fx_floor(a))
}

pub open spec fn fx_of(n: int) -> Fx {
    Fx { bits: (n * scale()) as i128 }
}

pub open spec fn fx_one() -> Fx {
    Fx { bits: scale() as i128 }
}

pub open spec fn fx_bps(bps: int) -> Fx {
    Fx { bits: bps_raw(bps) as i128 }
}

/// A signed Q80.48 fixed-point number.
#[derive(Clone, Copy, Debug, PartialEq, Eq, Structural)]
pub struct Fx {
    pub bits: i128,
}

impl Fx {
    /// The raw bits as a mathematical integer.
    pub open spec fn raw(self) -> int {
        self.bits as int
    }

    pub fn from_bits(bits: i128) -> (r: Fx)
        ensures
            r.bits == bits,
    {
        Fx { bits }
    }

    pub fn zero() -> (r: Fx)
        ensures
            r.raw() == 0,
    {
        Fx { bits: 0 }
    }

    pub fn one() -> (r: Fx)
        ensures
            r == fx_one(),
            r.raw() == scale(),
    {
        Fx { bits: 281474976710656 }
    }

    pub fn from_u64(n: u64) -> (r: Fx)
        ensures
            r == fx_of(n as int),
            r.raw() == n * scale(),
    {
        Fx { bits: fixed_from_u64(n) }
    }

    pub fn safe_add(self, rhs: Fx) -> (r: Result<Fx, LendingError>)
        ensures
            r == fx_add(self, rhs),
            fits(self.raw() + rhs.raw()) ==> r == Ok::<Fx, LendingError>(Fx { bits: (self.raw() + rhs.raw()) as i128 }),
            !fits(self.raw() + rhs.raw()) ==> r == Err::<Fx, LendingError>(LendingError::MathOverflow),
    {
        match fixed_add(self.bits, rhs.bits) {
            Some(bits) => Ok(Fx { bits }),
            None => Err(LendingError::MathOverflow),
        }
    }

    pub fn safe_sub(self, rhs: Fx) -> (r: Result<Fx, LendingError>)
        ensures
            r == fx_sub(self, rhs),
            fits(self.raw() - rhs.raw()) ==> r == Ok::<Fx, LendingError>(Fx { bits: (self.raw() - rhs.raw()) as i128 }),
            !fits(self.raw() - rhs.raw()) ==> r == Err::<Fx, LendingError>(LendingError::MathOverflow),
    {
        match fixed_sub(self.bits, rhs.bits) {
            Some(bits) => Ok(Fx { bits }),
            None => Err(LendingError::MathOverflow),
        }
    }

    pub fn safe_mul(self, rhs: Fx) -> (r: Result<Fx, LendingError>)
        ensures
            r == fx_mul(self, rhs),
            fits(mul_raw(self.raw(), rhs.raw())) ==> r == Ok::<Fx, LendingError>(Fx { bits: mul_raw(self.raw(), rhs.raw()) as i128 }),
            !fits(mul_raw(self.raw(), rhs.raw())) ==> r == Err::<Fx, LendingError>(LendingError::MathOverflow),
    {
        match fixed_mul(self.bits, rhs.bits) {
            Some(bits) => Ok(Fx { bits }),
            None => Err(LendingError::MathOverflow),
        }
    }

    pub fn safe_div(self, rhs: Fx) -> (r: Result<Fx, LendingError>)
        ensures
            r == fx_div(self, rhs),
            rhs.raw() != 0 && fits(div_raw(self.raw(), rhs.raw())) ==> r == Ok::<Fx, LendingError>(Fx { bits: div_raw(self.raw(), rhs.raw()) as i128 }),
            rhs.raw() == 0 || !fits(div_raw(self.raw(), rhs.raw())) ==> r == Err::<Fx, LendingError>(LendingError::MathOverflow),
    {
        match fixed_div(self.bits, rhs.bits) {
            Some(bits) => Ok(Fx { bits }),
            None => Err(LendingError::MathOverflow),
        }
    }

    pub fn floor(self) -> (r: Fx)
        ensures
            r == fx_floor(self),
            r.raw() == floor_raw(self.raw()),
    {
        Fx { bits: fixed_floor(self.bits) }
    }

    pub fn safe_ceil(self) -> (r: Result<Fx, LendingError>)
        ensures
            r == fx_ceil(self),
            fits(ceil_raw(self.raw())) ==> r == Ok::<Fx, LendingError>(Fx { bits: ceil_raw(self.raw()) as i128 }),
            !fits(ceil_raw(self.raw())) ==> r == Err::<Fx, LendingError>(LendingError::MathOverflow),
    {
        match fixed_ceil(self.bits) {
            Some(bits) => Ok(Fx { bits }),
            None => Err(LendingError::MathOverflow),
        }
    }

    /// The integer part as a `u64`; fails when it is negative or too large.
    pub fn safe_to_u64(self) -> (r: Result<u64, LendingError>)
        ensures
            r == fx_to_u64(self),
            0 <= int_part(self.raw()) <= u64::MAX ==> r == Ok::<u64, LendingError>(int_part(self.raw()) as u64),
            !(0 <= int_part(self.raw()) <= u64::MAX) ==> r == Err::<u64, LendingError>(LendingError::ConversionFailed),
    {
        match fixed_to_u64(self.bits) {
            Some(n) => Ok(n),
            None => Err(LendingError::ConversionFailed),
        }
    }

    /// Rounds up and narrows to `u64`.
    pub fn ceil_to_u64(self) -> (r: Result<u64, LendingError>)
        ensures
            r == fx_ceil_u64(self),
    {
        match self.safe_ceil() {
            Ok(c) => c.safe_to_u64(),
            Err(e) => Err(e),
        }
    }

    /// Rounds down and narrows to `u64`.
    pub fn floor_to_u64(self) -> (r: Result<u64, LendingError>)
        ensures
            r == fx_floor_u64(self),
    {
        self.floor().safe_to_u64()
    }

    pub fn min(self, other: Fx) -> (r: Fx)
        ensures
            r.raw() == if self.raw() <= other.raw() { self.raw() } else { other.raw() },
    {
        if self.bits <= other.bits { self } else { other }
    }
}

/// Raw bits of `base^e` as computed by squaring, starting from `result`:
/// low exponent bits are folded in first. `None` when a step overflows.
pub open spec fn pow_from(result: int, base: int, e: nat) -> Option<int>
    decreases e,
{
    if e == 0 {
        Some(result)
    } else {
        let next = if e % 2 == 1 { mul_raw(result, base) } else { result };
        let square = mul_raw(base, base);
        if !fits(next) || !fits(square) {
            None
        } else {
            pow_from(next, square, e / 2)
        }
    }
}

/// Raw bits of `base^e` by binary exponentiation.
pub open spec fn pow_raw(base: int, e: nat) -> Option<int> {
    if e == 0 { Some(scale()) } else { pow_from(scale(), base, e) }
}

/// Raw bits of `bps / 10 000`.
pub open spec fn bps_raw(bps: int) -> int {
    div_raw(bps * scale(), 10000 * scale())
}

pub proof fn lemma_mul_raw_grows(a: int, b: int)
    requires
        a >= 0,
        b >= scale(),
    ensures
        mul_raw(a, b) >= a,
        mul_raw(a, b) >= 0,
{
    lemma_mul_inequality(scale(), b, a);
    assert(scale() * a == a * scale()) by (nonlinear_arith);
    assert(a * b == b * a) by (nonlinear_arith);
    lemma_div_is_ordered(a * scale(), a * b, scale());
    lemma_div_by_multiple(a, scale());
}

proof fn lemma_pow_from_at_least_one(result: int, base: int, e: nat)
    requires
        result >= scale(),
        fits(result),
        base >= scale(),
    ensures
        pow_from(result, base, e) matches Some(v) ==> v >= scale() && fits(v),
    decreases e,
{
    if e > 0 {
        lemma_mul_raw_grows(result, base);
        lemma_mul_raw_grows(base, base);
        let next = if e % 2 == 1 { mul_raw(result, base) } else { result };
        if fits(next) && fits(mul_raw(base, base)) {
            lemma_pow_from_at_least_one(next, mul_raw(base, base), e / 2);
        }
    }
}

/// A power of a number that is at least one is at least one.
pub proof fn lemma_pow_at_least_one(base: int, e: nat)
    requires
        base >= scale(),
    ensures
        pow_raw(base, e) matches Some(v) ==> v >= scale() && fits(v),
{
    if e > 0 {
        lemma_pow_from_at_least_one(scale(), base, e);
    }
}

pub open spec fn fx_pow(base: Fx, e: nat) -> Result<Fx, LendingError> {
    match pow_raw(base.raw(), e) {
        Some(v) => Ok(Fx { bits: v as i128 }),
        None => Err(LendingError::MathOverflow),
    }
}

/// `base^exp` by binary exponentiation with checked multiplications.
pub fn i80f48_pow(base: Fx, exp: u64) -> (r: Result<Fx, LendingError>)
    ensures
        r == fx_pow(base, exp as nat),
        pow_raw(base.raw(), exp as nat) matches Some(v) ==> r == Ok::<Fx, LendingError>(Fx { bits: v as i128 }),
        pow_raw(base.raw(), exp as nat) is None ==> r == Err::<Fx, LendingError>(LendingError::MathOverflow),
{
    if exp == 0 {
        return Ok(Fx::one());
    }
    let mut result = Fx::one();
    let mut current_base = base;
    let mut e: u64 = exp;
    while e > 0
        invariant
            pow_from(result.raw(), current_base.raw(), e as nat) == pow_raw(base.raw(), exp as nat),
        decreases e,
    {
        if e % 2 == 1 {
            result = match result.safe_mul(current_base) {
                Ok(v) => v,
                Err(err) => return Err(err),
            };
        }
        current_base = match current_base.safe_mul(current_base) {
            Ok(v) => v,
            Err(err) => return Err(err),
        };
        e = e / 2;
    }
    Ok(result)
}

/// `bps / 10 000` as a fixed-point number; never fails for a `u16`.
pub fn bps_to_i80f48(bps: u16) -> (r: Result<Fx, LendingError>)
    ensures
        r == Ok::<Fx, LendingError>(fx_bps(bps as int)),
        r == Ok::<Fx, LendingError>(Fx { bits: bps_raw(bps as int) as i128 }),
        bps == MAX_BASIS_POINTS ==> bps_raw(bps as int) == scale(),
{
    let num = Fx::from_u64(bps as u64);
    let den = Fx::from_u64(MAX_BASIS_POINTS as u64);
    proof {
        let b = bps as int;
        assert(0 <= b * scale() * scale() <= 65535 * scale() * scale()) by (nonlinear_arith)
            requires 0 <= b <= 65535, scale() == 281474976710656;
        assert(trunc_div(b * scale() * scale(), 10000 * scale()) == (b * scale() * scale()) / (10000 * scale()));
        assert((b * scale() * scale()) / (10000 * scale()) <= b * scale() * scale()) by (nonlinear_arith)
            requires b >= 0, scale() == 281474976710656;
        if bps == MAX_BASIS_POINTS {
            assert(10000 * scale() * scale() == scale() * (10000 * scale())) by (nonlinear_arith);
            lemma_div_by_multiple(scale(), 10000 * scale());
        }
    }
    num.safe_div(den)
}

pub open spec fn pow10(n: nat) -> int
    decreases n,
{
    if n == 0 { 1 } else { 10 * pow10((n - 1) as nat) }
}

proof fn lemma_pow10_grows(i: nat, n: nat)
    requires
        i <= n,
    ensures
        pow10(i) <= pow10(n),
        pow10(i) >= 1,
    decreases n - i,
{
    if i < n {
        lemma_pow10_grows(i, (n - 1) as nat);
    } else {
        lemma_pow10_positive(n);
    }
}

pub proof fn lemma_pow10_positive(n: nat)
    ensures
        pow10(n) >= 1,
    decreases n,
{
    if n > 0 {
        lemma_pow10_positive((n - 1) as nat);
    }
}

/// `10^n` as a `u128`, or `None` when it does not fit.
pub fn checked_pow10(n: u32) -> (r: Option<u128>)
    ensures
        pow10(n as nat) <= u128::MAX ==> r == Some(pow10(n as nat) as u128),
        pow10(n as nat) > u128::MAX ==> r.is_none(),
        pow10(n as nat) >= 1,
{
    proof {
        lemma_pow10_positive(n as nat);
    }
    let mut m: u128 = 1;
    let mut i: u32 = 0;
    while i < n
        invariant
            i <= n,
            m == pow10(i as nat),
        decreases n - i,
    {
        match m.checked_mul(10) {
            Some(v) => {
                m = v;
            },
            None => {
                proof {
                    lemma_pow10_grows((i + 1) as nat, n as nat);
                }
                return None;
            },
        }
        i = i + 1;
    }
    Some(m)
}

/// An oracle price: `price * 10^exponent` in quote units.
#[derive(Clone, Copy, Debug, PartialEq, Eq, Structural)]
pub struct Price {
    pub price: i64,
    pub conf: u64,
    pub exponent: i32,
    pub publish_time: i64,
}

pub open spec fn exponent_magnitude(e: i32) -> nat {
    if e >= 0 { e as nat } else { (-(e as int)) as nat }
}

/// The outcome of converting an oracle price to a fixed-point number.
pub open spec fn price_to_fx_spec(p: Price) -> Result<Fx, LendingError> {
    let m = pow10(exponent_magnitude(p.exponent));
    let a = p.price * scale();
    let b = m * scale();
    if m > u128::MAX {
        Err(LendingError::MathOverflow)
    } else if p.price <= 0 {
        Err(LendingError::InvalidPrice)
    } else if m > u64::MAX {
        Err(LendingError::ConversionFailed)
    } else if p.exponent >= 0 {
        if fits(mul_raw(a, b)) { Ok(Fx { bits: mul_raw(a, b) as i128 }) } else { Err(LendingError::MathOverflow) }
    } else {
        if fits(div_raw(a, b)) { Ok(Fx { bits: div_raw(a, b) as i128 }) } else { Err(LendingError::MathOverflow) }
    }
}

/// Converts an oracle price to a fixed-point number: the mantissa is multiplied by
/// `10^exponent` for a non-negative exponent and divided by `10^-exponent` otherwise.
/// A mantissa that is not positive is refused.
pub fn price_to_fx(p: Price) -> (r: Result<Fx, LendingError>)
    ensures
        r == price_to_fx_spec(p),
{
    let magnitude: u32 = if p.exponent >= 0 { p.exponent as u32 } else { (-(p.exponent as i64)) as u32 };
    assert(magnitude as nat == exponent_magnitude(p.exponent));
    proof {
        lemma_pow10_positive(magnitude as nat);
    }
    let multiplier = match checked_pow10(magnitude) {
        Some(m) => m,
        None => return Err(LendingError::MathOverflow),
    };
    if p.price <= 0 {
        return Err(LendingError::InvalidPrice);
    }
    if multiplier > u64::MAX as u128 {
        return Err(LendingError::ConversionFailed);
    }
    let a = Fx::from_u64(p.price as u64);
    let b = Fx::from_u64(multiplier as u64);
    assert(b.raw() != 0) by (nonlinear_arith)
        requires b.raw() == multiplier * scale(), multiplier >= 1, scale() == 281474976710656;
    if p.exponent >= 0 {
        a.safe_mul(b)
    } else {
        a.safe_div(b)
    }
}

/// The little-endian unsigned integer held by `b`.
pub open spec fn le_unsigned(b: Seq<u8>) -> int
    decreases b.len(),
{
    if b.len() == 0 { 0 } else { b[0] + 256 * le_unsigned(b.subrange(1, b.len() as int)) }
}

pub open spec fn two_pow_128() -> int {
    u128::MAX as int + 1
}

/// Two's-complement encoding of a 128-bit signed integer.
pub open spec fn unsigned_of(x: int) -> int {
    if x >= 0 { x } else { x + two_pow_128() }
}

/// Two's-complement decoding of a 128-bit pattern.
pub open spec fn signed_of(u: int) -> int {
    if u <= i128::MAX { u } else { u - two_pow_128() }
}

/// Relies on fixed's `I80F48::to_le_bytes`: the raw bits in little-endian byte order.
#[verifier::external_body]
fn fixed_to_le_bytes(a: i128) -> (r: [u8; 16])
    ensures
        le_unsigned(r@) == unsigned_of(a as int),
{
    I80F48::from_bits(a).to_le_bytes()
}

/// Relies on fixed's `I80F48::from_le_bytes`: raw bits read in little-endian byte order.
#[verifier::external_body]
fn fixed_from_le_bytes(b: [u8; 16]) -> (r: i128)
    ensures
        r as int == signed_of(le_unsigned(b@)),
{
    I80F48::from_le_bytes(b).to_bits()
}

impl Fx {
    /// The 16-byte little-endian wire form.
    pub fn to_le_bytes(self) -> (r: [u8; 16])
        ensures
            le_unsigned(r@) == unsigned_of(self.raw()),
    {
        fixed_to_le_bytes(self.bits)
    }

    pub fn from_le_bytes(b: [u8; 16]) -> (r: Fx)
        ensures
            r.raw() == signed_of(le_unsigned(b@)),
    {
        Fx { bits: fixed_from_le_bytes(b) }
    }
}

/// Decoding the wire form of a value gives the value back.
pub proof fn law_wire_round_trip(x: Fx, bytes: Seq<u8>)
    requires
        le_unsigned(bytes) == unsigned_of(x.raw()),
    ensures
        signed_of(le_unsigned(bytes)) == x.raw(),
{
}

} // verus!
