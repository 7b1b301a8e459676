//! Fixed-point quantities.
//!
//! A [`Decimal`] is a 192-bit unsigned integer that stands for a value scaled
//! by [`WAD`]; a [`Rate`] is the same on 128 bits. The arithmetic itself is
//! done by the `solana_maths` crate; this module states what each of its
//! operations returns over the integers and reports every failure as
//! [`PoleError::MathOverflow`].

use vstd::prelude::*;
use vstd::arithmetic::div_mod::lemma_fundamental_div_mod_converse;
use crate::error::PoleError;
use port_variable_rate_lending_instructions::solana_program::program_error::ProgramError;

verus! {

/// The scale: one unit is represented by this integer.
pub const WAD: u64 = 1_000_000_000_000_000_000;

/// One percent, scaled.
pub const PERCENT_SCALER: u64 = 10_000_000_000_000_000;

/// One basis point, scaled.
pub const BIPS_SCALER: u64 = 100_000_000_000_000;

/// 2^64.
pub open spec fn pow64() -> nat {
    0x1_0000_0000_0000_0000
}

/// 2^128.
pub open spec fn pow128() -> nat {
    0x1_0000_0000_0000_0000_0000_0000_0000_0000nat
}

/// 2^192.
pub open spec fn pow192() -> nat {
    0x1_0000_0000_0000_0000_0000_0000_0000_0000_0000_0000_0000_0000nat
}

/// A scaled value on 192 bits, as three 64-bit words, least significant first.
#[derive(Clone, Copy, Debug, PartialEq, Eq, Structural)]
pub struct Decimal {
    pub w0: u64,
    pub w1: u64,
    pub w2: u64,
}

/// A scaled value on 128 bits, as two 64-bit words, least significant first.
#[derive(Clone, Copy, Debug, PartialEq, Eq, Structural)]
pub struct Rate {
    pub w0: u64,
    pub w1: u64,
}

impl View for Decimal {
    type V = nat;

    /// The scaled integer that the three words hold.
    open spec fn view(&self) -> nat {
        (self.w0 as nat) + (self.w1 as nat) * pow64() + (self.w2 as nat) * pow128()
    }
}

impl View for Rate {
    type V = nat;

    /// The scaled integer that the two words hold.
    open spec fn view(&self) -> nat {
        (self.w0 as nat) + (self.w1 as nat) * pow64()
    }
}

/// The error of the outside crates, `solana_program`'s `ProgramError`. It is
/// carried from the outside calls to the place where a failure is reported
/// and never looked into.
#[verifier::external_type_specification]
#[verifier::external_body]
pub struct ExProgramError(ProgramError);

/// `Decimal::from(u64)` of `solana_maths`: the integer `val` as a scaled
/// value, that is `val * WAD`. The product is below 2^124, so the crate's
/// multiplication cannot overflow.
#[verifier::external_body]
fn raw_from_u64(val: u64) -> (r: Decimal)
    ensures
        r@ == val * WAD,
{
    let d = solana_maths::Decimal::from(val);
    Decimal { w0: d.0.0[0], w1: d.0.0[1], w2: d.0.0[2] }
}

/// `Decimal::from_percent` of `solana_maths`: `percent` hundredths, scaled.
#[verifier::external_body]
fn raw_from_percent(percent: u8) -> (r: Decimal)
    ensures
        r@ == percent * PERCENT_SCALER,
{
    let d = solana_maths::Decimal::from_percent(percent);
    Decimal { w0: d.0.0[0], w1: d.0.0[1], w2: d.0.0[2] }
}

/// `Decimal::from_bips` of `solana_maths`: `bips` ten-thousandths, scaled.
/// The crate multiplies in `u64`, so the product has to fit.
#[verifier::external_body]
fn raw_from_bips(bips: u64) -> (r: Decimal)
    requires
        bips * BIPS_SCALER <= u64::MAX,
    ensures
        r@ == bips * BIPS_SCALER,
{
    let d = solana_maths::Decimal::from_bips(bips);
    Decimal { w0: d.0.0[0], w1: d.0.0[1], w2: d.0.0[2] }
}

/// `TryAdd::try_add` on `solana_maths::Decimal`: the sum, or an error when it
/// does not fit in 192 bits.
#[verifier::external_body]
fn raw_try_add(a: Decimal, b: Decimal) -> (r: Result<Decimal, ProgramError>)
    ensures
        r is Ok <==> a@ + b@ < pow192(),
        r matches Ok(d) ==> d@ == a@ + b@,
{
    let x = solana_maths::Decimal(solana_maths::U192([a.w0, a.w1, a.w2]));
    let y = solana_maths::Decimal(solana_maths::U192([b.w0, b.w1, b.w2]));
    solana_maths::TryAdd::try_add(x, y).map(|d| Decimal { w0: d.0.0[0], w1: d.0.0[1], w2: d.0.0[2] })
}

/// `TrySub::try_sub` on `solana_maths::Decimal`: the difference, or an error
/// when `b` is larger than `a`.
#[verifier::external_body]
fn raw_try_sub(a: Decimal, b: Decimal) -> (r: Result<Decimal, ProgramError>)
    ensures
        r is Ok <==> a@ >= b@,
        r matches Ok(d) ==> d@ == a@ - b@,
{
    let x = solana_maths::Decimal(solana_maths::U192([a.w0, a.w1, a.w2]));
    let y = solana_maths::Decimal(solana_maths::U192([b.w0, b.w1, b.w2]));
    solana_maths::TrySub::try_sub(x, y).map(|d| Decimal { w0: d.0.0[0], w1: d.0.0[1], w2: d.0.0[2] })
}

/// `TryMul<u64>::try_mul` on `solana_maths::Decimal`: the scaled value times
/// the integer `rhs`, or an error when the product does not fit in 192 bits.
#[verifier::external_body]
fn raw_try_mul_u64(a: Decimal, rhs: u64) -> (r: Result<Decimal, ProgramError>)
    ensures
        r is Ok <==> a@ * rhs < pow192(),
        r matches Ok(d) ==> d@ == a@ * rhs,
{
    let x = solana_maths::Decimal(solana_maths::U192([a.w0, a.w1, a.w2]));
    solana_maths::TryMul::try_mul(x, rhs).map(|d| Decimal { w0: d.0.0[0], w1: d.0.0[1], w2: d.0.0[2] })
}

/// `TryMul<Rate>::try_mul` on `solana_maths::Decimal`: the product of the two
/// scaled integers divided by `WAD`, rounded down, or an error when that
/// product does not fit in 192 bits.
#[verifier::external_body]
fn raw_try_mul_rate(a: Decimal, rhs: Rate) -> (r: Result<Decimal, ProgramError>)
    ensures
        r is Ok <==> a@ * rhs@ < pow192(),
        r matches Ok(d) ==> d@ == (a@ * rhs@) / (WAD as nat),
{
    let x = solana_maths::Decimal(solana_maths::U192([a.w0, a.w1, a.w2]));
    let y = solana_maths::Rate(solana_maths::U128([rhs.w0, rhs.w1]));
    solana_maths::TryMul::try_mul(x, y).map(|d| Decimal { w0: d.0.0[0], w1: d.0.0[1], w2: d.0.0[2] })
}

/// `TryDiv<u64>::try_div` on `solana_maths::Decimal`: the scaled value divided
/// by the integer `rhs`, rounded down, or an error when `rhs` is zero.
#[verifier::external_body]
fn raw_try_div_u64(a: Decimal, rhs: u64) -> (r: Result<Decimal, ProgramError>)
    ensures
        r is Ok <==> rhs != 0,
        r matches Ok(d) ==> d@ == a@ / (rhs as nat),
{
    let x = solana_maths::Decimal(solana_maths::U192([a.w0, a.w1, a.w2]));
    solana_maths::TryDiv::try_div(x, rhs).map(|d| Decimal { w0: d.0.0[0], w1: d.0.0[1], w2: d.0.0[2] })
}

/// `TryDiv<Decimal>::try_div` on `solana_maths::Decimal`: `a` times `WAD`
/// divided by `b`, rounded down; an error when `a * WAD` does not fit in 192
/// bits or `b` is zero.
#[verifier::external_body]
fn raw_try_div(a: Decimal, b: Decimal) -> (r: Result<Decimal, ProgramError>)
    ensures
        r is Ok <==> (a@ * WAD < pow192() && b@ != 0),
        r matches Ok(d) ==> d@ == (a@ * WAD) / (b@ as int),
{
    let x = solana_maths::Decimal(solana_maths::U192([a.w0, a.w1, a.w2]));
    let y = solana_maths::Decimal(solana_maths::U192([b.w0, b.w1, b.w2]));
    solana_maths::TryDiv::try_div(x, y).map(|d| Decimal { w0: d.0.0[0], w1: d.0.0[1], w2: d.0.0[2] })
}

/// `Decimal::try_floor_u64` of `solana_maths`: the whole units of the scaled
/// value, or an error when they do not fit in `u64`.
#[verifier::external_body]
fn raw_try_floor_u64(a: Decimal) -> (r: Result<u64, ProgramError>)
    ensures
        r is Ok <==> a@ / (WAD as nat) <= u64::MAX,
        r matches Ok(v) ==> v == a@ / (WAD as nat),
{
    solana_maths::Decimal(solana_maths::U192([a.w0, a.w1, a.w2])).try_floor_u64()
}

/// `Decimal::try_ceil_u64` of `solana_maths`: the scaled value rounded up to
/// whole units; an error when adding `WAD - 1` leaves 192 bits or the units do
/// not fit in `u64`.
#[verifier::external_body]
fn raw_try_ceil_u64(a: Decimal) -> (r: Result<u64, ProgramError>)
    ensures
        r is Ok <==> (a@ + WAD - 1 < pow192() && (a@ + WAD - 1) / (WAD as int) <= u64::MAX),
        r matches Ok(v) ==> v == (a@ + WAD - 1) / (WAD as int),
{
    solana_maths::Decimal(solana_maths::U192([a.w0, a.w1, a.w2])).try_ceil_u64()
}

/// `Rate::try_from(Decimal)` of `solana_maths`: the same scaled integer on 128
/// bits, or an error when it does not fit.
#[verifier::external_body]
fn raw_rate_from_decimal(a: Decimal) -> (r: Result<Rate, ProgramError>)
    ensures
        r is Ok <==> a@ < pow128(),
        r matches Ok(x) ==> x@ == a@,
{
    let x = solana_maths::Decimal(solana_maths::U192([a.w0, a.w1, a.w2]));
    solana_maths::Rate::try_from(x).map(|t| Rate { w0: t.0.0[0], w1: t.0.0[1] })
}

impl Decimal {
    /// The value zero.
    pub fn zero() -> (r: Decimal)
        ensures
            r@ == 0,
    {
        Decimal { w0: 0, w1: 0, w2: 0 }
    }

    /// The value one, that is `WAD` scaled units.
    pub fn one() -> (r: Decimal)
        ensures
            r@ == WAD,
    {
        Decimal { w0: WAD, w1: 0, w2: 0 }
    }

    /// Whether the value is zero.
    pub fn is_zero(&self) -> (r: bool)
        ensures
            r == (self@ == 0),
    {
        self.w0 == 0 && self.w1 == 0 && self.w2 == 0
    }

    /// Whether `self` is at least `other`.
    pub fn ge(&self, other: &Decimal) -> (r: bool)
        ensures
            r == (self@ >= other@),
    {
        if self.w2 != other.w2 {
            self.w2 > other.w2
        } else if self.w1 != other.w1 {
            self.w1 > other.w1
        } else {
            self.w0 >= other.w0
        }
    }

    /// The integer `val` as a scaled value.
    pub fn from_u64(val: u64) -> (r: Decimal)
        ensures
            r@ == val * WAD,
    {
        raw_from_u64(val)
    }

    /// `percent` hundredths as a scaled value.
    pub fn from_percent(percent: u8) -> (r: Decimal)
        ensures
            r@ == percent * PERCENT_SCALER,
    {
        raw_from_percent(percent)
    }

    /// `bips` ten-thousandths as a scaled value. Fails when the scaled value
    /// does not fit in 64 bits.
    pub fn from_bips(bips: u64) -> (r: Result<Decimal, PoleError>)
        ensures
            match r {
                Ok(d) => bips * BIPS_SCALER <= u64::MAX && d@ == bips * BIPS_SCALER,
                Err(e) => e == PoleError::MathOverflow && bips * BIPS_SCALER > u64::MAX,
            },
    {
        if bips > u64::MAX / BIPS_SCALER {
            return Err(PoleError::MathOverflow);
        }
        Ok(raw_from_bips(bips))
    }

    /// The sum of two values. Fails when it does not fit in 192 bits.
    pub fn try_add(self, rhs: Decimal) -> (r: Result<Decimal, PoleError>)
        ensures
            match r {
                Ok(d) => self@ + rhs@ < pow192() && d@ == self@ + rhs@,
                Err(e) => e == PoleError::MathOverflow && self@ + rhs@ >= pow192(),
            },
    {
        match raw_try_add(self, rhs) {
            Ok(d) => Ok(d),
            Err(_) => Err(PoleError::MathOverflow),
        }
    }

    /// The difference of two values. Fails when `rhs` is the larger.
    pub fn try_sub(self, rhs: Decimal) -> (r: Result<Decimal, PoleError>)
        ensures
            match r {
                Ok(d) => self@ >= rhs@ && d@ == self@ - rhs@,
                Err(e) => e == PoleError::MathOverflow && self@ < rhs@,
            },
    {
        match raw_try_sub(self, rhs) {
            Ok(d) => Ok(d),
            Err(_) => Err(PoleError::MathOverflow),
        }
    }

    /// The value times the integer `rhs`. Fails when the product does not fit
    /// in 192 bits.
    pub fn try_mul(self, rhs: u64) -> (r: Result<Decimal, PoleError>)
        ensures
            match r {
                Ok(d) => self@ * rhs < pow192() && d@ == self@ * rhs,
                Err(e) => e == PoleError::MathOverflow && self@ * rhs >= pow192(),
            },
    {
        match raw_try_mul_u64(self, rhs) {
            Ok(d) => Ok(d),
            Err(_) => Err(PoleError::MathOverflow),
        }
    }

    /// The value times a rate, rounded down to the scale. Fails when the
    /// product of the two scaled integers does not fit in 192 bits.
    pub fn try_mul_rate(self, rhs: Rate) -> (r: Result<Decimal, PoleError>)
        ensures
            match r {
                Ok(d) => self@ * rhs@ < pow192() && d@ == (self@ * rhs@) / (WAD as nat),
                Err(e) => e == PoleError::MathOverflow && self@ * rhs@ >= pow192(),
            },
    {
        match raw_try_mul_rate(self, rhs) {
            Ok(d) => Ok(d),
            Err(_) => Err(PoleError::MathOverflow),
        }
    }

    /// The value divided by the integer `rhs`, rounded down to the scale.
    /// Fails when `rhs` is zero.
    pub fn try_div_u64(self, rhs: u64) -> (r: Result<Decimal, PoleError>)
        ensures
            match r {
                Ok(d) => rhs != 0 && d@ == self@ / (rhs as nat),
                Err(e) => e == PoleError::MathOverflow && rhs == 0,
            },
    {
        match raw_try_div_u64(self, rhs) {
            Ok(d) => Ok(d),
            Err(_) => Err(PoleError::MathOverflow),
        }
    }

    /// The quotient of two values, rounded down to the scale. Fails when
    /// `self * WAD` does not fit in 192 bits or `rhs` is zero.
    pub fn try_div(self, rhs: Decimal) -> (r: Result<Decimal, PoleError>)
        ensures
            match r {
                Ok(d) => self@ * WAD < pow192() && rhs@ != 0 && d@ == (self@ * WAD) / (rhs@ as int),
                Err(e) => e == PoleError::MathOverflow && (self@ * WAD >= pow192() || rhs@ == 0),
            },
    {
        match raw_try_div(self, rhs) {
            Ok(d) => Ok(d),
            Err(_) => Err(PoleError::MathOverflow),
        }
    }

    /// The whole units of the value, rounded down. Fails when they do not fit
    /// in 64 bits.
    pub fn try_floor_u64(self) -> (r: Result<u64, PoleError>)
        ensures
            match r {
                Ok(v) => v == self@ / (WAD as nat),
                Err(e) => e == PoleError::MathOverflow && self@ / (WAD as nat) > u64::MAX,
            },
    {
        match raw_try_floor_u64(self) {
            Ok(v) => Ok(v),
            Err(_) => Err(PoleError::MathOverflow),
        }
    }

    /// The whole units of the value, rounded up. Fails when they do not fit in
    /// 64 bits, or when the value is within `WAD` of 2^192.
    pub fn try_ceil_u64(self) -> (r: Result<u64, PoleError>)
        ensures
            match r {
                Ok(v) => self@ + WAD - 1 < pow192() && v == (self@ + WAD - 1) / (WAD as int),
                Err(e) => e == PoleError::MathOverflow && (self@ + WAD - 1 >= pow192() || (self@
                    + WAD - 1) / (WAD as int) > u64::MAX),
            },
    {
        match raw_try_ceil_u64(self) {
            Ok(v) => Ok(v),
            Err(_) => Err(PoleError::MathOverflow),
        }
    }
}

impl Rate {
    /// The rate zero.
    pub fn zero() -> (r: Rate)
        ensures
            r@ == 0,
    {
        Rate { w0: 0, w1: 0 }
    }

    /// Whether the rate is zero.
    pub fn is_zero(&self) -> (r: bool)
        ensures
            r == (self@ == 0),
    {
        self.w0 == 0 && self.w1 == 0
    }

    /// The same scaled integer as `d`, on 128 bits. Fails when it does not fit.
    pub fn try_from_decimal(d: Decimal) -> (r: Result<Rate, PoleError>)
        ensures
            match r {
                Ok(x) => x@ == d@ && d@ < pow128(),
                Err(e) => e == PoleError::MathOverflow && d@ >= pow128(),
            },
    {
        match raw_rate_from_decimal(d) {
            Ok(x) => Ok(x),
            Err(_) => Err(PoleError::MathOverflow),
        }
    }
}

impl Decimal {
    /// The decimal that holds the scaled integer `v`, for `v` below 2^192.
    pub open spec fn from_value(v: nat) -> Decimal {
        Decimal {
            w0: (v % pow64()) as u64,
            w1: ((v / pow64()) % pow64()) as u64,
            w2: (v / pow128()) as u64,
        }
    }
}

impl Rate {
    /// The rate that holds the scaled integer `v`, for `v` below 2^128.
    pub open spec fn from_value(v: nat) -> Rate {
        Rate { w0: (v % pow64()) as u64, w1: (v / pow64()) as u64 }
    }
}

/// `Decimal::from_value` builds the one decimal that holds a given integer.
pub proof fn lemma_decimal_from_value(d: Decimal)
    ensures
        Decimal::from_value(d@) == d,
{
    let p = pow64() as int;
    let high = d.w1 + d.w2 * p;
    lemma_fundamental_div_mod_converse(d@ as int, p, high, d.w0 as int);
    lemma_fundamental_div_mod_converse(high, p, d.w2 as int, d.w1 as int);
    lemma_fundamental_div_mod_converse(d@ as int, pow128() as int, d.w2 as int, d.w0 + d.w1 * p);
}

/// `Rate::from_value` builds the one rate that holds a given integer.
pub proof fn lemma_rate_from_value(x: Rate)
    ensures
        Rate::from_value(x@) == x,
{
    lemma_fundamental_div_mod_converse(x@ as int, pow64() as int, x.w1 as int, x.w0 as int);
}

} // verus!
