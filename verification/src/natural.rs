//! Trusted boundary to malachite's arbitrary-precision `Natural`.
//!
//! The Fibonacci routines work on unbounded non-negative integers, which
//! malachite supplies. Each wrapper below performs exactly one malachite
//! operation; its contract states, over the abstract value `natural_value`,
//! what malachite's documentation promises of that operation.

use vstd::prelude::*;
use malachite::base::num::arithmetic::traits::Pow;
use malachite::base::num::basic::traits::One;
use malachite::base::num::basic::traits::Zero;

verus! {

#[verifier::external_type_specification]
#[verifier::external_body]
pub struct ExNatural(malachite::Natural);

/// The non-negative integer that a malachite `Natural` stands for.
pub uninterp spec fn natural_value(n: malachite::Natural) -> nat;

/// Relies on malachite's `Natural::ZERO`: the natural number zero.
#[verifier::external_body]
pub(crate) fn natural_zero() -> (r: malachite::Natural)
    ensures
        natural_value(r) == 0,
{
    malachite::Natural::ZERO
}

/// Relies on malachite's `Natural::ONE`: the natural number one.
#[verifier::external_body]
pub(crate) fn natural_one() -> (r: malachite::Natural)
    ensures
        natural_value(r) == 1,
{
    malachite::Natural::ONE
}

/// Relies on malachite's `Add for &Natural`: exact sum, f(x, y) = x + y.
#[verifier::external_body]
pub(crate) fn natural_add(x: &malachite::Natural, y: &malachite::Natural) -> (r: malachite::Natural)
    ensures
        natural_value(r) == natural_value(*x) + natural_value(*y),
{
    x + y
}

/// Relies on malachite's `Sub for &Natural`: exact difference,
/// f(x, y) = x - y; it panics when y > x, so that case is excluded here.
#[verifier::external_body]
pub(crate) fn natural_sub(x: &malachite::Natural, y: &malachite::Natural) -> (r: malachite::Natural)
    requires
        natural_value(*y) <= natural_value(*x),
    ensures
        natural_value(r) == natural_value(*x) - natural_value(*y),
{
    x - y
}

/// Relies on malachite's `Mul for &Natural`: exact product, f(x, y) = x * y.
#[verifier::external_body]
pub(crate) fn natural_mul(x: &malachite::Natural, y: &malachite::Natural) -> (r: malachite::Natural)
    ensures
        natural_value(r) == natural_value(*x) * natural_value(*y),
{
    x * y
}

/// Relies on malachite's `Pow<u64> for &Natural` with exponent 2:
/// exact square, f(x, 2) = x^2.
#[verifier::external_body]
pub(crate) fn natural_square(x: &malachite::Natural) -> (r: malachite::Natural)
    ensures
        natural_value(r) == natural_value(*x) * natural_value(*x),
{
    x.pow(2)
}

/// Relies on malachite's `Shl<u32> for &Natural` with shift 1:
/// left shift by one, f(x, 1) = 2 * x.
#[verifier::external_body]
pub(crate) fn natural_double(x: &malachite::Natural) -> (r: malachite::Natural)
    ensures
        natural_value(r) == 2 * natural_value(*x),
{
    x << 1u32
}

} // verus!
