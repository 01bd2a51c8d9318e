//! Trusted boundary to the `num_bigint` crate.
//!
//! The arbitrary-precision side of [`crate::num::Int`] is carried by
//! `num_bigint::BigInt`.  The value a `BigInt` holds is named by the
//! uninterpreted [`big_value`]; each wrapper below states, over that name,
//! what the one `num_bigint` operation it calls does.

use vstd::prelude::*;
use crate::num::rem_trunc;

verus! {

#[verifier::external_type_specification]
#[verifier::external_body]
pub struct ExBigInt(num_bigint::BigInt);

/// The integer a `num_bigint::BigInt` holds.
pub uninterp spec fn big_value(b: num_bigint::BigInt) -> int;

/// Relies on `<num_bigint::BigInt as From<i64>>::from`: exact conversion of a
/// machine word into a big integer.
#[verifier::external_body]
pub(crate) fn big_from_i64(v: i64) -> (r: num_bigint::BigInt)
    ensures
        big_value(r) == v as int,
{
    num_bigint::BigInt::from(v)
}

/// Relies on `<num_bigint::BigInt as Clone>::clone`: the copy holds the same
/// value as the original.
#[verifier::external_body]
pub(crate) fn big_clone(b: &num_bigint::BigInt) -> (r: num_bigint::BigInt)
    ensures
        big_value(r) == big_value(*b),
{
    b.clone()
}

/// Relies on `<&num_bigint::BigInt as Ord>::lt`: `BigInt` orders by numeric
/// value.
#[verifier::external_body]
pub(crate) fn big_lt(a: &num_bigint::BigInt, b: &num_bigint::BigInt) -> (r: bool)
    ensures
        r == (big_value(*a) < big_value(*b)),
{
    a < b
}

/// Relies on `<&num_bigint::BigInt as Rem>::rem`: remainder truncated toward
/// zero, so its sign follows the dividend; panics on a zero divisor, which the
/// precondition rules out.
#[verifier::external_body]
pub(crate) fn big_rem(a: &num_bigint::BigInt, m: &num_bigint::BigInt) -> (r: num_bigint::BigInt)
    requires
        big_value(*m) != 0,
    ensures
        big_value(r) == rem_trunc(big_value(*a), big_value(*m)),
{
    a % m
}

/// Relies on `<i64 as TryFrom<&num_bigint::BigInt>>::try_from` (through
/// `ToPrimitive::to_i64`): succeeds exactly when the value fits a machine
/// word, and then converts it exactly.
#[verifier::external_body]
pub(crate) fn big_to_i64(b: &num_bigint::BigInt) -> (r: Option<i64>)
    ensures
        match r {
            Some(v) => v as int == big_value(*b),
            None => big_value(*b) < i64::MIN as int || big_value(*b) > i64::MAX as int,
        },
{
    i64::try_from(b).ok()
}

/// Relies on `num_bigint::BigInt::parse_bytes` with radix 10: on a non-empty
/// slice of ASCII decimal digits it returns the integer those digits denote
/// in big-endian order.
#[verifier::external_body]
pub(crate) fn big_from_decimal(digits: &Vec<u8>) -> (r: num_bigint::BigInt)
    requires
        digits@.len() > 0,
        crate::input::all_digits(digits@),
    ensures
        big_value(r) == crate::input::decimal_value(digits@),
{
    num_bigint::BigInt::parse_bytes(digits, 10).unwrap()
}

/// Relies on `<num_bigint::BigInt as Neg>::neg`: exact arithmetic negation.
#[verifier::external_body]
pub(crate) fn big_neg(b: num_bigint::BigInt) -> (r: num_bigint::BigInt)
    ensures
        big_value(r) == -big_value(b),
{
    -b
}

} // verus!
