//! Arbitrary-precision amounts: `num`'s `BigUint`, seen by the verifier as a
//! natural number.
//!
//! The executable functions of this file are not proved: each makes one
//! call into `num` and states what that call is known to return.

use num::BigUint;
use num::ToPrimitive;
use vstd::prelude::*;

verus! {

/// `num::BigUint`, whose digits the verifier does not look into.
#[verifier::external_type_specification]
#[verifier::external_body]
pub struct ExBigUint(BigUint);

/// The natural number that a `BigUint` holds. Contracts speak of amounts
/// through it, never of the `BigUint` itself.
pub uninterp spec fn big_value(n: BigUint) -> nat;

/// `BigUint::default`: the number zero.
#[verifier::external_body]
pub(crate) fn big_zero() -> (r: BigUint)
    ensures
        big_value(r) == 0,
{
    BigUint::default()
}

/// `BigUint::from` on a `u32`: the same number.
#[verifier::external_body]
pub(crate) fn big_from_u32(n: u32) -> (r: BigUint)
    ensures
        big_value(r) == n,
{
    BigUint::from(n)
}

/// `BigUint::clone`: a second `BigUint` holding the same number.
#[verifier::external_body]
pub(crate) fn big_clone(n: &BigUint) -> (r: BigUint)
    ensures
        big_value(r) == big_value(*n),
{
    n.clone()
}

/// `BigUint + &BigUint`: the sum, which never overflows.
#[verifier::external_body]
pub(crate) fn big_add(a: BigUint, b: &BigUint) -> (r: BigUint)
    ensures
        big_value(r) == big_value(a) + big_value(*b),
{
    a + b
}

/// `BigUint - &BigUint`: the difference. The outside code panics when the
/// subtrahend is the larger number, so that case is excluded.
#[verifier::external_body]
pub(crate) fn big_sub(a: BigUint, b: &BigUint) -> (r: BigUint)
    requires
        big_value(a) >= big_value(*b),
    ensures
        big_value(r) == big_value(a) - big_value(*b),
{
    a - b
}

/// `BigUint >= BigUint`: the order of the numbers held.
#[verifier::external_body]
pub(crate) fn big_ge(a: &BigUint, b: &BigUint) -> (r: bool)
    ensures
        r == (big_value(*a) >= big_value(*b)),
{
    a >= b
}

/// `BigUint == BigUint`: whether both hold the same number.
#[verifier::external_body]
pub(crate) fn big_eq(a: &BigUint, b: &BigUint) -> (r: bool)
    ensures
        r == (big_value(*a) == big_value(*b)),
{
    a == b
}

/// `ToPrimitive::to_u32` on a `BigUint`: the number itself where it fits in
/// 32 bits, nothing where it does not.
#[verifier::external_body]
pub(crate) fn big_to_u32(n: &BigUint) -> (r: Option<u32>)
    ensures
        match r {
            Some(v) => big_value(*n) == v,
            None => big_value(*n) > u32::MAX,
        },
{
    n.to_u32()
}

/// The number that a string of bytes denotes when the first byte is the most
/// significant one.
pub open spec fn be_value(bytes: Seq<u8>) -> nat
    decreases bytes.len(),
{
    if bytes.len() == 0 {
        0
    } else {
        be_value(bytes.drop_last()) * 256 + bytes.last() as nat
    }
}

/// `BigUint::from_bytes_be`: the number that the bytes denote, read with the
/// most significant byte first; zero for no bytes.
#[verifier::external_body]
pub(crate) fn big_from_bytes_be(bytes: &[u8]) -> (r: BigUint)
    ensures
        big_value(r) == be_value(bytes@),
{
    BigUint::from_bytes_be(bytes)
}

} // verus!
