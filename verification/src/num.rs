//! The tagged numeric carrier for validated integers.
//!
//! [`Int`] holds either a machine word or an arbitrary-precision big integer,
//! canonicalized so that every value representable in a machine word uses the
//! [`Int::Small`] variant.  It offers a total order, equality and remainder
//! across mixed variants, each specified against the mathematical value
//! [`Int::view`].

use vstd::prelude::*;
use crate::big::{big_value, big_from_i64, big_clone, big_lt, big_rem, big_to_i64};

verus! {

/// Remainder truncated toward zero: the sign follows the dividend, as with
/// Rust's `%` on machine integers.
pub open spec fn rem_trunc(a: int, b: int) -> int
    recommends
        b != 0,
{
    let m = if b >= 0 { b } else { -b };
    if a >= 0 {
        a % m
    } else {
        -((-a) % m)
    }
}

/// A validated integer: a machine word, or a big integer for values outside
/// the machine-word range.
pub enum Int {
    Small(i64),
    Big(num_bigint::BigInt),
}

impl View for Int {
    type V = int;

    open spec fn view(&self) -> int {
        match *self {
            Int::Small(v) => v as int,
            Int::Big(b) => big_value(b),
        }
    }
}

impl Int {
    /// Canonical form: any value that fits a machine word uses `Small`.
    pub open spec fn wf(&self) -> bool {
        match *self {
            Int::Small(_) => true,
            Int::Big(b) => big_value(b) < i64::MIN as int || big_value(b) > i64::MAX as int,
        }
    }

    /// Construction from a machine word.
    pub fn from_i64(v: i64) -> (r: Int)
        ensures
            r@ == v as int,
            r.wf(),
    {
        Int::Small(v)
    }

    /// Construction from a big integer, downcasting to a machine word
    /// whenever the value fits; the value is never changed.
    pub fn from_big(b: num_bigint::BigInt) -> (r: Int)
        ensures
            r@ == big_value(b),
            r.wf(),
    {
        match big_to_i64(&b) {
            Some(v) => Int::Small(v),
            None => Int::Big(b),
        }
    }

    /// An owned copy holding the same value.
    pub fn dup(&self) -> (r: Int)
        ensures
            r@ == self@,
            self.wf() ==> r.wf(),
    {
        match self {
            Int::Small(v) => Int::Small(*v),
            Int::Big(b) => Int::Big(big_clone(b)),
        }
    }

    /// The value as a big integer, whatever the variant.
    fn to_big(&self) -> (r: num_bigint::BigInt)
        ensures
            big_value(r) == self@,
    {
        match self {
            Int::Small(v) => big_from_i64(*v),
            Int::Big(b) => big_clone(b),
        }
    }

    /// Strict order by value.
    pub fn lt(&self, other: &Int) -> (r: bool)
        ensures
            r == (self@ < other@),
    {
        match (self, other) {
            (Int::Small(a), Int::Small(b)) => *a < *b,
            _ => {
                let a = self.to_big();
                let b = other.to_big();
                big_lt(&a, &b)
            },
        }
    }

    /// Non-strict order by value.
    pub fn le(&self, other: &Int) -> (r: bool)
        ensures
            r == (self@ <= other@),
    {
        !other.lt(self)
    }

    /// Strict order by value, reversed.
    pub fn gt(&self, other: &Int) -> (r: bool)
        ensures
            r == (self@ > other@),
    {
        other.lt(self)
    }

    /// Non-strict order by value, reversed.
    pub fn ge(&self, other: &Int) -> (r: bool)
        ensures
            r == (self@ >= other@),
    {
        !self.lt(other)
    }

    /// Equality by value.
    pub fn eq_value(&self, other: &Int) -> (r: bool)
        ensures
            r == (self@ == other@),
    {
        match (self, other) {
            (Int::Small(a), Int::Small(b)) => *a == *b,
            _ => !self.lt(other) && !other.lt(self),
        }
    }

    /// Whether the value is zero; meaningful only on canonical values.
    pub fn is_zero(&self) -> (r: bool)
        requires
            self.wf(),
        ensures
            r == (self@ == 0),
    {
        match self {
            Int::Small(v) => *v == 0,
            Int::Big(_) => false,
        }
    }

    /// Remainder truncated toward zero, with automatic promotion across
    /// mixed variants.  The divisor must be non-zero; schema building is
    /// expected to reject a zero `multiple_of` upstream.
    pub fn rem(&self, other: &Int) -> (r: Int)
        requires
            other@ != 0,
        ensures
            r@ == rem_trunc(self@, other@),
            r.wf(),
    {
        match (self, other) {
            (Int::Small(a), Int::Small(b)) => Int::Small(rem_i64(*a, *b)),
            _ => {
                let a = self.to_big();
                let b = other.to_big();
                Int::from_big(big_rem(&a, &b))
            },
        }
    }
}

/// Machine-word remainder via unsigned magnitudes, so that the extreme
/// negative word needs no special case.
fn rem_i64(a: i64, b: i64) -> (r: i64)
    requires
        b != 0,
    ensures
        r as int == rem_trunc(a as int, b as int),
{
    let am: u64 = if a >= 0 {
        a as u64
    } else {
        (-(a as i128)) as u64
    };
    let bm: u64 = if b >= 0 {
        b as u64
    } else {
        (-(b as i128)) as u64
    };
    let rm: u64 = am % bm;
    assert(rm < bm);
    if a >= 0 {
        rm as i64
    } else {
        -(rm as i64)
    }
}

} // verus!
