//! Structured validation errors.
//!
//! Two families share one kind type: coercion errors, raised where an input
//! does not represent an integer under the selected mode, and constraint
//! errors, raised where a valid integer violates a numeric predicate.  A
//! constraint error carries the violated bound.  Contracts speak of the
//! mathematical [`ErrorModel`], the view of a kind.

use vstd::prelude::*;
use crate::num::Int;

verus! {

/// The kind of a validation error, carrying the violated bound where one
/// exists.
pub enum ErrorKind {
    /// The input's type cannot be coerced to an integer under the selected
    /// mode.
    IntType,
    /// A string input does not spell a decimal integer.
    IntParsing,
    /// A float input has a non-zero fractional part.
    IntFromFloat,
    /// A float input is not a finite number.
    FiniteNumber,
    MultipleOf { multiple_of: Int },
    LessThanEqual { le: Int },
    LessThan { lt: Int },
    GreaterThanEqual { ge: Int },
    GreaterThan { gt: Int },
}

/// The mathematical shape of an error kind: bounds as unbounded integers.
pub enum ErrorModel {
    IntType,
    IntParsing,
    IntFromFloat,
    FiniteNumber,
    MultipleOf { multiple_of: int },
    LessThanEqual { le: int },
    LessThan { lt: int },
    GreaterThanEqual { ge: int },
    GreaterThan { gt: int },
}

impl View for ErrorKind {
    type V = ErrorModel;

    open spec fn view(&self) -> ErrorModel {
        match *self {
            ErrorKind::IntType => ErrorModel::IntType,
            ErrorKind::IntParsing => ErrorModel::IntParsing,
            ErrorKind::IntFromFloat => ErrorModel::IntFromFloat,
            ErrorKind::FiniteNumber => ErrorModel::FiniteNumber,
            ErrorKind::MultipleOf { multiple_of } => ErrorModel::MultipleOf {
                multiple_of: multiple_of@,
            },
            ErrorKind::LessThanEqual { le } => ErrorModel::LessThanEqual { le: le@ },
            ErrorKind::LessThan { lt } => ErrorModel::LessThan { lt: lt@ },
            ErrorKind::GreaterThanEqual { ge } => ErrorModel::GreaterThanEqual { ge: ge@ },
            ErrorKind::GreaterThan { gt } => ErrorModel::GreaterThan { gt: gt@ },
        }
    }
}

/// A validation error: a structured kind, propagated unchanged to the
/// caller.  No error is recovered locally.
pub struct ValError {
    pub kind: ErrorKind,
}

impl View for ValError {
    type V = ErrorModel;

    open spec fn view(&self) -> ErrorModel {
        self.kind@
    }
}

impl ValError {
    /// Wraps a kind.
    pub fn new(kind: ErrorKind) -> (r: ValError)
        ensures
            r@ == kind@,
            r.kind == kind,
    {
        ValError { kind }
    }
}

} // verus!
