//! Integer validation core of a schema-driven data-validation library.
//!
//! Given an input value from a dynamically typed host or a parsed document,
//! the core decides whether the value represents an integer under strict or
//! lax coercion, optionally enforces the numeric constraints `multiple_of`,
//! `le`, `lt`, `ge` and `gt`, and returns either the normalized integer or a
//! structured validation error.  The ambient validation state threads
//! strictness overrides, an exactness ladder for union tie-breaking,
//! partial-mode bookkeeping and a scoped rebinding of the per-call context
//! through every validator.

pub mod big;
pub mod num;
pub mod errors;
pub mod input;
pub mod validation_state;
pub mod int_validator;

pub use num::Int;
pub use int_validator::{BuiltIntValidator, Config, ConstrainedIntValidator, IntSchema, IntValidator};
pub use errors::{ErrorKind, ErrorModel, ValError};
pub use input::{FloatRepr, IntMatch, ValueInput};
pub use validation_state::{
    Exactness, Extra, PartialMode, RecursionState, StringCacheMode, ValidationState,
    ValidationStateWithReboundExtra, EnumerateLastPartial,
};
