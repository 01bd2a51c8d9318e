//! The integer validators and their builder dispatch.
//!
//! At schema-build time the presence of any of the five constraint keys
//! picks [`ConstrainedIntValidator`] over the unconstrained [`IntValidator`].
//! At validation time either validator coerces through
//! [`crate::input::spec_validate_int`], records the match's exactness into
//! the state, and the constrained variant then applies the five numeric
//! predicates in the fixed order `multiple_of`, `le`, `lt`, `ge`, `gt`: the
//! first failing predicate names the error.

use vstd::prelude::*;
use crate::num::{Int, rem_trunc};
use crate::errors::{ErrorKind, ErrorModel, ValError};
use crate::input::{spec_validate_int, ValueInput};
use crate::validation_state::{Exactness, ValidationState};

verus! {

/// The integer options of a schema: per-validator strictness and the five
/// numeric constraints.  A key left out of the schema dictionary is `None`;
/// a key present counts, whatever bound it maps to.
pub struct IntSchema {
    pub strict: Option<bool>,
    pub multiple_of: Option<Int>,
    pub le: Option<Int>,
    pub lt: Option<Int>,
    pub ge: Option<Int>,
    pub gt: Option<Int>,
}

/// Configuration merged under the per-schema settings; only `strict` is
/// consulted at this layer.
#[derive(Clone, Copy, Debug, PartialEq, Eq, Structural)]
pub struct Config {
    pub strict: Option<bool>,
}

/// The resolved strictness default: the schema's `strict` if set, else the
/// config's, else false.
pub open spec fn spec_is_strict(schema_strict: Option<bool>, config: Option<Config>) -> bool {
    match schema_strict {
        Some(b) => b,
        None => match config {
            Some(c) => c.strict.unwrap_or(false),
            None => false,
        },
    }
}

/// The resolved strictness default: the schema's `strict` if set, else the
/// config's, else false.
pub fn is_strict(schema_strict: Option<bool>, config: Option<Config>) -> (r: bool)
    ensures
        r == spec_is_strict(schema_strict, config),
{
    match schema_strict {
        Some(b) => b,
        None => match config {
            Some(c) => match c.strict {
                Some(b) => b,
                None => false,
            },
            None => false,
        },
    }
}

/// Whether any of the five constraint keys is present; the test is
/// presence-only, so a key mapped to a zero bound still counts.
pub open spec fn spec_has_constraints(schema: IntSchema) -> bool {
    ||| schema.multiple_of is Some
    ||| schema.le is Some
    ||| schema.lt is Some
    ||| schema.ge is Some
    ||| schema.gt is Some
}

/// The bound's mathematical value, where the bound is present.
pub open spec fn opt_int(b: Option<Int>) -> Option<int> {
    match b {
        Some(k) => Some(k@),
        None => None,
    }
}

/// Unconstrained integer validator: coerces and returns.
pub struct IntValidator {
    pub strict: bool,
}

/// Integer validator with numeric constraints: coerces, then applies the
/// five predicates in fixed order.
pub struct ConstrainedIntValidator {
    pub strict: bool,
    pub multiple_of: Option<Int>,
    pub le: Option<Int>,
    pub lt: Option<Int>,
    pub ge: Option<Int>,
    pub gt: Option<Int>,
}

/// What the builder dispatch produces for an integer schema.
pub enum BuiltIntValidator {
    Unconstrained(IntValidator),
    Constrained(ConstrainedIntValidator),
}

impl ConstrainedIntValidator {
    /// A zero `multiple_of` is rejected upstream at schema build: the
    /// remainder against it would be undefined.
    pub open spec fn wf(&self) -> bool {
        self.multiple_of matches Some(m) ==> m@ != 0
    }

    /// Builds from a schema whose constraint keys have been read.
    pub fn build(schema: IntSchema, config: Option<Config>) -> (r: ConstrainedIntValidator)
        ensures
            r.strict == spec_is_strict(schema.strict, config),
            r.multiple_of == schema.multiple_of,
            r.le == schema.le,
            r.lt == schema.lt,
            r.ge == schema.ge,
            r.gt == schema.gt,
    {
        let strict = is_strict(schema.strict, config);
        let IntSchema { strict: _, multiple_of, le, lt, ge, gt } = schema;
        ConstrainedIntValidator { strict, multiple_of, le, lt, ge, gt }
    }
}

/// Whether `n` violates the `multiple_of` constraint.
pub open spec fn violates_multiple_of(c: ConstrainedIntValidator, n: int) -> bool {
    c.multiple_of matches Some(m) && rem_trunc(n, m@) != 0
}

/// Whether `n` violates the `le` constraint.
pub open spec fn violates_le(c: ConstrainedIntValidator, n: int) -> bool {
    c.le matches Some(k) && n > k@
}

/// Whether `n` violates the `lt` constraint.
pub open spec fn violates_lt(c: ConstrainedIntValidator, n: int) -> bool {
    c.lt matches Some(k) && n >= k@
}

/// Whether `n` violates the `ge` constraint.
pub open spec fn violates_ge(c: ConstrainedIntValidator, n: int) -> bool {
    c.ge matches Some(k) && n < k@
}

/// Whether `n` violates the `gt` constraint.
pub open spec fn violates_gt(c: ConstrainedIntValidator, n: int) -> bool {
    c.gt matches Some(k) && n <= k@
}

/// The constraint phase: predicates are evaluated in the fixed order
/// `multiple_of`, `le`, `lt`, `ge`, `gt`, and the first failing one names
/// the error, carrying the violated bound.
pub open spec fn spec_check_constraints(c: ConstrainedIntValidator, n: int) -> Result<int, ErrorModel> {
    if violates_multiple_of(c, n) {
        Err(ErrorModel::MultipleOf { multiple_of: c.multiple_of->0@ })
    } else if violates_le(c, n) {
        Err(ErrorModel::LessThanEqual { le: c.le->0@ })
    } else if violates_lt(c, n) {
        Err(ErrorModel::LessThan { lt: c.lt->0@ })
    } else if violates_ge(c, n) {
        Err(ErrorModel::GreaterThanEqual { ge: c.ge->0@ })
    } else if violates_gt(c, n) {
        Err(ErrorModel::GreaterThan { gt: c.gt->0@ })
    } else {
        Ok(n)
    }
}

/// Constraint order: whichever combination of constraints `n` violates, the
/// emitted error kind is the first violated in the order `multiple_of`,
/// `le`, `lt`, `ge`, `gt`, and success comes exactly when none is violated.
pub proof fn lemma_first_violation_wins(c: ConstrainedIntValidator, n: int)
    ensures
        violates_multiple_of(c, n) ==> spec_check_constraints(c, n)
            == Err::<int, ErrorModel>(ErrorModel::MultipleOf { multiple_of: c.multiple_of->0@ }),
        !violates_multiple_of(c, n) && violates_le(c, n) ==> spec_check_constraints(c, n)
            == Err::<int, ErrorModel>(ErrorModel::LessThanEqual { le: c.le->0@ }),
        !violates_multiple_of(c, n) && !violates_le(c, n) && violates_lt(c, n)
            ==> spec_check_constraints(c, n) == Err::<int, ErrorModel>(ErrorModel::LessThan { lt: c.lt->0@ }),
        !violates_multiple_of(c, n) && !violates_le(c, n) && !violates_lt(c, n) && violates_ge(c, n)
            ==> spec_check_constraints(c, n)
                == Err::<int, ErrorModel>(ErrorModel::GreaterThanEqual { ge: c.ge->0@ }),
        !violates_multiple_of(c, n) && !violates_le(c, n) && !violates_lt(c, n) && !violates_ge(c, n)
            && violates_gt(c, n) ==> spec_check_constraints(c, n)
                == Err::<int, ErrorModel>(ErrorModel::GreaterThan { gt: c.gt->0@ }),
        !violates_multiple_of(c, n) && !violates_le(c, n) && !violates_lt(c, n) && !violates_ge(c, n)
            && !violates_gt(c, n) ==> spec_check_constraints(c, n) == Ok::<int, ErrorModel>(n),
{
}

/// The outcome of one unconstrained validation against a given pre-state:
/// the result's model and the exactness recorded afterwards.
pub open spec fn spec_unconstrained_outcome(
    default_strict: bool,
    input: ValueInput,
    s: ValidationState,
) -> (Result<int, ErrorModel>, Option<Exactness>) {
    match spec_validate_int(input, s.strict_or_spec(default_strict)) {
        Ok(ve) => (Ok(ve.0), Exactness::spec_floor(s.exactness, ve.1)),
        Err(em) => (Err(em), s.exactness),
    }
}

/// The outcome of one constrained validation against a given pre-state:
/// coercion, exactness recording, then the constraint phase.
pub open spec fn spec_constrained_outcome(
    c: ConstrainedIntValidator,
    input: ValueInput,
    s: ValidationState,
) -> (Result<int, ErrorModel>, Option<Exactness>) {
    match spec_validate_int(input, s.strict_or_spec(c.strict)) {
        Ok(ve) => (spec_check_constraints(c, ve.0), Exactness::spec_floor(s.exactness, ve.1)),
        Err(em) => (Err(em), s.exactness),
    }
}

/// The outcome of one validation by either variant.
pub open spec fn spec_validate_outcome(
    v: BuiltIntValidator,
    input: ValueInput,
    s: ValidationState,
) -> (Result<int, ErrorModel>, Option<Exactness>) {
    match v {
        BuiltIntValidator::Unconstrained(u) => spec_unconstrained_outcome(u.strict, input, s),
        BuiltIntValidator::Constrained(c) => spec_constrained_outcome(c, input, s),
    }
}

/// Whether an executable result realizes a modelled outcome: a success
/// carries a canonical integer of exactly the modelled value, an error
/// carries the modelled kind.
pub open spec fn result_models(r: Result<Int, ValError>, m: Result<int, ErrorModel>) -> bool {
    match r {
        Ok(i) => m matches Ok(n) && i@ == n && i.wf(),
        Err(e) => m matches Err(em) && e@ == em,
    }
}

/// Validator purity: the outcome of a validation depends only on the
/// validator, the input, and the state prefix it reads — the strictness
/// override and the recorded exactness.  Two runs over equal prefixes give
/// equal outcomes.
pub proof fn lemma_validator_purity(
    v: BuiltIntValidator,
    input: ValueInput,
    s1: ValidationState,
    s2: ValidationState,
)
    requires
        s1.extra_spec().strict == s2.extra_spec().strict,
        s1.exactness == s2.exactness,
    ensures
        spec_validate_outcome(v, input, s1) == spec_validate_outcome(v, input, s2),
{
}

/// Exactness monotonicity at the validator: a validation never raises the
/// recorded exactness, whatever its outcome.
pub proof fn lemma_validate_never_raises_exactness(
    v: BuiltIntValidator,
    input: ValueInput,
    s: ValidationState,
)
    ensures
        s.exactness matches Some(c) ==> (spec_validate_outcome(v, input, s).1 matches Some(p)
            && p.rank() <= c.rank()),
{
}

impl IntValidator {
    /// Builder dispatch: with any constraint key present the schema builds
    /// a [`ConstrainedIntValidator`], else an [`IntValidator`] whose
    /// strictness resolves from schema then config.
    pub fn build(schema: IntSchema, config: Option<Config>) -> (r: BuiltIntValidator)
        ensures
            spec_has_constraints(schema) ==> (r matches BuiltIntValidator::Constrained(c) && ({
                &&& c.strict == spec_is_strict(schema.strict, config)
                &&& c.multiple_of == schema.multiple_of
                &&& c.le == schema.le
                &&& c.lt == schema.lt
                &&& c.ge == schema.ge
                &&& c.gt == schema.gt
            })),
            !spec_has_constraints(schema) ==> (r matches BuiltIntValidator::Unconstrained(u)
                && u.strict == spec_is_strict(schema.strict, config)),
    {
        let use_constrained = schema.multiple_of.is_some() || schema.le.is_some()
            || schema.lt.is_some() || schema.ge.is_some() || schema.gt.is_some();
        if use_constrained {
            BuiltIntValidator::Constrained(ConstrainedIntValidator::build(schema, config))
        } else {
            BuiltIntValidator::Unconstrained(IntValidator {
                strict: is_strict(schema.strict, config),
            })
        }
    }

    /// Coerces under the state's strictness override (defaulting to the
    /// validator's own), records exactness, and returns the integer.
    pub fn validate(&self, input: &ValueInput, state: &mut ValidationState) -> (r: Result<Int, ValError>)
        requires
            input.wf(),
        ensures
            result_models(r, spec_unconstrained_outcome(self.strict, *input, *old(state)).0),
            final(state).exactness == spec_unconstrained_outcome(self.strict, *input, *old(state)).1,
            ValidationState::same_except_exactness(*old(state), *final(state)),
    {
        let strict = state.strict_or(self.strict);
        match input.validate_int(strict) {
            Ok(m) => Ok(m.unpack(state)),
            Err(e) => Err(e),
        }
    }

    /// The validator's name.
    pub fn get_name(&self) -> (r: &'static str)
        ensures
            r@ == "int"@,
    {
        "int"
    }
}

impl ConstrainedIntValidator {
    /// Coerces as the unconstrained validator does, then applies the five
    /// predicates in fixed order; the first failing one names the error and
    /// carries the violated bound.
    pub fn validate(&self, input: &ValueInput, state: &mut ValidationState) -> (r: Result<Int, ValError>)
        requires
            self.wf(),
            input.wf(),
        ensures
            result_models(r, spec_constrained_outcome(*self, *input, *old(state)).0),
            final(state).exactness == spec_constrained_outcome(*self, *input, *old(state)).1,
            ValidationState::same_except_exactness(*old(state), *final(state)),
    {
        let strict = state.strict_or(self.strict);
        let m = match input.validate_int(strict) {
            Ok(m) => m,
            Err(e) => {
                return Err(e);
            },
        };
        let int_value = m.unpack(state);

        match &self.multiple_of {
            Some(multiple_of) => {
                let remainder = int_value.rem(multiple_of);
                if !remainder.is_zero() {
                    return Err(ValError::new(ErrorKind::MultipleOf {
                        multiple_of: multiple_of.dup(),
                    }));
                }
            },
            None => {},
        }
        match &self.le {
            Some(le) => {
                if int_value.gt(le) {
                    return Err(ValError::new(ErrorKind::LessThanEqual { le: le.dup() }));
                }
            },
            None => {},
        }
        match &self.lt {
            Some(lt) => {
                if int_value.ge(lt) {
                    return Err(ValError::new(ErrorKind::LessThan { lt: lt.dup() }));
                }
            },
            None => {},
        }
        match &self.ge {
            Some(ge) => {
                if int_value.lt(ge) {
                    return Err(ValError::new(ErrorKind::GreaterThanEqual { ge: ge.dup() }));
                }
            },
            None => {},
        }
        match &self.gt {
            Some(gt) => {
                if int_value.le(gt) {
                    return Err(ValError::new(ErrorKind::GreaterThan { gt: gt.dup() }));
                }
            },
            None => {},
        }
        Ok(int_value)
    }

    /// The validator's name.
    pub fn get_name(&self) -> (r: &'static str)
        ensures
            r@ == "constrained-int"@,
    {
        "constrained-int"
    }
}

impl BuiltIntValidator {
    /// The constrained variant keeps a usable `multiple_of`.
    pub open spec fn wf(&self) -> bool {
        match *self {
            BuiltIntValidator::Unconstrained(_) => true,
            BuiltIntValidator::Constrained(c) => c.wf(),
        }
    }

    /// Validates with whichever variant the builder picked.
    pub fn validate(&self, input: &ValueInput, state: &mut ValidationState) -> (r: Result<Int, ValError>)
        requires
            self.wf(),
            input.wf(),
        ensures
            result_models(r, spec_validate_outcome(*self, *input, *old(state)).0),
            final(state).exactness == spec_validate_outcome(*self, *input, *old(state)).1,
            ValidationState::same_except_exactness(*old(state), *final(state)),
    {
        match self {
            BuiltIntValidator::Unconstrained(u) => u.validate(input, state),
            BuiltIntValidator::Constrained(c) => c.validate(input, state),
        }
    }

    /// The picked validator's name.
    pub fn get_name(&self) -> (r: &'static str)
        ensures
            *self is Unconstrained ==> r@ == "int"@,
            *self is Constrained ==> r@ == "constrained-int"@,
    {
        match self {
            BuiltIntValidator::Unconstrained(u) => u.get_name(),
            BuiltIntValidator::Constrained(c) => c.get_name(),
        }
    }
}

} // verus!
