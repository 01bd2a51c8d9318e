//! Input values and integer coercion.
//!
//! A validator receives values from a dynamically typed host or a parsed
//! document.  [`ValueInput`] carries the shapes the integer validator can
//! meet; coercion under strict or lax mode is specified by
//! [`spec_validate_int`] and implemented by `ValueInput::validate_int`.
//! Lax mode accepts decimal strings, specified over raw UTF-8 bytes by
//! [`int_string_value`].

use vstd::prelude::*;
use crate::num::Int;
use crate::big::{big_from_decimal, big_neg};
use crate::errors::{ErrorKind, ErrorModel, ValError};
use crate::validation_state::{Exactness, ValidationState};

verus! {

/// ASCII whitespace, as trimmed from around a numeric string.
pub open spec fn is_ascii_ws(c: u8) -> bool {
    c == 32 || (9 <= c && c <= 13)
}

/// An ASCII decimal digit.
pub open spec fn is_digit(c: u8) -> bool {
    48 <= c && c <= 57
}

/// Every byte of `s` is an ASCII decimal digit.
pub open spec fn all_digits(s: Seq<u8>) -> bool {
    forall|i: int| 0 <= i < s.len() ==> is_digit(s[i])
}

/// The integer denoted by a big-endian sequence of ASCII decimal digits.
pub open spec fn decimal_value(digits: Seq<u8>) -> int
    decreases digits.len(),
{
    if digits.len() == 0 {
        0
    } else {
        decimal_value(digits.drop_last()) * 10 + (digits.last() - 48)
    }
}

/// `s` without its leading ASCII whitespace.
pub open spec fn trim_front(s: Seq<u8>) -> Seq<u8>
    decreases s.len(),
{
    if s.len() > 0 && is_ascii_ws(s[0]) {
        trim_front(s.drop_first())
    } else {
        s
    }
}

/// `s` without its trailing ASCII whitespace.
pub open spec fn trim_back(s: Seq<u8>) -> Seq<u8>
    decreases s.len(),
{
    if s.len() > 0 && is_ascii_ws(s.last()) {
        trim_back(s.drop_last())
    } else {
        s
    }
}

/// `s` without surrounding ASCII whitespace.
pub open spec fn trimmed(s: Seq<u8>) -> Seq<u8> {
    trim_back(trim_front(s))
}

/// The integer a byte string denotes under lax coercion: surrounding
/// whitespace ignored, then an optional sign and one or more decimal digits;
/// anything else denotes no integer.
pub open spec fn int_string_value(s: Seq<u8>) -> Option<int> {
    let t = trimmed(s);
    if t.len() > 0 && (t[0] == 43 || t[0] == 45) {
        let d = t.drop_first();
        if d.len() > 0 && all_digits(d) {
            if t[0] == 45 {
                Some(-decimal_value(d))
            } else {
                Some(decimal_value(d))
            }
        } else {
            None
        }
    } else if t.len() > 0 && all_digits(t) {
        Some(decimal_value(t))
    } else {
        None
    }
}

/// Ten to the `n`.
pub open spec fn pow10(n: nat) -> int
    decreases n,
{
    if n == 0 {
        1
    } else {
        10 * pow10((n - 1) as nat)
    }
}

proof fn lemma_pow10_pos(n: nat)
    ensures
        pow10(n) >= 1,
    decreases n,
{
    if n > 0 {
        lemma_pow10_pos((n - 1) as nat);
    }
}

proof fn lemma_pow10_mono(a: nat, b: nat)
    requires
        a <= b,
    ensures
        pow10(a) <= pow10(b),
    decreases b,
{
    if a < b {
        lemma_pow10_mono(a, (b - 1) as nat);
        lemma_pow10_pos((b - 1) as nat);
    }
}

proof fn lemma_decimal_value_bounds(d: Seq<u8>)
    requires
        all_digits(d),
    ensures
        0 <= decimal_value(d) < pow10(d.len()),
    decreases d.len(),
{
    if d.len() > 0 {
        assert(all_digits(d.drop_last()));
        lemma_decimal_value_bounds(d.drop_last());
    }
}

/// If the first `k` bytes are whitespace and byte `k` (if any) is not,
/// trimming the front leaves exactly the tail from `k`.
proof fn lemma_trim_front_at(s: Seq<u8>, k: int)
    requires
        0 <= k <= s.len(),
        forall|i: int| 0 <= i < k ==> is_ascii_ws(s[i]),
        k == s.len() || !is_ascii_ws(s[k]),
    ensures
        trim_front(s) == s.subrange(k, s.len() as int),
    decreases k,
{
    if k == 0 {
        assert(s.subrange(0, s.len() as int) =~= s);
    } else {
        lemma_trim_front_at(s.drop_first(), k - 1);
        assert(s.drop_first().subrange(k - 1, s.drop_first().len() as int)
            =~= s.subrange(k, s.len() as int));
    }
}

/// If every byte from `k` on is whitespace and byte `k - 1` (if any) is not,
/// trimming the back leaves exactly the head up to `k`.
proof fn lemma_trim_back_at(s: Seq<u8>, k: int)
    requires
        0 <= k <= s.len(),
        forall|i: int| k <= i < s.len() ==> is_ascii_ws(s[i]),
        k == 0 || !is_ascii_ws(s[k - 1]),
    ensures
        trim_back(s) == s.subrange(0, k),
    decreases s.len(),
{
    if k < s.len() {
        lemma_trim_back_at(s.drop_last(), k);
        assert(s.drop_last().subrange(0, k) =~= s.subrange(0, k));
    } else {
        if s.len() == 0 {
            assert(s.subrange(0, 0) =~= s);
        } else {
            assert(s.subrange(0, k) =~= s);
        }
    }
}

/// Whether a byte is ASCII whitespace.
fn is_ws_byte(c: u8) -> (r: bool)
    ensures
        r == is_ascii_ws(c),
{
    c == 32 || (9 <= c && c <= 13)
}

/// Parses a byte string as a decimal integer under lax coercion: surrounding
/// ASCII whitespace is ignored, an optional sign precedes one or more digits.
/// Returns exactly the integer [`int_string_value`] gives, or `None` where
/// that gives none.
pub fn str_as_int(bytes: &Vec<u8>) -> (r: Option<Int>)
    ensures
        match r {
            Some(v) => int_string_value(bytes@) == Some(v@) && v.wf(),
            None => int_string_value(bytes@) is None,
        },
{
    let len = bytes.len();
    let mut lo: usize = 0;
    while lo < len && is_ws_byte(bytes[lo])
        invariant
            0 <= lo <= len,
            len == bytes@.len(),
            forall|i: int| 0 <= i < lo ==> is_ascii_ws(bytes@[i]),
        decreases len - lo,
    {
        lo += 1;
    }
    let mut hi: usize = len;
    while hi > lo && is_ws_byte(bytes[hi - 1])
        invariant
            lo <= hi <= len,
            len == bytes@.len(),
            forall|i: int| hi <= i < len ==> is_ascii_ws(bytes@[i]),
        decreases hi,
    {
        hi -= 1;
    }
    proof {
        lemma_trim_front_at(bytes@, lo as int);
        let t1 = bytes@.subrange(lo as int, len as int);
        lemma_trim_back_at(t1, hi as int - lo as int);
        assert(t1.subrange(0, hi as int - lo as int) =~= bytes@.subrange(lo as int, hi as int));
    }
    let ghost t = bytes@.subrange(lo as int, hi as int);
    assert(trimmed(bytes@) == t);

    let mut ds: usize = lo;
    let mut neg: bool = false;
    let mut signed: bool = false;
    if lo < hi && (bytes[lo] == 43 || bytes[lo] == 45) {
        neg = bytes[lo] == 45;
        signed = true;
        ds = lo + 1;
    }
    let ghost d = bytes@.subrange(ds as int, hi as int);
    proof {
        if signed {
            assert(t.drop_first() =~= d);
        } else {
            assert(t =~= d);
        }
    }
    if ds == hi {
        // Nothing after the sign, or nothing at all.
        return None;
    }

    let mut digs: Vec<u8> = Vec::new();
    let mut ok: bool = true;
    let mut i: usize = ds;
    while i < hi
        invariant
            ds <= i <= hi,
            hi <= bytes@.len(),
            digs@ =~= bytes@.subrange(ds as int, i as int),
            ok == all_digits(bytes@.subrange(ds as int, i as int)),
        decreases hi - i,
    {
        let c = bytes[i];
        if c < 48 || c > 57 {
            proof {
                assert(!is_digit(bytes@.subrange(ds as int, i as int + 1)[i - ds as int]));
            }
            ok = false;
        }
        digs.push(c);
        i += 1;
        assert(digs@ =~= bytes@.subrange(ds as int, i as int));
    }
    assert(digs@ =~= d);
    if !ok {
        return None;
    }

    if digs.len() <= 18 {
        let n = digs.len();
        let mut acc: u64 = 0;
        let mut j: usize = 0;
        while j < n
            invariant
                0 <= j <= n,
                n == digs@.len() <= 18,
                all_digits(digs@),
                acc == decimal_value(digs@.subrange(0, j as int)),
                acc < pow10(j as nat),
            decreases n - j,
        {
            proof {
                lemma_pow10_mono(j as nat, 17);
                assert(pow10(17) == 100000000000000000) by {
                    reveal_with_fuel(pow10, 18);
                }
                assert(digs@.subrange(0, j as int + 1).drop_last() =~= digs@.subrange(0, j as int));
            }
            let c = digs[j];
            acc = acc * 10 + (c - 48) as u64;
            j += 1;
        }
        proof {
            assert(digs@.subrange(0, n as int) =~= digs@);
            lemma_pow10_mono(n as nat, 18);
            assert(pow10(18) == 1000000000000000000) by {
                reveal_with_fuel(pow10, 19);
            }
        }
        let v = acc as i64;
        if neg {
            Some(Int::from_i64(-v))
        } else {
            Some(Int::from_i64(v))
        }
    } else {
        proof {
            lemma_decimal_value_bounds(digs@);
        }
        let b = big_from_decimal(&digs);
        let b = if neg {
            big_neg(b)
        } else {
            b
        };
        Some(Int::from_big(b))
    }
}

/// What the integer validator reads of a float input: whether it is finite
/// and integral, and then its value.  The host adapter judges the float
/// itself; floating point stays outside this library.
pub enum FloatRepr {
    /// Finite with fractional part exactly zero; carries the value.
    Integral(i64),
    /// Finite with a non-zero fractional part.
    Fractional,
    /// NaN or an infinity.
    NonFinite,
}

/// An input value as the integer validator can meet it: a native integer of
/// any size, a float, a string as raw UTF-8 bytes, a boolean, or any other
/// host value.
pub enum ValueInput {
    Int(Int),
    Float(FloatRepr),
    Str(Vec<u8>),
    Bool(bool),
    Other,
}

impl ValueInput {
    /// A native integer input carries a canonical `Int`.
    pub open spec fn wf(&self) -> bool {
        match *self {
            ValueInput::Int(n) => n.wf(),
            _ => true,
        }
    }
}

/// Coercion of an input to an integer.  Strict mode accepts only native
/// integers, at exactness `Exact`.  Lax mode additionally accepts integral
/// floats at `Strict`, and decimal strings and booleans at `Lax`; a
/// fractional float, a non-finite float, a malformed string and any other
/// value are rejected with the kind named here.
pub open spec fn spec_validate_int(input: ValueInput, strict: bool) -> Result<(int, Exactness), ErrorModel> {
    match input {
        ValueInput::Int(n) => Ok((n@, Exactness::Exact)),
        ValueInput::Float(f) => if strict {
            Err(ErrorModel::IntType)
        } else {
            match f {
                FloatRepr::Integral(v) => Ok((v as int, Exactness::Strict)),
                FloatRepr::Fractional => Err(ErrorModel::IntFromFloat),
                FloatRepr::NonFinite => Err(ErrorModel::FiniteNumber),
            }
        },
        ValueInput::Str(s) => if strict {
            Err(ErrorModel::IntType)
        } else {
            match int_string_value(s@) {
                Some(v) => Ok((v, Exactness::Lax)),
                None => Err(ErrorModel::IntParsing),
            }
        },
        ValueInput::Bool(b) => if strict {
            Err(ErrorModel::IntType)
        } else {
            Ok((if b { 1int } else { 0int }, Exactness::Lax))
        },
        ValueInput::Other => Err(ErrorModel::IntType),
    }
}

/// The integer an input denotes, where it denotes one at all: what lax
/// coercion would extract, independent of mode.
pub open spec fn input_integer_value(input: ValueInput) -> Option<int> {
    match input {
        ValueInput::Int(n) => Some(n@),
        ValueInput::Float(FloatRepr::Integral(v)) => Some(v as int),
        ValueInput::Float(_) => None,
        ValueInput::Str(s) => int_string_value(s@),
        ValueInput::Bool(b) => Some(if b { 1int } else { 0int }),
        ValueInput::Other => None,
    }
}

/// Big-integer safety: a successful coercion returns exactly the integer
/// the input denotes, whatever its magnitude — no overflow, no loss of
/// precision.
pub proof fn lemma_no_precision_loss(input: ValueInput, strict: bool, n: int, e: Exactness)
    requires
        spec_validate_int(input, strict) == Ok::<(int, Exactness), ErrorModel>((n, e)),
    ensures
        input_integer_value(input) == Some(n),
{
}

/// The result of a successful coercion: the coerced integer together with
/// the exactness level of the match.
pub struct IntMatch {
    pub value: Int,
    pub exactness: Exactness,
}

impl IntMatch {
    /// Records the match's exactness into the state and hands out the
    /// integer carrier.
    pub fn unpack(self, state: &mut ValidationState) -> (r: Int)
        ensures
            r == self.value,
            final(state).exactness == Exactness::spec_floor(old(state).exactness, self.exactness),
            ValidationState::same_except_exactness(*old(state), *final(state)),
    {
        state.floor_exactness(self.exactness);
        self.value
    }
}

impl ValueInput {
    /// Coerces the input to an integer under the given mode, as
    /// [`spec_validate_int`] lays down, together with the exactness of the
    /// match.
    pub fn validate_int(&self, strict: bool) -> (r: Result<IntMatch, ValError>)
        requires
            self.wf(),
        ensures
            match spec_validate_int(*self, strict) {
                Ok(ve) => ({
                    &&& r matches Ok(m)
                    &&& m.value@ == ve.0
                    &&& m.value.wf()
                    &&& m.exactness == ve.1
                }),
                Err(em) => (r matches Err(e) && e@ == em),
            },
    {
        match self {
            ValueInput::Int(n) => Ok(IntMatch { value: n.dup(), exactness: Exactness::Exact }),
            ValueInput::Float(f) => {
                if strict {
                    Err(ValError::new(ErrorKind::IntType))
                } else {
                    match f {
                        FloatRepr::Integral(v) => Ok(IntMatch {
                            value: Int::from_i64(*v),
                            exactness: Exactness::Strict,
                        }),
                        FloatRepr::Fractional => Err(ValError::new(ErrorKind::IntFromFloat)),
                        FloatRepr::NonFinite => Err(ValError::new(ErrorKind::FiniteNumber)),
                    }
                }
            },
            ValueInput::Str(s) => {
                if strict {
                    Err(ValError::new(ErrorKind::IntType))
                } else {
                    match str_as_int(s) {
                        Some(v) => Ok(IntMatch { value: v, exactness: Exactness::Lax }),
                        None => Err(ValError::new(ErrorKind::IntParsing)),
                    }
                }
            },
            ValueInput::Bool(b) => {
                if strict {
                    Err(ValError::new(ErrorKind::IntType))
                } else {
                    Ok(IntMatch {
                        value: Int::from_i64(if *b { 1 } else { 0 }),
                        exactness: Exactness::Lax,
                    })
                }
            },
            ValueInput::Other => Err(ValError::new(ErrorKind::IntType)),
        }
    }
}

} // verus!
