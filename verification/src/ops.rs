//! The operator capability set of the value model: arithmetic, comparison,
//! group comparison, logical, bitwise, containment, casting, indexing and
//! slicing, and the prefix unary forms.

use vstd::prelude::*;

use crate::error::EvalError;
use crate::fp::{float_div_bits, float_mul_bits, float_neg_bits, float_of_int, float_sub_bits,
    float_add_bits, float_to_int, fp_add, fp_div, fp_mul, fp_neg, fp_of_int, fp_sub, fp_to_int};
use crate::interval::{interval_add_spec, interval_div_spec, interval_mul_spec, interval_sub_spec};
use crate::value::{compare_spec, equals_spec, lemma_values_view, type_view, value_view,
    values_view, Value, ValueType, ValueView, TypeView};
use crate::expr::{ComparisonOperator, GroupComparisonOperator};

verus! {

/// Shorthand for the wrapping 64-bit sum.
pub open spec fn wrap_add(x: i64, y: i64) -> i64 {
    vstd::wrapping::i64_specs::wrapping_add(x, y)
}

/// Shorthand for the wrapping 64-bit difference.
pub open spec fn wrap_sub(x: i64, y: i64) -> i64 {
    vstd::wrapping::i64_specs::wrapping_sub(x, y)
}

/// Shorthand for the wrapping 64-bit product.
pub open spec fn wrap_mul(x: i64, y: i64) -> i64 {
    vstd::wrapping::i64_specs::wrapping_mul(x, y)
}

/// Truncating 64-bit division, wrapping on the one overflowing pair.
pub open spec fn int_div(a: i64, b: i64) -> i64 {
    match a.checked_div(b) {
        Some(q) => q,
        None => i64::MIN,
    }
}

/// Truncating 64-bit remainder; the one overflowing pair leaves zero.
pub open spec fn int_rem(a: i64, b: i64) -> i64 {
    match a.checked_rem(b) {
        Some(q) => q,
        None => 0i64,
    }
}

/// Wrapping integer exponentiation: the product of `e` copies of `b`.
pub open spec fn wrap_pow(b: i64, e: nat) -> i64
    decreases e,
{
    if e == 0 {
        1i64
    } else {
        wrap_mul(wrap_pow(b, (e - 1) as nat), b)
    }
}

/// The sum of two values: integers wrap, floats round to nearest, intervals
/// add componentwise within range.
pub open spec fn add_spec(a: ValueView, b: ValueView) -> Result<ValueView, EvalError> {
    match a {
        ValueView::Integer(x) => match b {
            ValueView::Integer(y) => Ok(ValueView::Integer(wrap_add(x, y))),
            _ => Err(EvalError::TypeMismatch),
        },
        ValueView::Float(x) => match b {
            ValueView::Float(y) => Ok(ValueView::Float(fp_add(x, y))),
            _ => Err(EvalError::TypeMismatch),
        },
        ValueView::Interval(x) => match b {
            ValueView::Interval(y) => match interval_add_spec(x, y) {
                Ok(iv) => Ok(ValueView::Interval(iv)),
                Err(e) => Err(e),
            },
            _ => Err(EvalError::TypeMismatch),
        },
        _ => Err(EvalError::InvalidOperation),
    }
}

/// The difference of two values, as for `add_spec`.
pub open spec fn sub_spec(a: ValueView, b: ValueView) -> Result<ValueView, EvalError> {
    match a {
        ValueView::Integer(x) => match b {
            ValueView::Integer(y) => Ok(ValueView::Integer(wrap_sub(x, y))),
            _ => Err(EvalError::TypeMismatch),
        },
        ValueView::Float(x) => match b {
            ValueView::Float(y) => Ok(ValueView::Float(fp_sub(x, y))),
            _ => Err(EvalError::TypeMismatch),
        },
        ValueView::Interval(x) => match b {
            ValueView::Interval(y) => match interval_sub_spec(x, y) {
                Ok(iv) => Ok(ValueView::Interval(iv)),
                Err(e) => Err(e),
            },
            _ => Err(EvalError::TypeMismatch),
        },
        _ => Err(EvalError::InvalidOperation),
    }
}

/// The product of two values; an interval multiplies by an integer.
pub open spec fn mul_spec(a: ValueView, b: ValueView) -> Result<ValueView, EvalError> {
    match a {
        ValueView::Integer(x) => match b {
            ValueView::Integer(y) => Ok(ValueView::Integer(wrap_mul(x, y))),
            _ => Err(EvalError::TypeMismatch),
        },
        ValueView::Float(x) => match b {
            ValueView::Float(y) => Ok(ValueView::Float(fp_mul(x, y))),
            _ => Err(EvalError::TypeMismatch),
        },
        ValueView::Interval(x) => match b {
            ValueView::Integer(y) => match interval_mul_spec(x, y) {
                Ok(iv) => Ok(ValueView::Interval(iv)),
                Err(e) => Err(e),
            },
            _ => Err(EvalError::TypeMismatch),
        },
        _ => Err(EvalError::InvalidOperation),
    }
}

/// The quotient of two values.  An integer division by zero fails with
/// `DivisionByZero`; a float division by zero follows IEEE 754; an interval
/// divides by an integer.
pub open spec fn div_spec(a: ValueView, b: ValueView) -> Result<ValueView, EvalError> {
    match a {
        ValueView::Integer(x) => match b {
            ValueView::Integer(y) => if y == 0 {
                Err(EvalError::DivisionByZero)
            } else {
                Ok(ValueView::Integer(int_div(x, y)))
            },
            _ => Err(EvalError::TypeMismatch),
        },
        ValueView::Float(x) => match b {
            ValueView::Float(y) => Ok(ValueView::Float(fp_div(x, y))),
            _ => Err(EvalError::TypeMismatch),
        },
        ValueView::Interval(x) => match b {
            ValueView::Integer(y) => match interval_div_spec(x, y) {
                Ok(iv) => Ok(ValueView::Interval(iv)),
                Err(e) => Err(e),
            },
            _ => Err(EvalError::TypeMismatch),
        },
        _ => Err(EvalError::InvalidOperation),
    }
}

/// The remainder of two integers; a zero divisor fails with
/// `DivisionByZero`.
pub open spec fn rem_spec(a: ValueView, b: ValueView) -> Result<ValueView, EvalError> {
    match a {
        ValueView::Integer(x) => match b {
            ValueView::Integer(y) => if y == 0 {
                Err(EvalError::DivisionByZero)
            } else {
                Ok(ValueView::Integer(int_rem(x, y)))
            },
            _ => Err(EvalError::TypeMismatch),
        },
        _ => Err(EvalError::InvalidOperation),
    }
}

/// Integer exponentiation.  A negative exponent is rejected; the exponent is
/// reduced modulo 2^32 and the products wrap.
pub open spec fn caret_spec(a: ValueView, b: ValueView) -> Result<ValueView, EvalError> {
    match a {
        ValueView::Integer(x) => match b {
            ValueView::Integer(y) => if y < 0 {
                Err(EvalError::InvalidOperation)
            } else {
                Ok(ValueView::Integer(wrap_pow(x, (y as int % 0x1_0000_0000) as nat)))
            },
            _ => Err(EvalError::TypeMismatch),
        },
        _ => Err(EvalError::InvalidOperation),
    }
}

/// A bitwise operation on two integers.
pub open spec fn bitor_spec(a: ValueView, b: ValueView) -> Result<ValueView, EvalError> {
    match a {
        ValueView::Integer(x) => match b {
            ValueView::Integer(y) => Ok(ValueView::Integer(x | y)),
            _ => Err(EvalError::TypeMismatch),
        },
        _ => Err(EvalError::InvalidOperation),
    }
}

/// See `bitor_spec`.
pub open spec fn bitand_spec(a: ValueView, b: ValueView) -> Result<ValueView, EvalError> {
    match a {
        ValueView::Integer(x) => match b {
            ValueView::Integer(y) => Ok(ValueView::Integer(x & y)),
            _ => Err(EvalError::TypeMismatch),
        },
        _ => Err(EvalError::InvalidOperation),
    }
}

/// See `bitor_spec`.
pub open spec fn bitxor_spec(a: ValueView, b: ValueView) -> Result<ValueView, EvalError> {
    match a {
        ValueView::Integer(x) => match b {
            ValueView::Integer(y) => Ok(ValueView::Integer(x ^ y)),
            _ => Err(EvalError::TypeMismatch),
        },
        _ => Err(EvalError::InvalidOperation),
    }
}

/// A left shift of an integer; the shift amount is masked to six bits.
pub open spec fn shl_spec(a: ValueView, b: ValueView) -> Result<ValueView, EvalError> {
    match a {
        ValueView::Integer(x) => match b {
            ValueView::Integer(y) => Ok(
                ValueView::Integer(
                    vstd::wrapping::i64_specs::wrapping_shl(x, (y as int % 0x1_0000_0000) as u32),
                ),
            ),
            _ => Err(EvalError::TypeMismatch),
        },
        _ => Err(EvalError::InvalidOperation),
    }
}

/// A right shift of an integer; the shift amount is masked to six bits.
pub open spec fn shr_spec(a: ValueView, b: ValueView) -> Result<ValueView, EvalError> {
    match a {
        ValueView::Integer(x) => match b {
            ValueView::Integer(y) => Ok(
                ValueView::Integer(
                    vstd::wrapping::i64_specs::wrapping_shr(x, (y as int % 0x1_0000_0000) as u32),
                ),
            ),
            _ => Err(EvalError::TypeMismatch),
        },
        _ => Err(EvalError::InvalidOperation),
    }
}

/// Whether `vs` holds an element equal to `x`, under the total equality
/// relation.
pub open spec fn contains_value(vs: Seq<ValueView>, x: ValueView) -> bool {
    exists|i: int| 0 <= i < vs.len() && equals_spec(#[trigger] vs[i], x)
}

/// `>`: defined exactly when the partial ordering relation is, failing with
/// `NotComparable` otherwise.
pub open spec fn gt_spec(a: ValueView, b: ValueView) -> Result<ValueView, EvalError> {
    match compare_spec(a, b) {
        Some(o) => Ok(ValueView::Boolean(o == 1i8)),
        None => Err(EvalError::NotComparable),
    }
}

/// `>=`, as for `gt_spec`.
pub open spec fn gte_spec(a: ValueView, b: ValueView) -> Result<ValueView, EvalError> {
    match compare_spec(a, b) {
        Some(o) => Ok(ValueView::Boolean(o >= 0i8)),
        None => Err(EvalError::NotComparable),
    }
}

/// `<`, as for `gt_spec`.
pub open spec fn lt_spec(a: ValueView, b: ValueView) -> Result<ValueView, EvalError> {
    match compare_spec(a, b) {
        Some(o) => Ok(ValueView::Boolean(o == -1i8)),
        None => Err(EvalError::NotComparable),
    }
}

/// `<=`, as for `gt_spec`.
pub open spec fn lte_spec(a: ValueView, b: ValueView) -> Result<ValueView, EvalError> {
    match compare_spec(a, b) {
        Some(o) => Ok(ValueView::Boolean(o <= 0i8)),
        None => Err(EvalError::NotComparable),
    }
}

/// SQL equality: a Null operand makes the result Null ("unknown"); values of
/// the same scalar or row variant compare by the total equality relation;
/// arrays and composites do not support the operator; a cross-variant pair
/// is a type mismatch.
pub open spec fn eq_spec(a: ValueView, b: ValueView) -> Result<ValueView, EvalError> {
    if a is Null || b is Null {
        Ok(ValueView::Null)
    } else {
        match (a, b) {
            (ValueView::Boolean(_), ValueView::Boolean(_)) => Ok(
                ValueView::Boolean(equals_spec(a, b)),
            ),
            (ValueView::Integer(_), ValueView::Integer(_)) => Ok(
                ValueView::Boolean(equals_spec(a, b)),
            ),
            (ValueView::Float(_), ValueView::Float(_)) => Ok(
                ValueView::Boolean(equals_spec(a, b)),
            ),
            (ValueView::Text(_), ValueView::Text(_)) => Ok(ValueView::Boolean(equals_spec(a, b))),
            (ValueView::Interval(_), ValueView::Interval(_)) => Ok(
                ValueView::Boolean(equals_spec(a, b)),
            ),
            (ValueView::Row(_, _), ValueView::Row(_, _)) => Ok(
                ValueView::Boolean(equals_spec(a, b)),
            ),
            (ValueView::Array(_, _), ValueView::Array(_, _)) => Err(EvalError::InvalidOperation),
            (ValueView::Composite(_, _), ValueView::Composite(_, _)) => Err(
                EvalError::InvalidOperation,
            ),
            _ => Err(EvalError::TypeMismatch),
        }
    }
}

/// SQL inequality: the negation of `eq_spec` where that is a boolean.
pub open spec fn neq_spec(a: ValueView, b: ValueView) -> Result<ValueView, EvalError> {
    match eq_spec(a, b) {
        Ok(ValueView::Boolean(v)) => Ok(ValueView::Boolean(!v)),
        other => other,
    }
}

/// Null-safe equality: two Nulls are equal, a single Null is unequal to
/// anything, and otherwise it is `eq_spec`.
pub open spec fn null_safe_eq_spec(a: ValueView, b: ValueView) -> Result<ValueView, EvalError> {
    if a is Null && b is Null {
        Ok(ValueView::Boolean(true))
    } else if a is Null || b is Null {
        Ok(ValueView::Boolean(false))
    } else {
        eq_spec(a, b)
    }
}

/// Whether one scalar comparison holds between `a` and one array element.
pub open spec fn scalar_matches(op: ComparisonOperator, a: ValueView, b: ValueView) -> bool {
    match op {
        ComparisonOperator::Equal => equals_spec(a, b),
        ComparisonOperator::NotEqual => !equals_spec(a, b),
        ComparisonOperator::Greater => compare_spec(a, b) == Some(1i8),
        ComparisonOperator::GreaterEqual => compare_spec(a, b) == Some(1i8) || compare_spec(a, b)
            == Some(0i8),
        ComparisonOperator::Less => compare_spec(a, b) == Some(-1i8),
        ComparisonOperator::LessEqual => compare_spec(a, b) == Some(-1i8) || compare_spec(a, b)
            == Some(0i8),
        ComparisonOperator::NullSafeEqual => false,
    }
}

/// Whether the declared element type of the right-hand array matches the
/// left scalar's variant.
pub open spec fn group_elem_type_ok(a: ValueView, t: TypeView) -> bool {
    match a {
        ValueView::Boolean(_) => t is Boolean,
        ValueView::Integer(_) => t is Integer,
        ValueView::Float(_) => t is Float,
        ValueView::Text(_) => t is Text,
        _ => false,
    }
}

/// Whether some element of `vs` satisfies the scalar comparison with `a`.
pub open spec fn group_any_matches(op: ComparisonOperator, a: ValueView, vs: Seq<ValueView>) -> bool {
    exists|i: int| 0 <= i < vs.len() && scalar_matches(op, a, #[trigger] vs[i])
}

/// Whether every element of `vs` satisfies the scalar comparison with `a`.
pub open spec fn group_all_match(op: ComparisonOperator, a: ValueView, vs: Seq<ValueView>) -> bool {
    forall|i: int| 0 <= i < vs.len() ==> scalar_matches(op, a, #[trigger] vs[i])
}

/// A group comparison: the scalar comparison between `a` and every element
/// of the right-hand array, reduced with OR (ANY) or AND (ALL).
pub open spec fn group_compare_spec(
    op: ComparisonOperator,
    group_op: GroupComparisonOperator,
    a: ValueView,
    b: ValueView,
) -> Result<ValueView, EvalError> {
    if op is NullSafeEqual {
        Err(EvalError::InvalidOperation)
    } else {
        match a {
            ValueView::Boolean(_) | ValueView::Integer(_) | ValueView::Float(_)
                | ValueView::Text(_) => {
                match b {
                    ValueView::Array(t, vs) => if group_elem_type_ok(a, t) {
                        Ok(
                            ValueView::Boolean(
                                match group_op {
                                    GroupComparisonOperator::Any => group_any_matches(op, a, vs),
                                    GroupComparisonOperator::All => group_all_match(op, a, vs),
                                },
                            ),
                        )
                    } else {
                        Err(EvalError::TypeMismatch)
                    },
                    _ => Err(EvalError::TypeMismatch),
                }
            },
            _ => Err(EvalError::InvalidOperation),
        }
    }
}

/// Containment: whether the left array holds an element equal to the right
/// value.
pub open spec fn contains_op_spec(a: ValueView, b: ValueView) -> Result<ValueView, EvalError> {
    match a {
        ValueView::Array(_, vs) => Ok(ValueView::Boolean(contains_value(vs, b))),
        _ => Err(EvalError::InvalidOperation),
    }
}

/// Array overlap, the OR of two arrays: whether some element of the left
/// array equals some element of the right one.
pub open spec fn overlap_value(v1: Seq<ValueView>, v2: Seq<ValueView>) -> bool {
    exists|i: int| 0 <= i < v1.len() && contains_value(v2, #[trigger] v1[i])
}

/// Three-valued logic: `None` stands for Null.
pub open spec fn tri_of(v: ValueView) -> Option<bool> {
    match v {
        ValueView::Boolean(b) => Some(b),
        _ => None,
    }
}

/// Whether a value takes part in three-valued logic.
pub open spec fn is_tri(v: ValueView) -> bool {
    v is Boolean || v is Null
}

/// The three-valued result as a value.
pub open spec fn tri_value(v: Option<bool>) -> ValueView {
    match v {
        Some(b) => ValueView::Boolean(b),
        None => ValueView::Null,
    }
}

/// Logical OR.  Two booleans or Nulls follow the three-valued truth table;
/// two arrays test overlap; anything else fails.
pub open spec fn logical_or_spec(a: ValueView, b: ValueView) -> Result<ValueView, EvalError> {
    match (a, b) {
        (ValueView::Array(_, v1), ValueView::Array(_, v2)) => Ok(
            ValueView::Boolean(overlap_value(v1, v2)),
        ),
        _ => {
            if is_tri(a) && is_tri(b) {
                Ok(
                    tri_value(
                        match (tri_of(a), tri_of(b)) {
                            (Some(x), Some(y)) => Some(x || y),
                            (Some(true), None) => Some(true),
                            (None, Some(true)) => Some(true),
                            _ => None,
                        },
                    ),
                )
            } else if is_tri(a) || a is Array {
                Err(EvalError::TypeMismatch)
            } else {
                Err(EvalError::InvalidOperation)
            }
        },
    }
}

/// Logical AND over the three-valued truth table.
pub open spec fn logical_and_spec(a: ValueView, b: ValueView) -> Result<ValueView, EvalError> {
    if is_tri(a) && is_tri(b) {
        Ok(
            tri_value(
                match (tri_of(a), tri_of(b)) {
                    (Some(x), Some(y)) => Some(x && y),
                    (Some(false), None) => Some(false),
                    (None, Some(false)) => Some(false),
                    _ => None,
                },
            ),
        )
    } else if is_tri(a) {
        Err(EvalError::TypeMismatch)
    } else {
        Err(EvalError::InvalidOperation)
    }
}

/// Logical XOR over the three-valued truth table: any Null operand makes the
/// result Null.
pub open spec fn logical_xor_spec(a: ValueView, b: ValueView) -> Result<ValueView, EvalError> {
    if is_tri(a) && is_tri(b) {
        Ok(
            tri_value(
                match (tri_of(a), tri_of(b)) {
                    (Some(x), Some(y)) => Some(x != y),
                    _ => None,
                },
            ),
        )
    } else if is_tri(a) {
        Err(EvalError::TypeMismatch)
    } else {
        Err(EvalError::InvalidOperation)
    }
}

/// Negation: integers wrap at the minimum value, floats flip the sign bit.
pub open spec fn neg_spec(a: ValueView) -> Result<ValueView, EvalError> {
    match a {
        ValueView::Integer(x) => Ok(ValueView::Integer(wrap_sub(0i64, x))),
        ValueView::Float(x) => Ok(ValueView::Float(fp_neg(x))),
        _ => Err(EvalError::InvalidOperation),
    }
}

/// The `!` and NOT forms: boolean negation.
pub open spec fn bang_spec(a: ValueView) -> Result<ValueView, EvalError> {
    match a {
        ValueView::Boolean(x) => Ok(ValueView::Boolean(!x)),
        _ => Err(EvalError::InvalidOperation),
    }
}

impl Value {
    /// The `+` capability, proved against `add_spec`.
    pub fn add_op(&self, other: &Value) -> (r: Result<Value, EvalError>)
        ensures
            (match r {
                Ok(v) => add_spec(self@, other@) == Ok::<ValueView, EvalError>(v@),
                Err(e) => add_spec(self@, other@) == Err::<ValueView, EvalError>(e),
            }),
    {
        match (self, other) {
            (Value::Integer(x), Value::Integer(y)) => Ok(Value::Integer(x.wrapping_add(*y))),
            (Value::Float(x), Value::Float(y)) => Ok(Value::Float(float_add_bits(*x, *y))),
            (Value::Interval(x), Value::Interval(y)) => match x.add_interval(y) {
                Ok(iv) => Ok(Value::Interval(iv)),
                Err(e) => Err(e),
            },
            (Value::Integer(_), _) | (Value::Float(_), _) | (Value::Interval(_), _) => Err(
                EvalError::TypeMismatch,
            ),
            _ => Err(EvalError::InvalidOperation),
        }
    }

    /// The `-` capability, proved against `sub_spec`.
    pub fn sub_op(&self, other: &Value) -> (r: Result<Value, EvalError>)
        ensures
            (match r {
                Ok(v) => sub_spec(self@, other@) == Ok::<ValueView, EvalError>(v@),
                Err(e) => sub_spec(self@, other@) == Err::<ValueView, EvalError>(e),
            }),
    {
        match (self, other) {
            (Value::Integer(x), Value::Integer(y)) => Ok(Value::Integer(x.wrapping_sub(*y))),
            (Value::Float(x), Value::Float(y)) => Ok(Value::Float(float_sub_bits(*x, *y))),
            (Value::Interval(x), Value::Interval(y)) => match x.sub_interval(y) {
                Ok(iv) => Ok(Value::Interval(iv)),
                Err(e) => Err(e),
            },
            (Value::Integer(_), _) | (Value::Float(_), _) | (Value::Interval(_), _) => Err(
                EvalError::TypeMismatch,
            ),
            _ => Err(EvalError::InvalidOperation),
        }
    }

    /// The `*` capability, proved against `mul_spec`.
    pub fn mul_op(&self, other: &Value) -> (r: Result<Value, EvalError>)
        ensures
            (match r {
                Ok(v) => mul_spec(self@, other@) == Ok::<ValueView, EvalError>(v@),
                Err(e) => mul_spec(self@, other@) == Err::<ValueView, EvalError>(e),
            }),
    {
        match (self, other) {
            (Value::Integer(x), Value::Integer(y)) => Ok(Value::Integer(x.wrapping_mul(*y))),
            (Value::Float(x), Value::Float(y)) => Ok(Value::Float(float_mul_bits(*x, *y))),
            (Value::Interval(x), Value::Integer(y)) => match x.mul_interval(*y) {
                Ok(iv) => Ok(Value::Interval(iv)),
                Err(e) => Err(e),
            },
            (Value::Integer(_), _) | (Value::Float(_), _) | (Value::Interval(_), _) => Err(
                EvalError::TypeMismatch,
            ),
            _ => Err(EvalError::InvalidOperation),
        }
    }

    /// The `/` capability, proved against `div_spec`.
    pub fn div_op(&self, other: &Value) -> (r: Result<Value, EvalError>)
        ensures
            (match r {
                Ok(v) => div_spec(self@, other@) == Ok::<ValueView, EvalError>(v@),
                Err(e) => div_spec(self@, other@) == Err::<ValueView, EvalError>(e),
            }),
    {
        match (self, other) {
            (Value::Integer(x), Value::Integer(y)) => {
                if *y == 0 {
                    Err(EvalError::DivisionByZero)
                } else {
                    match x.checked_div(*y) {
                        Some(q) => Ok(Value::Integer(q)),
                        None => Ok(Value::Integer(i64::MIN)),
                    }
                }
            },
            (Value::Float(x), Value::Float(y)) => Ok(Value::Float(float_div_bits(*x, *y))),
            (Value::Interval(x), Value::Integer(y)) => match x.div_interval(*y) {
                Ok(iv) => Ok(Value::Interval(iv)),
                Err(e) => Err(e),
            },
            (Value::Integer(_), _) | (Value::Float(_), _) | (Value::Interval(_), _) => Err(
                EvalError::TypeMismatch,
            ),
            _ => Err(EvalError::InvalidOperation),
        }
    }

    /// The `%` capability, proved against `rem_spec`.
    pub fn rem_op(&self, other: &Value) -> (r: Result<Value, EvalError>)
        ensures
            (match r {
                Ok(v) => rem_spec(self@, other@) == Ok::<ValueView, EvalError>(v@),
                Err(e) => rem_spec(self@, other@) == Err::<ValueView, EvalError>(e),
            }),
    {
        match (self, other) {
            (Value::Integer(x), Value::Integer(y)) => {
                if *y == 0 {
                    Err(EvalError::DivisionByZero)
                } else {
                    match x.checked_rem(*y) {
                        Some(q) => Ok(Value::Integer(q)),
                        None => Ok(Value::Integer(0)),
                    }
                }
            },
            (Value::Integer(_), _) => Err(EvalError::TypeMismatch),
            _ => Err(EvalError::InvalidOperation),
        }
    }

    /// The `^` exponentiation capability, proved against `caret_spec`.
    pub fn caret_op(&self, other: &Value) -> (r: Result<Value, EvalError>)
        ensures
            (match r {
                Ok(v) => caret_spec(self@, other@) == Ok::<ValueView, EvalError>(v@),
                Err(e) => caret_spec(self@, other@) == Err::<ValueView, EvalError>(e),
            }),
    {
        match (self, other) {
            (Value::Integer(x), Value::Integer(y)) => {
                if *y < 0 {
                    Err(EvalError::InvalidOperation)
                } else {
                    let e: u32 = (*y % 0x1_0000_0000) as u32;
                    let mut acc: i64 = 1;
                    let mut k: u32 = 0;
                    while k < e
                        invariant
                            k <= e,
                            acc == wrap_pow(*x, k as nat),
                        decreases e - k,
                    {
                        acc = acc.wrapping_mul(*x);
                        k += 1;
                    }
                    Ok(Value::Integer(acc))
                }
            },
            (Value::Integer(_), _) => Err(EvalError::TypeMismatch),
            _ => Err(EvalError::InvalidOperation),
        }
    }

    /// The bitwise `|` capability, proved against `bitor_spec`.
    pub fn or_op(&self, other: &Value) -> (r: Result<Value, EvalError>)
        ensures
            (match r {
                Ok(v) => bitor_spec(self@, other@) == Ok::<ValueView, EvalError>(v@),
                Err(e) => bitor_spec(self@, other@) == Err::<ValueView, EvalError>(e),
            }),
    {
        match (self, other) {
            (Value::Integer(x), Value::Integer(y)) => Ok(Value::Integer(*x | *y)),
            (Value::Integer(_), _) => Err(EvalError::TypeMismatch),
            _ => Err(EvalError::InvalidOperation),
        }
    }

    /// The bitwise `&` capability, proved against `bitand_spec`.
    pub fn and_op(&self, other: &Value) -> (r: Result<Value, EvalError>)
        ensures
            (match r {
                Ok(v) => bitand_spec(self@, other@) == Ok::<ValueView, EvalError>(v@),
                Err(e) => bitand_spec(self@, other@) == Err::<ValueView, EvalError>(e),
            }),
    {
        match (self, other) {
            (Value::Integer(x), Value::Integer(y)) => Ok(Value::Integer(*x & *y)),
            (Value::Integer(_), _) => Err(EvalError::TypeMismatch),
            _ => Err(EvalError::InvalidOperation),
        }
    }

    /// The bitwise `#` capability, proved against `bitxor_spec`.
    pub fn xor_op(&self, other: &Value) -> (r: Result<Value, EvalError>)
        ensures
            (match r {
                Ok(v) => bitxor_spec(self@, other@) == Ok::<ValueView, EvalError>(v@),
                Err(e) => bitxor_spec(self@, other@) == Err::<ValueView, EvalError>(e),
            }),
    {
        match (self, other) {
            (Value::Integer(x), Value::Integer(y)) => Ok(Value::Integer(*x ^ *y)),
            (Value::Integer(_), _) => Err(EvalError::TypeMismatch),
            _ => Err(EvalError::InvalidOperation),
        }
    }

    /// The `<<` capability, proved against `shl_spec`.
    pub fn shl_op(&self, other: &Value) -> (r: Result<Value, EvalError>)
        ensures
            (match r {
                Ok(v) => shl_spec(self@, other@) == Ok::<ValueView, EvalError>(v@),
                Err(e) => shl_spec(self@, other@) == Err::<ValueView, EvalError>(e),
            }),
    {
        match (self, other) {
            (Value::Integer(x), Value::Integer(y)) => {
                let m: i64 = *y % 0x1_0000_0000;
                let amount: u32 = (if m < 0 {
                    m + 0x1_0000_0000
                } else {
                    m
                }) as u32;
                Ok(Value::Integer(x.wrapping_shl(amount)))
            },
            (Value::Integer(_), _) => Err(EvalError::TypeMismatch),
            _ => Err(EvalError::InvalidOperation),
        }
    }

    /// The `>>` capability, proved against `shr_spec`.
    pub fn shr_op(&self, other: &Value) -> (r: Result<Value, EvalError>)
        ensures
            (match r {
                Ok(v) => shr_spec(self@, other@) == Ok::<ValueView, EvalError>(v@),
                Err(e) => shr_spec(self@, other@) == Err::<ValueView, EvalError>(e),
            }),
    {
        match (self, other) {
            (Value::Integer(x), Value::Integer(y)) => {
                let m: i64 = *y % 0x1_0000_0000;
                let amount: u32 = (if m < 0 {
                    m + 0x1_0000_0000
                } else {
                    m
                }) as u32;
                Ok(Value::Integer(x.wrapping_shr(amount)))
            },
            (Value::Integer(_), _) => Err(EvalError::TypeMismatch),
            _ => Err(EvalError::InvalidOperation),
        }
    }

    /// Negation, proved against `neg_spec`.
    pub fn neg_op(&self) -> (r: Result<Value, EvalError>)
        ensures
            (match r {
                Ok(v) => neg_spec(self@) == Ok::<ValueView, EvalError>(v@),
                Err(e) => neg_spec(self@) == Err::<ValueView, EvalError>(e),
            }),
    {
        match self {
            Value::Integer(x) => Ok(Value::Integer(0i64.wrapping_sub(*x))),
            Value::Float(x) => Ok(Value::Float(float_neg_bits(*x))),
            _ => Err(EvalError::InvalidOperation),
        }
    }

    /// Boolean negation, proved against `bang_spec`.
    pub fn bang_op(&self) -> (r: Result<Value, EvalError>)
        ensures
            (match r {
                Ok(v) => bang_spec(self@) == Ok::<ValueView, EvalError>(v@),
                Err(e) => bang_spec(self@) == Err::<ValueView, EvalError>(e),
            }),
    {
        match self {
            Value::Boolean(x) => Ok(Value::Boolean(!*x)),
            _ => Err(EvalError::InvalidOperation),
        }
    }
}

/// Whether one scalar comparison holds, executably.
fn scalar_match(op: ComparisonOperator, a: &Value, b: &Value) -> (r: bool)
    ensures
        r == scalar_matches(op, a@, b@),
{
    match op {
        ComparisonOperator::Equal => a.equals(b),
        ComparisonOperator::NotEqual => !a.equals(b),
        ComparisonOperator::Greater => (match a.compare(b) {
            Some(o) => o == 1,
            None => false,
        }),
        ComparisonOperator::GreaterEqual => (match a.compare(b) {
            Some(o) => o == 1 || o == 0,
            None => false,
        }),
        ComparisonOperator::Less => (match a.compare(b) {
            Some(o) => o == -1,
            None => false,
        }),
        ComparisonOperator::LessEqual => (match a.compare(b) {
            Some(o) => o == -1 || o == 0,
            None => false,
        }),
        ComparisonOperator::NullSafeEqual => false,
    }
}

/// Whether `vals` holds an element equal to `x`, executably.
#[verifier::loop_isolation(false)]
pub fn seq_contains(vals: &Vec<Value>, x: &Value) -> (r: bool)
    ensures
        r == contains_value(values_view(vals@), x@),
{
    broadcast use lemma_values_view;

    let n = vals.len();
    let mut i: usize = 0;
    while i < n
        invariant
            i <= n,
            n == vals@.len(),
            forall|j: int| 0 <= j < i ==> !equals_spec(#[trigger] values_view(vals@)[j], x@),
        decreases n - i,
    {
        if vals[i].equals(x) {
            proof {
                assert(equals_spec(values_view(vals@)[i as int], x@));
            }
            return true;
        }
        i += 1;
    }
    false
}

impl Value {
    /// The `=` capability, proved against `eq_spec`.
    pub fn eq_op(&self, other: &Value) -> (r: Result<Value, EvalError>)
        ensures
            (match r {
                Ok(v) => eq_spec(self@, other@) == Ok::<ValueView, EvalError>(v@),
                Err(e) => eq_spec(self@, other@) == Err::<ValueView, EvalError>(e),
            }),
    {
        match (self, other) {
            (Value::Null, _) | (_, Value::Null) => Ok(Value::Null),
            (Value::Boolean(_), Value::Boolean(_)) | (Value::Integer(_), Value::Integer(_)) | (
                Value::Float(_),
                Value::Float(_),
            ) | (Value::Text(_), Value::Text(_)) | (Value::Interval(_), Value::Interval(_)) | (
                Value::Row(_, _),
                Value::Row(_, _),
            ) => Ok(Value::Boolean(self.equals(other))),
            (Value::Array(_, _), Value::Array(_, _)) | (
                Value::Composite(_, _),
                Value::Composite(_, _),
            ) => Err(EvalError::InvalidOperation),
            _ => Err(EvalError::TypeMismatch),
        }
    }

    /// The `!=` capability, proved against `neq_spec`.
    pub fn bang_eq_op(&self, other: &Value) -> (r: Result<Value, EvalError>)
        ensures
            (match r {
                Ok(v) => neq_spec(self@, other@) == Ok::<ValueView, EvalError>(v@),
                Err(e) => neq_spec(self@, other@) == Err::<ValueView, EvalError>(e),
            }),
    {
        match self.eq_op(other) {
            Ok(Value::Boolean(v)) => Ok(Value::Boolean(!v)),
            other_result => other_result,
        }
    }

    /// The `<=>` capability, proved against `null_safe_eq_spec`.
    pub fn null_safe_eq_op(&self, other: &Value) -> (r: Result<Value, EvalError>)
        ensures
            (match r {
                Ok(v) => null_safe_eq_spec(self@, other@) == Ok::<ValueView, EvalError>(v@),
                Err(e) => null_safe_eq_spec(self@, other@) == Err::<ValueView, EvalError>(e),
            }),
    {
        match (self, other) {
            (Value::Null, Value::Null) => Ok(Value::Boolean(true)),
            (Value::Null, _) | (_, Value::Null) => Ok(Value::Boolean(false)),
            _ => self.eq_op(other),
        }
    }

    /// The `>` capability, proved against `gt_spec`.
    pub fn gt_op(&self, other: &Value) -> (r: Result<Value, EvalError>)
        ensures
            (match r {
                Ok(v) => gt_spec(self@, other@) == Ok::<ValueView, EvalError>(v@),
                Err(e) => gt_spec(self@, other@) == Err::<ValueView, EvalError>(e),
            }),
    {
        match self.compare(other) {
            Some(o) => Ok(Value::Boolean(o == 1)),
            None => Err(EvalError::NotComparable),
        }
    }

    /// The `>=` capability, proved against `gte_spec`.
    pub fn gte_op(&self, other: &Value) -> (r: Result<Value, EvalError>)
        ensures
            (match r {
                Ok(v) => gte_spec(self@, other@) == Ok::<ValueView, EvalError>(v@),
                Err(e) => gte_spec(self@, other@) == Err::<ValueView, EvalError>(e),
            }),
    {
        match self.compare(other) {
            Some(o) => Ok(Value::Boolean(o >= 0)),
            None => Err(EvalError::NotComparable),
        }
    }

    /// The `<` capability, proved against `lt_spec`.
    pub fn lt_op(&self, other: &Value) -> (r: Result<Value, EvalError>)
        ensures
            (match r {
                Ok(v) => lt_spec(self@, other@) == Ok::<ValueView, EvalError>(v@),
                Err(e) => lt_spec(self@, other@) == Err::<ValueView, EvalError>(e),
            }),
    {
        match self.compare(other) {
            Some(o) => Ok(Value::Boolean(o == -1)),
            None => Err(EvalError::NotComparable),
        }
    }

    /// The `<=` capability, proved against `lte_spec`.
    pub fn lte_op(&self, other: &Value) -> (r: Result<Value, EvalError>)
        ensures
            (match r {
                Ok(v) => lte_spec(self@, other@) == Ok::<ValueView, EvalError>(v@),
                Err(e) => lte_spec(self@, other@) == Err::<ValueView, EvalError>(e),
            }),
    {
        match self.compare(other) {
            Some(o) => Ok(Value::Boolean(o <= 0)),
            None => Err(EvalError::NotComparable),
        }
    }

    /// A group comparison against every element of the right-hand array,
    /// proved against `group_compare_spec`.
    #[verifier::loop_isolation(false)]
    pub fn group_compare_op(
        &self,
        other: &Value,
        op: ComparisonOperator,
        group_op: GroupComparisonOperator,
    ) -> (r: Result<Value, EvalError>)
        ensures
            (match r {
                Ok(v) => group_compare_spec(op, group_op, self@, other@) == Ok::<
                    ValueView,
                    EvalError,
                >(v@),
                Err(e) => group_compare_spec(op, group_op, self@, other@) == Err::<
                    ValueView,
                    EvalError,
                >(e),
            }),
    {
        broadcast use lemma_values_view;

        if let ComparisonOperator::NullSafeEqual = op {
            return Err(EvalError::InvalidOperation);
        }
        let supported = match self {
            Value::Boolean(_) | Value::Integer(_) | Value::Float(_) | Value::Text(_) => true,
            _ => false,
        };
        if !supported {
            return Err(EvalError::InvalidOperation);
        }
        match other {
            Value::Array(t, vs) => {
                let type_ok = match (self, t) {
                    (Value::Boolean(_), ValueType::Boolean) => true,
                    (Value::Integer(_), ValueType::Integer) => true,
                    (Value::Float(_), ValueType::Float) => true,
                    (Value::Text(_), ValueType::Text) => true,
                    _ => false,
                };
                if !type_ok {
                    return Err(EvalError::TypeMismatch);
                }
                let n = vs.len();
                let mut i: usize = 0;
                match group_op {
                    GroupComparisonOperator::Any => {
                        while i < n
                            invariant
                                i <= n,
                                n == vs@.len(),
                                forall|j: int|
                                    0 <= j < i ==> !scalar_matches(
                                        op,
                                        self@,
                                        #[trigger] values_view(vs@)[j],
                                    ),
                            decreases n - i,
                        {
                            if scalar_match(op, self, &vs[i]) {
                                proof {
                                    assert(scalar_matches(op, self@, values_view(vs@)[i as int]));
                                    assert(group_any_matches(op, self@, values_view(vs@)));
                                }
                                return Ok(Value::Boolean(true));
                            }
                            i += 1;
                        }
                        proof {
                            assert(!group_any_matches(op, self@, values_view(vs@)));
                        }
                        Ok(Value::Boolean(false))
                    },
                    GroupComparisonOperator::All => {
                        while i < n
                            invariant
                                i <= n,
                                n == vs@.len(),
                                forall|j: int|
                                    0 <= j < i ==> scalar_matches(
                                        op,
                                        self@,
                                        #[trigger] values_view(vs@)[j],
                                    ),
                            decreases n - i,
                        {
                            if !scalar_match(op, self, &vs[i]) {
                                proof {
                                    assert(!scalar_matches(op, self@, values_view(vs@)[i as int]));
                                    assert(!group_all_match(op, self@, values_view(vs@)));
                                }
                                return Ok(Value::Boolean(false));
                            }
                            i += 1;
                        }
                        proof {
                            assert(group_all_match(op, self@, values_view(vs@)));
                        }
                        Ok(Value::Boolean(true))
                    },
                }
            },
            _ => Err(EvalError::TypeMismatch),
        }
    }

    /// The `@>` containment capability, proved against `contains_op_spec`.
    pub fn contains_op(&self, other: &Value) -> (r: Result<Value, EvalError>)
        ensures
            (match r {
                Ok(v) => contains_op_spec(self@, other@) == Ok::<ValueView, EvalError>(v@),
                Err(e) => contains_op_spec(self@, other@) == Err::<ValueView, EvalError>(e),
            }),
    {
        match self {
            Value::Array(_, vs) => Ok(Value::Boolean(seq_contains(vs, other))),
            _ => Err(EvalError::InvalidOperation),
        }
    }

    /// The logical OR capability, proved against `logical_or_spec`.
    #[verifier::loop_isolation(false)]
    pub fn logical_or_op(&self, other: &Value) -> (r: Result<Value, EvalError>)
        ensures
            (match r {
                Ok(v) => logical_or_spec(self@, other@) == Ok::<ValueView, EvalError>(v@),
                Err(e) => logical_or_spec(self@, other@) == Err::<ValueView, EvalError>(e),
            }),
    {
        broadcast use lemma_values_view;

        match (self, other) {
            (Value::Array(_, v1), Value::Array(_, v2)) => {
                let n = v1.len();
                let mut i: usize = 0;
                while i < n
                    invariant
                        i <= n,
                        n == v1@.len(),
                        forall|j: int|
                            0 <= j < i ==> !contains_value(
                                values_view(v2@),
                                #[trigger] values_view(v1@)[j],
                            ),
                    decreases n - i,
                {
                    if seq_contains(v2, &v1[i]) {
                        proof {
                            assert(contains_value(values_view(v2@), values_view(v1@)[i as int]));
                        }
                        return Ok(Value::Boolean(true));
                    }
                    i += 1;
                }
                Ok(Value::Boolean(false))
            },
            (Value::Boolean(x), Value::Boolean(y)) => Ok(Value::Boolean(*x || *y)),
            (Value::Boolean(true), Value::Null) => Ok(Value::Boolean(true)),
            (Value::Boolean(false), Value::Null) => Ok(Value::Null),
            (Value::Null, Value::Boolean(true)) => Ok(Value::Boolean(true)),
            (Value::Null, Value::Boolean(false)) => Ok(Value::Null),
            (Value::Null, Value::Null) => Ok(Value::Null),
            (Value::Boolean(_), _) | (Value::Null, _) | (Value::Array(_, _), _) => Err(
                EvalError::TypeMismatch,
            ),
            _ => Err(EvalError::InvalidOperation),
        }
    }

    /// The logical AND capability, proved against `logical_and_spec`.
    pub fn logical_and_op(&self, other: &Value) -> (r: Result<Value, EvalError>)
        ensures
            (match r {
                Ok(v) => logical_and_spec(self@, other@) == Ok::<ValueView, EvalError>(v@),
                Err(e) => logical_and_spec(self@, other@) == Err::<ValueView, EvalError>(e),
            }),
    {
        match (self, other) {
            (Value::Boolean(x), Value::Boolean(y)) => Ok(Value::Boolean(*x && *y)),
            (Value::Boolean(false), Value::Null) => Ok(Value::Boolean(false)),
            (Value::Boolean(true), Value::Null) => Ok(Value::Null),
            (Value::Null, Value::Boolean(false)) => Ok(Value::Boolean(false)),
            (Value::Null, Value::Boolean(true)) => Ok(Value::Null),
            (Value::Null, Value::Null) => Ok(Value::Null),
            (Value::Boolean(_), _) | (Value::Null, _) => Err(EvalError::TypeMismatch),
            _ => Err(EvalError::InvalidOperation),
        }
    }

    /// The logical XOR capability, proved against `logical_xor_spec`.
    pub fn logical_xor_op(&self, other: &Value) -> (r: Result<Value, EvalError>)
        ensures
            (match r {
                Ok(v) => logical_xor_spec(self@, other@) == Ok::<ValueView, EvalError>(v@),
                Err(e) => logical_xor_spec(self@, other@) == Err::<ValueView, EvalError>(e),
            }),
    {
        match (self, other) {
            (Value::Boolean(x), Value::Boolean(y)) => Ok(Value::Boolean(*x != *y)),
            (Value::Boolean(_), Value::Null) => Ok(Value::Null),
            (Value::Null, Value::Boolean(_)) => Ok(Value::Null),
            (Value::Null, Value::Null) => Ok(Value::Null),
            (Value::Boolean(_), _) | (Value::Null, _) => Err(EvalError::TypeMismatch),
            _ => Err(EvalError::InvalidOperation),
        }
    }
}

/// Indexing: one-based selection from an array; an out-of-bounds index
/// fails with `IndexOutOfRange`, a non-integer index with `TypeMismatch`.
pub open spec fn index_spec(a: ValueView, idx: ValueView) -> Result<ValueView, EvalError> {
    match a {
        ValueView::Array(_, vs) => match idx {
            ValueView::Integer(i) => if i < 1 || i > vs.len() {
                Err(EvalError::IndexOutOfRange)
            } else {
                Ok(vs[i - 1])
            },
            _ => Err(EvalError::TypeMismatch),
        },
        _ => Err(EvalError::InvalidOperation),
    }
}

/// One slice bound: a missing bound falls back to the default, a negative
/// index counts from the end, a non-integer bound is rejected.
pub open spec fn slice_bound(v: Option<ValueView>, default: int, len: int) -> Option<int> {
    match v {
        None => Some(default),
        Some(ValueView::Integer(i)) => Some(
            if i < 0 {
                i + len
            } else {
                i as int
            },
        ),
        Some(_) => None,
    }
}

/// Slicing: both bounds are optional and negative bounds count from the
/// end; after normalization the bounds must satisfy
/// `0 <= start <= end <= len`, else the slice fails with `InvalidSlice`.
pub open spec fn slice_spec(a: ValueView, s: Option<ValueView>, e: Option<ValueView>) -> Result<
    ValueView,
    EvalError,
> {
    match a {
        ValueView::Array(t, vs) => {
            let len = vs.len() as int;
            match (slice_bound(s, 0, len), slice_bound(e, len, len)) {
                (Some(s0), Some(e0)) => if 0 <= s0 <= e0 <= len {
                    Ok(ValueView::Array(t, vs.subrange(s0, e0)))
                } else {
                    Err(EvalError::InvalidSlice)
                },
                _ => Err(EvalError::TypeMismatch),
            }
        },
        _ => Err(EvalError::InvalidOperation),
    }
}

impl Value {
    /// The `[I]` capability, proved against `index_spec`.
    pub fn index_op(&self, index: &Value) -> (r: Result<Value, EvalError>)
        ensures
            (match r {
                Ok(v) => index_spec(self@, index@) == Ok::<ValueView, EvalError>(v@),
                Err(e) => index_spec(self@, index@) == Err::<ValueView, EvalError>(e),
            }),
    {
        broadcast use lemma_values_view;

        match (self, index) {
            (Value::Array(_, vs), Value::Integer(i)) => {
                if *i < 1 {
                    Err(EvalError::IndexOutOfRange)
                } else {
                    let off: u64 = (*i as u64) - 1;
                    if off >= vs.len() as u64 {
                        Err(EvalError::IndexOutOfRange)
                    } else {
                        let v = vs[off as usize].duplicate();
                        proof {
                            assert(values_view(vs@)[off as int] == value_view(vs@[off as int]));
                            assert(index_spec(self@, index@) == Ok::<ValueView, EvalError>(
                                values_view(vs@)[*i - 1],
                            ));
                        }
                        Ok(v)
                    }
                }
            },
            (Value::Array(_, _), _) => Err(EvalError::TypeMismatch),
            _ => Err(EvalError::InvalidOperation),
        }
    }

    /// The `[S:E]` capability, proved against `slice_spec`.
    #[verifier::loop_isolation(false)]
    pub fn slice_op(&self, start: &Option<Value>, end: &Option<Value>) -> (r: Result<
        Value,
        EvalError,
    >)
        ensures
            (match r {
                Ok(v) => slice_spec(
                    self@,
                    (match start {
                        Some(sv) => Some(sv@),
                        None => None,
                    }),
                    (match end {
                        Some(ev) => Some(ev@),
                        None => None,
                    }),
                ) == Ok::<ValueView, EvalError>(v@),
                Err(e) => slice_spec(
                    self@,
                    (match start {
                        Some(sv) => Some(sv@),
                        None => None,
                    }),
                    (match end {
                        Some(ev) => Some(ev@),
                        None => None,
                    }),
                ) == Err::<ValueView, EvalError>(e),
            }),
    {
        broadcast use lemma_values_view;

        match self {
            Value::Array(t, vs) => {
                let len = vs.len();
                let s0: i128 = match start {
                    None => 0,
                    Some(Value::Integer(i)) => if *i < 0 {
                        *i as i128 + len as i128
                    } else {
                        *i as i128
                    },
                    Some(_) => {
                        return Err(EvalError::TypeMismatch);
                    },
                };
                let e0: i128 = match end {
                    None => len as i128,
                    Some(Value::Integer(i)) => if *i < 0 {
                        *i as i128 + len as i128
                    } else {
                        *i as i128
                    },
                    Some(_) => {
                        return Err(EvalError::TypeMismatch);
                    },
                };
                if !(0 <= s0 && s0 <= e0 && e0 <= len as i128) {
                    return Err(EvalError::InvalidSlice);
                }
                let su: usize = s0 as usize;
                let eu: usize = e0 as usize;
                let mut out: Vec<Value> = Vec::new();
                let mut i: usize = su;
                while i < eu
                    invariant
                        su <= i <= eu <= vs@.len(),
                        out@.len() == i - su,
                        forall|j: int|
                            0 <= j < i - su ==> value_view(#[trigger] out@[j]) == value_view(
                                vs@[su + j],
                            ),
                    decreases eu - i,
                {
                    out.push(vs[i].duplicate());
                    i += 1;
                }
                proof {
                    assert(values_view(out@) =~= values_view(vs@).subrange(s0 as int, e0 as int));
                }
                Ok(Value::Array(t.duplicate(), out))
            },
            _ => Err(EvalError::InvalidOperation),
        }
    }
}

} // verus!
