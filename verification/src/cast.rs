//! The CAST capability: conversions between compatible scalar variants,
//! including a verified decimal parser for text-to-integer casts.

use vstd::prelude::*;

use crate::error::EvalError;
use crate::fp::{float_of_int, float_to_int, fp_of_int, fp_to_int};
use crate::value::{Value, ValueType, ValueView};
use vstd::string::StrSliceExecFns;

verus! {

/// Whether the character is a decimal digit.
pub open spec fn is_digit(c: char) -> bool {
    48 <= c as u32 && c as u32 <= 57
}

/// The value of a decimal digit.
pub open spec fn digit_val(c: char) -> int {
    c as u32 - 48
}

/// Whether every character is a decimal digit.
pub open spec fn all_digits(s: Seq<char>) -> bool {
    forall|i: int| 0 <= i < s.len() ==> is_digit(#[trigger] s[i])
}

/// The unsigned value of a digit string.
pub open spec fn digits_value(s: Seq<char>) -> int
    decreases s.len(),
{
    if s.len() == 0 {
        0
    } else {
        digits_value(s.drop_last()) * 10 + digit_val(s.last())
    }
}

/// The integer denoted by the text, if any: an optional sign, then one or
/// more decimal digits, within the 64-bit signed range.
pub open spec fn parse_int_spec(s: Seq<char>) -> Option<i64> {
    let neg = s.len() > 0 && s[0] == '-';
    let ds = if s.len() > 0 && (s[0] == '-' || s[0] == '+') {
        s.skip(1)
    } else {
        s
    };
    if ds.len() == 0 || !all_digits(ds) {
        None
    } else {
        let m = digits_value(ds);
        if neg {
            if m <= 0x8000_0000_0000_0000 {
                Some((-m) as i64)
            } else {
                None
            }
        } else {
            if m <= 0x7fff_ffff_ffff_ffff {
                Some(m as i64)
            } else {
                None
            }
        }
    }
}

/// The value of a digit string is never negative.
pub(crate) proof fn lemma_digits_value_nonneg(s: Seq<char>)
    requires
        all_digits(s),
    ensures
        digits_value(s) >= 0,
    decreases s.len(),
{
    if s.len() > 0 {
        assert forall|i: int| 0 <= i < s.len() - 1 implies is_digit(
            #[trigger] s.drop_last()[i],
        ) by {
            assert(s.drop_last()[i] == s[i]);
        }
        lemma_digits_value_nonneg(s.drop_last());
    }
}

/// Appending digits never shrinks the value.
pub(crate) proof fn lemma_digits_value_grows(s: Seq<char>, k: int)
    requires
        all_digits(s),
        0 <= k <= s.len(),
    ensures
        digits_value(s.take(k)) <= digits_value(s),
    decreases s.len() - k,
{
    assert forall|i: int| 0 <= i < k implies is_digit(#[trigger] s.take(k)[i]) by {
        assert(s.take(k)[i] == s[i]);
    }
    if k == s.len() {
        assert(s.take(k) =~= s);
    } else {
        lemma_digits_value_grows(s, k + 1);
        assert(s.take(k + 1).drop_last() =~= s.take(k));
        assert(s.take(k + 1).last() == s[k]);
        lemma_digits_value_nonneg(s.take(k));
        assert(digits_value(s.take(k + 1)) == digits_value(s.take(k)) * 10 + digit_val(s[k]));
        assert(digits_value(s.take(k)) * 10 >= digits_value(s.take(k))) by (nonlinear_arith)
            requires
                digits_value(s.take(k)) >= 0,
        ;
    }
}

/// The decimal parser, proved against `parse_int_spec`.
#[verifier::loop_isolation(false)]
pub fn parse_int_text(s: &String) -> (r: Option<i64>)
    ensures
        r == parse_int_spec(s@),
{
    let st = s.as_str();
    let n = st.unicode_len();
    if n == 0 {
        return None;
    }
    let c0 = st.get_char(0);
    let neg = c0 == '-';
    let has_sign = neg || c0 == '+';
    let start: usize = if has_sign {
        1
    } else {
        0
    };
    let ghost ds: Seq<char> = if has_sign {
        s@.skip(1)
    } else {
        s@
    };
    if n == start {
        return None;
    }
    let bound: u64 = 0x8000_0000_0000_0000;
    let mut acc: u64 = 0;
    let mut i: usize = start;
    while i < n
        invariant
            start <= i <= n,
            acc == digits_value(ds.take(i - start)),
            all_digits(ds.take(i - start)),
            acc <= bound,
        decreases n - i,
    {
        let c = st.get_char(i);
        let cv = c as u32;
        proof {
            assert(ds[i - start] == s@[i as int]);
            assert(ds.take(i - start + 1).drop_last() =~= ds.take(i - start));
            assert(ds.take(i - start + 1).last() == ds[i - start]);
        }
        if !(48 <= cv && cv <= 57) {
            proof {
                assert(!is_digit(ds[i - start]));
            }
            return None;
        }
        let d: u64 = (cv - 48) as u64;
        proof {
            assert forall|j: int| 0 <= j < i - start + 1 implies is_digit(
                #[trigger] ds.take(i - start + 1)[j],
            ) by {
                if j < i - start {
                    assert(ds.take(i - start + 1)[j] == ds.take(i - start)[j]);
                } else {
                    assert(ds.take(i - start + 1)[j] == ds[i - start]);
                }
            }
        }
        if acc > (bound - d) / 10 {
            proof {
                assert(acc * 10 + d > bound) by (nonlinear_arith)
                    requires
                        acc > (bound - d) / 10,
                        d <= 9,
                        bound == 0x8000_0000_0000_0000u64,
                ;
                assert(digits_value(ds.take(i - start + 1)) > bound);
                if all_digits(ds) {
                    lemma_digits_value_grows(ds, i - start + 1);
                    assert(digits_value(ds) > bound);
                }
            }
            return None;
        }
        proof {
            assert(acc * 10 + d <= bound) by (nonlinear_arith)
                requires
                    acc <= (bound - d) / 10,
                    d <= 9,
                    bound == 0x8000_0000_0000_0000u64,
            ;
        }
        acc = acc * 10 + d;
        i += 1;
    }
    proof {
        assert(ds.take(n - start) =~= ds);
    }
    if neg {
        if acc == bound {
            Some(i64::MIN)
        } else {
            Some(-(acc as i64))
        }
    } else {
        if acc == bound {
            None
        } else {
            Some(acc as i64)
        }
    }
}

/// The text values that cast to a boolean.
pub open spec fn text_to_bool_spec(s: Seq<char>) -> ValueView {
    if s == "t"@ || s == "true"@ || s == "y"@ || s == "yes"@ || s == "1"@ {
        ValueView::Boolean(true)
    } else if s == "f"@ || s == "false"@ || s == "n"@ || s == "no"@ || s == "0"@ {
        ValueView::Boolean(false)
    } else {
        ValueView::Null
    }
}

/// The CAST capability: integers cast to booleans and floats, floats
/// truncate to integers, booleans cast to integers, and text casts to
/// booleans and integers.  Anything else fails with `InvalidCast`, as does
/// text that does not denote an integer.
pub open spec fn cast_spec(a: ValueView, t: ValueType) -> Result<ValueView, EvalError> {
    match (a, t) {
        (ValueView::Integer(x), ValueType::Boolean) => Ok(ValueView::Boolean(x != 0)),
        (ValueView::Integer(x), ValueType::Float) => Ok(ValueView::Float(fp_of_int(x))),
        (ValueView::Float(x), ValueType::Integer) => Ok(ValueView::Integer(fp_to_int(x))),
        (ValueView::Boolean(b), ValueType::Integer) => Ok(
            ValueView::Integer(
                if b {
                    1i64
                } else {
                    0i64
                },
            ),
        ),
        (ValueView::Text(s), ValueType::Boolean) => Ok(text_to_bool_spec(s)),
        (ValueView::Text(s), ValueType::Integer) => match parse_int_spec(s) {
            Some(v) => Ok(ValueView::Integer(v)),
            None => Err(EvalError::InvalidCast),
        },
        _ => Err(EvalError::InvalidCast),
    }
}

impl Value {
    /// The CAST capability, proved against `cast_spec`.
    pub fn cast_op(&self, target_type: &ValueType) -> (r: Result<Value, EvalError>)
        ensures
            (match r {
                Ok(v) => cast_spec(self@, *target_type) == Ok::<ValueView, EvalError>(v@),
                Err(e) => cast_spec(self@, *target_type) == Err::<ValueView, EvalError>(e),
            }),
    {
        match (self, target_type) {
            (Value::Integer(x), ValueType::Boolean) => Ok(Value::Boolean(*x != 0)),
            (Value::Integer(x), ValueType::Float) => Ok(Value::Float(float_of_int(*x))),
            (Value::Float(x), ValueType::Integer) => Ok(Value::Integer(float_to_int(*x))),
            (Value::Boolean(b), ValueType::Integer) => Ok(
                Value::Integer(
                    if *b {
                        1
                    } else {
                        0
                    },
                ),
            ),
            (Value::Text(s), ValueType::Boolean) => {
                if *s == "t".to_owned() || *s == "true".to_owned() || *s == "y".to_owned() || *s
                    == "yes".to_owned() || *s == "1".to_owned() {
                    Ok(Value::Boolean(true))
                } else if *s == "f".to_owned() || *s == "false".to_owned() || *s == "n".to_owned()
                    || *s == "no".to_owned() || *s == "0".to_owned() {
                    Ok(Value::Boolean(false))
                } else {
                    Ok(Value::Null)
                }
            },
            (Value::Text(s), ValueType::Integer) => match parse_int_text(s) {
                Some(v) => Ok(Value::Integer(v)),
                None => Err(EvalError::InvalidCast),
            },
            _ => Err(EvalError::InvalidCast),
        }
    }
}

} // verus!
