//! The evaluator: a single recursive dispatch over the expression tree.
//!
//! `eval` is the mathematical account: it takes the registry, the
//! global-variable map, one expression and one row, and produces the result
//! and the new global map.  Every operand is always fully evaluated before
//! results are combined — logical AND/OR/XOR do not short-circuit, so a
//! side effect in either operand always executes.  CASE is the exception:
//! conditions are tested in source order and evaluation stops at the first
//! true one.  Errors propagate immediately, together with the globals as
//! mutated so far.

use vstd::prelude::*;

use crate::cast::cast_spec;
use crate::error::EvalError;
use crate::expr::{
    ArithmeticOperator, BetweenKind, BinaryBitwiseOperator, BinaryLogicalOperator,
    ComparisonOperator, Expr, NumberLit, PrefixUnaryOperator,
};
use crate::ops::{
    add_spec, bang_spec, bitand_spec, bitor_spec, bitxor_spec, caret_spec, contains_op_spec,
    div_spec, eq_spec, group_compare_spec, gt_spec, gte_spec, index_spec, logical_and_spec,
    logical_or_spec, logical_xor_spec, lt_spec, lte_spec, mul_spec, neg_spec, neq_spec,
    null_safe_eq_spec, rem_spec, shl_spec, shr_spec, slice_spec, sub_spec,
};
use crate::pattern::{glob_spec, like_spec};
use crate::runtime::{Environment, FunctionRegistry};
use crate::value::{
    compare_spec, equals_spec, find_member, lemma_values_view, type_view, types_view, value_view,
    values_view, Value, ValueView,
};

verus! {

/// The outcome of evaluating one expression: a result and the global map
/// after whatever ran.
pub struct EvalStep {
    pub result: Result<ValueView, EvalError>,
    pub globals: Map<Seq<char>, ValueView>,
}

/// The outcome of evaluating a list of expressions left to right.
pub struct ListStep {
    pub result: Result<Seq<ValueView>, EvalError>,
    pub globals: Map<Seq<char>, ValueView>,
}

/// The value of the first title matching `name`, scanning from `i`.
pub open spec fn symbol_lookup(
    name: Seq<char>,
    titles: Seq<String>,
    row: Seq<Value>,
    i: int,
) -> Result<ValueView, EvalError>
    decreases titles.len() - i,
{
    if i < 0 || i >= titles.len() {
        Err(EvalError::UnknownColumn)
    } else if titles[i]@ == name {
        Ok(value_view(row[i]))
    } else {
        symbol_lookup(name, titles, row, i + 1)
    }
}

/// The number of CASE conditions of an expression.
pub open spec fn case_len(e: Expr) -> int {
    match e {
        Expr::Case { conditions, .. } => conditions@.len() as int,
        _ => 0,
    }
}

/// The number of IN candidates of an expression.
pub open spec fn in_len(e: Expr) -> int {
    match e {
        Expr::In { values, .. } => values@.len() as int,
        _ => 0,
    }
}

/// Evaluation of one expression against one row and one environment.
pub open spec fn eval<R: FunctionRegistry>(
    reg: R,
    g: Map<Seq<char>, ValueView>,
    e: Expr,
    titles: Seq<String>,
    row: Seq<Value>,
) -> EvalStep
    decreases e, 1nat, 0nat,
{
    match e {
        Expr::Null => EvalStep { result: Ok(ValueView::Null), globals: g },
        Expr::StringLit { value } => EvalStep { result: Ok(ValueView::Text(value@)), globals: g },
        Expr::Number { value } => EvalStep {
            result: Ok(
                match value {
                    NumberLit::Int(i) => ValueView::Integer(i),
                    NumberLit::Float(bits) => ValueView::Float(bits),
                },
            ),
            globals: g,
        },
        Expr::BooleanLit { is_true } => EvalStep {
            result: Ok(ValueView::Boolean(is_true)),
            globals: g,
        },
        Expr::IntervalLit { interval } => EvalStep {
            result: Ok(ValueView::Interval(interval)),
            globals: g,
        },
        Expr::Symbol { name } => EvalStep {
            result: symbol_lookup(name@, titles, row, 0),
            globals: g,
        },
        Expr::GlobalVariable { name } => EvalStep {
            result: if g.contains_key(name@) {
                Ok(g[name@])
            } else {
                Err(EvalError::UndefinedVariable)
            },
            globals: g,
        },
        Expr::Assignment { symbol, value } => {
            let s = eval(reg, g, *value, titles, row);
            match s.result {
                Ok(v) => EvalStep { result: Ok(v), globals: s.globals.insert(symbol@, v) },
                Err(er) => s,
            }
        },
        Expr::ArrayLit { element_type, values } => {
            let s = eval_list(reg, g, values@, titles, row);
            match s.result {
                Ok(vs) => EvalStep {
                    result: Ok(ValueView::Array(type_view(element_type), vs)),
                    globals: s.globals,
                },
                Err(er) => EvalStep { result: Err(er), globals: s.globals },
            }
        },
        Expr::Row { exprs, row_type } => {
            let s = eval_list(reg, g, exprs@, titles, row);
            match s.result {
                Ok(vs) => EvalStep {
                    result: Ok(ValueView::Row(types_view(row_type@), vs)),
                    globals: s.globals,
                },
                Err(er) => EvalStep { result: Err(er), globals: s.globals },
            }
        },
        Expr::PrefixUnary { operator, right } => {
            let s = eval(reg, g, *right, titles, row);
            match s.result {
                Ok(v) => EvalStep {
                    result: (match operator {
                        PrefixUnaryOperator::Negative => neg_spec(v),
                        PrefixUnaryOperator::Bang => bang_spec(v),
                        PrefixUnaryOperator::Not => bang_spec(v),
                    }),
                    globals: s.globals,
                },
                Err(er) => s,
            }
        },
        Expr::Index { collection, index } => {
            let s1 = eval(reg, g, *collection, titles, row);
            match s1.result {
                Ok(c) => {
                    let s2 = eval(reg, s1.globals, *index, titles, row);
                    match s2.result {
                        Ok(ix) => EvalStep { result: index_spec(c, ix), globals: s2.globals },
                        Err(er) => s2,
                    }
                },
                Err(er) => s1,
            }
        },
        Expr::Slice { collection, start, end } => {
            let s1 = eval(reg, g, *collection, titles, row);
            match s1.result {
                Ok(c) => {
                    let (sv, g1) = match start {
                        Some(se) => {
                            let s2 = eval(reg, s1.globals, *se, titles, row);
                            (
                                (match s2.result {
                                    Ok(v) => Ok(Some(v)),
                                    Err(er) => Err(er),
                                }),
                                s2.globals,
                            )
                        },
                        None => (Ok(None), s1.globals),
                    };
                    match sv {
                        Ok(sopt) => {
                            let (ev, g2) = match end {
                                Some(ee) => {
                                    let s3 = eval(reg, g1, *ee, titles, row);
                                    (
                                        (match s3.result {
                                            Ok(v) => Ok(Some(v)),
                                            Err(er) => Err(er),
                                        }),
                                        s3.globals,
                                    )
                                },
                                None => (Ok(None), g1),
                            };
                            match ev {
                                Ok(eopt) => EvalStep {
                                    result: slice_spec(c, sopt, eopt),
                                    globals: g2,
                                },
                                Err(er) => EvalStep { result: Err(er), globals: g2 },
                            }
                        },
                        Err(er) => EvalStep { result: Err(er), globals: g1 },
                    }
                },
                Err(er) => s1,
            }
        },
        Expr::Arithmetic { left, operator, right } => {
            let s1 = eval(reg, g, *left, titles, row);
            match s1.result {
                Ok(a) => {
                    let s2 = eval(reg, s1.globals, *right, titles, row);
                    match s2.result {
                        Ok(b) => EvalStep {
                            result: (match operator {
                                ArithmeticOperator::Plus => add_spec(a, b),
                                ArithmeticOperator::Minus => sub_spec(a, b),
                                ArithmeticOperator::Star => mul_spec(a, b),
                                ArithmeticOperator::Slash => div_spec(a, b),
                                ArithmeticOperator::Modulus => rem_spec(a, b),
                                ArithmeticOperator::Exponentiation => caret_spec(a, b),
                            }),
                            globals: s2.globals,
                        },
                        Err(er) => s2,
                    }
                },
                Err(er) => s1,
            }
        },
        Expr::Comparison { left, operator, right } => {
            let s1 = eval(reg, g, *left, titles, row);
            match s1.result {
                Ok(a) => {
                    let s2 = eval(reg, s1.globals, *right, titles, row);
                    match s2.result {
                        Ok(b) => EvalStep {
                            result: (match operator {
                                ComparisonOperator::Greater => gt_spec(a, b),
                                ComparisonOperator::GreaterEqual => gte_spec(a, b),
                                ComparisonOperator::Less => lt_spec(a, b),
                                ComparisonOperator::LessEqual => lte_spec(a, b),
                                ComparisonOperator::Equal => eq_spec(a, b),
                                ComparisonOperator::NotEqual => neq_spec(a, b),
                                ComparisonOperator::NullSafeEqual => null_safe_eq_spec(a, b),
                            }),
                            globals: s2.globals,
                        },
                        Err(er) => s2,
                    }
                },
                Err(er) => s1,
            }
        },
        Expr::GroupComparison { left, comparison_operator, group_operator, right } => {
            let s1 = eval(reg, g, *left, titles, row);
            match s1.result {
                Ok(a) => {
                    let s2 = eval(reg, s1.globals, *right, titles, row);
                    match s2.result {
                        Ok(b) => EvalStep {
                            result: group_compare_spec(comparison_operator, group_operator, a, b),
                            globals: s2.globals,
                        },
                        Err(er) => s2,
                    }
                },
                Err(er) => s1,
            }
        },
        Expr::Contains { left, right } => {
            let s1 = eval(reg, g, *left, titles, row);
            match s1.result {
                Ok(a) => {
                    let s2 = eval(reg, s1.globals, *right, titles, row);
                    match s2.result {
                        Ok(b) => EvalStep { result: contains_op_spec(a, b), globals: s2.globals },
                        Err(er) => s2,
                    }
                },
                Err(er) => s1,
            }
        },
        Expr::ContainedBy { left, right } => {
            let s1 = eval(reg, g, *left, titles, row);
            match s1.result {
                Ok(a) => {
                    let s2 = eval(reg, s1.globals, *right, titles, row);
                    match s2.result {
                        Ok(b) => EvalStep { result: contains_op_spec(b, a), globals: s2.globals },
                        Err(er) => s2,
                    }
                },
                Err(er) => s1,
            }
        },
        Expr::Like { input, pattern } => {
            let s1 = eval(reg, g, *input, titles, row);
            match s1.result {
                Ok(a) => {
                    let s2 = eval(reg, s1.globals, *pattern, titles, row);
                    match s2.result {
                        Ok(b) => EvalStep { result: like_spec(a, b), globals: s2.globals },
                        Err(er) => s2,
                    }
                },
                Err(er) => s1,
            }
        },
        Expr::Regex { input, pattern } => {
            let s1 = eval(reg, g, *input, titles, row);
            match s1.result {
                Ok(a) => {
                    let s2 = eval(reg, s1.globals, *pattern, titles, row);
                    match s2.result {
                        Ok(b) => EvalStep { result: like_spec(a, b), globals: s2.globals },
                        Err(er) => s2,
                    }
                },
                Err(er) => s1,
            }
        },
        Expr::Glob { input, pattern } => {
            let s1 = eval(reg, g, *input, titles, row);
            match s1.result {
                Ok(a) => {
                    let s2 = eval(reg, s1.globals, *pattern, titles, row);
                    match s2.result {
                        Ok(b) => EvalStep { result: glob_spec(a, b), globals: s2.globals },
                        Err(er) => s2,
                    }
                },
                Err(er) => s1,
            }
        },
        Expr::Logical { left, operator, right } => {
            let s1 = eval(reg, g, *left, titles, row);
            match s1.result {
                Ok(a) => {
                    let s2 = eval(reg, s1.globals, *right, titles, row);
                    match s2.result {
                        Ok(b) => EvalStep {
                            result: (match operator {
                                BinaryLogicalOperator::And => logical_and_spec(a, b),
                                BinaryLogicalOperator::Or => logical_or_spec(a, b),
                                BinaryLogicalOperator::Xor => logical_xor_spec(a, b),
                            }),
                            globals: s2.globals,
                        },
                        Err(er) => s2,
                    }
                },
                Err(er) => s1,
            }
        },
        Expr::Bitwise { left, operator, right } => {
            let s1 = eval(reg, g, *left, titles, row);
            match s1.result {
                Ok(a) => {
                    let s2 = eval(reg, s1.globals, *right, titles, row);
                    match s2.result {
                        Ok(b) => EvalStep {
                            result: (match operator {
                                BinaryBitwiseOperator::Or => bitor_spec(a, b),
                                BinaryBitwiseOperator::And => bitand_spec(a, b),
                                BinaryBitwiseOperator::Xor => bitxor_spec(a, b),
                                BinaryBitwiseOperator::RightShift => shr_spec(a, b),
                                BinaryBitwiseOperator::LeftShift => shl_spec(a, b),
                            }),
                            globals: s2.globals,
                        },
                        Err(er) => s2,
                    }
                },
                Err(er) => s1,
            }
        },
        Expr::Call { function_name, arguments } => {
            let s = eval_list(reg, g, arguments@, titles, row);
            match s.result {
                Ok(vs) => EvalStep {
                    result: (match reg.spec_call(function_name@, vs) {
                        Some(v) => Ok(v),
                        None => Err(EvalError::UnknownFunction),
                    }),
                    globals: s.globals,
                },
                Err(er) => EvalStep { result: Err(er), globals: s.globals },
            }
        },
        Expr::BenchmarkCall { expression, count } => {
            let s1 = eval(reg, g, *count, titles, row);
            match s1.result {
                Ok(ValueView::Integer(n)) => {
                    let s2 = eval_repeat(
                        reg,
                        s1.globals,
                        *expression,
                        (if n < 0 {
                            0
                        } else {
                            n as int
                        }) as nat,
                        titles,
                        row,
                    );
                    match s2.result {
                        Ok(_) => EvalStep {
                            result: Ok(ValueView::Integer(0)),
                            globals: s2.globals,
                        },
                        Err(er) => s2,
                    }
                },
                Ok(_) => EvalStep { result: Ok(ValueView::Integer(0)), globals: s1.globals },
                Err(er) => s1,
            }
        },
        Expr::Between { value, range_start, range_end, kind } => {
            let s1 = eval(reg, g, *value, titles, row);
            match s1.result {
                Ok(v) => {
                    let s2 = eval(reg, s1.globals, *range_start, titles, row);
                    match s2.result {
                        Ok(rs) => {
                            let s3 = eval(reg, s2.globals, *range_end, titles, row);
                            match s3.result {
                                Ok(re) => EvalStep {
                                    result: between_check(v, rs, re, kind),
                                    globals: s3.globals,
                                },
                                Err(er) => s3,
                            }
                        },
                        Err(er) => s2,
                    }
                },
                Err(er) => s1,
            }
        },
        Expr::Case { .. } => eval_case(reg, g, e, 0, titles, row),
        Expr::In { argument, .. } => {
            let s1 = eval(reg, g, *argument, titles, row);
            match s1.result {
                Ok(av) => eval_in(reg, s1.globals, e, av, 0, titles, row),
                Err(er) => s1,
            }
        },
        Expr::IsNull { argument, has_not } => {
            let s = eval(reg, g, *argument, titles, row);
            match s.result {
                Ok(v) => EvalStep {
                    result: Ok(
                        ValueView::Boolean(
                            if has_not {
                                !(v is Null)
                            } else {
                                v is Null
                            },
                        ),
                    ),
                    globals: s.globals,
                },
                Err(er) => s,
            }
        },
        Expr::Cast { value, result_type } => {
            let s = eval(reg, g, *value, titles, row);
            match s.result {
                Ok(v) => EvalStep { result: cast_spec(v, result_type), globals: s.globals },
                Err(er) => s,
            }
        },
        Expr::Column { expr } => eval(reg, g, *expr, titles, row),
        Expr::MemberAccess { composite, member_name } => {
            let s = eval(reg, g, *composite, titles, row);
            match s.result {
                Ok(v) => EvalStep {
                    result: (match v {
                        ValueView::Composite(_, ms) => match find_member(ms, member_name@) {
                            Some(x) => Ok(x),
                            None => Err(EvalError::UnknownMember),
                        },
                        _ => Err(EvalError::NotAComposite),
                    }),
                    globals: s.globals,
                },
                Err(er) => s,
            }
        },
    }
}

/// The BETWEEN range test.  Symmetric mode reorders the bounds when the
/// start compares greater than the end (keeping the order when they are
/// incomparable); both modes test inclusively and reject an incomparable
/// bound, though the upper bound is only consulted when the lower one
/// passed.
pub open spec fn between_check(v: ValueView, rs: ValueView, re: ValueView, kind: BetweenKind) -> Result<
    ValueView,
    EvalError,
> {
    let (lo, hi) = (match kind {
        BetweenKind::Symmetric => if compare_spec(rs, re) == Some(1i8) {
            (re, rs)
        } else {
            (rs, re)
        },
        BetweenKind::Asymmetric => (rs, re),
    });
    match compare_spec(v, lo) {
        None => Err(EvalError::NotComparable),
        Some(o1) => if o1 >= 0 {
            match compare_spec(v, hi) {
                None => Err(EvalError::NotComparable),
                Some(o2) => Ok(ValueView::Boolean(o2 <= 0)),
            }
        } else {
            Ok(ValueView::Boolean(false))
        },
    }
}

/// Left-to-right evaluation of a list of expressions.
pub open spec fn eval_list<R: FunctionRegistry>(
    reg: R,
    g: Map<Seq<char>, ValueView>,
    es: Seq<Expr>,
    titles: Seq<String>,
    row: Seq<Value>,
) -> ListStep
    decreases es, 0nat, 0nat,
{
    if es.len() == 0 {
        ListStep { result: Ok(Seq::empty()), globals: g }
    } else {
        let s0 = eval(reg, g, es[0], titles, row);
        match s0.result {
            Ok(v) => {
                let rest = eval_list(reg, s0.globals, es.skip(1), titles, row);
                match rest.result {
                    Ok(vs) => ListStep { result: Ok(seq![v] + vs), globals: rest.globals },
                    Err(er) => rest,
                }
            },
            Err(er) => ListStep { result: Err(er), globals: s0.globals },
        }
    }
}

/// `n` sequential evaluations of one expression, discarding the results.
pub open spec fn eval_repeat<R: FunctionRegistry>(
    reg: R,
    g: Map<Seq<char>, ValueView>,
    e: Expr,
    n: nat,
    titles: Seq<String>,
    row: Seq<Value>,
) -> EvalStep
    decreases e, 2nat, n,
{
    if n == 0 {
        EvalStep { result: Ok(ValueView::Null), globals: g }
    } else {
        let s = eval(reg, g, e, titles, row);
        match s.result {
            Ok(_) => eval_repeat(reg, s.globals, e, (n - 1) as nat, titles, row),
            Err(er) => s,
        }
    }
}

/// CASE evaluation from condition `i` on: conditions are tested strictly in
/// source order, evaluation stops at the first whose value is the boolean
/// true (any other value is no match), and an exhausted list falls to the
/// declared default or fails with `MissingDefault`.  A matched condition
/// without a parallel branch value fails with `InvalidOperation`.
pub open spec fn eval_case<R: FunctionRegistry>(
    reg: R,
    g: Map<Seq<char>, ValueView>,
    e: Expr,
    i: int,
    titles: Seq<String>,
    row: Seq<Value>,
) -> EvalStep
    decreases e, 0nat, (case_len(e) - i),
{
    match e {
        Expr::Case { conditions, values, default_value } => {
            if i < 0 || i >= conditions@.len() {
                match default_value {
                    Some(d) => eval(reg, g, *d, titles, row),
                    None => EvalStep { result: Err(EvalError::MissingDefault), globals: g },
                }
            } else {
                let s = eval(reg, g, conditions@[i], titles, row);
                match s.result {
                    Ok(c) => if c == ValueView::Boolean(true) {
                        if i < values@.len() {
                            eval(reg, s.globals, values@[i], titles, row)
                        } else {
                            EvalStep { result: Err(EvalError::InvalidOperation), globals: s.globals }
                        }
                    } else {
                        eval_case(reg, s.globals, e, i + 1, titles, row)
                    },
                    Err(er) => s,
                }
            }
        },
        _ => EvalStep { result: Err(EvalError::InvalidOperation), globals: g },
    }
}

/// IN evaluation from candidate `i` on: a linear scan with the total
/// equality relation, stopping at the first match.
pub open spec fn eval_in<R: FunctionRegistry>(
    reg: R,
    g: Map<Seq<char>, ValueView>,
    e: Expr,
    target: ValueView,
    i: int,
    titles: Seq<String>,
    row: Seq<Value>,
) -> EvalStep
    decreases e, 0nat, (in_len(e) - i),
{
    match e {
        Expr::In { values, has_not_keyword, .. } => {
            if i < 0 || i >= values@.len() {
                EvalStep { result: Ok(ValueView::Boolean(has_not_keyword)), globals: g }
            } else {
                let s = eval(reg, g, values@[i], titles, row);
                match s.result {
                    Ok(v) => if equals_spec(target, v) {
                        EvalStep {
                            result: Ok(ValueView::Boolean(!has_not_keyword)),
                            globals: s.globals,
                        }
                    } else {
                        eval_in(reg, s.globals, e, target, i + 1, titles, row)
                    },
                    Err(er) => s,
                }
            }
        },
        _ => EvalStep { result: Err(EvalError::InvalidOperation), globals: g },
    }
}

/// Whether an executable result agrees with a specified evaluation step.
pub open spec fn step_matches(r: Result<Value, EvalError>, step: EvalStep) -> bool {
    match r {
        Ok(v) => step.result == Ok::<ValueView, EvalError>(value_view(v)),
        Err(er) => step.result == Err::<ValueView, EvalError>(er),
    }
}

/// Evaluates one expression tree against one row, under one environment:
/// the single dispatch the whole language converges on.  The result and the
/// final global-variable map agree exactly with the mathematical `eval`.
pub fn evaluate_expression<R: FunctionRegistry>(
    env: &mut Environment<R>,
    expression: &Expr,
    titles: &Vec<String>,
    object: &Vec<Value>,
) -> (r: Result<Value, EvalError>)
    requires
        titles@.len() == object@.len(),
    ensures
        ({
            let step = eval(old(env).registry, old(env).globals@, *expression, titles@, object@);
            &&& step_matches(r, step)
            &&& final(env).globals@ == step.globals
            &&& final(env).registry == old(env).registry
        }),
    decreases *expression, 1nat, 0nat,
{
    match expression {
        Expr::Assignment { .. } => evaluate_assignment(env, expression, titles, object),
        Expr::StringLit { value } => evaluate_string(expression),
        Expr::Symbol { .. } => evaluate_symbol(expression, titles, object),
        Expr::ArrayLit { .. } => evaluate_array(env, expression, titles, object),
        Expr::GlobalVariable { .. } => evaluate_global_variable(env, expression),
        Expr::Number { .. } => evaluate_number(expression),
        Expr::BooleanLit { .. } => evaluate_boolean(expression),
        Expr::IntervalLit { .. } => evaluate_interval(expression),
        Expr::PrefixUnary { .. } => evaluate_prefix_unary(env, expression, titles, object),
        Expr::Index { .. } => evaluate_collection_index(env, expression, titles, object),
        Expr::Slice { .. } => evaluate_collection_slice(env, expression, titles, object),
        Expr::Arithmetic { .. } => evaluate_arithmetic(env, expression, titles, object),
        Expr::Comparison { .. } => evaluate_comparison(env, expression, titles, object),
        Expr::GroupComparison { .. } => evaluate_group_comparison(env, expression, titles, object),
        Expr::Contains { .. } => evaluate_contains(env, expression, titles, object),
        Expr::ContainedBy { .. } => evaluate_contained_by(env, expression, titles, object),
        Expr::Like { .. } => evaluate_like(env, expression, titles, object),
        Expr::Regex { .. } => evaluate_regex(env, expression, titles, object),
        Expr::Glob { .. } => evaluate_glob(env, expression, titles, object),
        Expr::Logical { .. } => evaluate_logical(env, expression, titles, object),
        Expr::Bitwise { .. } => evaluate_bitwise(env, expression, titles, object),
        Expr::Call { .. } => evaluate_call(env, expression, titles, object),
        Expr::BenchmarkCall { .. } => evaluate_benchmark_call(env, expression, titles, object),
        Expr::Between { .. } => evaluate_between(env, expression, titles, object),
        Expr::Case { .. } => evaluate_case(env, expression, titles, object),
        Expr::In { .. } => evaluate_in(env, expression, titles, object),
        Expr::IsNull { .. } => evaluate_is_null(env, expression, titles, object),
        Expr::Cast { .. } => evaluate_cast(env, expression, titles, object),
        Expr::Column { .. } => evaluate_column(env, expression, titles, object),
        Expr::Row { .. } => evaluate_row(env, expression, titles, object),
        Expr::MemberAccess { .. } => evaluate_member_access(env, expression, titles, object),
        Expr::Null => Ok(Value::Null),
    }
}

/// Left-to-right evaluation of the expressions from position `i` on,
/// appending the values to `out`.
fn evaluate_list<R: FunctionRegistry>(
    env: &mut Environment<R>,
    exprs: &Vec<Expr>,
    i: usize,
    titles: &Vec<String>,
    object: &Vec<Value>,
    out: &mut Vec<Value>,
) -> (r: Result<(), EvalError>)
    requires
        titles@.len() == object@.len(),
        i <= exprs@.len(),
    ensures
        ({
            let step = eval_list(
                old(env).registry,
                old(env).globals@,
                exprs@.skip(i as int),
                titles@,
                object@,
            );
            &&& final(env).globals@ == step.globals
            &&& final(env).registry == old(env).registry
            &&& (match r {
                Ok(_) => {
                    &&& final(out)@.len() >= old(out)@.len()
                    &&& final(out)@.take(old(out)@.len() as int) == old(out)@
                    &&& step.result == Ok::<Seq<ValueView>, EvalError>(
                        values_view(final(out)@.skip(old(out)@.len() as int)),
                    )
                },
                Err(er) => step.result == Err::<Seq<ValueView>, EvalError>(er),
            })
        }),
    decreases exprs@.skip(i as int), 0nat, 0nat,
{
    broadcast use lemma_values_view;

    if i == exprs.len() {
        proof {
            assert(exprs@.skip(i as int) =~= Seq::<Expr>::empty());
            assert(out@.skip(out@.len() as int) =~= Seq::<Value>::empty());
            assert(out@.take(out@.len() as int) =~= out@);
            assert(values_view(Seq::<Value>::empty()) =~= Seq::<ValueView>::empty());
        }
        Ok(())
    } else {
        proof {
            assert(exprs@.skip(i as int)[0] == exprs@[i as int]);
            assert(decreases_to!(exprs@.skip(i as int) => exprs@.skip(i as int)[0]));
        }
        let v = match evaluate_expression(env, &exprs[i], titles, object) {
            Ok(v) => v,
            Err(er) => {
                return Err(er);
            },
        };
        let ghost vview = value_view(v);
        let ghost pre = out@;
        out.push(v);
        proof {
            assert(exprs@.skip(i as int).skip(1) =~= exprs@.skip(i as int + 1));
            assert(out@ == pre.push(v));
        }
        let res = evaluate_list(env, exprs, i + 1, titles, object, out);
        match res {
            Ok(_) => {
                proof {
                    let mid = pre.push(v);
                    assert(out@.take(pre.len() as int) =~= pre) by {
                        assert(out@.take(mid.len() as int) == mid);
                        assert forall|j: int| 0 <= j < pre.len() implies out@.take(
                            pre.len() as int,
                        )[j] == pre[j] by {
                            assert(out@[j] == out@.take(mid.len() as int)[j]);
                        }
                    }
                    let suffix = out@.skip(pre.len() as int);
                    assert(suffix.len() > 0);
                    assert(suffix[0] == out@[pre.len() as int]);
                    assert(out@[pre.len() as int] == out@.take(mid.len() as int)[pre.len() as int]);
                    assert(suffix[0] == v);
                    assert(suffix.skip(1) =~= out@.skip(mid.len() as int));
                    assert(values_view(suffix) == seq![vview] + values_view(
                        out@.skip(mid.len() as int),
                    ));
                }
                Ok(())
            },
            Err(er) => Err(er),
        }
    }
}

fn evaluate_assignment<R: FunctionRegistry>(
    env: &mut Environment<R>,
    e: &Expr,
    titles: &Vec<String>,
    object: &Vec<Value>,
) -> (r: Result<Value, EvalError>)
    requires
        titles@.len() == object@.len(),
        *e matches Expr::Assignment { .. },
    ensures
        ({
            let step = eval(old(env).registry, old(env).globals@, *e, titles@, object@);
            &&& step_matches(r, step)
            &&& final(env).globals@ == step.globals
            &&& final(env).registry == old(env).registry
        }),
    decreases *e, 0nat, 0nat,
{
    match e {
        Expr::Assignment { symbol, value } => {
            proof {
                assert(decreases_to!(*e => e->Assignment_value));
            }
            let v = match evaluate_expression(env, value, titles, object) {
                Ok(v) => v,
                Err(er) => {
                    return Err(er);
                },
            };
            env.globals.insert(symbol.clone(), v.duplicate());
            Ok(v)
        },
        _ => {
            proof {
                assert(false);
            }
            Err(EvalError::InvalidOperation)
        },
    }
}

fn evaluate_string(e: &Expr) -> (r: Result<Value, EvalError>)
    requires
        *e matches Expr::StringLit { .. },
    ensures
        (match r {
            Ok(v) => *e matches Expr::StringLit { value } && value_view(v) == ValueView::Text(
                value@,
            ),
            Err(_) => false,
        }),
{
    match e {
        Expr::StringLit { value } => Ok(Value::Text(value.clone())),
        _ => {
            proof {
                assert(false);
            }
            Err(EvalError::InvalidOperation)
        },
    }
}

#[verifier::loop_isolation(false)]
fn evaluate_symbol(e: &Expr, titles: &Vec<String>, object: &Vec<Value>) -> (r: Result<
    Value,
    EvalError,
>)
    requires
        titles@.len() == object@.len(),
        *e matches Expr::Symbol { .. },
    ensures
        (match e {
            Expr::Symbol { name } => {
                match r {
                    Ok(v) => symbol_lookup(name@, titles@, object@, 0) == Ok::<
                        ValueView,
                        EvalError,
                    >(value_view(v)),
                    Err(er) => symbol_lookup(name@, titles@, object@, 0) == Err::<
                        ValueView,
                        EvalError,
                    >(er),
                }
            },
            _ => false,
        }),
{
    match e {
        Expr::Symbol { name } => {
            let n = titles.len();
            let mut i: usize = 0;
            while i < n
                invariant
                    i <= n,
                    symbol_lookup(name@, titles@, object@, 0) == symbol_lookup(
                        name@,
                        titles@,
                        object@,
                        i as int,
                    ),
                decreases n - i,
            {
                if titles[i] == *name {
                    return Ok(object[i].duplicate());
                }
                i += 1;
            }
            Err(EvalError::UnknownColumn)
        },
        _ => {
            proof {
                assert(false);
            }
            Err(EvalError::InvalidOperation)
        },
    }
}

fn evaluate_array<R: FunctionRegistry>(
    env: &mut Environment<R>,
    e: &Expr,
    titles: &Vec<String>,
    object: &Vec<Value>,
) -> (r: Result<Value, EvalError>)
    requires
        titles@.len() == object@.len(),
        *e matches Expr::ArrayLit { .. },
    ensures
        ({
            let step = eval(old(env).registry, old(env).globals@, *e, titles@, object@);
            &&& step_matches(r, step)
            &&& final(env).globals@ == step.globals
            &&& final(env).registry == old(env).registry
        }),
    decreases *e, 0nat, 0nat,
{
    match e {
        Expr::ArrayLit { element_type, values } => {
            proof {
                assert(decreases_to!(*e => e->ArrayLit_values));
                assert(decreases_to!(e->ArrayLit_values => values@));
                assert(values@.skip(0) =~= values@);
            }
            let mut out: Vec<Value> = Vec::new();
            match evaluate_list(env, values, 0, titles, object, &mut out) {
                Ok(_) => {
                    proof {
                        assert(out@.skip(0) =~= out@);
                    }
                    Ok(Value::Array(element_type.duplicate(), out))
                },
                Err(er) => Err(er),
            }
        },
        _ => {
            proof {
                assert(false);
            }
            Err(EvalError::InvalidOperation)
        },
    }
}

fn evaluate_global_variable<R: FunctionRegistry>(env: &mut Environment<R>, e: &Expr) -> (r: Result<
    Value,
    EvalError,
>)
    requires
        *e matches Expr::GlobalVariable { .. },
    ensures
        ({
            let g = old(env).globals@;
            &&& final(env).globals@ == g
            &&& final(env).registry == old(env).registry
            &&& (match e {
                Expr::GlobalVariable { name } => {
                    match r {
                        Ok(v) => g.contains_key(name@) && g[name@] == value_view(v),
                        Err(er) => !g.contains_key(name@) && er == EvalError::UndefinedVariable,
                    }
                },
                _ => false,
            })
        }),
{
    match e {
        Expr::GlobalVariable { name } => {
            match env.globals.get(name) {
                Some(v) => Ok(v.duplicate()),
                None => Err(EvalError::UndefinedVariable),
            }
        },
        _ => {
            proof {
                assert(false);
            }
            Err(EvalError::InvalidOperation)
        },
    }
}

fn evaluate_number(e: &Expr) -> (r: Result<Value, EvalError>)
    requires
        *e matches Expr::Number { .. },
    ensures
        (match e {
            Expr::Number { value } => {
                match r {
                    Ok(v) => value_view(v) == (match value {
                        NumberLit::Int(i) => ValueView::Integer(*i),
                        NumberLit::Float(bits) => ValueView::Float(*bits),
                    }),
                    Err(_) => false,
                }
            },
            _ => false,
        }),
{
    match e {
        Expr::Number { value: NumberLit::Int(i) } => Ok(Value::Integer(*i)),
        Expr::Number { value: NumberLit::Float(bits) } => Ok(Value::Float(*bits)),
        _ => {
            proof {
                assert(false);
            }
            Err(EvalError::InvalidOperation)
        },
    }
}

fn evaluate_boolean(e: &Expr) -> (r: Result<Value, EvalError>)
    requires
        *e matches Expr::BooleanLit { .. },
    ensures
        (match e {
            Expr::BooleanLit { is_true } => r == Ok::<Value, EvalError>(Value::Boolean(*is_true)),
            _ => false,
        }),
{
    match e {
        Expr::BooleanLit { is_true } => Ok(Value::Boolean(*is_true)),
        _ => {
            proof {
                assert(false);
            }
            Err(EvalError::InvalidOperation)
        },
    }
}

fn evaluate_interval(e: &Expr) -> (r: Result<Value, EvalError>)
    requires
        *e matches Expr::IntervalLit { .. },
    ensures
        (match e {
            Expr::IntervalLit { interval } => r == Ok::<Value, EvalError>(
                Value::Interval(*interval),
            ),
            _ => false,
        }),
{
    match e {
        Expr::IntervalLit { interval } => Ok(Value::Interval(*interval)),
        _ => {
            proof {
                assert(false);
            }
            Err(EvalError::InvalidOperation)
        },
    }
}

fn evaluate_prefix_unary<R: FunctionRegistry>(
    env: &mut Environment<R>,
    e: &Expr,
    titles: &Vec<String>,
    object: &Vec<Value>,
) -> (r: Result<Value, EvalError>)
    requires
        titles@.len() == object@.len(),
        *e matches Expr::PrefixUnary { .. },
    ensures
        ({
            let step = eval(old(env).registry, old(env).globals@, *e, titles@, object@);
            &&& step_matches(r, step)
            &&& final(env).globals@ == step.globals
            &&& final(env).registry == old(env).registry
        }),
    decreases *e, 0nat, 0nat,
{
    match e {
        Expr::PrefixUnary { operator, right } => {
            proof {
                assert(decreases_to!(*e => e->PrefixUnary_right));
            }
            let rhs = match evaluate_expression(env, right, titles, object) {
                Ok(v) => v,
                Err(er) => {
                    return Err(er);
                },
            };
            match operator {
                PrefixUnaryOperator::Negative => rhs.neg_op(),
                PrefixUnaryOperator::Bang => rhs.bang_op(),
                PrefixUnaryOperator::Not => rhs.bang_op(),
            }
        },
        _ => {
            proof {
                assert(false);
            }
            Err(EvalError::InvalidOperation)
        },
    }
}

fn evaluate_collection_index<R: FunctionRegistry>(
    env: &mut Environment<R>,
    e: &Expr,
    titles: &Vec<String>,
    object: &Vec<Value>,
) -> (r: Result<Value, EvalError>)
    requires
        titles@.len() == object@.len(),
        *e matches Expr::Index { .. },
    ensures
        ({
            let step = eval(old(env).registry, old(env).globals@, *e, titles@, object@);
            &&& step_matches(r, step)
            &&& final(env).globals@ == step.globals
            &&& final(env).registry == old(env).registry
        }),
    decreases *e, 0nat, 0nat,
{
    match e {
        Expr::Index { collection, index } => {
            proof {
                assert(decreases_to!(*e => e->Index_collection));
                assert(decreases_to!(*e => e->Index_index));
            }
            let array = match evaluate_expression(env, collection, titles, object) {
                Ok(v) => v,
                Err(er) => {
                    return Err(er);
                },
            };
            let ix = match evaluate_expression(env, index, titles, object) {
                Ok(v) => v,
                Err(er) => {
                    return Err(er);
                },
            };
            array.index_op(&ix)
        },
        _ => {
            proof {
                assert(false);
            }
            Err(EvalError::InvalidOperation)
        },
    }
}

fn evaluate_collection_slice<R: FunctionRegistry>(
    env: &mut Environment<R>,
    e: &Expr,
    titles: &Vec<String>,
    object: &Vec<Value>,
) -> (r: Result<Value, EvalError>)
    requires
        titles@.len() == object@.len(),
        *e matches Expr::Slice { .. },
    ensures
        ({
            let step = eval(old(env).registry, old(env).globals@, *e, titles@, object@);
            &&& step_matches(r, step)
            &&& final(env).globals@ == step.globals
            &&& final(env).registry == old(env).registry
        }),
    decreases *e, 0nat, 0nat,
{
    match e {
        Expr::Slice { collection, start, end } => {
            proof {
                assert(decreases_to!(*e => e->Slice_collection));
            }
            let array = match evaluate_expression(env, collection, titles, object) {
                Ok(v) => v,
                Err(er) => {
                    return Err(er);
                },
            };
            let start_value: Option<Value> = match start {
                Some(start_expr) => {
                    proof {
                        assert(decreases_to!(*e => e->Slice_start));
                        assert(e->Slice_start matches Some(b) && *b == **start_expr);
                    }
                    match evaluate_expression(env, start_expr, titles, object) {
                        Ok(v) => Some(v),
                        Err(er) => {
                            return Err(er);
                        },
                    }
                },
                None => None,
            };
            let end_value: Option<Value> = match end {
                Some(end_expr) => {
                    proof {
                        assert(decreases_to!(*e => e->Slice_end));
                        assert(e->Slice_end matches Some(b) && *b == **end_expr);
                    }
                    match evaluate_expression(env, end_expr, titles, object) {
                        Ok(v) => Some(v),
                        Err(er) => {
                            return Err(er);
                        },
                    }
                },
                None => None,
            };
            array.slice_op(&start_value, &end_value)
        },
        _ => {
            proof {
                assert(false);
            }
            Err(EvalError::InvalidOperation)
        },
    }
}

fn evaluate_arithmetic<R: FunctionRegistry>(
    env: &mut Environment<R>,
    e: &Expr,
    titles: &Vec<String>,
    object: &Vec<Value>,
) -> (r: Result<Value, EvalError>)
    requires
        titles@.len() == object@.len(),
        *e matches Expr::Arithmetic { .. },
    ensures
        ({
            let step = eval(old(env).registry, old(env).globals@, *e, titles@, object@);
            &&& step_matches(r, step)
            &&& final(env).globals@ == step.globals
            &&& final(env).registry == old(env).registry
        }),
    decreases *e, 0nat, 0nat,
{
    match e {
        Expr::Arithmetic { left, operator, right } => {
            proof {
                assert(decreases_to!(*e => e->Arithmetic_left));
                assert(decreases_to!(*e => e->Arithmetic_right));
            }
            let lhs = match evaluate_expression(env, left, titles, object) {
                Ok(v) => v,
                Err(er) => {
                    return Err(er);
                },
            };
            let rhs = match evaluate_expression(env, right, titles, object) {
                Ok(v) => v,
                Err(er) => {
                    return Err(er);
                },
            };
            match operator {
                ArithmeticOperator::Plus => lhs.add_op(&rhs),
                ArithmeticOperator::Minus => lhs.sub_op(&rhs),
                ArithmeticOperator::Star => lhs.mul_op(&rhs),
                ArithmeticOperator::Slash => lhs.div_op(&rhs),
                ArithmeticOperator::Modulus => lhs.rem_op(&rhs),
                ArithmeticOperator::Exponentiation => lhs.caret_op(&rhs),
            }
        },
        _ => {
            proof {
                assert(false);
            }
            Err(EvalError::InvalidOperation)
        },
    }
}

fn evaluate_comparison<R: FunctionRegistry>(
    env: &mut Environment<R>,
    e: &Expr,
    titles: &Vec<String>,
    object: &Vec<Value>,
) -> (r: Result<Value, EvalError>)
    requires
        titles@.len() == object@.len(),
        *e matches Expr::Comparison { .. },
    ensures
        ({
            let step = eval(old(env).registry, old(env).globals@, *e, titles@, object@);
            &&& step_matches(r, step)
            &&& final(env).globals@ == step.globals
            &&& final(env).registry == old(env).registry
        }),
    decreases *e, 0nat, 0nat,
{
    match e {
        Expr::Comparison { left, operator, right } => {
            proof {
                assert(decreases_to!(*e => e->Comparison_left));
                assert(decreases_to!(*e => e->Comparison_right));
            }
            let lhs = match evaluate_expression(env, left, titles, object) {
                Ok(v) => v,
                Err(er) => {
                    return Err(er);
                },
            };
            let rhs = match evaluate_expression(env, right, titles, object) {
                Ok(v) => v,
                Err(er) => {
                    return Err(er);
                },
            };
            match operator {
                ComparisonOperator::Greater => lhs.gt_op(&rhs),
                ComparisonOperator::GreaterEqual => lhs.gte_op(&rhs),
                ComparisonOperator::Less => lhs.lt_op(&rhs),
                ComparisonOperator::LessEqual => lhs.lte_op(&rhs),
                ComparisonOperator::Equal => lhs.eq_op(&rhs),
                ComparisonOperator::NotEqual => lhs.bang_eq_op(&rhs),
                ComparisonOperator::NullSafeEqual => lhs.null_safe_eq_op(&rhs),
            }
        },
        _ => {
            proof {
                assert(false);
            }
            Err(EvalError::InvalidOperation)
        },
    }
}

fn evaluate_group_comparison<R: FunctionRegistry>(
    env: &mut Environment<R>,
    e: &Expr,
    titles: &Vec<String>,
    object: &Vec<Value>,
) -> (r: Result<Value, EvalError>)
    requires
        titles@.len() == object@.len(),
        *e matches Expr::GroupComparison { .. },
    ensures
        ({
            let step = eval(old(env).registry, old(env).globals@, *e, titles@, object@);
            &&& step_matches(r, step)
            &&& final(env).globals@ == step.globals
            &&& final(env).registry == old(env).registry
        }),
    decreases *e, 0nat, 0nat,
{
    match e {
        Expr::GroupComparison { left, comparison_operator, group_operator, right } => {
            proof {
                assert(decreases_to!(*e => e->GroupComparison_left));
                assert(decreases_to!(*e => e->GroupComparison_right));
            }
            let lhs = match evaluate_expression(env, left, titles, object) {
                Ok(v) => v,
                Err(er) => {
                    return Err(er);
                },
            };
            let rhs = match evaluate_expression(env, right, titles, object) {
                Ok(v) => v,
                Err(er) => {
                    return Err(er);
                },
            };
            lhs.group_compare_op(&rhs, *comparison_operator, *group_operator)
        },
        _ => {
            proof {
                assert(false);
            }
            Err(EvalError::InvalidOperation)
        },
    }
}

fn evaluate_contains<R: FunctionRegistry>(
    env: &mut Environment<R>,
    e: &Expr,
    titles: &Vec<String>,
    object: &Vec<Value>,
) -> (r: Result<Value, EvalError>)
    requires
        titles@.len() == object@.len(),
        *e matches Expr::Contains { .. },
    ensures
        ({
            let step = eval(old(env).registry, old(env).globals@, *e, titles@, object@);
            &&& step_matches(r, step)
            &&& final(env).globals@ == step.globals
            &&& final(env).registry == old(env).registry
        }),
    decreases *e, 0nat, 0nat,
{
    match e {
        Expr::Contains { left, right } => {
            proof {
                assert(decreases_to!(*e => e->Contains_left));
                assert(decreases_to!(*e => e->Contains_right));
            }
            let lhs = match evaluate_expression(env, left, titles, object) {
                Ok(v) => v,
                Err(er) => {
                    return Err(er);
                },
            };
            let rhs = match evaluate_expression(env, right, titles, object) {
                Ok(v) => v,
                Err(er) => {
                    return Err(er);
                },
            };
            lhs.contains_op(&rhs)
        },
        _ => {
            proof {
                assert(false);
            }
            Err(EvalError::InvalidOperation)
        },
    }
}

fn evaluate_contained_by<R: FunctionRegistry>(
    env: &mut Environment<R>,
    e: &Expr,
    titles: &Vec<String>,
    object: &Vec<Value>,
) -> (r: Result<Value, EvalError>)
    requires
        titles@.len() == object@.len(),
        *e matches Expr::ContainedBy { .. },
    ensures
        ({
            let step = eval(old(env).registry, old(env).globals@, *e, titles@, object@);
            &&& step_matches(r, step)
            &&& final(env).globals@ == step.globals
            &&& final(env).registry == old(env).registry
        }),
    decreases *e, 0nat, 0nat,
{
    match e {
        Expr::ContainedBy { left, right } => {
            proof {
                assert(decreases_to!(*e => e->ContainedBy_left));
                assert(decreases_to!(*e => e->ContainedBy_right));
            }
            let lhs = match evaluate_expression(env, left, titles, object) {
                Ok(v) => v,
                Err(er) => {
                    return Err(er);
                },
            };
            let rhs = match evaluate_expression(env, right, titles, object) {
                Ok(v) => v,
                Err(er) => {
                    return Err(er);
                },
            };
            rhs.contains_op(&lhs)
        },
        _ => {
            proof {
                assert(false);
            }
            Err(EvalError::InvalidOperation)
        },
    }
}

fn evaluate_like<R: FunctionRegistry>(
    env: &mut Environment<R>,
    e: &Expr,
    titles: &Vec<String>,
    object: &Vec<Value>,
) -> (r: Result<Value, EvalError>)
    requires
        titles@.len() == object@.len(),
        *e matches Expr::Like { .. },
    ensures
        ({
            let step = eval(old(env).registry, old(env).globals@, *e, titles@, object@);
            &&& step_matches(r, step)
            &&& final(env).globals@ == step.globals
            &&& final(env).registry == old(env).registry
        }),
    decreases *e, 0nat, 0nat,
{
    match e {
        Expr::Like { input, pattern } => {
            proof {
                assert(decreases_to!(*e => e->Like_input));
                assert(decreases_to!(*e => e->Like_pattern));
            }
            let lhs = match evaluate_expression(env, input, titles, object) {
                Ok(v) => v,
                Err(er) => {
                    return Err(er);
                },
            };
            let rhs = match evaluate_expression(env, pattern, titles, object) {
                Ok(v) => v,
                Err(er) => {
                    return Err(er);
                },
            };
            lhs.like_op(&rhs)
        },
        _ => {
            proof {
                assert(false);
            }
            Err(EvalError::InvalidOperation)
        },
    }
}

fn evaluate_regex<R: FunctionRegistry>(
    env: &mut Environment<R>,
    e: &Expr,
    titles: &Vec<String>,
    object: &Vec<Value>,
) -> (r: Result<Value, EvalError>)
    requires
        titles@.len() == object@.len(),
        *e matches Expr::Regex { .. },
    ensures
        ({
            let step = eval(old(env).registry, old(env).globals@, *e, titles@, object@);
            &&& step_matches(r, step)
            &&& final(env).globals@ == step.globals
            &&& final(env).registry == old(env).registry
        }),
    decreases *e, 0nat, 0nat,
{
    match e {
        Expr::Regex { input, pattern } => {
            proof {
                assert(decreases_to!(*e => e->Regex_input));
                assert(decreases_to!(*e => e->Regex_pattern));
            }
            let lhs = match evaluate_expression(env, input, titles, object) {
                Ok(v) => v,
                Err(er) => {
                    return Err(er);
                },
            };
            let rhs = match evaluate_expression(env, pattern, titles, object) {
                Ok(v) => v,
                Err(er) => {
                    return Err(er);
                },
            };
            lhs.regexp_op(&rhs)
        },
        _ => {
            proof {
                assert(false);
            }
            Err(EvalError::InvalidOperation)
        },
    }
}

fn evaluate_glob<R: FunctionRegistry>(
    env: &mut Environment<R>,
    e: &Expr,
    titles: &Vec<String>,
    object: &Vec<Value>,
) -> (r: Result<Value, EvalError>)
    requires
        titles@.len() == object@.len(),
        *e matches Expr::Glob { .. },
    ensures
        ({
            let step = eval(old(env).registry, old(env).globals@, *e, titles@, object@);
            &&& step_matches(r, step)
            &&& final(env).globals@ == step.globals
            &&& final(env).registry == old(env).registry
        }),
    decreases *e, 0nat, 0nat,
{
    match e {
        Expr::Glob { input, pattern } => {
            proof {
                assert(decreases_to!(*e => e->Glob_input));
                assert(decreases_to!(*e => e->Glob_pattern));
            }
            let lhs = match evaluate_expression(env, input, titles, object) {
                Ok(v) => v,
                Err(er) => {
                    return Err(er);
                },
            };
            let rhs = match evaluate_expression(env, pattern, titles, object) {
                Ok(v) => v,
                Err(er) => {
                    return Err(er);
                },
            };
            lhs.glob_op(&rhs)
        },
        _ => {
            proof {
                assert(false);
            }
            Err(EvalError::InvalidOperation)
        },
    }
}

fn evaluate_logical<R: FunctionRegistry>(
    env: &mut Environment<R>,
    e: &Expr,
    titles: &Vec<String>,
    object: &Vec<Value>,
) -> (r: Result<Value, EvalError>)
    requires
        titles@.len() == object@.len(),
        *e matches Expr::Logical { .. },
    ensures
        ({
            let step = eval(old(env).registry, old(env).globals@, *e, titles@, object@);
            &&& step_matches(r, step)
            &&& final(env).globals@ == step.globals
            &&& final(env).registry == old(env).registry
        }),
    decreases *e, 0nat, 0nat,
{
    match e {
        Expr::Logical { left, operator, right } => {
            proof {
                assert(decreases_to!(*e => e->Logical_left));
                assert(decreases_to!(*e => e->Logical_right));
            }
            let lhs = match evaluate_expression(env, left, titles, object) {
                Ok(v) => v,
                Err(er) => {
                    return Err(er);
                },
            };
            let rhs = match evaluate_expression(env, right, titles, object) {
                Ok(v) => v,
                Err(er) => {
                    return Err(er);
                },
            };
            match operator {
                BinaryLogicalOperator::And => lhs.logical_and_op(&rhs),
                BinaryLogicalOperator::Or => lhs.logical_or_op(&rhs),
                BinaryLogicalOperator::Xor => lhs.logical_xor_op(&rhs),
            }
        },
        _ => {
            proof {
                assert(false);
            }
            Err(EvalError::InvalidOperation)
        },
    }
}

fn evaluate_bitwise<R: FunctionRegistry>(
    env: &mut Environment<R>,
    e: &Expr,
    titles: &Vec<String>,
    object: &Vec<Value>,
) -> (r: Result<Value, EvalError>)
    requires
        titles@.len() == object@.len(),
        *e matches Expr::Bitwise { .. },
    ensures
        ({
            let step = eval(old(env).registry, old(env).globals@, *e, titles@, object@);
            &&& step_matches(r, step)
            &&& final(env).globals@ == step.globals
            &&& final(env).registry == old(env).registry
        }),
    decreases *e, 0nat, 0nat,
{
    match e {
        Expr::Bitwise { left, operator, right } => {
            proof {
                assert(decreases_to!(*e => e->Bitwise_left));
                assert(decreases_to!(*e => e->Bitwise_right));
            }
            let lhs = match evaluate_expression(env, left, titles, object) {
                Ok(v) => v,
                Err(er) => {
                    return Err(er);
                },
            };
            let rhs = match evaluate_expression(env, right, titles, object) {
                Ok(v) => v,
                Err(er) => {
                    return Err(er);
                },
            };
            match operator {
                BinaryBitwiseOperator::Or => lhs.or_op(&rhs),
                BinaryBitwiseOperator::And => lhs.and_op(&rhs),
                BinaryBitwiseOperator::Xor => lhs.xor_op(&rhs),
                BinaryBitwiseOperator::RightShift => lhs.shr_op(&rhs),
                BinaryBitwiseOperator::LeftShift => lhs.shl_op(&rhs),
            }
        },
        _ => {
            proof {
                assert(false);
            }
            Err(EvalError::InvalidOperation)
        },
    }
}

fn evaluate_call<R: FunctionRegistry>(
    env: &mut Environment<R>,
    e: &Expr,
    titles: &Vec<String>,
    object: &Vec<Value>,
) -> (r: Result<Value, EvalError>)
    requires
        titles@.len() == object@.len(),
        *e matches Expr::Call { .. },
    ensures
        ({
            let step = eval(old(env).registry, old(env).globals@, *e, titles@, object@);
            &&& step_matches(r, step)
            &&& final(env).globals@ == step.globals
            &&& final(env).registry == old(env).registry
        }),
    decreases *e, 0nat, 0nat,
{
    match e {
        Expr::Call { function_name, arguments } => {
            proof {
                assert(decreases_to!(*e => e->Call_arguments));
                assert(decreases_to!(e->Call_arguments => arguments@));
                assert(arguments@.skip(0) =~= arguments@);
            }
            let mut args: Vec<Value> = Vec::new();
            match evaluate_list(env, arguments, 0, titles, object, &mut args) {
                Ok(_) => {
                    proof {
                        assert(args@.skip(0) =~= args@);
                    }
                    match env.registry.call_function(function_name, args) {
                        Some(v) => Ok(v),
                        None => Err(EvalError::UnknownFunction),
                    }
                },
                Err(er) => Err(er),
            }
        },
        _ => {
            proof {
                assert(false);
            }
            Err(EvalError::InvalidOperation)
        },
    }
}

#[verifier::loop_isolation(false)]
fn evaluate_benchmark_call<R: FunctionRegistry>(
    env: &mut Environment<R>,
    e: &Expr,
    titles: &Vec<String>,
    object: &Vec<Value>,
) -> (r: Result<Value, EvalError>)
    requires
        titles@.len() == object@.len(),
        *e matches Expr::BenchmarkCall { .. },
    ensures
        ({
            let step = eval(old(env).registry, old(env).globals@, *e, titles@, object@);
            &&& step_matches(r, step)
            &&& final(env).globals@ == step.globals
            &&& final(env).registry == old(env).registry
        }),
    decreases *e, 0nat, 0nat,
{
    match e {
        Expr::BenchmarkCall { expression, count } => {
            proof {
                assert(decreases_to!(*e => e->BenchmarkCall_count));
                assert(decreases_to!(*e => e->BenchmarkCall_expression));
            }
            let count_value = match evaluate_expression(env, count, titles, object) {
                Ok(v) => v,
                Err(er) => {
                    return Err(er);
                },
            };
            match count_value {
                Value::Integer(n) => {
                    let ghost g1 = env.globals@;
                    let bound: i64 = if n < 0 {
                        0
                    } else {
                        n
                    };
                    let ghost total = bound as nat;
                    let mut k: i64 = 0;
                    while k < bound
                        invariant
                            0 <= k <= bound,
                            env.registry == old(env).registry,
                            eval_repeat(
                                old(env).registry,
                                g1,
                                *e->BenchmarkCall_expression,
                                total,
                                titles@,
                                object@,
                            ) == eval_repeat(
                                old(env).registry,
                                env.globals@,
                                *e->BenchmarkCall_expression,
                                (bound - k) as nat,
                                titles@,
                                object@,
                            ),
                        decreases bound - k,
                    {
                        match evaluate_expression(env, expression, titles, object) {
                            Ok(_) => {
                            },
                            Err(er) => {
                                return Err(er);
                            },
                        }
                        k += 1;
                    }
                    Ok(Value::Integer(0))
                },
                _ => Ok(Value::Integer(0)),
            }
        },
        _ => {
            proof {
                assert(false);
            }
            Err(EvalError::InvalidOperation)
        },
    }
}

fn evaluate_between<R: FunctionRegistry>(
    env: &mut Environment<R>,
    e: &Expr,
    titles: &Vec<String>,
    object: &Vec<Value>,
) -> (r: Result<Value, EvalError>)
    requires
        titles@.len() == object@.len(),
        *e matches Expr::Between { .. },
    ensures
        ({
            let step = eval(old(env).registry, old(env).globals@, *e, titles@, object@);
            &&& step_matches(r, step)
            &&& final(env).globals@ == step.globals
            &&& final(env).registry == old(env).registry
        }),
    decreases *e, 0nat, 0nat,
{
    match e {
        Expr::Between { value, range_start, range_end, kind } => {
            proof {
                assert(decreases_to!(*e => e->Between_value));
                assert(decreases_to!(*e => e->Between_range_start));
                assert(decreases_to!(*e => e->Between_range_end));
            }
            let v = match evaluate_expression(env, value, titles, object) {
                Ok(v) => v,
                Err(er) => {
                    return Err(er);
                },
            };
            let rs = match evaluate_expression(env, range_start, titles, object) {
                Ok(v) => v,
                Err(er) => {
                    return Err(er);
                },
            };
            let re = match evaluate_expression(env, range_end, titles, object) {
                Ok(v) => v,
                Err(er) => {
                    return Err(er);
                },
            };
            let swap: bool = match kind {
                BetweenKind::Symmetric => (match rs.compare(&re) {
                    Some(o) => o == 1,
                    None => false,
                }),
                BetweenKind::Asymmetric => false,
            };
            let (lo, hi) = if swap {
                (re, rs)
            } else {
                (rs, re)
            };
            match v.compare(&lo) {
                None => Err(EvalError::NotComparable),
                Some(o1) => {
                    if o1 >= 0 {
                        match v.compare(&hi) {
                            None => Err(EvalError::NotComparable),
                            Some(o2) => Ok(Value::Boolean(o2 <= 0)),
                        }
                    } else {
                        Ok(Value::Boolean(false))
                    }
                },
            }
        },
        _ => {
            proof {
                assert(false);
            }
            Err(EvalError::InvalidOperation)
        },
    }
}

#[verifier::loop_isolation(false)]
fn evaluate_case<R: FunctionRegistry>(
    env: &mut Environment<R>,
    e: &Expr,
    titles: &Vec<String>,
    object: &Vec<Value>,
) -> (r: Result<Value, EvalError>)
    requires
        titles@.len() == object@.len(),
        *e matches Expr::Case { .. },
    ensures
        ({
            let step = eval(old(env).registry, old(env).globals@, *e, titles@, object@);
            &&& step_matches(r, step)
            &&& final(env).globals@ == step.globals
            &&& final(env).registry == old(env).registry
        }),
    decreases *e, 0nat, 0nat,
{
    match e {
        Expr::Case { conditions, values, default_value } => {
            let n = conditions.len();
            let mut i: usize = 0;
            while i < n
                invariant
                    i <= n,
                    env.registry == old(env).registry,
                    eval_case(
                        old(env).registry,
                        old(env).globals@,
                        *e,
                        0,
                        titles@,
                        object@,
                    ) == eval_case(
                        old(env).registry,
                        env.globals@,
                        *e,
                        i as int,
                        titles@,
                        object@,
                    ),
                decreases n - i,
            {
                proof {
                    assert(decreases_to!(*e => e->Case_conditions));
                    assert(decreases_to!(e->Case_conditions => conditions@));
                    assert(decreases_to!(conditions@ => conditions@[i as int]));
                    assert(decreases_to!(*e => conditions@[i as int]));
                }
                let c = match evaluate_expression(env, &conditions[i], titles, object) {
                    Ok(v) => v,
                    Err(er) => {
                        return Err(er);
                    },
                };
                let is_true_condition: bool = match &c {
                    Value::Boolean(b) => *b,
                    _ => false,
                };
                if is_true_condition {
                    proof {
                        assert(value_view(c) == ValueView::Boolean(true));
                    }
                    if i < values.len() {
                        proof {
                            assert(decreases_to!(*e => e->Case_values));
                            assert(decreases_to!(e->Case_values => values@));
                            assert(decreases_to!(values@ => values@[i as int]));
                            assert(decreases_to!(*e => values@[i as int]));
                        }
                        return evaluate_expression(env, &values[i], titles, object);
                    } else {
                        return Err(EvalError::InvalidOperation);
                    }
                }
                proof {
                    assert(value_view(c) != ValueView::Boolean(true));
                }
                i += 1;
            }
            match default_value {
                Some(default_expr) => {
                    proof {
                        assert(decreases_to!(*e => e->Case_default_value));
                        assert(e->Case_default_value matches Some(b) && *b == **default_expr);
                    }
                    evaluate_expression(env, default_expr, titles, object)
                },
                None => Err(EvalError::MissingDefault),
            }
        },
        _ => {
            proof {
                assert(false);
            }
            Err(EvalError::InvalidOperation)
        },
    }
}

#[verifier::loop_isolation(false)]
fn evaluate_in<R: FunctionRegistry>(
    env: &mut Environment<R>,
    e: &Expr,
    titles: &Vec<String>,
    object: &Vec<Value>,
) -> (r: Result<Value, EvalError>)
    requires
        titles@.len() == object@.len(),
        *e matches Expr::In { .. },
    ensures
        ({
            let step = eval(old(env).registry, old(env).globals@, *e, titles@, object@);
            &&& step_matches(r, step)
            &&& final(env).globals@ == step.globals
            &&& final(env).registry == old(env).registry
        }),
    decreases *e, 0nat, 0nat,
{
    match e {
        Expr::In { argument, values, has_not_keyword } => {
            proof {
                assert(decreases_to!(*e => e->In_argument));
            }
            let target = match evaluate_expression(env, argument, titles, object) {
                Ok(v) => v,
                Err(er) => {
                    return Err(er);
                },
            };
            let ghost g1 = env.globals@;
            let n = values.len();
            let mut i: usize = 0;
            while i < n
                invariant
                    i <= n,
                    env.registry == old(env).registry,
                    eval_in(
                        old(env).registry,
                        g1,
                        *e,
                        value_view(target),
                        0,
                        titles@,
                        object@,
                    ) == eval_in(
                        old(env).registry,
                        env.globals@,
                        *e,
                        value_view(target),
                        i as int,
                        titles@,
                        object@,
                    ),
                decreases n - i,
            {
                proof {
                    assert(decreases_to!(*e => e->In_values));
                    assert(decreases_to!(e->In_values => values@));
                    assert(decreases_to!(values@ => values@[i as int]));
                    assert(decreases_to!(*e => values@[i as int]));
                }
                let candidate = match evaluate_expression(env, &values[i], titles, object) {
                    Ok(v) => v,
                    Err(er) => {
                        return Err(er);
                    },
                };
                if target.equals(&candidate) {
                    return Ok(Value::Boolean(!*has_not_keyword));
                }
                i += 1;
            }
            Ok(Value::Boolean(*has_not_keyword))
        },
        _ => {
            proof {
                assert(false);
            }
            Err(EvalError::InvalidOperation)
        },
    }
}

fn evaluate_is_null<R: FunctionRegistry>(
    env: &mut Environment<R>,
    e: &Expr,
    titles: &Vec<String>,
    object: &Vec<Value>,
) -> (r: Result<Value, EvalError>)
    requires
        titles@.len() == object@.len(),
        *e matches Expr::IsNull { .. },
    ensures
        ({
            let step = eval(old(env).registry, old(env).globals@, *e, titles@, object@);
            &&& step_matches(r, step)
            &&& final(env).globals@ == step.globals
            &&& final(env).registry == old(env).registry
        }),
    decreases *e, 0nat, 0nat,
{
    match e {
        Expr::IsNull { argument, has_not } => {
            proof {
                assert(decreases_to!(*e => e->IsNull_argument));
            }
            let v = match evaluate_expression(env, argument, titles, object) {
                Ok(v) => v,
                Err(er) => {
                    return Err(er);
                },
            };
            let is_null = v.is_null();
            Ok(
                Value::Boolean(
                    if *has_not {
                        !is_null
                    } else {
                        is_null
                    },
                ),
            )
        },
        _ => {
            proof {
                assert(false);
            }
            Err(EvalError::InvalidOperation)
        },
    }
}

fn evaluate_cast<R: FunctionRegistry>(
    env: &mut Environment<R>,
    e: &Expr,
    titles: &Vec<String>,
    object: &Vec<Value>,
) -> (r: Result<Value, EvalError>)
    requires
        titles@.len() == object@.len(),
        *e matches Expr::Cast { .. },
    ensures
        ({
            let step = eval(old(env).registry, old(env).globals@, *e, titles@, object@);
            &&& step_matches(r, step)
            &&& final(env).globals@ == step.globals
            &&& final(env).registry == old(env).registry
        }),
    decreases *e, 0nat, 0nat,
{
    match e {
        Expr::Cast { value, result_type } => {
            proof {
                assert(decreases_to!(*e => e->Cast_value));
            }
            let v = match evaluate_expression(env, value, titles, object) {
                Ok(v) => v,
                Err(er) => {
                    return Err(er);
                },
            };
            v.cast_op(result_type)
        },
        _ => {
            proof {
                assert(false);
            }
            Err(EvalError::InvalidOperation)
        },
    }
}

fn evaluate_column<R: FunctionRegistry>(
    env: &mut Environment<R>,
    e: &Expr,
    titles: &Vec<String>,
    object: &Vec<Value>,
) -> (r: Result<Value, EvalError>)
    requires
        titles@.len() == object@.len(),
        *e matches Expr::Column { .. },
    ensures
        ({
            let step = eval(old(env).registry, old(env).globals@, *e, titles@, object@);
            &&& step_matches(r, step)
            &&& final(env).globals@ == step.globals
            &&& final(env).registry == old(env).registry
        }),
    decreases *e, 0nat, 0nat,
{
    match e {
        Expr::Column { expr } => {
            proof {
                assert(decreases_to!(*e => e->Column_expr));
            }
            evaluate_expression(env, expr, titles, object)
        },
        _ => {
            proof {
                assert(false);
            }
            Err(EvalError::InvalidOperation)
        },
    }
}

fn evaluate_row<R: FunctionRegistry>(
    env: &mut Environment<R>,
    e: &Expr,
    titles: &Vec<String>,
    object: &Vec<Value>,
) -> (r: Result<Value, EvalError>)
    requires
        titles@.len() == object@.len(),
        *e matches Expr::Row { .. },
    ensures
        ({
            let step = eval(old(env).registry, old(env).globals@, *e, titles@, object@);
            &&& step_matches(r, step)
            &&& final(env).globals@ == step.globals
            &&& final(env).registry == old(env).registry
        }),
    decreases *e, 0nat, 0nat,
{
    match e {
        Expr::Row { exprs, row_type } => {
            proof {
                assert(decreases_to!(*e => e->Row_exprs));
                assert(decreases_to!(e->Row_exprs => exprs@));
                assert(exprs@.skip(0) =~= exprs@);
            }
            let mut out: Vec<Value> = Vec::new();
            match evaluate_list(env, exprs, 0, titles, object, &mut out) {
                Ok(_) => {
                    proof {
                        assert(out@.skip(0) =~= out@);
                    }
                    let mut row_types: Vec<crate::value::ValueType> = Vec::new();
                    let nt = row_type.len();
                    let mut k: usize = 0;
                    while k < nt
                        invariant
                            k <= nt,
                            nt == row_type@.len(),
                            row_types@.len() == k,
                            forall|j: int|
                                0 <= j < k ==> type_view(#[trigger] row_types@[j]) == type_view(
                                    row_type@[j],
                                ),
                        decreases nt - k,
                    {
                        row_types.push(row_type[k].duplicate());
                        k += 1;
                    }
                    proof {
                        assert(types_view(row_types@) =~= types_view(row_type@)) by {
                            crate::value::lemma_types_view(row_types@);
                            crate::value::lemma_types_view(row_type@);
                        }
                    }
                    Ok(Value::Row(row_types, out))
                },
                Err(er) => Err(er),
            }
        },
        _ => {
            proof {
                assert(false);
            }
            Err(EvalError::InvalidOperation)
        },
    }
}

fn evaluate_member_access<R: FunctionRegistry>(
    env: &mut Environment<R>,
    e: &Expr,
    titles: &Vec<String>,
    object: &Vec<Value>,
) -> (r: Result<Value, EvalError>)
    requires
        titles@.len() == object@.len(),
        *e matches Expr::MemberAccess { .. },
    ensures
        ({
            let step = eval(old(env).registry, old(env).globals@, *e, titles@, object@);
            &&& step_matches(r, step)
            &&& final(env).globals@ == step.globals
            &&& final(env).registry == old(env).registry
        }),
    decreases *e, 0nat, 0nat,
{
    match e {
        Expr::MemberAccess { composite, member_name } => {
            proof {
                assert(decreases_to!(*e => e->MemberAccess_composite));
            }
            let v = match evaluate_expression(env, composite, titles, object) {
                Ok(v) => v,
                Err(er) => {
                    return Err(er);
                },
            };
            match &v {
                Value::Composite(_, members) => {
                    match crate::value::lookup_member(members, member_name) {
                        Some(x) => Ok(x.duplicate()),
                        None => Err(EvalError::UnknownMember),
                    }
                },
                _ => Err(EvalError::NotAComposite),
            }
        },
        _ => {
            proof {
                assert(false);
            }
            Err(EvalError::InvalidOperation)
        },
    }
}

} // verus!
