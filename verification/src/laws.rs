//! Laws of the value model and the evaluator: the integer division law, the
//! algebra of the equality and ordering relations, the symmetry of
//! symmetric BETWEEN, the complementarity of IN and NOT IN, CASE defaults,
//! and the absence of short-circuiting in logical operators.

use vstd::prelude::*;

use crate::error::EvalError;
use crate::eval::{between_check, eval, eval_in, EvalStep};
use crate::expr::{BetweenKind, BinaryLogicalOperator, Expr};
use crate::ops::{div_spec, rem_spec, int_div, int_rem};
use crate::runtime::FunctionRegistry;
use crate::value::{
    compare_spec, equals_spec, find_member, find_member_from, member_matched, seqs_equal, str_cmp,
    value_has_nan, value_wf, Value, ValueView,
};
use vstd::arithmetic::div_mod::lemma_fundamental_div_mod;

verus! {

/// Integer division round trip: for every dividend and non-zero divisor,
/// away from the single wrapping pair, the quotient times the divisor plus
/// the remainder gives back the dividend, and the remainder is smaller in
/// magnitude than the divisor.  These are the values the `/` and `%`
/// operators of the evaluator produce.
pub proof fn lemma_integer_division_round_trip(a: i64, b: i64)
    requires
        b != 0,
        !(a == i64::MIN && b == -1),
    ensures
        int_div(a, b) * b + int_rem(a, b) == a,
        b > 0 ==> -b < int_rem(a, b) < b,
        b < 0 ==> b < int_rem(a, b) < -b,
        div_spec(ValueView::Integer(a), ValueView::Integer(b)) == Ok::<ValueView, EvalError>(
            ValueView::Integer(int_div(a, b)),
        ),
        rem_spec(ValueView::Integer(a), ValueView::Integer(b)) == Ok::<ValueView, EvalError>(
            ValueView::Integer(int_rem(a, b)),
        ),
{
    let x = a as int;
    let d = b as int;
    if x == 0 {
        assert(int_div(a, b) == 0);
        assert(int_rem(a, b) == 0);
        assert(int_div(a, b) * b + int_rem(a, b) == a);
    } else if x > 0 && d > 0 {
        let q = x / d;
        let m = x % d;
        lemma_fundamental_div_mod(x, d);
        assert(0 <= q <= x) by (nonlinear_arith)
            requires
                x == d * q + m,
                0 <= m < d,
                x > 0,
        ;
        assert(int_div(a, b) == q);
        assert(int_rem(a, b) == m);
        assert(q * d + m == x) by (nonlinear_arith)
            requires
                x == d * q + m,
        ;
    } else if x < 0 && d < 0 {
        let q = (x * -1) / (d * -1);
        let m = (x * -1) % (d * -1);
        lemma_fundamental_div_mod(-x, -d);
        assert(0 <= q <= -x && q * d + m * -1 == x) by (nonlinear_arith)
            requires
                -x == (-d) * q + m,
                0 <= m < -d,
                x < 0,
                q == (x * -1) / (d * -1),
                m == (x * -1) % (d * -1),
        ;
        if d == -1 {
            assert(q == -x);
        } else {
            assert(2 * q <= -x) by (nonlinear_arith)
                requires
                    -x == (-d) * q + m,
                    0 <= m,
                    -d >= 2,
                    q >= 0,
            ;
        }
        assert(int_div(a, b) == q);
        assert(int_rem(a, b) == m * -1);
    } else if x < 0 {
        let q = (x * -1) / d;
        let m = (x * -1) % d;
        lemma_fundamental_div_mod(-x, d);
        assert(0 <= q <= -x && (q * -1) * d + m * -1 == x) by (nonlinear_arith)
            requires
                -x == d * q + m,
                0 <= m < d,
                x < 0,
                q == (x * -1) / d,
                m == (x * -1) % d,
        ;
        assert(int_div(a, b) == q * -1);
        assert(int_rem(a, b) == m * -1);
    } else {
        let q = x / (d * -1);
        let m = x % (d * -1);
        lemma_fundamental_div_mod(x, -d);
        assert(0 <= q <= x && (q * -1) * d + m == x) by (nonlinear_arith)
            requires
                x == (-d) * q + m,
                0 <= m < -d,
                x > 0,
                q == x / (d * -1),
                m == x % (d * -1),
        ;
        assert(int_div(a, b) == q * -1);
        assert(int_rem(a, b) == m);
    }
}

/// The character ordering takes only the values -1, 0 and 1, and is
/// antisymmetric; it reports 0 exactly on equal texts.
pub proof fn lemma_str_cmp_antisymmetric(a: Seq<char>, b: Seq<char>)
    ensures
        -1 <= str_cmp(a, b) <= 1,
        str_cmp(b, a) as int == -(str_cmp(a, b) as int),
        str_cmp(a, b) == 0 <==> a == b,
    decreases a.len(),
{
    if a.len() == 0 && b.len() == 0 {
        assert(a =~= b);
    } else if a.len() != 0 && b.len() != 0 {
        let c1 = a[0];
        let c2 = b[0];
        if !(c1 < c2) && !(c2 < c1) {
            lemma_str_cmp_antisymmetric(a.skip(1), b.skip(1));
            assert(c1 == c2);
            if str_cmp(a, b) == 0 {
                assert(a =~= seq![a[0]] + a.skip(1));
                assert(b =~= seq![b[0]] + b.skip(1));
            }
            if a == b {
                assert(a.skip(1) == b.skip(1));
            }
        } else {
            assert(a != b);
        }
    } else {
        assert(a != b);
    }
}

/// The partial ordering relation is antisymmetric where defined: swapping
/// the operands negates the reported order.
pub proof fn lemma_compare_antisymmetric(a: ValueView, b: ValueView)
    ensures
        (compare_spec(a, b) matches Some(o) ==> {
            &&& -1 <= o <= 1
            &&& compare_spec(b, a) == Some((0 - o as int) as i8)
        }),
        compare_spec(a, b) is Some <==> compare_spec(b, a) is Some,
{
    match (a, b) {
        (ValueView::Text(x), ValueView::Text(y)) => {
            lemma_str_cmp_antisymmetric(x, y);
            lemma_str_cmp_antisymmetric(y, x);
        },
        _ => {},
    }
}

/// Cross-variant pairs are consistently incomparable: the ordering relation
/// is defined only between two values of one ordered variant.
pub proof fn lemma_compare_cross_variant(a: ValueView, b: ValueView)
    ensures
        !((a is Boolean && b is Boolean) || (a is Integer && b is Integer) || (a is Float
            && b is Float) || (a is Text && b is Text) || (a is Interval && b is Interval))
            ==> compare_spec(a, b) is None,
{
}

/// Values that compare equal are interchangeable as comparison operands.
pub proof fn lemma_compare_substitution(v: ValueView, x: ValueView, y: ValueView)
    requires
        compare_spec(x, y) == Some(0i8),
    ensures
        compare_spec(v, x) == compare_spec(v, y),
{
    match (x, y) {
        (ValueView::Text(xs), ValueView::Text(ys)) => {
            lemma_str_cmp_antisymmetric(xs, ys);
            assert(xs == ys);
        },
        _ => {},
    }
}

/// BETWEEN in Symmetric mode does not depend on the order in which the two
/// bounds are written, whenever the bounds are comparable with each other.
pub proof fn lemma_between_symmetric(v: ValueView, x: ValueView, y: ValueView)
    requires
        compare_spec(x, y) is Some,
    ensures
        between_check(v, x, y, BetweenKind::Symmetric) == between_check(
            v,
            y,
            x,
            BetweenKind::Symmetric,
        ),
{
    lemma_compare_antisymmetric(x, y);
    if compare_spec(x, y) == Some(0i8) {
        lemma_compare_substitution(v, x, y);
        lemma_compare_antisymmetric(y, x);
        lemma_compare_substitution(v, y, x);
    }
}

/// Equality is reflexive for every well-formed value that carries no NaN
/// float anywhere (a NaN never equals itself).
pub proof fn lemma_equals_reflexive(v: ValueView)
    requires
        value_wf(v),
        !value_has_nan(v),
    ensures
        equals_spec(v, v),
    decreases v,
{
    match v {
        ValueView::Array(_, vals) => {
            assert forall|i: int| 0 <= i < vals.len() implies equals_spec(
                #[trigger] vals[i],
                vals[i],
            ) by {
                lemma_equals_reflexive(vals[i]);
            }
            assert(seqs_equal(vals, vals));
        },
        ValueView::Row(_, vals) => {
            assert forall|i: int| 0 <= i < vals.len() implies equals_spec(
                #[trigger] vals[i],
                vals[i],
            ) by {
                lemma_equals_reflexive(vals[i]);
            }
            assert(seqs_equal(vals, vals));
        },
        ValueView::Composite(_, m) => {
            assert forall|i: int| 0 <= i < m.len() implies member_matched(
                m,
                (#[trigger] m[i]).0,
                m[i].1,
            ) by {
                lemma_find_member_unique(m, i);
                lemma_equals_reflexive(m[i].1);
            }
        },
        _ => {},
    }
}

/// With unique member names, looking a member's own name up finds exactly
/// that member.
pub proof fn lemma_find_member_unique(m: Seq<(Seq<char>, ValueView)>, i: int)
    requires
        0 <= i < m.len(),
        forall|p: int, q: int| 0 <= p < q < m.len() ==> m[p].0 != m[q].0,
    ensures
        find_member(m, m[i].0) == Some(m[i].1),
{
    lemma_find_member_from_unique(m, i, 0);
}

proof fn lemma_find_member_from_unique(m: Seq<(Seq<char>, ValueView)>, i: int, j: int)
    requires
        0 <= j <= i < m.len(),
        forall|p: int, q: int| 0 <= p < q < m.len() ==> m[p].0 != m[q].0,
    ensures
        find_member_from(m, m[i].0, j) == Some(m[i].1),
    decreases i - j,
{
    if j < i {
        lemma_find_member_from_unique(m, i, j + 1);
    }
}

/// A found member is at some position with that name.
proof fn lemma_find_member_witness(m: Seq<(Seq<char>, ValueView)>, name: Seq<char>, j: int)
    requires
        0 <= j <= m.len(),
        find_member_from(m, name, j) is Some,
    ensures
        exists|i: int| j <= i < m.len() && (#[trigger] m[i]).0 == name && find_member_from(
            m,
            name,
            j,
        ) == Some(m[i].1),
    decreases m.len() - j,
{
    if j < m.len() {
        if m[j].0 == name {
        } else {
            lemma_find_member_witness(m, name, j + 1);
        }
    }
}

/// A member list with unique names has one entry per name in its key set.
proof fn lemma_keys_contained(m1: Seq<(Seq<char>, ValueView)>, m2: Seq<(Seq<char>, ValueView)>)
    requires
        forall|p: int, q: int| 0 <= p < q < m1.len() ==> m1[p].0 != m1[q].0,
        forall|p: int, q: int| 0 <= p < q < m2.len() ==> m2[p].0 != m2[q].0,
        m1.len() == m2.len(),
        forall|i: int| 0 <= i < m1.len() ==> find_member(m2, (#[trigger] m1[i]).0) is Some,
    ensures
        forall|j: int| 0 <= j < m2.len() ==> find_member(m1, (#[trigger] m2[j]).0) is Some,
{
    let s1 = Seq::new(m1.len(), |i: int| m1[i].0);
    let s2 = Seq::new(m2.len(), |i: int| m2[i].0);
    let keys1 = s1.to_set();
    let keys2 = s2.to_set();
    assert(s1.no_duplicates());
    assert(s2.no_duplicates());
    s1.unique_seq_to_set();
    s2.unique_seq_to_set();
    assert forall|k: Seq<char>| #[trigger] keys1.contains(k) implies keys2.contains(k) by {
        let i = choose|i: int| 0 <= i < s1.len() && s1[i] == k;
        assert(m1[i].0 == k);
        assert(find_member(m2, k) is Some);
        lemma_find_member_witness(m2, k, 0);
        let j = choose|j: int|
            0 <= j < m2.len() && (#[trigger] m2[j]).0 == k && find_member_from(m2, k, 0) == Some(
                m2[j].1,
            );
        assert(s2[j] == k);
        assert(s2.contains(k));
    }
    assert(keys1.subset_of(keys2));
    vstd::set_lib::lemma_len_subset(keys1, keys2);
    assert forall|j: int| 0 <= j < m2.len() implies find_member(
        m1,
        (#[trigger] m2[j]).0,
    ) is Some by {
        let k = m2[j].0;
        assert(s2[j] == k);
        assert(s2.contains(k));
        assert(keys2.contains(k));
        if !keys1.contains(k) {
            assert(keys1.subset_of(keys2.remove(k)));
            vstd::set_lib::lemma_len_subset(keys1, keys2.remove(k));
            assert(false);
        }
        let i = choose|i: int| 0 <= i < s1.len() && s1[i] == k;
        assert(m1[i].0 == k);
        lemma_find_member_unique(m1, i);
    }
}

/// Equality is symmetric for every pair of well-formed values.
pub proof fn lemma_equals_symmetric(a: ValueView, b: ValueView)
    requires
        value_wf(a),
        value_wf(b),
    ensures
        equals_spec(a, b) == equals_spec(b, a),
{
    if equals_spec(a, b) {
        lemma_equals_implies_reverse(a, b);
    }
    if equals_spec(b, a) {
        lemma_equals_implies_reverse(b, a);
    }
}

/// One direction of symmetry: values that equal left-to-right equal
/// right-to-left.
proof fn lemma_equals_implies_reverse(a: ValueView, b: ValueView)
    requires
        value_wf(a),
        value_wf(b),
        equals_spec(a, b),
    ensures
        equals_spec(b, a),
    decreases a, 1nat,
{
    match (a, b) {
        (ValueView::Array(t1, v1), ValueView::Array(t2, v2)) => {
            assert forall|i: int| 0 <= i < v2.len() implies equals_spec(
                #[trigger] v2[i],
                v1[i],
            ) by {
                proof_decreases_array(a, v1);
                assert(decreases_to!(v1 => v1[i]));
                assert(equals_spec(v1[i], v2[i]));
                lemma_equals_implies_reverse(v1[i], v2[i]);
            }
            assert(seqs_equal(v2, v1));
        },
        (ValueView::Row(t1, v1), ValueView::Row(t2, v2)) => {
            assert forall|i: int| 0 <= i < v2.len() implies equals_spec(
                #[trigger] v2[i],
                v1[i],
            ) by {
                proof_decreases_row(a, v1);
                assert(decreases_to!(v1 => v1[i]));
                assert(equals_spec(v1[i], v2[i]));
                lemma_equals_implies_reverse(v1[i], v2[i]);
            }
            assert(seqs_equal(v2, v1));
        },
        (ValueView::Composite(n1, m1), ValueView::Composite(n2, m2)) => {
            lemma_members_matched_symmetric(a, b, m1, m2);
        },
        _ => {},
    }
}

/// The element sequence of an array view is below the view in the
/// termination order.
proof fn proof_decreases_array(a: ValueView, v1: Seq<ValueView>)
    requires
        a matches ValueView::Array(t, vv) && vv == v1,
    ensures
        decreases_to!(a => v1),
{
    assert(v1 == a->Array_1);
    assert(decreases_to!(a => a->Array_1));
}

/// The element sequence of a row view is below the view in the termination
/// order.
proof fn proof_decreases_row(a: ValueView, v1: Seq<ValueView>)
    requires
        a matches ValueView::Row(t, vv) && vv == v1,
    ensures
        decreases_to!(a => v1),
{
    assert(v1 == a->Row_1);
    assert(decreases_to!(a => a->Row_1));
}

/// One direction of composite symmetry: if every member of `m1` is matched
/// in `m2`, with unique names on both sides and equal lengths, then every
/// member of `m2` is matched in `m1`.  The bound value `a` carries the
/// recursion measure.
proof fn lemma_members_matched_symmetric(
    a: ValueView,
    b: ValueView,
    m1: Seq<(Seq<char>, ValueView)>,
    m2: Seq<(Seq<char>, ValueView)>,
)
    requires
        a matches ValueView::Composite(n1, mm1) && mm1 == m1,
        b matches ValueView::Composite(n2, mm2) && mm2 == m2,
        value_wf(a),
        value_wf(b),
        m1.len() == m2.len(),
        forall|i: int| 0 <= i < m1.len() ==> member_matched(m2, (#[trigger] m1[i]).0, m1[i].1),
    ensures
        forall|j: int| 0 <= j < m2.len() ==> member_matched(m1, (#[trigger] m2[j]).0, m2[j].1),
    decreases a, 0nat,
{
    assert forall|i: int| 0 <= i < m1.len() implies find_member(
        m2,
        (#[trigger] m1[i]).0,
    ) is Some by {
        assert(member_matched(m2, m1[i].0, m1[i].1));
    }
    lemma_keys_contained(m1, m2);
    assert forall|j: int| 0 <= j < m2.len() implies member_matched(
        m1,
        (#[trigger] m2[j]).0,
        m2[j].1,
    ) by {
        let k = m2[j].0;
        lemma_find_member_witness(m1, k, 0);
        let i = choose|i: int|
            0 <= i < m1.len() && (#[trigger] m1[i]).0 == k && find_member_from(m1, k, 0) == Some(
                m1[i].1,
            );
        assert(member_matched(m2, m1[i].0, m1[i].1));
        lemma_find_member_unique(m2, j);
        assert(find_member(m2, k) == Some(m2[j].1));
        assert(equals_spec(m1[i].1, m2[j].1));
        assert(m1 == a->Composite_1);
        assert(decreases_to!(a => a->Composite_1));
        assert(decreases_to!(m1 => m1[i]));
        assert(decreases_to!(m1[i] => m1[i].1));
        lemma_equals_implies_reverse(m1[i].1, m2[j].1);
    }
}

/// IN and NOT IN are complementary: on the same argument and candidate
/// list, from the same state, exactly one of them reports true, and they
/// fail alike.
pub proof fn lemma_in_complementary<R: FunctionRegistry>(
    reg: R,
    g: Map<Seq<char>, ValueView>,
    argument: Expr,
    values: Vec<Expr>,
    titles: Seq<String>,
    row: Seq<Value>,
)
    ensures
        ({
            let pos = eval(
                reg,
                g,
                Expr::In { argument: Box::new(argument), values, has_not_keyword: false },
                titles,
                row,
            );
            let negp = eval(
                reg,
                g,
                Expr::In { argument: Box::new(argument), values, has_not_keyword: true },
                titles,
                row,
            );
            &&& pos.globals == negp.globals
            &&& (match (pos.result, negp.result) {
                (Ok(ValueView::Boolean(b1)), Ok(ValueView::Boolean(b2))) => b1 == !b2,
                (Err(e1), Err(e2)) => e1 == e2,
                _ => false,
            })
        }),
{
    let e_pos = Expr::In { argument: Box::new(argument), values, has_not_keyword: false };
    let e_neg = Expr::In { argument: Box::new(argument), values, has_not_keyword: true };
    let s1 = eval(reg, g, argument, titles, row);
    match s1.result {
        Ok(av) => {
            lemma_eval_in_complementary(reg, s1.globals, e_pos, e_neg, av, 0, titles, row);
        },
        Err(_) => {},
    }
}

proof fn lemma_eval_in_complementary<R: FunctionRegistry>(
    reg: R,
    g: Map<Seq<char>, ValueView>,
    e_pos: Expr,
    e_neg: Expr,
    target: ValueView,
    i: int,
    titles: Seq<String>,
    row: Seq<Value>,
)
    requires
        e_pos matches Expr::In { argument: a1, values: v1, has_not_keyword: false },
        e_neg matches Expr::In { argument: a2, values: v2, has_not_keyword: true },
        (match (e_pos, e_neg) {
            (
                Expr::In { values: v1, .. },
                Expr::In { values: v2, .. },
            ) => v1 == v2,
            _ => false,
        }),
    ensures
        ({
            let pos = eval_in(reg, g, e_pos, target, i, titles, row);
            let negp = eval_in(reg, g, e_neg, target, i, titles, row);
            &&& pos.globals == negp.globals
            &&& (match (pos.result, negp.result) {
                (Ok(ValueView::Boolean(b1)), Ok(ValueView::Boolean(b2))) => b1 == !b2,
                (Err(e1), Err(e2)) => e1 == e2,
                _ => false,
            })
        }),
    decreases e_pos, 0nat, (crate::eval::in_len(e_pos) - i),
{
    match (e_pos, e_neg) {
        (Expr::In { values: vs, .. }, Expr::In { .. }) => {
            if 0 <= i < vs@.len() {
                let s = eval(reg, g, vs@[i], titles, row);
                match s.result {
                    Ok(v) => {
                        if !equals_spec(target, v) {
                            lemma_eval_in_complementary(
                                reg,
                                s.globals,
                                e_pos,
                                e_neg,
                                target,
                                i + 1,
                                titles,
                                row,
                            );
                        }
                    },
                    Err(_) => {},
                }
            }
        },
        _ => {},
    }
}

/// A CASE with no conditions takes its declared default, or fails with
/// `MissingDefault` when there is none.
pub proof fn lemma_case_default<R: FunctionRegistry>(
    reg: R,
    g: Map<Seq<char>, ValueView>,
    e: Expr,
    titles: Seq<String>,
    row: Seq<Value>,
)
    requires
        e matches Expr::Case { conditions, .. } && conditions@.len() == 0,
    ensures
        (match e {
            Expr::Case { default_value: Some(d), .. } => eval(reg, g, e, titles, row) == eval(
                reg,
                g,
                *d,
                titles,
                row,
            ),
            Expr::Case { default_value: None, .. } => eval(reg, g, e, titles, row) == (EvalStep {
                result: Err(EvalError::MissingDefault),
                globals: g,
            }),
            _ => false,
        }),
{
    reveal_with_fuel(eval, 3);
    reveal_with_fuel(crate::eval::eval_case, 2);
}

/// Logical operators do not short-circuit: an assignment on the left of an
/// OR always takes effect, whatever the right operand contributes.
pub proof fn lemma_or_evaluates_both_sides<R: FunctionRegistry>(
    reg: R,
    g: Map<Seq<char>, ValueView>,
    symbol: String,
    rhs: bool,
    titles: Seq<String>,
    row: Seq<Value>,
)
    ensures
        ({
            let e = Expr::Logical {
                left: Box::new(
                    Expr::Assignment {
                        symbol,
                        value: Box::new(Expr::BooleanLit { is_true: true }),
                    },
                ),
                operator: BinaryLogicalOperator::Or,
                right: Box::new(Expr::BooleanLit { is_true: rhs }),
            };
            let step = eval(reg, g, e, titles, row);
            &&& step.globals == g.insert(symbol@, ValueView::Boolean(true))
            &&& step.globals.contains_key(symbol@)
            &&& step.globals[symbol@] == ValueView::Boolean(true)
            &&& step.result == Ok::<ValueView, EvalError>(ValueView::Boolean(true))
        }),
{
    let inner = Expr::BooleanLit { is_true: true };
    let left = Expr::Assignment { symbol, value: Box::new(inner) };
    let right = Expr::BooleanLit { is_true: rhs };
    let e = Expr::Logical {
        left: Box::new(left),
        operator: BinaryLogicalOperator::Or,
        right: Box::new(right),
    };
    assert(eval(reg, g, inner, titles, row) == EvalStep {
        result: Ok::<ValueView, EvalError>(ValueView::Boolean(true)),
        globals: g,
    });
    let g1 = g.insert(symbol@, ValueView::Boolean(true));
    assert(eval(reg, g, left, titles, row) == EvalStep {
        result: Ok::<ValueView, EvalError>(ValueView::Boolean(true)),
        globals: g1,
    });
    assert(eval(reg, g1, right, titles, row) == EvalStep {
        result: Ok::<ValueView, EvalError>(ValueView::Boolean(rhs)),
        globals: g1,
    });
}

} // verus!
