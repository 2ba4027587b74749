//! The runtime value model: a closed tagged union with a mathematical view,
//! a total equality relation and a partial ordering relation.

use vstd::prelude::*;

use crate::fp::{float_cmp_bits, fp_cmp, fp_eq, fp_is_nan};
use crate::interval::{interval_eq_spec, interval_seconds, sign_of, Interval};

verus! {

/// The declared type of a value, carried by arrays and rows and used as a
/// cast target.
pub enum ValueType {
    Null,
    Boolean,
    Integer,
    Float,
    Text,
    Interval,
    Array(Box<ValueType>),
    Row(Vec<ValueType>),
}

/// The mathematical view of a [`ValueType`].
pub enum TypeView {
    Null,
    Boolean,
    Integer,
    Float,
    Text,
    Interval,
    Array(Box<TypeView>),
    Row(Seq<TypeView>),
}

/// The views of a sequence of declared types.
pub open spec fn types_view(ts: Seq<ValueType>) -> Seq<TypeView>
    decreases ts,
{
    if ts.len() == 0 {
        Seq::empty()
    } else {
        seq![type_view(ts[0])] + types_view(ts.skip(1))
    }
}

/// The view of a declared type.
pub open spec fn type_view(t: ValueType) -> TypeView
    decreases t,
{
    match t {
        ValueType::Null => TypeView::Null,
        ValueType::Boolean => TypeView::Boolean,
        ValueType::Integer => TypeView::Integer,
        ValueType::Float => TypeView::Float,
        ValueType::Text => TypeView::Text,
        ValueType::Interval => TypeView::Interval,
        ValueType::Array(inner) => TypeView::Array(Box::new(type_view(*inner))),
        ValueType::Row(ts) => TypeView::Row(types_view(ts@)),
    }
}

impl View for ValueType {
    type V = TypeView;

    open spec fn view(&self) -> TypeView {
        type_view(*self)
    }
}

/// A runtime value.  Floats are carried as IEEE 754 binary64 bit patterns.
/// Arrays carry their declared element type; rows carry their column types;
/// composites carry a name and a sequence of named members.
pub enum Value {
    Null,
    Boolean(bool),
    Integer(i64),
    Float(u64),
    Text(String),
    Interval(Interval),
    Array(ValueType, Vec<Value>),
    Row(Vec<ValueType>, Vec<Value>),
    Composite(String, Vec<(String, Value)>),
}

/// The mathematical view of a [`Value`].
pub enum ValueView {
    Null,
    Boolean(bool),
    Integer(i64),
    Float(u64),
    Text(Seq<char>),
    Interval(Interval),
    Array(TypeView, Seq<ValueView>),
    Row(Seq<TypeView>, Seq<ValueView>),
    Composite(Seq<char>, Seq<(Seq<char>, ValueView)>),
}

/// The views of a sequence of values.
pub open spec fn values_view(vs: Seq<Value>) -> Seq<ValueView>
    decreases vs,
{
    if vs.len() == 0 {
        Seq::empty()
    } else {
        seq![value_view(vs[0])] + values_view(vs.skip(1))
    }
}

/// The views of a sequence of named members.
pub open spec fn members_view(ms: Seq<(String, Value)>) -> Seq<(Seq<char>, ValueView)>
    decreases ms,
{
    if ms.len() == 0 {
        Seq::empty()
    } else {
        seq![(ms[0].0@, value_view(ms[0].1))] + members_view(ms.skip(1))
    }
}

/// The view of a runtime value.
pub open spec fn value_view(v: Value) -> ValueView
    decreases v,
{
    match v {
        Value::Null => ValueView::Null,
        Value::Boolean(b) => ValueView::Boolean(b),
        Value::Integer(i) => ValueView::Integer(i),
        Value::Float(bits) => ValueView::Float(bits),
        Value::Text(s) => ValueView::Text(s@),
        Value::Interval(iv) => ValueView::Interval(iv),
        Value::Array(t, vals) => ValueView::Array(type_view(t), values_view(vals@)),
        Value::Row(ts, vals) => ValueView::Row(types_view(ts@), values_view(vals@)),
        Value::Composite(name, members) => ValueView::Composite(name@, members_view(members@)),
    }
}

impl View for Value {
    type V = ValueView;

    open spec fn view(&self) -> ValueView {
        value_view(*self)
    }
}

/// The length and elements of `types_view`: it maps `type_view` over the
/// sequence.
pub broadcast proof fn lemma_types_view(ts: Seq<ValueType>)
    ensures
        (#[trigger] types_view(ts)).len() == ts.len(),
        forall|i: int| 0 <= i < ts.len() ==> types_view(ts)[i] == type_view(ts[i]),
    decreases ts.len(),
{
    if ts.len() > 0 {
        lemma_types_view(ts.skip(1));
        assert forall|i: int| 0 <= i < ts.len() implies types_view(ts)[i] == type_view(ts[i]) by {
            if i > 0 {
                assert(ts.skip(1)[i - 1] == ts[i]);
            }
        }
    }
}

/// The length and elements of `values_view`: it maps `value_view` over the
/// sequence.
pub broadcast proof fn lemma_values_view(vs: Seq<Value>)
    ensures
        (#[trigger] values_view(vs)).len() == vs.len(),
        forall|i: int| 0 <= i < vs.len() ==> values_view(vs)[i] == value_view(vs[i]),
    decreases vs.len(),
{
    if vs.len() > 0 {
        lemma_values_view(vs.skip(1));
        assert forall|i: int| 0 <= i < vs.len() implies values_view(vs)[i] == value_view(vs[i]) by {
            if i > 0 {
                assert(vs.skip(1)[i - 1] == vs[i]);
            }
        }
    }
}

/// The length and elements of `members_view`: it maps the pair view over the
/// sequence.
pub broadcast proof fn lemma_members_view(ms: Seq<(String, Value)>)
    ensures
        (#[trigger] members_view(ms)).len() == ms.len(),
        forall|i: int| 0 <= i < ms.len() ==> members_view(ms)[i] == (ms[i].0@, value_view(
            ms[i].1,
        )),
    decreases ms.len(),
{
    if ms.len() > 0 {
        lemma_members_view(ms.skip(1));
        assert forall|i: int| 0 <= i < ms.len() implies members_view(ms)[i] == (
            ms[i].0@,
            value_view(ms[i].1),
        ) by {
            if i > 0 {
                assert(ms.skip(1)[i - 1] == ms[i]);
            }
        }
    }
}

/// The first member of `m` named `name`, if any, starting at position `i`.
pub open spec fn find_member_from(
    m: Seq<(Seq<char>, ValueView)>,
    name: Seq<char>,
    i: int,
) -> Option<ValueView>
    decreases m.len() - i,
{
    if i < 0 || i >= m.len() {
        None
    } else if m[i].0 == name {
        Some(m[i].1)
    } else {
        find_member_from(m, name, i + 1)
    }
}

/// The first member of `m` named `name`, if any.
pub open spec fn find_member(m: Seq<(Seq<char>, ValueView)>, name: Seq<char>) -> Option<ValueView> {
    find_member_from(m, name, 0)
}

/// Whether the member list `m` has a member named `name` whose value equals
/// `val`.
pub open spec fn member_matched(
    m: Seq<(Seq<char>, ValueView)>,
    name: Seq<char>,
    val: ValueView,
) -> bool
    decreases val, 1nat,
{
    match find_member(m, name) {
        Some(v) => equals_spec(val, v),
        None => false,
    }
}

/// Whether two value sequences are equal element by element.
pub open spec fn seqs_equal(a: Seq<ValueView>, b: Seq<ValueView>) -> bool
    decreases a, 1nat,
{
    forall|i: int| 0 <= i < a.len() ==> equals_spec(#[trigger] a[i], b[i])
}

/// The total equality relation on values, used by IN and CASE-style
/// matching.  Values of different variants are unequal; floats compare
/// IEEE-equal; composites match members by name.
pub open spec fn equals_spec(a: ValueView, b: ValueView) -> bool
    decreases a, 0nat,
{
    match (a, b) {
        (ValueView::Null, ValueView::Null) => true,
        (ValueView::Boolean(x), ValueView::Boolean(y)) => x == y,
        (ValueView::Integer(x), ValueView::Integer(y)) => x == y,
        (ValueView::Float(x), ValueView::Float(y)) => fp_eq(x, y),
        (ValueView::Text(x), ValueView::Text(y)) => x == y,
        (ValueView::Interval(x), ValueView::Interval(y)) => interval_eq_spec(x, y),
        (ValueView::Array(t1, v1), ValueView::Array(t2, v2)) => {
            t1 == t2 && v1.len() == v2.len() && seqs_equal(v1, v2)
        },
        (ValueView::Row(t1, v1), ValueView::Row(t2, v2)) => {
            t1 == t2 && v1.len() == v2.len() && seqs_equal(v1, v2)
        },
        (ValueView::Composite(n1, m1), ValueView::Composite(n2, m2)) => {
            n1 == n2 && m1.len() == m2.len() && (forall|i: int|
                0 <= i < m1.len() ==> member_matched(m2, (#[trigger] m1[i]).0, m1[i].1))
        },
        _ => false,
    }
}

/// The character-wise lexicographic ordering of two texts, by code point.
pub open spec fn str_cmp(a: Seq<char>, b: Seq<char>) -> i8
    decreases a.len(),
{
    if a.len() == 0 && b.len() == 0 {
        0i8
    } else if a.len() == 0 {
        -1i8
    } else if b.len() == 0 {
        1i8
    } else if a[0] < b[0] {
        -1i8
    } else if b[0] < a[0] {
        1i8
    } else {
        str_cmp(a.skip(1), b.skip(1))
    }
}

/// The partial ordering relation on values, used by comparison and BETWEEN
/// operators.  It is defined only between two booleans, two integers, two
/// non-NaN floats, two texts, or two intervals; every other pair is
/// incomparable.
pub open spec fn compare_spec(a: ValueView, b: ValueView) -> Option<i8> {
    match (a, b) {
        (ValueView::Boolean(x), ValueView::Boolean(y)) => Some(
            if x == y {
                0i8
            } else if !x {
                -1i8
            } else {
                1i8
            },
        ),
        (ValueView::Integer(x), ValueView::Integer(y)) => Some(sign_of(x - y) as i8),
        (ValueView::Float(x), ValueView::Float(y)) => fp_cmp(x, y),
        (ValueView::Text(x), ValueView::Text(y)) => Some(str_cmp(x, y)),
        (ValueView::Interval(x), ValueView::Interval(y)) => Some(
            sign_of(interval_seconds(x) - interval_seconds(y)) as i8,
        ),
        _ => None,
    }
}

/// Well-formedness of a value: within one composite the member names are
/// unique, recursively.
pub open spec fn value_wf(v: ValueView) -> bool
    decreases v,
{
    match v {
        ValueView::Array(_, vals) => forall|i: int|
            0 <= i < vals.len() ==> value_wf(#[trigger] vals[i]),
        ValueView::Row(_, vals) => forall|i: int|
            0 <= i < vals.len() ==> value_wf(#[trigger] vals[i]),
        ValueView::Composite(_, m) => {
            &&& (forall|i: int, j: int| 0 <= i < j < m.len() ==> m[i].0 != m[j].0)
            &&& (forall|i: int| 0 <= i < m.len() ==> value_wf((#[trigger] m[i]).1))
        },
        _ => true,
    }
}

/// Whether any float carried anywhere inside the value is a NaN.
pub open spec fn value_has_nan(v: ValueView) -> bool
    decreases v,
{
    match v {
        ValueView::Float(bits) => fp_is_nan(bits),
        ValueView::Interval(iv) => fp_is_nan(iv.seconds),
        ValueView::Array(_, vals) => exists|i: int|
            0 <= i < vals.len() && value_has_nan(#[trigger] vals[i]),
        ValueView::Row(_, vals) => exists|i: int|
            0 <= i < vals.len() && value_has_nan(#[trigger] vals[i]),
        ValueView::Composite(_, m) => exists|i: int|
            0 <= i < m.len() && value_has_nan((#[trigger] m[i]).1),
        _ => false,
    }
}

/// Relies on `<str as Ord>::cmp`: Rust strings order lexicographically by
/// code point, which is `str_cmp` on the character sequences.
#[verifier::external_body]
fn text_cmp(a: &String, b: &String) -> (r: i8)
    ensures
        r == str_cmp(a@, b@),
{
    match a.as_str().cmp(b.as_str()) {
        core::cmp::Ordering::Less => -1,
        core::cmp::Ordering::Equal => 0,
        core::cmp::Ordering::Greater => 1,
    }
}

impl ValueType {
    /// Structural equality of two declared types.
    #[verifier::loop_isolation(false)]
    pub fn type_eq(&self, other: &ValueType) -> (r: bool)
        ensures
            r == (self@ == other@),
        decreases self,
    {
        broadcast use lemma_types_view;

        match (self, other) {
            (ValueType::Null, ValueType::Null) => true,
            (ValueType::Boolean, ValueType::Boolean) => true,
            (ValueType::Integer, ValueType::Integer) => true,
            (ValueType::Float, ValueType::Float) => true,
            (ValueType::Text, ValueType::Text) => true,
            (ValueType::Interval, ValueType::Interval) => true,
            (ValueType::Array(x), ValueType::Array(y)) => x.type_eq(y),
            (ValueType::Row(xs), ValueType::Row(ys)) => {
                if xs.len() != ys.len() {
                    proof {
                        lemma_types_view(xs@);
                        lemma_types_view(ys@);
                    }
                    return false;
                }
                let n = xs.len();
                let mut i: usize = 0;
                while i < n
                    invariant
                        n == xs@.len() == ys@.len(),
                        i <= n,
                        forall|j: int|
                            0 <= j < i ==> type_view(#[trigger] xs@[j]) == type_view(ys@[j]),
                    decreases n - i,
                {
                    proof {
                        assert(*xs == self->Row_0);
                        assert(decreases_to!(*self => self->Row_0));
                        assert(decreases_to!(*self => *xs));
                        assert(decreases_to!(*xs => xs@[i as int]));
                        assert(decreases_to!(*self => xs@[i as int]));
                    }
                    if !xs[i].type_eq(&ys[i]) {
                        proof {
                            assert(types_view(xs@)[i as int] != types_view(ys@)[i as int]);
                        }
                        return false;
                    }
                    i += 1;
                }
                proof {
                    assert(types_view(xs@) =~= types_view(ys@));
                }
                true
            },
            _ => false,
        }
    }

    /// A deep copy of the declared type, with the same view.
    #[verifier::loop_isolation(false)]
    pub fn duplicate(&self) -> (r: ValueType)
        ensures
            r@ == self@,
        decreases self,
    {
        broadcast use lemma_types_view;

        match self {
            ValueType::Null => ValueType::Null,
            ValueType::Boolean => ValueType::Boolean,
            ValueType::Integer => ValueType::Integer,
            ValueType::Float => ValueType::Float,
            ValueType::Text => ValueType::Text,
            ValueType::Interval => ValueType::Interval,
            ValueType::Array(inner) => ValueType::Array(Box::new(inner.duplicate())),
            ValueType::Row(ts) => {
                let n = ts.len();
                let mut out: Vec<ValueType> = Vec::new();
                let mut i: usize = 0;
                while i < n
                    invariant
                        n == ts@.len(),
                        i <= n,
                        out@.len() == i,
                        forall|j: int|
                            0 <= j < i ==> type_view(#[trigger] out@[j]) == type_view(ts@[j]),
                    decreases n - i,
                {
                    proof {
                        assert(*ts == self->Row_0);
                        assert(decreases_to!(*self => self->Row_0));
                        assert(decreases_to!(*self => *ts));
                        assert(decreases_to!(*ts => ts@[i as int]));
                        assert(decreases_to!(*self => ts@[i as int]));
                    }
                    out.push(ts[i].duplicate());
                    i += 1;
                }
                proof {
                    assert(types_view(out@) =~= types_view(ts@));
                }
                ValueType::Row(out)
            },
        }
    }
}

/// The first member named `name` in `members`, if any, as a reference.
#[verifier::loop_isolation(false)]
pub fn lookup_member<'a>(members: &'a Vec<(String, Value)>, name: &String) -> (r: Option<&'a Value>)
    ensures
        (match r {
            Some(v) => find_member(members_view(members@), name@) == Some(v@),
            None => find_member(members_view(members@), name@) is None,
        }),
{
    broadcast use lemma_members_view;

    let ghost m = members_view(members@);
    let n = members.len();
    let mut i: usize = 0;
    while i < n
        invariant
            n == members@.len(),
            m == members_view(members@),
            m.len() == n,
            i <= n,
            find_member(m, name@) == find_member_from(m, name@, i as int),
        decreases n - i,
    {
        if members[i].0 == *name {
            return Some(&members[i].1);
        }
        i += 1;
    }
    None
}

impl Value {
    /// The total equality relation, proved against `equals_spec`.
    #[verifier::loop_isolation(false)]
    #[verifier::rlimit(60)]
    pub fn equals(&self, other: &Value) -> (r: bool)
        ensures
            r == equals_spec(self@, other@),
        decreases self,
    {
        broadcast use lemma_types_view, lemma_values_view, lemma_members_view;

        match (self, other) {
            (Value::Null, Value::Null) => true,
            (Value::Boolean(x), Value::Boolean(y)) => x == y,
            (Value::Integer(x), Value::Integer(y)) => x == y,
            (Value::Float(x), Value::Float(y)) => {
                match float_cmp_bits(*x, *y) {
                    Some(o) => o == 0,
                    None => false,
                }
            },
            (Value::Text(x), Value::Text(y)) => *x == *y,
            (Value::Interval(x), Value::Interval(y)) => x.equals_interval(y),
            (Value::Array(t1, v1), Value::Array(t2, v2)) => {
                if !t1.type_eq(t2) || v1.len() != v2.len() {
                    proof {
                        lemma_values_view(v1@);
                        lemma_values_view(v2@);
                    }
                    return false;
                }
                let n = v1.len();
                let mut i: usize = 0;
                while i < n
                    invariant
                        n == v1@.len() == v2@.len(),
                        i <= n,
                        forall|j: int|
                            0 <= j < i ==> equals_spec(
                                value_view(#[trigger] v1@[j]),
                                value_view(v2@[j]),
                            ),
                    decreases n - i,
                {
                    proof {
                        assert(*v1 == self->Array_1);
                        assert(decreases_to!(*self => self->Array_1));
                        assert(decreases_to!(*self => *v1));
                        assert(decreases_to!(*v1 => v1@[i as int]));
                        assert(decreases_to!(*self => v1@[i as int]));
                    }
                    if !v1[i].equals(&v2[i]) {
                        proof {
                            assert(!equals_spec(values_view(v1@)[i as int], values_view(v2@)[i as int]));
                            assert(!seqs_equal(values_view(v1@), values_view(v2@)));
                        }
                        return false;
                    }
                    i += 1;
                }
                proof {
                    assert forall|k: int| 0 <= k < values_view(v1@).len() implies equals_spec(
                        #[trigger] values_view(v1@)[k],
                        values_view(v2@)[k],
                    ) by {}
                    assert(seqs_equal(values_view(v1@), values_view(v2@)));
                    assert(equals_spec(self@, other@));
                }
                true
            },
            (Value::Row(t1, v1), Value::Row(t2, v2)) => {
                if t1.len() != t2.len() || v1.len() != v2.len() {
                    proof {
                        lemma_types_view(t1@);
                        lemma_types_view(t2@);
                        lemma_values_view(v1@);
                        lemma_values_view(v2@);
                    }
                    return false;
                }
                let nt = t1.len();
                let mut k: usize = 0;
                while k < nt
                    invariant
                        nt == t1@.len() == t2@.len(),
                        k <= nt,
                        forall|j: int|
                            0 <= j < k ==> type_view(#[trigger] t1@[j]) == type_view(t2@[j]),
                    decreases nt - k,
                {
                    if !t1[k].type_eq(&t2[k]) {
                        proof {
                            assert(types_view(t1@)[k as int] != types_view(t2@)[k as int]);
                        }
                        return false;
                    }
                    k += 1;
                }
                proof {
                    assert(types_view(t1@) =~= types_view(t2@));
                }
                let n = v1.len();
                let mut i: usize = 0;
                while i < n
                    invariant
                        n == v1@.len() == v2@.len(),
                        i <= n,
                        types_view(t1@) == types_view(t2@),
                        forall|j: int|
                            0 <= j < i ==> equals_spec(
                                value_view(#[trigger] v1@[j]),
                                value_view(v2@[j]),
                            ),
                    decreases n - i,
                {
                    proof {
                        assert(*v1 == self->Row_1);
                        assert(decreases_to!(*self => self->Row_1));
                        assert(decreases_to!(*self => *v1));
                        assert(decreases_to!(*v1 => v1@[i as int]));
                        assert(decreases_to!(*self => v1@[i as int]));
                    }
                    if !v1[i].equals(&v2[i]) {
                        proof {
                            assert(!equals_spec(values_view(v1@)[i as int], values_view(v2@)[i as int]));
                            assert(!seqs_equal(values_view(v1@), values_view(v2@)));
                        }
                        return false;
                    }
                    i += 1;
                }
                proof {
                    assert forall|k: int| 0 <= k < values_view(v1@).len() implies equals_spec(
                        #[trigger] values_view(v1@)[k],
                        values_view(v2@)[k],
                    ) by {}
                    assert(seqs_equal(values_view(v1@), values_view(v2@)));
                    assert(equals_spec(self@, other@));
                }
                true
            },
            (Value::Composite(n1, m1), Value::Composite(n2, m2)) => {
                if !(*n1 == *n2) || m1.len() != m2.len() {
                    proof {
                        lemma_members_view(m1@);
                        lemma_members_view(m2@);
                    }
                    return false;
                }
                let ghost m1v = members_view(m1@);
                let ghost m2v = members_view(m2@);
                let n = m1.len();
                let mut i: usize = 0;
                while i < n
                    invariant
                        n == m1@.len(),
                        i <= n,
                        m1v == members_view(m1@),
                        m2v == members_view(m2@),
                        forall|j: int|
                            0 <= j < i ==> member_matched(m2v, (#[trigger] m1v[j]).0, m1v[j].1),
                    decreases n - i,
                {
                    proof {
                        assert(*m1 == self->Composite_1);
                        assert(decreases_to!(*self => self->Composite_1));
                        assert(decreases_to!(*self => *m1));
                        assert(decreases_to!(*m1 => m1@[i as int]));
                        assert(decreases_to!(*self => m1@[i as int].1));
                    }
                    match lookup_member(m2, &m1[i].0) {
                        Some(v) => {
                            if !m1[i].1.equals(v) {
                                proof {
                                    assert(!member_matched(m2v, m1v[i as int].0, m1v[i as int].1));
                                }
                                return false;
                            }
                        },
                        None => {
                            proof {
                                assert(!member_matched(m2v, m1v[i as int].0, m1v[i as int].1));
                            }
                            return false;
                        },
                    }
                    i += 1;
                }
                proof {
                    assert forall|k: int| 0 <= k < m1v.len() implies member_matched(
                        m2v,
                        (#[trigger] m1v[k]).0,
                        m1v[k].1,
                    ) by {}
                    assert(equals_spec(self@, other@));
                }
                true
            },
            _ => false,
        }
    }

    /// The partial ordering relation, proved against `compare_spec`.
    pub fn compare(&self, other: &Value) -> (r: Option<i8>)
        ensures
            r == compare_spec(self@, other@),
    {
        match (self, other) {
            (Value::Boolean(x), Value::Boolean(y)) => Some(
                if x == y {
                    0
                } else if !*x {
                    -1
                } else {
                    1
                },
            ),
            (Value::Integer(x), Value::Integer(y)) => Some(
                if x < y {
                    -1
                } else if x == y {
                    0
                } else {
                    1
                },
            ),
            (Value::Float(x), Value::Float(y)) => float_cmp_bits(*x, *y),
            (Value::Text(x), Value::Text(y)) => Some(text_cmp(x, y)),
            (Value::Interval(x), Value::Interval(y)) => Some(x.compare_interval(y)),
            _ => None,
        }
    }

    /// A deep copy of the value, with the same view.
    #[verifier::loop_isolation(false)]
    pub fn duplicate(&self) -> (r: Value)
        ensures
            r@ == self@,
        decreases self,
    {
        broadcast use lemma_types_view, lemma_values_view, lemma_members_view;

        match self {
            Value::Null => Value::Null,
            Value::Boolean(b) => Value::Boolean(*b),
            Value::Integer(i) => Value::Integer(*i),
            Value::Float(bits) => Value::Float(*bits),
            Value::Text(s) => Value::Text(s.clone()),
            Value::Interval(iv) => Value::Interval(*iv),
            Value::Array(t, vals) => {
                let n = vals.len();
                let mut out: Vec<Value> = Vec::new();
                let mut i: usize = 0;
                while i < n
                    invariant
                        n == vals@.len(),
                        i <= n,
                        out@.len() == i,
                        forall|j: int|
                            0 <= j < i ==> value_view(#[trigger] out@[j]) == value_view(vals@[j]),
                    decreases n - i,
                {
                    proof {
                        assert(*vals == self->Array_1);
                        assert(decreases_to!(*self => self->Array_1));
                        assert(decreases_to!(*self => *vals));
                        assert(decreases_to!(*vals => vals@[i as int]));
                        assert(decreases_to!(*self => vals@[i as int]));
                    }
                    out.push(vals[i].duplicate());
                    i += 1;
                }
                proof {
                    assert(values_view(out@) =~= values_view(vals@));
                }
                Value::Array(t.duplicate(), out)
            },
            Value::Row(ts, vals) => {
                let nt = ts.len();
                let mut tout: Vec<ValueType> = Vec::new();
                let mut k: usize = 0;
                while k < nt
                    invariant
                        nt == ts@.len(),
                        k <= nt,
                        tout@.len() == k,
                        forall|j: int|
                            0 <= j < k ==> type_view(#[trigger] tout@[j]) == type_view(ts@[j]),
                    decreases nt - k,
                {
                    tout.push(ts[k].duplicate());
                    k += 1;
                }
                let n = vals.len();
                let mut out: Vec<Value> = Vec::new();
                let mut i: usize = 0;
                while i < n
                    invariant
                        n == vals@.len(),
                        i <= n,
                        out@.len() == i,
                        forall|j: int|
                            0 <= j < i ==> value_view(#[trigger] out@[j]) == value_view(vals@[j]),
                    decreases n - i,
                {
                    proof {
                        assert(*vals == self->Row_1);
                        assert(decreases_to!(*self => self->Row_1));
                        assert(decreases_to!(*self => *vals));
                        assert(decreases_to!(*vals => vals@[i as int]));
                        assert(decreases_to!(*self => vals@[i as int]));
                    }
                    out.push(vals[i].duplicate());
                    i += 1;
                }
                proof {
                    assert(types_view(tout@) =~= types_view(ts@));
                    assert(values_view(out@) =~= values_view(vals@));
                }
                Value::Row(tout, out)
            },
            Value::Composite(name, members) => {
                let n = members.len();
                let mut out: Vec<(String, Value)> = Vec::new();
                let mut i: usize = 0;
                while i < n
                    invariant
                        n == members@.len(),
                        i <= n,
                        out@.len() == i,
                        forall|j: int|
                            0 <= j < i ==> (#[trigger] out@[j]).0@ == members@[j].0@
                                && value_view(out@[j].1) == value_view(members@[j].1),
                    decreases n - i,
                {
                    proof {
                        assert(*members == self->Composite_1);
                        assert(decreases_to!(*self => self->Composite_1));
                        assert(decreases_to!(*self => *members));
                        assert(decreases_to!(*members => members@[i as int]));
                        assert(decreases_to!(*self => members@[i as int].1));
                    }
                    let name_copy = members[i].0.clone();
                    let value_copy = members[i].1.duplicate();
                    out.push((name_copy, value_copy));
                    i += 1;
                }
                proof {
                    assert(members_view(out@) =~= members_view(members@));
                }
                Value::Composite(name.clone(), out)
            },
        }
    }

    /// Whether the value is the Null variant: a type-tag check only.
    pub fn is_null(&self) -> (r: bool)
        ensures
            r == (self@ is Null),
    {
        match self {
            Value::Null => true,
            _ => false,
        }
    }
}

} // verus!
