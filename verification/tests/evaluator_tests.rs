use gitql::error::EvalError;
use gitql::eval::evaluate_expression;
use gitql::expr::{
    ArithmeticOperator, BetweenKind, BinaryBitwiseOperator, BinaryLogicalOperator,
    ComparisonOperator, Expr, GroupComparisonOperator, NumberLit, PrefixUnaryOperator,
};
use gitql::runtime::{EmptyRegistry, Environment};
use gitql::value::{Value, ValueType};

fn env() -> Environment<EmptyRegistry> {
    Environment::new(EmptyRegistry)
}

fn eval_simple(e: &Expr) -> Result<Value, EvalError> {
    let mut environment = env();
    let titles: Vec<String> = vec![];
    let row: Vec<Value> = vec![];
    evaluate_expression(&mut environment, e, &titles, &row)
}

fn int_lit(i: i64) -> Expr {
    Expr::Number { value: NumberLit::Int(i) }
}

fn float_lit(f: f64) -> Expr {
    Expr::Number { value: NumberLit::Float(f.to_bits()) }
}


fn ok_of(r: Result<Value, EvalError>) -> Value {
    match r {
        Ok(v) => v,
        Err(e) => panic!("unexpected error {:?}", e),
    }
}

fn err_of(r: Result<Value, EvalError>) -> EvalError {
    match r {
        Ok(_) => panic!("unexpected success"),
        Err(e) => e,
    }
}

fn text_lit(s: &str) -> Expr {
    Expr::StringLit { value: s.to_string() }
}

fn binary(left: Expr, op: ArithmeticOperator, right: Expr) -> Expr {
    Expr::Arithmetic { left: Box::new(left), operator: op, right: Box::new(right) }
}

fn int_array(items: &[i64]) -> Expr {
    Expr::ArrayLit {
        element_type: ValueType::Integer,
        values: items.iter().map(|i| int_lit(*i)).collect(),
    }
}

#[test]
fn precedence_is_in_the_tree_shape() {
    // row titles=["a","b"], values=[Integer(3), Integer(4)], expression a + b * 2
    let mut environment = env();
    let titles = vec!["a".to_string(), "b".to_string()];
    let row = vec![Value::Integer(3), Value::Integer(4)];
    let e = Expr::Arithmetic {
        left: Box::new(Expr::Symbol { name: "a".to_string() }),
        operator: ArithmeticOperator::Plus,
        right: Box::new(Expr::Arithmetic {
            left: Box::new(Expr::Symbol { name: "b".to_string() }),
            operator: ArithmeticOperator::Star,
            right: Box::new(int_lit(2)),
        }),
    };
    let r = evaluate_expression(&mut environment, &e, &titles, &row);
    let r = ok_of(r);
    assert!(r.equals(&Value::Integer(11)));
}

#[test]
fn cast_text_to_integer() {
    let ok = ok_of(eval_simple(&Expr::Cast {
        value: Box::new(text_lit("42")),
        result_type: ValueType::Integer,
    }));
    assert!(ok.equals(&Value::Integer(42)));
    let bad = eval_simple(&Expr::Cast {
        value: Box::new(text_lit("abc")),
        result_type: ValueType::Integer,
    });
    assert_eq!(err_of(bad), EvalError::InvalidCast);
}

#[test]
fn cast_integer_overflow_is_rejected() {
    let bad = eval_simple(&Expr::Cast {
        value: Box::new(text_lit("9223372036854775808")),
        result_type: ValueType::Integer,
    });
    assert_eq!(err_of(bad), EvalError::InvalidCast);
    let min = ok_of(eval_simple(&Expr::Cast {
        value: Box::new(text_lit("-9223372036854775808")),
        result_type: ValueType::Integer,
    }));
    assert!(min.equals(&Value::Integer(i64::MIN)));
}

#[test]
fn cast_text_to_boolean() {
    let yes = ok_of(eval_simple(&Expr::Cast {
        value: Box::new(text_lit("yes")),
        result_type: ValueType::Boolean,
    }));
    assert!(yes.equals(&Value::Boolean(true)));
    let other = ok_of(eval_simple(&Expr::Cast {
        value: Box::new(text_lit("zzz")),
        result_type: ValueType::Boolean,
    }));
    assert!(other.is_null());
}

#[test]
fn slice_from_index_to_end() {
    // [1,2,3][1:] == [2,3]
    let arr = Expr::ArrayLit {
        element_type: ValueType::Integer,
        values: vec![int_lit(1), int_lit(2), int_lit(3)],
    };
    let e = Expr::Slice {
        collection: Box::new(arr),
        start: Some(Box::new(int_lit(1))),
        end: None,
    };
    let r = ok_of(eval_simple(&e));
    let expected = Value::Array(
        ValueType::Integer,
        vec![Value::Integer(2), Value::Integer(3)],
    );
    assert!(r.equals(&expected));
}

#[test]
fn slice_with_negative_start() {
    let arr = Expr::ArrayLit {
        element_type: ValueType::Integer,
        values: vec![int_lit(1), int_lit(2), int_lit(3)],
    };
    let e = Expr::Slice {
        collection: Box::new(arr),
        start: Some(Box::new(int_lit(-2))),
        end: None,
    };
    let r = ok_of(eval_simple(&e));
    let expected = Value::Array(
        ValueType::Integer,
        vec![Value::Integer(2), Value::Integer(3)],
    );
    assert!(r.equals(&expected));
}

#[test]
fn index_is_one_based() {
    let r = eval_simple(&Expr::Index {
        collection: Box::new(int_array(&[10, 20])),
        index: Box::new(int_lit(1)),
    });
    assert!(ok_of(r).equals(&Value::Integer(10)));
    let out = eval_simple(&Expr::Index {
        collection: Box::new(int_array(&[10, 20])),
        index: Box::new(int_lit(3)),
    });
    assert_eq!(err_of(out), EvalError::IndexOutOfRange);
}

#[test]
fn member_access_on_composite() {
    let mut environment = env();
    let titles = vec!["point".to_string()];
    let row = vec![Value::Composite(
        "point".to_string(),
        vec![
            ("x".to_string(), Value::Integer(1)),
            ("y".to_string(), Value::Integer(2)),
        ],
    )];
    let ok = evaluate_expression(
        &mut environment,
        &Expr::MemberAccess {
            composite: Box::new(Expr::Symbol { name: "point".to_string() }),
            member_name: "x".to_string(),
        },
        &titles,
        &row,
    );
    let ok = ok_of(ok);
    assert!(ok.equals(&Value::Integer(1)));
    let missing = evaluate_expression(
        &mut environment,
        &Expr::MemberAccess {
            composite: Box::new(Expr::Symbol { name: "point".to_string() }),
            member_name: "z".to_string(),
        },
        &titles,
        &row,
    );
    assert_eq!(err_of(missing), EvalError::UnknownMember);
}

#[test]
fn case_without_default_fails_and_with_default_succeeds() {
    let no_default = Expr::Case {
        conditions: vec![Expr::BooleanLit { is_true: false }],
        values: vec![int_lit(1)],
        default_value: None,
    };
    assert_eq!(err_of(eval_simple(&no_default)), EvalError::MissingDefault);
    let with_default = Expr::Case {
        conditions: vec![Expr::BooleanLit { is_true: false }],
        values: vec![int_lit(1)],
        default_value: Some(Box::new(int_lit(7))),
    };
    assert!(ok_of(eval_simple(&with_default)).equals(&Value::Integer(7)));
    let first_true = Expr::Case {
        conditions: vec![
            Expr::BooleanLit { is_true: false },
            Expr::BooleanLit { is_true: true },
        ],
        values: vec![int_lit(1), int_lit(2)],
        default_value: Some(Box::new(int_lit(7))),
    };
    assert!(ok_of(eval_simple(&first_true)).equals(&Value::Integer(2)));
}

#[test]
fn logical_or_does_not_short_circuit() {
    // (assign @x := true) OR true leaves @x set even though the OR result
    // does not depend on it.
    let mut environment = env();
    let titles: Vec<String> = vec![];
    let row: Vec<Value> = vec![];
    let e = Expr::Logical {
        left: Box::new(Expr::Assignment {
            symbol: "x".to_string(),
            value: Box::new(Expr::BooleanLit { is_true: true }),
        }),
        operator: BinaryLogicalOperator::Or,
        right: Box::new(Expr::BooleanLit { is_true: true }),
    };
    let r = ok_of(evaluate_expression(&mut environment, &e, &titles, &row));
    assert!(r.equals(&Value::Boolean(true)));
    let stored = environment.globals.get(&"x".to_string());
    assert!(matches!(stored, Some(Value::Boolean(true))));
}

#[test]
fn in_and_not_in_are_complementary() {
    let list = vec![int_lit(1), int_lit(2), int_lit(3)];
    for probe in [2i64, 9i64] {
        let pos = ok_of(eval_simple(&Expr::In {
            argument: Box::new(int_lit(probe)),
            values: vec![int_lit(1), int_lit(2), int_lit(3)],
            has_not_keyword: false,
        }));
        let neg = ok_of(eval_simple(&Expr::In {
            argument: Box::new(int_lit(probe)),
            values: vec![int_lit(1), int_lit(2), int_lit(3)],
            has_not_keyword: true,
        }));
        match (pos, neg) {
            (Value::Boolean(b1), Value::Boolean(b2)) => assert_eq!(b1, !b2),
            _ => panic!("IN must produce booleans"),
        }
    }
}

#[test]
fn between_symmetric_swaps_bounds() {
    for (lo, hi) in [(1i64, 5i64), (5i64, 1i64)] {
        let e = Expr::Between {
            value: Box::new(int_lit(3)),
            range_start: Box::new(int_lit(lo)),
            range_end: Box::new(int_lit(hi)),
            kind: BetweenKind::Symmetric,
        };
        assert!(ok_of(eval_simple(&e)).equals(&Value::Boolean(true)));
    }
    let asym = Expr::Between {
        value: Box::new(int_lit(3)),
        range_start: Box::new(int_lit(5)),
        range_end: Box::new(int_lit(1)),
        kind: BetweenKind::Asymmetric,
    };
    assert!(ok_of(eval_simple(&asym)).equals(&Value::Boolean(false)));
}

#[test]
fn between_incomparable_bound_is_rejected() {
    let e = Expr::Between {
        value: Box::new(int_lit(3)),
        range_start: Box::new(text_lit("a")),
        range_end: Box::new(int_lit(9)),
        kind: BetweenKind::Asymmetric,
    };
    assert_eq!(err_of(eval_simple(&e)), EvalError::NotComparable);
}

#[test]
fn integer_division_round_trip() {
    for (a, b) in [(7i64, 2i64), (-7, 2), (7, -2), (-7, -2)] {
        let q = eval_simple(&binary(int_lit(a), ArithmeticOperator::Slash, int_lit(b)));
        let m = eval_simple(&binary(int_lit(a), ArithmeticOperator::Modulus, int_lit(b)));
        match (ok_of(q), ok_of(m)) {
            (Value::Integer(qv), Value::Integer(mv)) => assert_eq!(qv * b + mv, a),
            _ => panic!("integer division must give integers"),
        }
    }
    let zero = eval_simple(&binary(int_lit(5), ArithmeticOperator::Slash, int_lit(0)));
    assert_eq!(err_of(zero), EvalError::DivisionByZero);
    let zero_rem = eval_simple(&binary(int_lit(5), ArithmeticOperator::Modulus, int_lit(0)));
    assert_eq!(err_of(zero_rem), EvalError::DivisionByZero);
}

#[test]
fn float_division_round_trip_within_tolerance() {
    for (a, b) in [(10.0f64, 4.0f64), (1.0, 3.0), (-7.5, 2.5)] {
        let div = ok_of(eval_simple(&binary(float_lit(a), ArithmeticOperator::Slash, float_lit(b))));
        let bits = match div {
            Value::Float(bits) => bits,
            _ => panic!("float division must give a float"),
        };
        let back = ok_of(eval_simple(&binary(
            Expr::Number { value: NumberLit::Float(bits) },
            ArithmeticOperator::Star,
            float_lit(b),
        )));
        match back {
            Value::Float(rb) => assert!((f64::from_bits(rb) - a).abs() < 1e-9),
            _ => panic!("float product must give a float"),
        }
    }
}

#[test]
fn float_arithmetic_is_exact_ieee() {
    let sum = ok_of(eval_simple(&binary(float_lit(1.5), ArithmeticOperator::Plus, float_lit(2.25))));
    match sum {
        Value::Float(bits) => assert_eq!(f64::from_bits(bits), 3.75),
        _ => panic!("float sum must give a float"),
    }
    let neg = ok_of(eval_simple(&Expr::PrefixUnary {
        operator: PrefixUnaryOperator::Negative,
        right: Box::new(float_lit(2.5)),
    }));
    match neg {
        Value::Float(bits) => assert_eq!(f64::from_bits(bits), -2.5),
        _ => panic!("negation must give a float"),
    }
}

#[test]
fn exponentiation_and_bitwise() {
    let p = eval_simple(&binary(int_lit(2), ArithmeticOperator::Exponentiation, int_lit(10)));
    assert!(ok_of(p).equals(&Value::Integer(1024)));
    let neg = eval_simple(&binary(int_lit(2), ArithmeticOperator::Exponentiation, int_lit(-1)));
    assert!(neg.is_err());
    let shl = eval_simple(&Expr::Bitwise {
        left: Box::new(int_lit(1)),
        operator: BinaryBitwiseOperator::LeftShift,
        right: Box::new(int_lit(4)),
    });
    assert!(ok_of(shl).equals(&Value::Integer(16)));
    let xor = eval_simple(&Expr::Bitwise {
        left: Box::new(int_lit(6)),
        operator: BinaryBitwiseOperator::Xor,
        right: Box::new(int_lit(3)),
    });
    assert!(ok_of(xor).equals(&Value::Integer(5)));
}

#[test]
fn group_comparisons() {
    let any_eq = eval_simple(&Expr::GroupComparison {
        left: Box::new(int_lit(2)),
        comparison_operator: ComparisonOperator::Equal,
        group_operator: GroupComparisonOperator::Any,
        right: Box::new(int_array(&[1, 2, 3])),
    });
    assert!(ok_of(any_eq).equals(&Value::Boolean(true)));
    let all_gt = eval_simple(&Expr::GroupComparison {
        left: Box::new(int_lit(9)),
        comparison_operator: ComparisonOperator::Greater,
        group_operator: GroupComparisonOperator::All,
        right: Box::new(int_array(&[1, 2, 3])),
    });
    assert!(ok_of(all_gt).equals(&Value::Boolean(true)));
    let all_lt = eval_simple(&Expr::GroupComparison {
        left: Box::new(int_lit(2)),
        comparison_operator: ComparisonOperator::Less,
        group_operator: GroupComparisonOperator::All,
        right: Box::new(int_array(&[1, 2, 3])),
    });
    assert!(ok_of(all_lt).equals(&Value::Boolean(false)));
}

#[test]
fn containment_operators() {
    let has = eval_simple(&Expr::Contains {
        left: Box::new(int_array(&[1, 2])),
        right: Box::new(int_lit(2)),
    });
    assert!(ok_of(has).equals(&Value::Boolean(true)));
    let contained = eval_simple(&Expr::ContainedBy {
        left: Box::new(int_lit(3)),
        right: Box::new(int_array(&[1, 2])),
    });
    assert!(ok_of(contained).equals(&Value::Boolean(false)));
}

#[test]
fn unknown_names_are_reported() {
    let mut environment = env();
    let titles = vec!["a".to_string()];
    let row = vec![Value::Integer(1)];
    let col = evaluate_expression(
        &mut environment,
        &Expr::Symbol { name: "missing".to_string() },
        &titles,
        &row,
    );
    assert_eq!(err_of(col), EvalError::UnknownColumn);
    let var = eval_simple(&Expr::GlobalVariable { name: "nope".to_string() });
    assert_eq!(err_of(var), EvalError::UndefinedVariable);
    let call = eval_simple(&Expr::Call { function_name: "lower".to_string(), arguments: vec![] });
    assert_eq!(err_of(call), EvalError::UnknownFunction);
}

#[test]
fn null_semantics() {
    let null_eq = eval_simple(&Expr::Comparison {
        left: Box::new(Expr::Null),
        operator: ComparisonOperator::Equal,
        right: Box::new(Expr::Null),
    });
    assert!(ok_of(null_eq).is_null());
    let null_safe = eval_simple(&Expr::Comparison {
        left: Box::new(Expr::Null),
        operator: ComparisonOperator::NullSafeEqual,
        right: Box::new(Expr::Null),
    });
    assert!(ok_of(null_safe).equals(&Value::Boolean(true)));
    let is_null = eval_simple(&Expr::IsNull {
        argument: Box::new(Expr::Null),
        has_not: false,
    });
    assert!(ok_of(is_null).equals(&Value::Boolean(true)));
    let or_null = eval_simple(&Expr::Logical {
        left: Box::new(Expr::BooleanLit { is_true: true }),
        operator: BinaryLogicalOperator::Or,
        right: Box::new(Expr::Null),
    });
    assert!(ok_of(or_null).equals(&Value::Boolean(true)));
    let and_null = eval_simple(&Expr::Logical {
        left: Box::new(Expr::BooleanLit { is_true: true }),
        operator: BinaryLogicalOperator::And,
        right: Box::new(Expr::Null),
    });
    assert!(ok_of(and_null).is_null());
}

#[test]
fn benchmark_call_runs_side_effects_and_returns_zero() {
    let mut environment = env();
    let titles: Vec<String> = vec![];
    let row: Vec<Value> = vec![];
    let e = Expr::BenchmarkCall {
        expression: Box::new(Expr::Assignment {
            symbol: "seen".to_string(),
            value: Box::new(Expr::BooleanLit { is_true: true }),
        }),
        count: Box::new(int_lit(3)),
    };
    let r = ok_of(evaluate_expression(&mut environment, &e, &titles, &row));
    assert!(r.equals(&Value::Integer(0)));
    assert!(matches!(
        environment.globals.get(&"seen".to_string()),
        Some(Value::Boolean(true))
    ));
}
