use gitql::error::EvalError;
use gitql::eval::evaluate_expression;
use gitql::expr::{ComparisonOperator, Expr};
use gitql::interval::Interval;
use gitql::runtime::{EmptyRegistry, Environment, FunctionRegistry};
use gitql::value::{Value, ValueType};

fn eval_simple(e: &Expr) -> Result<Value, EvalError> {
    let mut environment = Environment::new(EmptyRegistry);
    let titles: Vec<String> = vec![];
    let row: Vec<Value> = vec![];
    evaluate_expression(&mut environment, e, &titles, &row)
}


fn ok_of(r: Result<Value, EvalError>) -> Value {
    match r {
        Ok(v) => v,
        Err(e) => panic!("unexpected error {:?}", e),
    }
}

fn err_of(r: Result<Value, EvalError>) -> EvalError {
    match r {
        Ok(_) => panic!("unexpected success"),
        Err(e) => e,
    }
}

fn text_lit(s: &str) -> Expr {
    Expr::StringLit { value: s.to_string() }
}

#[test]
fn like_uses_sql_wildcards_case_insensitively() {
    let hit = eval_simple(&Expr::Like {
        input: Box::new(text_lit("HELLO world")),
        pattern: Box::new(text_lit("hello%")),
    });
    assert!(ok_of(hit).equals(&Value::Boolean(true)));
    let single = eval_simple(&Expr::Like {
        input: Box::new(text_lit("cat")),
        pattern: Box::new(text_lit("c_t")),
    });
    assert!(ok_of(single).equals(&Value::Boolean(true)));
    let miss = eval_simple(&Expr::Like {
        input: Box::new(text_lit("hello")),
        pattern: Box::new(text_lit("x%")),
    });
    assert!(ok_of(miss).equals(&Value::Boolean(false)));
    let bad = eval_simple(&Expr::Like {
        input: Box::new(text_lit("hello")),
        pattern: Box::new(text_lit("(")),
    });
    assert_eq!(err_of(bad), EvalError::InvalidPattern);
}

#[test]
fn regexp_shares_the_like_translation() {
    let hit = eval_simple(&Expr::Regex {
        input: Box::new(text_lit("Hello")),
        pattern: Box::new(text_lit("hell_")),
    });
    assert!(ok_of(hit).equals(&Value::Boolean(true)));
}

#[test]
fn glob_escapes_dots_and_keeps_case() {
    let exact = eval_simple(&Expr::Glob {
        input: Box::new(text_lit("a.b")),
        pattern: Box::new(text_lit("a.b")),
    });
    assert!(ok_of(exact).equals(&Value::Boolean(true)));
    let dot_is_literal = eval_simple(&Expr::Glob {
        input: Box::new(text_lit("axb")),
        pattern: Box::new(text_lit("a.b")),
    });
    assert!(ok_of(dot_is_literal).equals(&Value::Boolean(false)));
    let star = eval_simple(&Expr::Glob {
        input: Box::new(text_lit("hello.rs")),
        pattern: Box::new(text_lit("*.rs")),
    });
    assert!(ok_of(star).equals(&Value::Boolean(true)));
    let case_sensitive = eval_simple(&Expr::Glob {
        input: Box::new(text_lit("HELLO.rs")),
        pattern: Box::new(text_lit("hello.*")),
    });
    assert!(ok_of(case_sensitive).equals(&Value::Boolean(false)));
}

#[test]
fn text_ordering_is_lexicographic() {
    let lt = eval_simple(&Expr::Comparison {
        left: Box::new(text_lit("apple")),
        operator: ComparisonOperator::Less,
        right: Box::new(text_lit("banana")),
    });
    assert!(ok_of(lt).equals(&Value::Boolean(true)));
    let cross = eval_simple(&Expr::Comparison {
        left: Box::new(text_lit("a")),
        operator: ComparisonOperator::Less,
        right: Box::new(Expr::Number { value: gitql::expr::NumberLit::Int(1) }),
    });
    assert_eq!(err_of(cross), EvalError::NotComparable);
}

#[test]
fn equality_is_reflexive_and_symmetric_on_samples() {
    let samples = vec![
        Value::Null,
        Value::Boolean(true),
        Value::Integer(-3),
        Value::Float(2.5f64.to_bits()),
        Value::Text("abc".to_string()),
        Value::Array(ValueType::Integer, vec![Value::Integer(1), Value::Integer(2)]),
        Value::Composite(
            "p".to_string(),
            vec![
                ("x".to_string(), Value::Integer(1)),
                ("y".to_string(), Value::Integer(2)),
            ],
        ),
    ];
    for v in &samples {
        assert!(v.equals(v));
    }
    for a in &samples {
        for b in &samples {
            assert_eq!(a.equals(b), b.equals(a));
        }
    }
}

#[test]
fn composite_equality_ignores_member_order() {
    let a = Value::Composite(
        "p".to_string(),
        vec![
            ("x".to_string(), Value::Integer(1)),
            ("y".to_string(), Value::Integer(2)),
        ],
    );
    let b = Value::Composite(
        "p".to_string(),
        vec![
            ("y".to_string(), Value::Integer(2)),
            ("x".to_string(), Value::Integer(1)),
        ],
    );
    assert!(a.equals(&b));
    assert!(b.equals(&a));
}

#[test]
fn float_nan_never_equals_itself() {
    let nan = Value::Float(f64::NAN.to_bits());
    assert!(!nan.equals(&nan));
    assert!(nan.compare(&nan).is_none());
    let zero_signs = Value::Float(0.0f64.to_bits());
    let neg_zero = Value::Float((-0.0f64).to_bits());
    assert!(zero_signs.equals(&neg_zero));
    assert_eq!(zero_signs.compare(&neg_zero), Some(0));
}

#[test]
fn compare_is_antisymmetric_on_samples() {
    let a = Value::Integer(3);
    let b = Value::Integer(9);
    assert_eq!(a.compare(&b), Some(-1));
    assert_eq!(b.compare(&a), Some(1));
    let t1 = Value::Text("x".to_string());
    let t2 = Value::Text("x".to_string());
    assert_eq!(t1.compare(&t2), Some(0));
}

#[test]
fn interval_arithmetic_and_ordering() {
    let one_hour = Interval {
        years: 0,
        months: 0,
        days: 0,
        hours: 1,
        minutes: 0,
        seconds: 0.0f64.to_bits(),
    };
    let ninety_minutes = Interval {
        years: 0,
        months: 0,
        days: 0,
        hours: 0,
        minutes: 90,
        seconds: 0.0f64.to_bits(),
    };
    let a = Value::Interval(one_hour);
    let b = Value::Interval(ninety_minutes);
    assert_eq!(a.compare(&b), Some(-1));
    let sum = ok_of(a.add_op(&b));
    let expected = Value::Interval(Interval {
        years: 0,
        months: 0,
        days: 0,
        hours: 1,
        minutes: 90,
        seconds: 0.0f64.to_bits(),
    });
    assert!(sum.equals(&expected));
    let doubled = ok_of(a.mul_op(&Value::Integer(2)));
    assert_eq!(
        doubled.compare(&Value::Interval(Interval {
            years: 0,
            months: 0,
            days: 0,
            hours: 2,
            minutes: 0,
            seconds: 0.0f64.to_bits(),
        })),
        Some(0)
    );
    let div_zero = a.div_op(&Value::Integer(0));
    assert_eq!(err_of(div_zero), EvalError::DivisionByZero);
}

#[test]
fn float_to_integer_cast_truncates() {
    let down = eval_simple(&Expr::Cast {
        value: Box::new(Expr::Number { value: gitql::expr::NumberLit::Float(2.9f64.to_bits()) }),
        result_type: ValueType::Integer,
    });
    assert!(ok_of(down).equals(&Value::Integer(2)));
    let up = eval_simple(&Expr::Cast {
        value: Box::new(Expr::Number { value: gitql::expr::NumberLit::Int(3) }),
        result_type: ValueType::Float,
    });
    match ok_of(up) {
        Value::Float(bits) => assert_eq!(f64::from_bits(bits), 3.0),
        _ => panic!("cast to float must give a float"),
    }
}

struct AnswerRegistry;

impl FunctionRegistry for AnswerRegistry {
    fn spec_call(
        &self,
        _name: vstd::seq::Seq<char>,
        _args: vstd::seq::Seq<gitql::value::ValueView>,
    ) -> Option<gitql::value::ValueView> {
        None
    }

    fn call_function(&self, name: &String, args: Vec<Value>) -> Option<Value> {
        if name == "count_args" {
            Some(Value::Integer(args.len() as i64))
        } else {
            None
        }
    }
}

#[test]
fn registered_functions_are_applied() {
    let mut environment = Environment::new(AnswerRegistry);
    let titles: Vec<String> = vec![];
    let row: Vec<Value> = vec![];
    let call = Expr::Call {
        function_name: "count_args".to_string(),
        arguments: vec![text_lit("a"), text_lit("b")],
    };
    let r = ok_of(evaluate_expression(&mut environment, &call, &titles, &row));
    assert!(r.equals(&Value::Integer(2)));
}

#[test]
fn error_kinds_have_descriptions() {
    assert!(!EvalError::DivisionByZero.describe().is_empty());
    assert!(!EvalError::MissingDefault.describe().is_empty());
}
