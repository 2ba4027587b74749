//! The expression tree consumed by the evaluator.  It is produced by an
//! external parser, owned by the caller, and read-only during evaluation:
//! a strict ownership tree with no cycles and no shared sub-trees.

use vstd::prelude::*;

use crate::interval::Interval;
use crate::value::ValueType;

verus! {

/// Arithmetic operators.
#[derive(Clone, Copy, Debug, PartialEq, Eq, Structural)]
pub enum ArithmeticOperator {
    Plus,
    Minus,
    Star,
    Slash,
    Modulus,
    Exponentiation,
}

/// Comparison operators.
#[derive(Clone, Copy, Debug, PartialEq, Eq, Structural)]
pub enum ComparisonOperator {
    Greater,
    GreaterEqual,
    Less,
    LessEqual,
    Equal,
    NotEqual,
    NullSafeEqual,
}

/// The reduction applied by a group comparison.
#[derive(Clone, Copy, Debug, PartialEq, Eq, Structural)]
pub enum GroupComparisonOperator {
    All,
    Any,
}

/// Binary logical operators, with three-valued semantics.
#[derive(Clone, Copy, Debug, PartialEq, Eq, Structural)]
pub enum BinaryLogicalOperator {
    And,
    Or,
    Xor,
}

/// Binary bitwise operators, defined on integers.
#[derive(Clone, Copy, Debug, PartialEq, Eq, Structural)]
pub enum BinaryBitwiseOperator {
    Or,
    And,
    Xor,
    RightShift,
    LeftShift,
}

/// Prefix unary operators.
#[derive(Clone, Copy, Debug, PartialEq, Eq, Structural)]
pub enum PrefixUnaryOperator {
    Negative,
    Bang,
    Not,
}

/// Whether BETWEEN reorders out-of-order bounds before the range test.
#[derive(Clone, Copy, Debug, PartialEq, Eq, Structural)]
pub enum BetweenKind {
    Symmetric,
    Asymmetric,
}

/// A numeric literal: an integer, or a float carried as binary64 bits.
#[derive(Clone, Copy, Debug, PartialEq, Eq, Structural)]
pub enum NumberLit {
    Int(i64),
    Float(u64),
}

/// One node of the expression tree.
pub enum Expr {
    Assignment { symbol: String, value: Box<Expr> },
    StringLit { value: String },
    Symbol { name: String },
    ArrayLit { element_type: ValueType, values: Vec<Expr> },
    GlobalVariable { name: String },
    Number { value: NumberLit },
    BooleanLit { is_true: bool },
    IntervalLit { interval: Interval },
    PrefixUnary { operator: PrefixUnaryOperator, right: Box<Expr> },
    Index { collection: Box<Expr>, index: Box<Expr> },
    Slice { collection: Box<Expr>, start: Option<Box<Expr>>, end: Option<Box<Expr>> },
    Arithmetic { left: Box<Expr>, operator: ArithmeticOperator, right: Box<Expr> },
    Comparison { left: Box<Expr>, operator: ComparisonOperator, right: Box<Expr> },
    GroupComparison {
        left: Box<Expr>,
        comparison_operator: ComparisonOperator,
        group_operator: GroupComparisonOperator,
        right: Box<Expr>,
    },
    Contains { left: Box<Expr>, right: Box<Expr> },
    ContainedBy { left: Box<Expr>, right: Box<Expr> },
    Like { input: Box<Expr>, pattern: Box<Expr> },
    Regex { input: Box<Expr>, pattern: Box<Expr> },
    Glob { input: Box<Expr>, pattern: Box<Expr> },
    Logical { left: Box<Expr>, operator: BinaryLogicalOperator, right: Box<Expr> },
    Bitwise { left: Box<Expr>, operator: BinaryBitwiseOperator, right: Box<Expr> },
    Call { function_name: String, arguments: Vec<Expr> },
    BenchmarkCall { expression: Box<Expr>, count: Box<Expr> },
    Between { value: Box<Expr>, range_start: Box<Expr>, range_end: Box<Expr>, kind: BetweenKind },
    Case { conditions: Vec<Expr>, values: Vec<Expr>, default_value: Option<Box<Expr>> },
    In { argument: Box<Expr>, values: Vec<Expr>, has_not_keyword: bool },
    IsNull { argument: Box<Expr>, has_not: bool },
    Cast { value: Box<Expr>, result_type: ValueType },
    Column { expr: Box<Expr> },
    Row { exprs: Vec<Expr>, row_type: Vec<ValueType> },
    MemberAccess { composite: Box<Expr>, member_name: String },
    Null,
}

} // verus!
