//! The closed taxonomy of evaluation errors.

use vstd::prelude::*;

verus! {

/// Every way an evaluation can fail.  Each recursive evaluation call
/// propagates the first error encountered; there is no local recovery.
#[derive(Clone, Copy, Debug, PartialEq, Eq, Structural)]
pub enum EvalError {
    /// Operand types are not compatible with the operator.
    TypeMismatch,
    /// The partial ordering relation is undefined for the operand pair.
    NotComparable,
    /// Division or remainder by an integer zero.
    DivisionByZero,
    /// The source value cannot be represented in the cast target type.
    InvalidCast,
    /// A LIKE / REGEXP / GLOB pattern did not compile.
    InvalidPattern,
    /// A collection index is outside the collection bounds.
    IndexOutOfRange,
    /// Slice bounds do not satisfy start <= end after normalization.
    InvalidSlice,
    /// A symbol does not match any column title of the row.
    UnknownColumn,
    /// A global variable was read before it was ever assigned.
    UndefinedVariable,
    /// A called function name is not in the environment's registry.
    UnknownFunction,
    /// A member access named no member of the composite value.
    UnknownMember,
    /// A member access was applied to a non-composite value.
    NotAComposite,
    /// A CASE expression had no matching condition and no default.
    MissingDefault,
    /// A capability was invoked on a variant that does not support it.
    InvalidOperation,
}

impl EvalError {
    /// A human-readable detail string for this error kind.
    pub fn describe(&self) -> (r: String)
        ensures
            r@.len() > 0,
    {
        match self {
            EvalError::TypeMismatch => {
                proof {
                    reveal_strlit("Unexpected type to perform operator with");
                }
                "Unexpected type to perform operator with".to_owned()
            },
            EvalError::NotComparable => {
                proof {
                    reveal_strlit("Values of these types can't be compared");
                }
                "Values of these types can't be compared".to_owned()
            },
            EvalError::DivisionByZero => {
                proof {
                    reveal_strlit("Can't perform division with 0 value");
                }
                "Can't perform division with 0 value".to_owned()
            },
            EvalError::InvalidCast => {
                proof {
                    reveal_strlit("Unexpected value to perform CAST with");
                }
                "Unexpected value to perform CAST with".to_owned()
            },
            EvalError::InvalidPattern => {
                proof {
                    reveal_strlit("Invalid pattern for matching operator");
                }
                "Invalid pattern for matching operator".to_owned()
            },
            EvalError::IndexOutOfRange => {
                proof {
                    reveal_strlit("Index must be between 1 and the collection length");
                }
                "Index must be between 1 and the collection length".to_owned()
            },
            EvalError::InvalidSlice => {
                proof {
                    reveal_strlit("Slice start must not be greater than slice end");
                }
                "Slice start must not be greater than slice end".to_owned()
            },
            EvalError::UnknownColumn => {
                proof {
                    reveal_strlit("Invalid column name");
                }
                "Invalid column name".to_owned()
            },
            EvalError::UndefinedVariable => {
                proof {
                    reveal_strlit("The global variable is not exists or calculated yet");
                }
                "The global variable is not exists or calculated yet".to_owned()
            },
            EvalError::UnknownFunction => {
                proof {
                    reveal_strlit("Function name is not registered");
                }
                "Function name is not registered".to_owned()
            },
            EvalError::UnknownMember => {
                proof {
                    reveal_strlit("Composite value has no member with this name");
                }
                "Composite value has no member with this name".to_owned()
            },
            EvalError::NotAComposite => {
                proof {
                    reveal_strlit("Invalid value for member access expression");
                }
                "Invalid value for member access expression".to_owned()
            },
            EvalError::MissingDefault => {
                proof {
                    reveal_strlit("Invalid case statement");
                }
                "Invalid case statement".to_owned()
            },
            EvalError::InvalidOperation => {
                proof {
                    reveal_strlit("Unsupported operator for this type");
                }
                "Unsupported operator for this type".to_owned()
            },
        }
    }
}

} // verus!
