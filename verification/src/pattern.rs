//! The pattern-matching capabilities LIKE, REGEXP and GLOB.
//!
//! LIKE and REGEXP translate the SQL wildcards `%` and `_` of the lowercased
//! pattern into a regular expression, anchor it, and match it against the
//! lowercased input with a multi-line, unicode regular-expression engine.
//! GLOB escapes `.`, translates `*` and `?`, and matches the input with its
//! original case.  The translation is verified; compilation and matching are
//! the `regex` crate's, behind trusted wrappers.

use vstd::prelude::*;

use crate::error::EvalError;
use crate::value::{Value, ValueView};
use vstd::string::StrSliceExecFns;

verus! {

/// The lowercase form of a text, as `str::to_lowercase` computes it; the
/// result depends on the characters alone.
pub uninterp spec fn lower_of(s: Seq<char>) -> Seq<char>;

/// Whether the multi-line unicode regular-expression engine accepts the
/// pattern; a function of the pattern alone.
pub uninterp spec fn mregex_ok(p: Seq<char>) -> bool;

/// Whether the compiled multi-line pattern matches the text; a function of
/// the pattern and the text alone.
pub uninterp spec fn mregex_accepts(p: Seq<char>, t: Seq<char>) -> bool;

/// Whether the plain regular-expression engine accepts the pattern.
pub uninterp spec fn regex_ok(p: Seq<char>) -> bool;

/// Whether the compiled plain pattern matches the text.
pub uninterp spec fn regex_accepts(p: Seq<char>, t: Seq<char>) -> bool;

/// Relies on `str::to_lowercase`: the result depends on the characters
/// alone.
#[verifier::external_body]
pub(crate) fn to_lowercase_text(s: &String) -> (r: String)
    ensures
        r@ == lower_of(s@),
{
    s.to_lowercase()
}

/// Relies on `String::push`: appends one character.
#[verifier::external_body]
fn push_char(s: &mut String, c: char)
    ensures
        final(s)@ == old(s)@.push(c),
{
    s.push(c)
}

/// Relies on `regex::RegexBuilder` with `multi_line(true)` and
/// `unicode(true)`, and `Regex::is_match`: compilation success and the match
/// result are functions of the pattern and the text.
#[verifier::external_body]
fn mregex_is_match(pattern: &String, text: &String) -> (r: Option<bool>)
    ensures
        (match r {
            Some(m) => mregex_ok(pattern@) && m == mregex_accepts(pattern@, text@),
            None => !mregex_ok(pattern@),
        }),
{
    match regex::RegexBuilder::new(pattern).multi_line(true).unicode(true).build() {
        Ok(re) => Some(re.is_match(text)),
        Err(_) => None,
    }
}

/// Relies on `regex::Regex::new` and `Regex::is_match`: compilation success
/// and the match result are functions of the pattern and the text.
#[verifier::external_body]
fn regex_is_match(pattern: &String, text: &String) -> (r: Option<bool>)
    ensures
        (match r {
            Some(m) => regex_ok(pattern@) && m == regex_accepts(pattern@, text@),
            None => !regex_ok(pattern@),
        }),
{
    match regex::Regex::new(pattern) {
        Ok(re) => Some(re.is_match(text)),
        Err(_) => None,
    }
}

/// The regular expression for one character of a LIKE pattern: `%` matches
/// any run, `_` matches one character.
pub open spec fn like_char_regex(c: char) -> Seq<char> {
    if c == '%' {
        seq!['.', '*']
    } else if c == '_' {
        seq!['.']
    } else {
        seq![c]
    }
}

/// The regular expression for a LIKE pattern.
pub open spec fn like_regex_chars(p: Seq<char>) -> Seq<char>
    decreases p.len(),
{
    if p.len() == 0 {
        Seq::empty()
    } else {
        like_char_regex(p[0]) + like_regex_chars(p.skip(1))
    }
}

/// The regular expression for one character of a GLOB pattern: `*` matches
/// any run, `?` matches one character, `.` is escaped.
pub open spec fn glob_char_regex(c: char) -> Seq<char> {
    if c == '*' {
        seq!['.', '*']
    } else if c == '?' {
        seq!['.']
    } else if c == '.' {
        seq!['\\', '.']
    } else {
        seq![c]
    }
}

/// The regular expression for a GLOB pattern.
pub open spec fn glob_regex_chars(p: Seq<char>) -> Seq<char>
    decreases p.len(),
{
    if p.len() == 0 {
        Seq::empty()
    } else {
        glob_char_regex(p[0]) + glob_regex_chars(p.skip(1))
    }
}

/// A whole-input anchoring of a regular expression.
pub open spec fn anchored(s: Seq<char>) -> Seq<char> {
    seq!['^'] + s + seq!['$']
}

/// The LIKE capability (and REGEXP, which shares it): both operands must be
/// text; a pattern the engine rejects fails with `InvalidPattern`.
pub open spec fn like_spec(a: ValueView, b: ValueView) -> Result<ValueView, EvalError> {
    match (a, b) {
        (ValueView::Text(t), ValueView::Text(p)) => {
            let rp = anchored(like_regex_chars(lower_of(p)));
            if mregex_ok(rp) {
                Ok(ValueView::Boolean(mregex_accepts(rp, lower_of(t))))
            } else {
                Err(EvalError::InvalidPattern)
            }
        },
        (ValueView::Text(_), _) => Err(EvalError::TypeMismatch),
        _ => Err(EvalError::InvalidOperation),
    }
}

/// The GLOB capability: both operands must be text; the input keeps its
/// case.
pub open spec fn glob_spec(a: ValueView, b: ValueView) -> Result<ValueView, EvalError> {
    match (a, b) {
        (ValueView::Text(t), ValueView::Text(p)) => {
            let rp = anchored(glob_regex_chars(p));
            if regex_ok(rp) {
                Ok(ValueView::Boolean(regex_accepts(rp, t)))
            } else {
                Err(EvalError::InvalidPattern)
            }
        },
        (ValueView::Text(_), _) => Err(EvalError::TypeMismatch),
        _ => Err(EvalError::InvalidOperation),
    }
}

/// Appends the LIKE translation of `p` from position `i` on.
fn append_like_regex(p: &str, i: usize, out: &mut String)
    requires
        i <= p@.len(),
    ensures
        final(out)@ == old(out)@ + like_regex_chars(p@.skip(i as int)),
    decreases p@.len() - i,
{
    if i == p.unicode_len() {
        proof {
            assert(p@.skip(i as int) =~= Seq::<char>::empty());
            assert(out@ =~= old(out)@ + like_regex_chars(p@.skip(i as int)));
        }
    } else {
        let c = p.get_char(i);
        if c == '%' {
            push_char(out, '.');
            push_char(out, '*');
        } else if c == '_' {
            push_char(out, '.');
        } else {
            push_char(out, c);
        }
        proof {
            assert(out@ =~= old(out)@ + like_char_regex(p@[i as int]));
            assert(p@.skip(i as int).skip(1) =~= p@.skip(i as int + 1));
            assert(p@.skip(i as int)[0] == p@[i as int]);
        }
        append_like_regex(p, i + 1, out);
        proof {
            assert(out@ =~= old(out)@ + like_regex_chars(p@.skip(i as int)));
        }
    }
}

/// Appends the GLOB translation of `p` from position `i` on.
fn append_glob_regex(p: &str, i: usize, out: &mut String)
    requires
        i <= p@.len(),
    ensures
        final(out)@ == old(out)@ + glob_regex_chars(p@.skip(i as int)),
    decreases p@.len() - i,
{
    if i == p.unicode_len() {
        proof {
            assert(p@.skip(i as int) =~= Seq::<char>::empty());
            assert(out@ =~= old(out)@ + glob_regex_chars(p@.skip(i as int)));
        }
    } else {
        let c = p.get_char(i);
        if c == '*' {
            push_char(out, '.');
            push_char(out, '*');
        } else if c == '?' {
            push_char(out, '.');
        } else if c == '.' {
            push_char(out, '\\');
            push_char(out, '.');
        } else {
            push_char(out, c);
        }
        proof {
            assert(out@ =~= old(out)@ + glob_char_regex(p@[i as int]));
            assert(p@.skip(i as int).skip(1) =~= p@.skip(i as int + 1));
            assert(p@.skip(i as int)[0] == p@[i as int]);
        }
        append_glob_regex(p, i + 1, out);
        proof {
            assert(out@ =~= old(out)@ + glob_regex_chars(p@.skip(i as int)));
        }
    }
}

impl Value {
    /// The LIKE capability, proved against `like_spec`.
    pub fn like_op(&self, other: &Value) -> (r: Result<Value, EvalError>)
        ensures
            (match r {
                Ok(v) => like_spec(self@, other@) == Ok::<ValueView, EvalError>(v@),
                Err(e) => like_spec(self@, other@) == Err::<ValueView, EvalError>(e),
            }),
    {
        match (self, other) {
            (Value::Text(t), Value::Text(p)) => {
                let lowered_pattern = to_lowercase_text(p);
                let lowered_input = to_lowercase_text(t);
                let mut rp = String::new();
                push_char(&mut rp, '^');
                append_like_regex(lowered_pattern.as_str(), 0, &mut rp);
                push_char(&mut rp, '$');
                proof {
                    assert(lowered_pattern@.skip(0) =~= lowered_pattern@);
                    assert(rp@ =~= anchored(like_regex_chars(lower_of(p@))));
                }
                match mregex_is_match(&rp, &lowered_input) {
                    Some(m) => Ok(Value::Boolean(m)),
                    None => Err(EvalError::InvalidPattern),
                }
            },
            (Value::Text(_), _) => Err(EvalError::TypeMismatch),
            _ => Err(EvalError::InvalidOperation),
        }
    }

    /// The REGEXP capability: it shares the LIKE translation and engine.
    pub fn regexp_op(&self, other: &Value) -> (r: Result<Value, EvalError>)
        ensures
            (match r {
                Ok(v) => like_spec(self@, other@) == Ok::<ValueView, EvalError>(v@),
                Err(e) => like_spec(self@, other@) == Err::<ValueView, EvalError>(e),
            }),
    {
        self.like_op(other)
    }

    /// The GLOB capability, proved against `glob_spec`.
    pub fn glob_op(&self, other: &Value) -> (r: Result<Value, EvalError>)
        ensures
            (match r {
                Ok(v) => glob_spec(self@, other@) == Ok::<ValueView, EvalError>(v@),
                Err(e) => glob_spec(self@, other@) == Err::<ValueView, EvalError>(e),
            }),
    {
        match (self, other) {
            (Value::Text(t), Value::Text(p)) => {
                let mut rp = String::new();
                push_char(&mut rp, '^');
                append_glob_regex(p.as_str(), 0, &mut rp);
                push_char(&mut rp, '$');
                proof {
                    assert(p@.skip(0) =~= p@);
                    assert(rp@ =~= anchored(glob_regex_chars(p@)));
                }
                match regex_is_match(&rp, t) {
                    Some(m) => Ok(Value::Boolean(m)),
                    None => Err(EvalError::InvalidPattern),
                }
            },
            (Value::Text(_), _) => Err(EvalError::TypeMismatch),
            _ => Err(EvalError::InvalidOperation),
        }
    }
}

} // verus!
