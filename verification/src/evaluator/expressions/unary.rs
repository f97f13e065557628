//! The unary operators.

use vstd::prelude::*;
use crate::ast::UnaryOp;
use crate::error::{ErrorKind, EvalError};
use crate::number::{negated, number_is_truthy, number_negate, truthy, NAN_BITS, ONE_BITS, ZERO_BITS};
use crate::operation::{Outcome, OutcomeView};
use crate::value::{Value, ValueView};

verus! {

/// `!`: the negation of whether the operand counts as true. Functions,
/// symbols and big integers are not taken.
pub open spec fn not_rule(v: ValueView) -> Option<bool> {
    match v {
        ValueView::Bool(b) => Some(!b),
        ValueView::Number(x) => Some(!truthy(x)),
        ValueView::Null => Some(true),
        ValueView::Undefined => Some(true),
        ValueView::String(s) => Some(s.len() == 0),
        ValueView::Object(_) => Some(false),
        _ => None,
    }
}

/// Unary `+`: the operand as a number. Text is coerced by the host.
pub open spec fn plus_rule(v: ValueView) -> Option<OutcomeView> {
    match v {
        ValueView::Bool(b) => Some(
            OutcomeView::Value(ValueView::Number(if b { ONE_BITS } else { ZERO_BITS })),
        ),
        ValueView::Number(x) => Some(OutcomeView::Value(ValueView::Number(x))),
        ValueView::Null => Some(OutcomeView::Value(ValueView::Number(ZERO_BITS))),
        ValueView::Undefined => Some(OutcomeView::Value(ValueView::Number(NAN_BITS))),
        ValueView::String(s) => Some(OutcomeView::ToNumber(s)),
        _ => None,
    }
}

/// The name of the kind of a value, as `typeof` gives it.
pub open spec fn kind_name(v: ValueView) -> Seq<char> {
    match v {
        ValueView::Bool(_) => "boolean"@,
        ValueView::Number(_) => "number"@,
        ValueView::Null => "object"@,
        ValueView::Undefined => "undefined"@,
        ValueView::String(_) => "string"@,
        ValueView::Object(_) => "object"@,
        ValueView::Function(_) => "function"@,
        ValueView::JsFunction(_) => "function"@,
        ValueView::Symbol(_) => "symbol"@,
        ValueView::BigInt(_) => "bigint"@,
    }
}

/// The rule of each unary operator; `None` where the operator fails.
pub open spec fn unary_rule(op: UnaryOp, v: ValueView) -> Option<OutcomeView> {
    match op {
        UnaryOp::Bang => match not_rule(v) {
            Some(b) => Some(OutcomeView::Value(ValueView::Bool(b))),
            None => None,
        },
        UnaryOp::Minus => match v {
            ValueView::Number(x) => Some(OutcomeView::Value(ValueView::Number(negated(x)))),
            _ => None,
        },
        UnaryOp::Plus => plus_rule(v),
        UnaryOp::TypeOf => Some(OutcomeView::Value(ValueView::String(kind_name(v)))),
        UnaryOp::Void => Some(OutcomeView::Value(ValueView::Undefined)),
        _ => None,
    }
}

/// Whether the operator is one that the evaluator supports.
pub open spec fn is_supported(op: UnaryOp) -> bool {
    !(op is Tilde || op is Delete)
}

fn type_error(operator: &str) -> (e: EvalError)
    ensures
        e.kind == ErrorKind::Type,
{
    let mut message = "TypeError: ".to_owned();
    message.append(operator);
    message.append(" operator not defined for this operand.");
    EvalError::new(ErrorKind::Type, message)
}

pub fn eval_not_operator(argument: &Value) -> (r: Result<Value, EvalError>)
    ensures
        match not_rule(argument@) {
            Some(b) => r is Ok && r->Ok_0@ == ValueView::Bool(b),
            None => r is Err && r->Err_0.kind == ErrorKind::Type,
        },
{
    match argument {
        Value::Bool(b) => Ok(Value::Bool(!*b)),
        Value::Number(x) => Ok(Value::Bool(!number_is_truthy(*x))),
        Value::Null => Ok(Value::Bool(true)),
        Value::Undefined => Ok(Value::Bool(true)),
        Value::String(s) => Ok(Value::Bool(s.as_str().unicode_len() == 0)),
        Value::Object(_) => Ok(Value::Bool(false)),
        _ => Err(type_error("Not")),
    }
}

pub fn eval_minus_operator(argument: &Value) -> (r: Result<Value, EvalError>)
    ensures
        match argument@ {
            ValueView::Number(x) => r is Ok && r->Ok_0@ == ValueView::Number(negated(x)),
            _ => r is Err && r->Err_0.kind == ErrorKind::Type,
        },
{
    match argument {
        Value::Number(x) => Ok(Value::Number(number_negate(*x))),
        _ => Err(type_error("Minus")),
    }
}

pub fn eval_plus_operator(argument: &Value) -> (r: Result<Outcome, EvalError>)
    ensures
        match plus_rule(argument@) {
            Some(outcome) => r is Ok && r->Ok_0@ == outcome,
            None => r is Err && r->Err_0.kind == ErrorKind::Type,
        },
{
    match argument {
        Value::Bool(b) => Ok(
            Outcome::Value(Value::Number(if *b { ONE_BITS } else { ZERO_BITS })),
        ),
        Value::Number(x) => Ok(Outcome::Value(Value::Number(*x))),
        Value::Null => Ok(Outcome::Value(Value::Number(ZERO_BITS))),
        Value::Undefined => Ok(Outcome::Value(Value::Number(NAN_BITS))),
        Value::String(s) => Ok(Outcome::ToNumber(s.clone())),
        _ => Err(type_error("Plus")),
    }
}

pub fn eval_typeof_operator(argument: &Value) -> (r: Result<Value, EvalError>)
    ensures
        r is Ok,
        r->Ok_0@ == ValueView::String(kind_name(argument@)),
{
    let name = match argument {
        Value::Bool(_) => "boolean",
        Value::Number(_) => "number",
        Value::Null => "object",
        Value::Undefined => "undefined",
        Value::String(_) => "string",
        Value::Object(_) => "object",
        Value::Function(_) => "function",
        Value::JsFunction(_) => "function",
        Value::Symbol(_) => "symbol",
        Value::BigInt(_) => "bigint",
    };
    Ok(Value::text(name))
}

pub fn eval_void_operator(argument: &Value) -> (r: Result<Value, EvalError>)
    ensures
        r is Ok,
        r->Ok_0@ == ValueView::Undefined,
{
    Ok(Value::Undefined)
}

/// Applies a unary operator to its operand. An operator that the evaluator
/// does not support fails as unsupported syntax, any other failure is a type
/// error.
pub fn eval_unary_expression(opr: UnaryOp, argument: &Value) -> (r: Result<Outcome, EvalError>)
    ensures
        match unary_rule(opr, argument@) {
            Some(outcome) => r is Ok && r->Ok_0@ == outcome,
            None => r is Err && r->Err_0.kind == if is_supported(opr) {
                ErrorKind::Type
            } else {
                ErrorKind::Syntax
            },
        },
{
    match opr {
        UnaryOp::Bang => match eval_not_operator(argument) {
            Ok(v) => Ok(Outcome::Value(v)),
            Err(e) => Err(e),
        },
        UnaryOp::Minus => match eval_minus_operator(argument) {
            Ok(v) => Ok(Outcome::Value(v)),
            Err(e) => Err(e),
        },
        UnaryOp::Plus => eval_plus_operator(argument),
        UnaryOp::TypeOf => match eval_typeof_operator(argument) {
            Ok(v) => Ok(Outcome::Value(v)),
            Err(e) => Err(e),
        },
        UnaryOp::Void => match eval_void_operator(argument) {
            Ok(v) => Ok(Outcome::Value(v)),
            Err(e) => Err(e),
        },
        _ => Err(
            EvalError::with_text(ErrorKind::Syntax, "ERROR: Unary operator is not supported."),
        ),
    }
}

} // verus!
