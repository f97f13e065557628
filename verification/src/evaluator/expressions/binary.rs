//! The binary operators. Each is a function of its two operands that either
//! gives the result, names the one question to put to the host, or fails
//! with a type error.

use vstd::prelude::*;
use crate::ast::BinaryOp;
use crate::error::{ErrorKind, EvalError};
use crate::host::{host_class_of, ArithOp, HostClass};
use crate::number::{
    equal, less_than, number_equal, number_is_truthy, number_less_than, truthy, NAN_BITS,
    ONE_BITS, ZERO_BITS,
};
use crate::operation::{AfterParse, Outcome, OutcomeView};
use crate::text::concat_text;
use crate::value::{Value, ValueView};

verus! {

/// Whether the result of an operator is what its rule says: the outcome
/// where the rule gives one, a type error where it gives none.
pub open spec fn meets(r: Result<Outcome, EvalError>, rule: Option<OutcomeView>) -> bool {
    match rule {
        Some(outcome) => r is Ok && r->Ok_0@ == outcome,
        None => r is Err && r->Err_0.kind == ErrorKind::Type,
    }
}

/// Arithmetic with coercion: two numbers are handed to the host; a string
/// beside a number is parsed first, and the parsed number takes the place of
/// the string, so that the operands keep their order.
pub open spec fn coerced(op: ArithOp, l: ValueView, r: ValueView) -> Option<OutcomeView> {
    match (l, r) {
        (ValueView::Number(x), ValueView::Number(y)) => Some(
            OutcomeView::Arith { op, left: x, right: y },
        ),
        (ValueView::String(s), ValueView::Number(y)) => Some(
            OutcomeView::Parse {
                text: s,
                then: AfterParse::Arith { op, other: y, text_on_left: true },
            },
        ),
        (ValueView::Number(x), ValueView::String(s)) => Some(
            OutcomeView::Parse {
                text: s,
                then: AfterParse::Arith { op, other: x, text_on_left: false },
            },
        ),
        _ => None,
    }
}

/// An operator on numbers only.
pub open spec fn numeric(op: ArithOp, l: ValueView, r: ValueView) -> Option<OutcomeView> {
    match (l, r) {
        (ValueView::Number(x), ValueView::Number(y)) => Some(
            OutcomeView::Arith { op, left: x, right: y },
        ),
        _ => None,
    }
}

/// `+`: two strings are concatenated; otherwise arithmetic with coercion.
pub open spec fn plus_rule(l: ValueView, r: ValueView) -> Option<OutcomeView> {
    match (l, r) {
        (ValueView::String(x), ValueView::String(y)) => Some(
            OutcomeView::Value(ValueView::String(x + y)),
        ),
        _ => coerced(ArithOp::Add, l, r),
    }
}

/// `%`: arithmetic with coercion, and NaN in place of a type error.
pub open spec fn mod_rule(l: ValueView, r: ValueView) -> Option<OutcomeView> {
    match coerced(ArithOp::Mod, l, r) {
        Some(outcome) => Some(outcome),
        None => Some(OutcomeView::Value(ValueView::Number(NAN_BITS))),
    }
}

/// The four comparisons, on numbers only.
pub open spec fn comparison_rule(op: BinaryOp, l: ValueView, r: ValueView) -> Option<
    OutcomeView,
> {
    match (l, r) {
        (ValueView::Number(x), ValueView::Number(y)) => Some(
            OutcomeView::Value(
                ValueView::Bool(
                    match op {
                        BinaryOp::Gt => less_than(y, x),
                        BinaryOp::GtEq => less_than(y, x) || equal(x, y),
                        BinaryOp::Lt => less_than(x, y),
                        _ => less_than(x, y) || equal(x, y),
                    },
                ),
            ),
        ),
        _ => None,
    }
}

/// Whether a value is a host object or a host function.
pub open spec fn is_host_reference(v: ValueView) -> bool {
    v is Object || v is JsFunction
}

/// The answer of an equality operator, negated for its `!=` form.
pub open spec fn verdict(same: bool, negate: bool) -> OutcomeView {
    OutcomeView::Value(ValueView::Bool(same != negate))
}

/// `==` and, with `negate`, `!=`: values of one primitive kind are compared;
/// `null` and `undefined` equal each other; a boolean equals the number 1 or
/// 0; a string beside a number is parsed first; host objects and functions
/// are compared for identity by the host.
pub open spec fn loose_equality_rule(negate: bool, l: ValueView, r: ValueView) -> Option<
    OutcomeView,
> {
    match (l, r) {
        (ValueView::Number(x), ValueView::Number(y)) => Some(verdict(equal(x, y), negate)),
        (ValueView::Bool(x), ValueView::Bool(y)) => Some(verdict(x == y, negate)),
        (ValueView::String(x), ValueView::String(y)) => Some(verdict(x == y, negate)),
        (ValueView::Undefined, ValueView::Undefined) => Some(verdict(true, negate)),
        (ValueView::Null, ValueView::Null) => Some(verdict(true, negate)),
        (ValueView::Null, ValueView::Undefined) => Some(verdict(true, negate)),
        (ValueView::Undefined, ValueView::Null) => Some(verdict(true, negate)),
        (ValueView::Bool(b), ValueView::Number(y)) => Some(
            verdict(equal(y, if b { ONE_BITS } else { ZERO_BITS }), negate),
        ),
        (ValueView::Number(y), ValueView::Bool(b)) => Some(
            verdict(equal(y, if b { ONE_BITS } else { ZERO_BITS }), negate),
        ),
        (ValueView::String(s), ValueView::Number(y)) => Some(
            OutcomeView::Parse { text: s, then: AfterParse::Equal { other: y, negate } },
        ),
        (ValueView::Number(y), ValueView::String(s)) => Some(
            OutcomeView::Parse { text: s, then: AfterParse::Equal { other: y, negate } },
        ),
        _ => if is_host_reference(l) && is_host_reference(r) {
            Some(OutcomeView::SameObject { left: l, right: r, negate })
        } else {
            None
        },
    }
}

/// `===` and, with `negate`, `!==`: as `==` within one kind, and unequal
/// across kinds. There is no failure.
pub open spec fn strict_equality_rule(negate: bool, l: ValueView, r: ValueView) -> OutcomeView {
    match (l, r) {
        (ValueView::Number(x), ValueView::Number(y)) => verdict(equal(x, y), negate),
        (ValueView::Bool(x), ValueView::Bool(y)) => verdict(x == y, negate),
        (ValueView::String(x), ValueView::String(y)) => verdict(x == y, negate),
        (ValueView::Undefined, ValueView::Undefined) => verdict(true, negate),
        (ValueView::Null, ValueView::Null) => verdict(true, negate),
        _ => if is_host_reference(l) && is_host_reference(r) {
            OutcomeView::SameObject { left: l, right: r, negate }
        } else {
            verdict(false, negate)
        },
    }
}

/// `&&`, on booleans only.
pub open spec fn and_rule(l: ValueView, r: ValueView) -> Option<OutcomeView> {
    match (l, r) {
        (ValueView::Bool(x), ValueView::Bool(y)) => Some(
            OutcomeView::Value(ValueView::Bool(x && y)),
        ),
        _ => None,
    }
}

/// Whether `||` keeps its left operand; `None` where the left operand is of
/// a kind that `||` does not take.
pub open spec fn counts_as_true(l: ValueView) -> Option<bool> {
    match l {
        ValueView::Bool(b) => Some(b),
        ValueView::Null => Some(false),
        ValueView::Undefined => Some(false),
        ValueView::Number(x) => Some(truthy(x)),
        ValueView::String(s) => Some(s.len() != 0),
        _ => None,
    }
}

/// `||`: the left operand itself if it counts as true, else the right one.
pub open spec fn or_rule(l: ValueView, r: ValueView) -> Option<OutcomeView> {
    match counts_as_true(l) {
        Some(keep) => Some(OutcomeView::Value(if keep { l } else { r })),
        None => None,
    }
}

/// `in`: the left operand must be an object; the host looks for the property.
pub open spec fn in_rule(l: ValueView, r: ValueView) -> Option<OutcomeView> {
    match l {
        ValueView::Object(_) => Some(OutcomeView::HasProperty { object: l, key: r }),
        _ => None,
    }
}

/// `instanceof`: the kind of the right operand selects the host constructor.
pub open spec fn instanceof_rule(l: ValueView, r: ValueView) -> Option<OutcomeView> {
    match host_class_of(r) {
        Some(class) => Some(OutcomeView::InstanceOf { value: l, class }),
        None => None,
    }
}

/// `??`: the right operand if the left one is `null` or `undefined`.
pub open spec fn nullish_rule(l: ValueView, r: ValueView) -> OutcomeView {
    OutcomeView::Value(if l is Null || l is Undefined { r } else { l })
}

/// The rule of each binary operator.
pub open spec fn binary_rule(op: BinaryOp, l: ValueView, r: ValueView) -> Option<OutcomeView> {
    match op {
        BinaryOp::Add => plus_rule(l, r),
        BinaryOp::Sub => coerced(ArithOp::Sub, l, r),
        BinaryOp::Mul => coerced(ArithOp::Mul, l, r),
        BinaryOp::Div => coerced(ArithOp::Div, l, r),
        BinaryOp::Mod => mod_rule(l, r),
        BinaryOp::Exp => numeric(ArithOp::Exp, l, r),
        BinaryOp::Gt => comparison_rule(op, l, r),
        BinaryOp::GtEq => comparison_rule(op, l, r),
        BinaryOp::Lt => comparison_rule(op, l, r),
        BinaryOp::LtEq => comparison_rule(op, l, r),
        BinaryOp::EqEq => loose_equality_rule(false, l, r),
        BinaryOp::EqEqEq => Some(strict_equality_rule(false, l, r)),
        BinaryOp::NotEq => loose_equality_rule(true, l, r),
        BinaryOp::NotEqEq => Some(strict_equality_rule(true, l, r)),
        BinaryOp::LogicalAnd => and_rule(l, r),
        BinaryOp::LogicalOr => or_rule(l, r),
        BinaryOp::LShift => numeric(ArithOp::LShift, l, r),
        BinaryOp::RShift => numeric(ArithOp::RShift, l, r),
        BinaryOp::ZeroFillRShift => numeric(ArithOp::ZeroFillRShift, l, r),
        BinaryOp::BitAnd => numeric(ArithOp::BitAnd, l, r),
        BinaryOp::BitOr => numeric(ArithOp::BitOr, l, r),
        BinaryOp::BitXor => numeric(ArithOp::BitXor, l, r),
        BinaryOp::In => in_rule(l, r),
        BinaryOp::InstanceOf => instanceof_rule(l, r),
        BinaryOp::NullishCoalescing => Some(nullish_rule(l, r)),
    }
}

/// The failure of an operator that does not take its operands.
fn type_error(operator: &str) -> (e: EvalError)
    ensures
        e.kind == ErrorKind::Type,
{
    let mut message = "TypeError: ".to_owned();
    message.append(operator);
    message.append(" operator not supported for these operands.");
    EvalError::new(ErrorKind::Type, message)
}

fn coerced_operator(op: ArithOp, name: &str, left: &Value, right: &Value) -> (r: Result<
    Outcome,
    EvalError,
>)
    ensures
        meets(r, coerced(op, left@, right@)),
{
    match (left, right) {
        (Value::Number(x), Value::Number(y)) => Ok(Outcome::Arith { op, left: *x, right: *y }),
        (Value::String(s), Value::Number(y)) => Ok(
            Outcome::Parse {
                text: s.clone(),
                then: AfterParse::Arith { op, other: *y, text_on_left: true },
            },
        ),
        (Value::Number(x), Value::String(s)) => Ok(
            Outcome::Parse {
                text: s.clone(),
                then: AfterParse::Arith { op, other: *x, text_on_left: false },
            },
        ),
        _ => Err(type_error(name)),
    }
}

fn numeric_operator(op: ArithOp, name: &str, left: &Value, right: &Value) -> (r: Result<
    Outcome,
    EvalError,
>)
    ensures
        meets(r, numeric(op, left@, right@)),
{
    match (left, right) {
        (Value::Number(x), Value::Number(y)) => Ok(Outcome::Arith { op, left: *x, right: *y }),
        _ => Err(type_error(name)),
    }
}

fn comparison_operator(op: BinaryOp, name: &str, left: &Value, right: &Value) -> (r: Result<
    Outcome,
    EvalError,
>)
    ensures
        meets(r, comparison_rule(op, left@, right@)),
{
    match (left, right) {
        (Value::Number(x), Value::Number(y)) => {
            let answer = match op {
                BinaryOp::Gt => number_less_than(*y, *x),
                BinaryOp::GtEq => number_less_than(*y, *x) || number_equal(*x, *y),
                BinaryOp::Lt => number_less_than(*x, *y),
                _ => number_less_than(*x, *y) || number_equal(*x, *y),
            };
            Ok(Outcome::Value(Value::Bool(answer)))
        },
        _ => Err(type_error(name)),
    }
}

fn is_reference(v: &Value) -> (r: bool)
    ensures
        r == is_host_reference(v@),
{
    match v {
        Value::Object(_) => true,
        Value::JsFunction(_) => true,
        _ => false,
    }
}

fn answer(same: bool, negate: bool) -> (o: Outcome)
    ensures
        o@ == verdict(same, negate),
{
    Outcome::Value(Value::Bool(same != negate))
}

fn loose_equality(negate: bool, name: &str, left: &Value, right: &Value) -> (r: Result<
    Outcome,
    EvalError,
>)
    ensures
        meets(r, loose_equality_rule(negate, left@, right@)),
{
    match (left, right) {
        (Value::Number(x), Value::Number(y)) => Ok(answer(number_equal(*x, *y), negate)),
        (Value::Bool(x), Value::Bool(y)) => Ok(answer(*x == *y, negate)),
        (Value::String(x), Value::String(y)) => Ok(answer(*x == *y, negate)),
        (Value::Undefined, Value::Undefined) => Ok(answer(true, negate)),
        (Value::Null, Value::Null) => Ok(answer(true, negate)),
        (Value::Null, Value::Undefined) => Ok(answer(true, negate)),
        (Value::Undefined, Value::Null) => Ok(answer(true, negate)),
        (Value::Bool(b), Value::Number(y)) => Ok(
            answer(number_equal(*y, if *b { ONE_BITS } else { ZERO_BITS }), negate),
        ),
        (Value::Number(y), Value::Bool(b)) => Ok(
            answer(number_equal(*y, if *b { ONE_BITS } else { ZERO_BITS }), negate),
        ),
        (Value::String(s), Value::Number(y)) => Ok(
            Outcome::Parse { text: s.clone(), then: AfterParse::Equal { other: *y, negate } },
        ),
        (Value::Number(y), Value::String(s)) => Ok(
            Outcome::Parse { text: s.clone(), then: AfterParse::Equal { other: *y, negate } },
        ),
        _ => if is_reference(left) && is_reference(right) {
            Ok(Outcome::SameObject { left: left.clone(), right: right.clone(), negate })
        } else {
            Err(type_error(name))
        },
    }
}

fn strict_equality(negate: bool, left: &Value, right: &Value) -> (r: Result<Outcome, EvalError>)
    ensures
        r is Ok,
        r->Ok_0@ == strict_equality_rule(negate, left@, right@),
{
    match (left, right) {
        (Value::Number(x), Value::Number(y)) => Ok(answer(number_equal(*x, *y), negate)),
        (Value::Bool(x), Value::Bool(y)) => Ok(answer(*x == *y, negate)),
        (Value::String(x), Value::String(y)) => Ok(answer(*x == *y, negate)),
        (Value::Undefined, Value::Undefined) => Ok(answer(true, negate)),
        (Value::Null, Value::Null) => Ok(answer(true, negate)),
        _ => if is_reference(left) && is_reference(right) {
            Ok(Outcome::SameObject { left: left.clone(), right: right.clone(), negate })
        } else {
            Ok(answer(false, negate))
        },
    }
}

pub(crate) fn eval_plus_operator(left: &Value, right: &Value) -> (r: Result<Outcome, EvalError>)
    ensures
        meets(r, plus_rule(left@, right@)),
{
    match (left, right) {
        (Value::String(x), Value::String(y)) => Ok(
            Outcome::Value(Value::String(concat_text(x.as_str(), y.as_str()))),
        ),
        _ => coerced_operator(ArithOp::Add, "Plus", left, right),
    }
}

pub(crate) fn eval_minus_operator(left: &Value, right: &Value) -> (r: Result<Outcome, EvalError>)
    ensures
        meets(r, coerced(ArithOp::Sub, left@, right@)),
{
    coerced_operator(ArithOp::Sub, "Minus", left, right)
}

pub(crate) fn eval_multiplication_operator(left: &Value, right: &Value) -> (r: Result<
    Outcome,
    EvalError,
>)
    ensures
        meets(r, coerced(ArithOp::Mul, left@, right@)),
{
    coerced_operator(ArithOp::Mul, "Multiplication", left, right)
}

pub(crate) fn eval_division_operator(left: &Value, right: &Value) -> (r: Result<
    Outcome,
    EvalError,
>)
    ensures
        meets(r, coerced(ArithOp::Div, left@, right@)),
{
    coerced_operator(ArithOp::Div, "Division", left, right)
}

pub(crate) fn eval_mod_operator(left: &Value, right: &Value) -> (r: Result<Outcome, EvalError>)
    ensures
        meets(r, mod_rule(left@, right@)),
{
    match coerced_operator(ArithOp::Mod, "Modulo", left, right) {
        Ok(outcome) => Ok(outcome),
        Err(_) => Ok(Outcome::Value(Value::Number(NAN_BITS))),
    }
}

pub(crate) fn eval_power_operator(left: &Value, right: &Value) -> (r: Result<Outcome, EvalError>)
    ensures
        meets(r, numeric(ArithOp::Exp, left@, right@)),
{
    numeric_operator(ArithOp::Exp, "Power", left, right)
}

pub(crate) fn eval_greater_than_operator(left: &Value, right: &Value) -> (r: Result<
    Outcome,
    EvalError,
>)
    ensures
        meets(r, comparison_rule(BinaryOp::Gt, left@, right@)),
{
    comparison_operator(BinaryOp::Gt, "Greater than", left, right)
}

pub(crate) fn eval_greater_than_equal_operator(left: &Value, right: &Value) -> (r: Result<
    Outcome,
    EvalError,
>)
    ensures
        meets(r, comparison_rule(BinaryOp::GtEq, left@, right@)),
{
    comparison_operator(BinaryOp::GtEq, "Greater than equal", left, right)
}

pub(crate) fn eval_less_than_operator(left: &Value, right: &Value) -> (r: Result<
    Outcome,
    EvalError,
>)
    ensures
        meets(r, comparison_rule(BinaryOp::Lt, left@, right@)),
{
    comparison_operator(BinaryOp::Lt, "Less than", left, right)
}

pub(crate) fn eval_less_than_equal_operator(left: &Value, right: &Value) -> (r: Result<
    Outcome,
    EvalError,
>)
    ensures
        meets(r, comparison_rule(BinaryOp::LtEq, left@, right@)),
{
    comparison_operator(BinaryOp::LtEq, "Less than equal", left, right)
}

pub(crate) fn eval_equal_operator(left: &Value, right: &Value) -> (r: Result<Outcome, EvalError>)
    ensures
        meets(r, loose_equality_rule(false, left@, right@)),
{
    loose_equality(false, "Equal", left, right)
}

pub(crate) fn eval_not_equal_operator(left: &Value, right: &Value) -> (r: Result<
    Outcome,
    EvalError,
>)
    ensures
        meets(r, loose_equality_rule(true, left@, right@)),
{
    loose_equality(true, "Not equal", left, right)
}

pub(crate) fn eval_equal_equal_operator(left: &Value, right: &Value) -> (r: Result<
    Outcome,
    EvalError,
>)
    ensures
        r is Ok,
        r->Ok_0@ == strict_equality_rule(false, left@, right@),
{
    strict_equality(false, left, right)
}

pub(crate) fn eval_not_equal_equal_operator(left: &Value, right: &Value) -> (r: Result<
    Outcome,
    EvalError,
>)
    ensures
        r is Ok,
        r->Ok_0@ == strict_equality_rule(true, left@, right@),
{
    strict_equality(true, left, right)
}

pub(crate) fn eval_and_operator(left: &Value, right: &Value) -> (r: Result<Outcome, EvalError>)
    ensures
        meets(r, and_rule(left@, right@)),
{
    match (left, right) {
        (Value::Bool(x), Value::Bool(y)) => Ok(Outcome::Value(Value::Bool(*x && *y))),
        _ => Err(type_error("And")),
    }
}

pub(crate) fn eval_or_operator(left: &Value, right: &Value) -> (r: Result<Outcome, EvalError>)
    ensures
        meets(r, or_rule(left@, right@)),
{
    let keep = match left {
        Value::Bool(b) => *b,
        Value::Null => false,
        Value::Undefined => false,
        Value::Number(x) => number_is_truthy(*x),
        Value::String(s) => s.as_str().unicode_len() != 0,
        _ => {
            return Err(type_error("Or"));
        },
    };
    if keep {
        Ok(Outcome::Value(left.clone()))
    } else {
        Ok(Outcome::Value(right.clone()))
    }
}

pub(crate) fn left_shift_operator(left: &Value, right: &Value) -> (r: Result<Outcome, EvalError>)
    ensures
        meets(r, numeric(ArithOp::LShift, left@, right@)),
{
    numeric_operator(ArithOp::LShift, "Left shift", left, right)
}

pub(crate) fn right_shift_operator(left: &Value, right: &Value) -> (r: Result<Outcome, EvalError>)
    ensures
        meets(r, numeric(ArithOp::RShift, left@, right@)),
{
    numeric_operator(ArithOp::RShift, "Right shift", left, right)
}

pub(crate) fn zero_right_shift_operator(left: &Value, right: &Value) -> (r: Result<
    Outcome,
    EvalError,
>)
    ensures
        meets(r, numeric(ArithOp::ZeroFillRShift, left@, right@)),
{
    numeric_operator(ArithOp::ZeroFillRShift, "Unsigned right shift", left, right)
}

pub(crate) fn bitwise_and_operator(left: &Value, right: &Value) -> (r: Result<Outcome, EvalError>)
    ensures
        meets(r, numeric(ArithOp::BitAnd, left@, right@)),
{
    numeric_operator(ArithOp::BitAnd, "Bitwise and", left, right)
}

pub(crate) fn bitwise_or_operator(left: &Value, right: &Value) -> (r: Result<Outcome, EvalError>)
    ensures
        meets(r, numeric(ArithOp::BitOr, left@, right@)),
{
    numeric_operator(ArithOp::BitOr, "Bitwise or", left, right)
}

pub(crate) fn bitwise_xor_operator(left: &Value, right: &Value) -> (r: Result<Outcome, EvalError>)
    ensures
        meets(r, numeric(ArithOp::BitXor, left@, right@)),
{
    numeric_operator(ArithOp::BitXor, "Bitwise xor", left, right)
}

pub(crate) fn in_operator(left: &Value, right: &Value) -> (r: Result<Outcome, EvalError>)
    ensures
        meets(r, in_rule(left@, right@)),
{
    match left {
        Value::Object(_) => Ok(
            Outcome::HasProperty { object: left.clone(), key: right.clone() },
        ),
        _ => Err(type_error("In")),
    }
}

pub(crate) fn instanceof_operator(left: &Value, right: &Value) -> (r: Result<Outcome, EvalError>)
    ensures
        meets(r, instanceof_rule(left@, right@)),
{
    let class = match right {
        Value::Bool(_) => HostClass::Boolean,
        Value::Number(_) => HostClass::Number,
        Value::String(_) => HostClass::String,
        Value::Object(_) => HostClass::Object,
        Value::JsFunction(_) => HostClass::Function,
        _ => {
            return Err(type_error("Instanceof"));
        },
    };
    Ok(Outcome::InstanceOf { value: left.clone(), class })
}

pub(crate) fn nullish_coalescing_operator(left: &Value, right: &Value) -> (r: Result<
    Outcome,
    EvalError,
>)
    ensures
        r is Ok,
        r->Ok_0@ == nullish_rule(left@, right@),
{
    match left {
        Value::Null => Ok(Outcome::Value(right.clone())),
        Value::Undefined => Ok(Outcome::Value(right.clone())),
        _ => Ok(Outcome::Value(left.clone())),
    }
}

/// Applies a binary operator to its two operands.
pub fn eval_binary_expression(opr: BinaryOp, left: &Value, right: &Value) -> (r: Result<
    Outcome,
    EvalError,
>)
    ensures
        meets(r, binary_rule(opr, left@, right@)),
{
    match opr {
        BinaryOp::Add => eval_plus_operator(left, right),
        BinaryOp::Sub => eval_minus_operator(left, right),
        BinaryOp::Mul => eval_multiplication_operator(left, right),
        BinaryOp::Div => eval_division_operator(left, right),
        BinaryOp::Mod => eval_mod_operator(left, right),
        BinaryOp::Exp => eval_power_operator(left, right),
        BinaryOp::Gt => eval_greater_than_operator(left, right),
        BinaryOp::GtEq => eval_greater_than_equal_operator(left, right),
        BinaryOp::Lt => eval_less_than_operator(left, right),
        BinaryOp::LtEq => eval_less_than_equal_operator(left, right),
        BinaryOp::EqEq => eval_equal_operator(left, right),
        BinaryOp::EqEqEq => eval_equal_equal_operator(left, right),
        BinaryOp::NotEq => eval_not_equal_operator(left, right),
        BinaryOp::NotEqEq => eval_not_equal_equal_operator(left, right),
        BinaryOp::LogicalAnd => eval_and_operator(left, right),
        BinaryOp::LogicalOr => eval_or_operator(left, right),
        BinaryOp::LShift => left_shift_operator(left, right),
        BinaryOp::RShift => right_shift_operator(left, right),
        BinaryOp::ZeroFillRShift => zero_right_shift_operator(left, right),
        BinaryOp::BitAnd => bitwise_and_operator(left, right),
        BinaryOp::BitOr => bitwise_or_operator(left, right),
        BinaryOp::BitXor => bitwise_xor_operator(left, right),
        BinaryOp::In => in_operator(left, right),
        BinaryOp::InstanceOf => instanceof_operator(left, right),
        BinaryOp::NullishCoalescing => nullish_coalescing_operator(left, right),
    }
}

/// Goes on after a text operand was parsed: `parsed` is the number, or `None`
/// where the text is no number. For arithmetic, NaN stands in for a failed
/// parse; for equality, a failed parse is a type error.
pub fn after_parse(then: AfterParse, parsed: Option<u64>) -> (r: Result<Outcome, EvalError>)
    ensures
        meets(r, after_parse_rule(then, parsed)),
{
    match then {
        AfterParse::Arith { op, other, text_on_left } => {
            let number: u64 = match parsed {
                Some(bits) => bits,
                None => NAN_BITS,
            };
            if text_on_left {
                Ok(Outcome::Arith { op, left: number, right: other })
            } else {
                Ok(Outcome::Arith { op, left: other, right: number })
            }
        },
        AfterParse::Equal { other, negate } => match parsed {
            Some(bits) => Ok(answer(number_equal(bits, other), negate)),
            None => Err(
                EvalError::with_text(ErrorKind::Type, "TypeError: invalid float literal"),
            ),
        },
    }
}

/// The rule of [`after_parse`].
pub open spec fn after_parse_rule(then: AfterParse, parsed: Option<u64>) -> Option<OutcomeView> {
    match then {
        AfterParse::Arith { op, other, text_on_left } => {
            let number = match parsed {
                Some(bits) => bits,
                None => NAN_BITS,
            };
            Some(
                if text_on_left {
                    OutcomeView::Arith { op, left: number, right: other }
                } else {
                    OutcomeView::Arith { op, left: other, right: number }
                },
            )
        },
        AfterParse::Equal { other, negate } => match parsed {
            Some(bits) => Some(verdict(equal(bits, other), negate)),
            None => None,
        },
    }
}

/// Of two numbers the four arithmetic operators decide nothing themselves:
/// each hands both operands, unchanged and in order, to the host, whose
/// answer is the result.
pub proof fn lemma_arithmetic_is_the_hosts(a: u64, b: u64)
    ensures
        binary_rule(BinaryOp::Add, ValueView::Number(a), ValueView::Number(b)) == Some(
            OutcomeView::Arith { op: ArithOp::Add, left: a, right: b },
        ),
        binary_rule(BinaryOp::Sub, ValueView::Number(a), ValueView::Number(b)) == Some(
            OutcomeView::Arith { op: ArithOp::Sub, left: a, right: b },
        ),
        binary_rule(BinaryOp::Mul, ValueView::Number(a), ValueView::Number(b)) == Some(
            OutcomeView::Arith { op: ArithOp::Mul, left: a, right: b },
        ),
        binary_rule(BinaryOp::Div, ValueView::Number(a), ValueView::Number(b)) == Some(
            OutcomeView::Arith { op: ArithOp::Div, left: a, right: b },
        ),
{
}

/// A string beside a number keeps its side: with the string on the left the
/// host is asked for `parsed op number`, with the string on the right for
/// `number op parsed`.
pub proof fn lemma_operands_keep_their_order(op: ArithOp, text: Seq<char>, number: u64, parsed: u64)
    ensures
        coerced(op, ValueView::String(text), ValueView::Number(number)) matches Some(
            OutcomeView::Parse { then, .. },
        ) && after_parse_rule(then, Some(parsed)) == Some(
            OutcomeView::Arith { op, left: parsed, right: number },
        ),
        coerced(op, ValueView::Number(number), ValueView::String(text)) matches Some(
            OutcomeView::Parse { then, .. },
        ) && after_parse_rule(then, Some(parsed)) == Some(
            OutcomeView::Arith { op, left: number, right: parsed },
        ),
{
}

/// `null == undefined` holds, and `null === undefined` does not.
pub proof fn lemma_null_and_undefined()
    ensures
        binary_rule(BinaryOp::EqEq, ValueView::Null, ValueView::Undefined) == Some(
            OutcomeView::Value(ValueView::Bool(true)),
        ),
        binary_rule(BinaryOp::EqEq, ValueView::Undefined, ValueView::Null) == Some(
            OutcomeView::Value(ValueView::Bool(true)),
        ),
        binary_rule(BinaryOp::EqEqEq, ValueView::Null, ValueView::Undefined) == Some(
            OutcomeView::Value(ValueView::Bool(false)),
        ),
        binary_rule(BinaryOp::EqEqEq, ValueView::Undefined, ValueView::Null) == Some(
            OutcomeView::Value(ValueView::Bool(false)),
        ),
{
}

/// The strict equality operators fail on no pair of operands, and across two
/// kinds of value `===` is false and `!==` is true without a question to the
/// host, unless both are host references.
pub proof fn lemma_strict_equality_total(l: ValueView, r: ValueView)
    ensures
        binary_rule(BinaryOp::EqEqEq, l, r) is Some,
        binary_rule(BinaryOp::NotEqEq, l, r) is Some,
        !(is_host_reference(l) && is_host_reference(r)) ==> binary_rule(BinaryOp::EqEqEq, l, r)
            ->Some_0 is Value && binary_rule(BinaryOp::NotEqEq, l, r)->Some_0 is Value,
{
}

/// Two host objects are equal exactly if the host says they are the same
/// object: both equality operators put that one question.
pub proof fn lemma_objects_compare_by_identity(a: u64, b: u64)
    ensures
        binary_rule(BinaryOp::EqEq, ValueView::Object(a), ValueView::Object(b)) == Some(
            OutcomeView::SameObject {
                left: ValueView::Object(a),
                right: ValueView::Object(b),
                negate: false,
            },
        ),
        binary_rule(BinaryOp::EqEqEq, ValueView::Object(a), ValueView::Object(b)) == Some(
            OutcomeView::SameObject {
                left: ValueView::Object(a),
                right: ValueView::Object(b),
                negate: false,
            },
        ),
{
}

} // verus!
