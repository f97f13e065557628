//! What an operator leaves to do once it has looked at its operands: either
//! the result is known, or one question is put to the host.

use vstd::prelude::*;
use crate::host::{ArithOp, HostClass};
use crate::value::{Value, ValueView};

verus! {

/// How to go on once a text operand has been parsed as a number.
#[derive(Clone, Copy, Debug, PartialEq, Eq, Structural)]
pub enum AfterParse {
    /// Apply `op` to the parsed number and `other`, each on the side on which
    /// it stood: the parsed number on the left if `text_on_left`, else on the
    /// right. Text that is no number counts as NaN.
    Arith { op: ArithOp, other: u64, text_on_left: bool },
    /// Compare the parsed number with `other`; text that is no number is an
    /// error. `negate` asks for `!=` in place of `==`.
    Equal { other: u64, negate: bool },
}

/// The outcome of applying an operator to its operands.
#[derive(Debug)]
pub enum Outcome {
    /// The result.
    Value(Value),
    /// The result is the number that the host computes.
    Arith { op: ArithOp, left: u64, right: u64 },
    /// The text is to be parsed as a number first.
    Parse { text: String, then: AfterParse },
    /// The result is the number that the host coerces the text to.
    ToNumber(String),
    /// The result is whether the two are the same host object, negated if
    /// `negate`.
    SameObject { left: Value, right: Value, negate: bool },
    /// The result is whether the object has the property.
    HasProperty { object: Value, key: Value },
    /// The result is whether the value is an instance of the host constructor.
    InstanceOf { value: Value, class: HostClass },
}

/// The mathematical content of an [`Outcome`].
pub enum OutcomeView {
    Value(ValueView),
    Arith { op: ArithOp, left: u64, right: u64 },
    Parse { text: Seq<char>, then: AfterParse },
    ToNumber(Seq<char>),
    SameObject { left: ValueView, right: ValueView, negate: bool },
    HasProperty { object: ValueView, key: ValueView },
    InstanceOf { value: ValueView, class: HostClass },
}

impl View for Outcome {
    type V = OutcomeView;

    open spec fn view(&self) -> OutcomeView {
        match self {
            Outcome::Value(v) => OutcomeView::Value(v@),
            Outcome::Arith { op, left, right } => OutcomeView::Arith {
                op: *op,
                left: *left,
                right: *right,
            },
            Outcome::Parse { text, then } => OutcomeView::Parse { text: text@, then: *then },
            Outcome::ToNumber(text) => OutcomeView::ToNumber(text@),
            Outcome::SameObject { left, right, negate } => OutcomeView::SameObject {
                left: left@,
                right: right@,
                negate: *negate,
            },
            Outcome::HasProperty { object, key } => OutcomeView::HasProperty {
                object: object@,
                key: key@,
            },
            Outcome::InstanceOf { value, class } => OutcomeView::InstanceOf {
                value: value@,
                class: *class,
            },
        }
    }
}

} // verus!
