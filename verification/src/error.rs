//! Failures of an evaluation. All of them are values: nothing in this crate
//! aborts the process.

use vstd::prelude::*;

verus! {

/// What went wrong.
#[derive(Clone, Copy, Debug, PartialEq, Eq, Structural)]
pub enum ErrorKind {
    /// An identifier or property could not be resolved.
    Name,
    /// A property was read from `undefined`.
    Reference,
    /// An operator, coercion, call or property access met a value of the wrong
    /// kind.
    Type,
    /// A call passed too few arguments, or a construction not exactly as many
    /// as the function declares.
    Arity,
    /// The program holds a node that the evaluator does not support.
    Syntax,
    /// The program executed `throw`.
    Thrown,
    /// The host reported a failure of an operation it was asked to perform.
    Host,
    /// The embedder broke the step protocol, or handed over a program whose
    /// node references do not resolve.
    Protocol,
}

/// A failure with its human-readable message.
#[derive(Debug)]
pub struct EvalError {
    pub kind: ErrorKind,
    pub message: String,
}

impl EvalError {
    pub fn new(kind: ErrorKind, message: String) -> (e: EvalError)
        ensures
            e.kind == kind,
            e.message == message,
    {
        EvalError { kind, message }
    }

    /// A failure whose message is the given text.
    pub fn with_text(kind: ErrorKind, text: &str) -> (e: EvalError)
        ensures
            e.kind == kind,
            e.message@ == text@,
    {
        EvalError { kind, message: text.to_owned() }
    }

    /// A failure whose message is `prefix` followed by `detail`.
    pub fn with_detail(kind: ErrorKind, prefix: &str, detail: &str) -> (e: EvalError)
        ensures
            e.kind == kind,
            e.message@ == prefix@ + detail@,
    {
        let mut message = prefix.to_owned();
        message.append(detail);
        EvalError { kind, message }
    }

    /// The text shown to the user for this failure.
    pub fn message(&self) -> (m: &String)
        ensures
            m == self.message,
    {
        &self.message
    }
}

impl Clone for EvalError {
    fn clone(&self) -> (e: EvalError)
        ensures
            e == *self,
    {
        EvalError { kind: self.kind, message: self.message.clone() }
    }
}

} // verus!
