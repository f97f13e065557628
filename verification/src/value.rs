//! The tagged representation of every runtime value.

use vstd::prelude::*;
use crate::environment::ClosedEnvironment;
use crate::number::{number_is_truthy, truthy};

verus! {

/// Where a binding cell lives in the [`crate::store::Store`].
pub type BindingId = usize;

/// Where a closure lives in the [`crate::store::Store`].
pub type ClosureId = usize;

/// An opaque handle to something the host manages.
pub type Handle = u64;

/// Which function of the program a closure runs.
pub type FunctionId = usize;

/// A runtime value. Values are immutable; what changes is the binding cell
/// that holds one.
#[derive(Debug)]
pub enum Value {
    /// An IEEE-754 binary64 number, by its bit pattern.
    Number(u64),
    Bool(bool),
    String(String),
    Null,
    Undefined,
    /// An interpreted function.
    Function(ClosureId),
    /// A host-native callable.
    JsFunction(Handle),
    /// A host-managed object, array or similar.
    Object(Handle),
    Symbol(Handle),
    BigInt(Handle),
}

/// The mathematical content of a [`Value`].
pub enum ValueView {
    Number(u64),
    Bool(bool),
    String(Seq<char>),
    Null,
    Undefined,
    Function(ClosureId),
    JsFunction(Handle),
    Object(Handle),
    Symbol(Handle),
    BigInt(Handle),
}

impl View for Value {
    type V = ValueView;

    open spec fn view(&self) -> ValueView {
        match self {
            Value::Number(bits) => ValueView::Number(*bits),
            Value::Bool(b) => ValueView::Bool(*b),
            Value::String(s) => ValueView::String(s@),
            Value::Null => ValueView::Null,
            Value::Undefined => ValueView::Undefined,
            Value::Function(id) => ValueView::Function(*id),
            Value::JsFunction(h) => ValueView::JsFunction(*h),
            Value::Object(h) => ValueView::Object(*h),
            Value::Symbol(h) => ValueView::Symbol(*h),
            Value::BigInt(h) => ValueView::BigInt(*h),
        }
    }
}

impl Clone for Value {
    fn clone(&self) -> (v: Value)
        ensures
            v == *self,
    {
        match self {
            Value::Number(bits) => Value::Number(*bits),
            Value::Bool(b) => Value::Bool(*b),
            Value::String(s) => Value::String(s.clone()),
            Value::Null => Value::Null,
            Value::Undefined => Value::Undefined,
            Value::Function(id) => Value::Function(*id),
            Value::JsFunction(h) => Value::JsFunction(*h),
            Value::Object(h) => Value::Object(*h),
            Value::Symbol(h) => Value::Symbol(*h),
            Value::BigInt(h) => Value::BigInt(*h),
        }
    }
}

/// Whether a value counts as true where a condition is asked for; `None`
/// where only the host can tell.
pub open spec fn truthiness(v: ValueView) -> Option<bool> {
    match v {
        ValueView::Bool(b) => Some(b),
        ValueView::Number(bits) => Some(truthy(bits)),
        ValueView::String(s) => Some(s.len() != 0),
        ValueView::Null => Some(false),
        ValueView::Undefined => Some(false),
        ValueView::BigInt(_) => None,
        _ => Some(true),
    }
}

/// How a value is shown as the result of an evaluation.
#[derive(Debug)]
pub enum Output {
    /// This text.
    Text(String),
    /// The text that the host renders for the value: a number in decimal, an
    /// object as its serialization, a function as its source.
    Host(Value),
}

/// The text that shows a value, where no host is needed for it.
pub open spec fn shown(v: ValueView) -> Option<Seq<char>> {
    match v {
        ValueView::Bool(b) => Some(if b { "true"@ } else { "false"@ }),
        ValueView::Null => Some("null"@),
        ValueView::Undefined => Some("undefined"@),
        ValueView::String(s) => Some(s),
        _ => None,
    }
}

impl Value {
    /// How the value is shown: booleans, `null`, `undefined` and strings as
    /// their text, and everything else as the host renders it.
    pub fn output(&self) -> (r: Output)
        ensures
            match shown(self@) {
                Some(text) => r matches Output::Text(t) && t@ == text,
                None => r matches Output::Host(v) && v == *self,
            },
    {
        match self {
            Value::Bool(b) => Output::Text(
                if *b {
                    "true".to_owned()
                } else {
                    "false".to_owned()
                },
            ),
            Value::Null => Output::Text("null".to_owned()),
            Value::Undefined => Output::Text("undefined".to_owned()),
            Value::String(s) => Output::Text(s.clone()),
            _ => Output::Host(self.clone()),
        }
    }

    /// Whether the value counts as true: `false`, zero, NaN, the empty
    /// string, `null` and `undefined` do not; of a big integer only the host
    /// can tell.
    pub fn is_truthy(&self) -> (r: Option<bool>)
        ensures
            r == truthiness(self@),
    {
        match self {
            Value::Bool(b) => Some(*b),
            Value::Number(bits) => Some(number_is_truthy(*bits)),
            Value::String(s) => Some(s.as_str().unicode_len() != 0),
            Value::Null => Some(false),
            Value::Undefined => Some(false),
            Value::BigInt(_) => None,
            _ => Some(true),
        }
    }

    /// Whether the value is the boolean `true`.
    pub fn is_true(&self) -> (r: bool)
        ensures
            r == (self@ == ValueView::Bool(true)),
    {
        match self {
            Value::Bool(b) => *b,
            _ => false,
        }
    }

    /// A string value with the given text.
    pub fn text(s: &str) -> (v: Value)
        ensures
            v@ == ValueView::String(s@),
    {
        Value::String(s.to_owned())
    }

    pub fn is_undefined(&self) -> (r: bool)
        ensures
            r == (self@ is Undefined),
    {
        match self {
            Value::Undefined => true,
            _ => false,
        }
    }

    /// Whether the value is a host-managed object.
    pub fn is_object(&self) -> (r: bool)
        ensures
            r == (self@ is Object),
    {
        match self {
            Value::Object(_) => true,
            _ => false,
        }
    }
}

/// An interpreted function: what a function expression or declaration
/// evaluates to.
#[derive(Debug)]
pub struct Function {
    /// The parameter names, in order.
    pub args: Vec<String>,
    /// The function of the program whose body is run on a call.
    pub body: FunctionId,
    /// The bindings visible where the function was defined.
    pub env: ClosedEnvironment,
    pub async_: bool,
    /// The natively invocable form; async functions have none.
    pub jsfunction: Option<Handle>,
    /// The object that `new` starts from.
    pub prototype: Option<Handle>,
}

impl Function {
    pub fn new(
        args: Vec<String>,
        body: FunctionId,
        env: ClosedEnvironment,
        async_: bool,
        jsfunction: Option<Handle>,
        prototype: Option<Handle>,
    ) -> (f: Function)
        ensures
            f.args == args,
            f.body == body,
            f.env == env,
            f.async_ == async_,
            f.jsfunction == jsfunction,
            f.prototype == prototype,
    {
        Function { args, body, env, async_, jsfunction, prototype }
    }

}

} // verus!
