//! The protocol between the evaluator and the host object system. The
//! evaluator never touches a host object: it asks the embedder to act on the
//! handles it was given, and goes on with the answer.

use vstd::prelude::*;
use crate::value::{Value, ValueView};

verus! {

/// An operation on two numbers that the host computes in IEEE-754 binary64
/// arithmetic. The six last ones first truncate both operands to 64-bit
/// integers.
#[derive(Clone, Copy, Debug, PartialEq, Eq, Structural)]
pub enum ArithOp {
    Add,
    Sub,
    Mul,
    Div,
    Mod,
    Exp,
    LShift,
    RShift,
    ZeroFillRShift,
    BitAnd,
    BitOr,
    BitXor,
}

/// The host constructors that `instanceof` can test against.
#[derive(Clone, Copy, Debug, PartialEq, Eq, Structural)]
pub enum HostClass {
    Boolean,
    Number,
    String,
    Object,
    Function,
}

/// What a property holds.
#[derive(Debug)]
pub enum Slot {
    Value(Value),
    Getter(Value),
    Setter(Value),
}

/// The attributes of a property.
#[derive(Clone, Copy, Debug, PartialEq, Eq, Structural)]
pub struct Flags {
    pub configurable: bool,
    pub enumerable: bool,
    /// Only meaningful for a value slot.
    pub writable: bool,
}

impl Flags {
    /// The attributes of a member of an object literal: configurable,
    /// enumerable and writable.
    pub open spec fn spec_literal() -> Flags {
        Flags { configurable: true, enumerable: true, writable: true }
    }

    /// The attributes of an accessor of an object literal: configurable and
    /// enumerable.
    pub open spec fn spec_accessor() -> Flags {
        Flags { configurable: true, enumerable: true, writable: false }
    }

    /// The attributes of a member of a class: enumerable and writable, but
    /// not configurable.
    pub open spec fn spec_member() -> Flags {
        Flags { configurable: false, enumerable: true, writable: true }
    }

    /// The attributes of the properties that tie a constructor and its
    /// prototype to each other: none.
    pub open spec fn spec_link() -> Flags {
        Flags { configurable: false, enumerable: false, writable: false }
    }

    /// The attributes of the global that names an imported module:
    /// configurable and enumerable, but not writable.
    pub open spec fn spec_module() -> Flags {
        Flags { configurable: true, enumerable: true, writable: false }
    }

    #[verifier::when_used_as_spec(spec_literal)]
    pub fn literal() -> (f: Flags)
        ensures
            f == Flags::spec_literal(),
    {
        Flags { configurable: true, enumerable: true, writable: true }
    }

    #[verifier::when_used_as_spec(spec_accessor)]
    pub fn accessor() -> (f: Flags)
        ensures
            f == Flags::spec_accessor(),
    {
        Flags { configurable: true, enumerable: true, writable: false }
    }

    #[verifier::when_used_as_spec(spec_member)]
    pub fn member() -> (f: Flags)
        ensures
            f == Flags::spec_member(),
    {
        Flags { configurable: false, enumerable: true, writable: true }
    }

    #[verifier::when_used_as_spec(spec_link)]
    pub fn link() -> (f: Flags)
        ensures
            f == Flags::spec_link(),
    {
        Flags { configurable: false, enumerable: false, writable: false }
    }

    #[verifier::when_used_as_spec(spec_module)]
    pub fn module() -> (f: Flags)
        ensures
            f == Flags::spec_module(),
    {
        Flags { configurable: true, enumerable: true, writable: false }
    }
}

/// A property definition.
#[derive(Debug)]
pub struct Descriptor {
    pub flags: Flags,
    pub slot: Slot,
}

/// A property to define on an object.
#[derive(Debug)]
pub struct Property {
    pub key: Value,
    pub descriptor: Descriptor,
}

/// A member to install while a class is assembled.
#[derive(Debug)]
pub struct ClassProperty {
    /// On the constructor (a static member) or on the prototype.
    pub on_constructor: bool,
    pub property: Property,
}

/// What stands for a free variable of a function body in the native form of
/// the function.
#[derive(Debug)]
pub enum Capture {
    /// The value that the captured cell held when the native form was made.
    Value(Value),
    /// A global name, which the host resolves through its own lookup.
    Global(String),
}

/// The mathematical content of a [`Capture`].
pub enum CaptureView {
    Value(ValueView),
    Global(Seq<char>),
}

impl View for Capture {
    type V = CaptureView;

    open spec fn view(&self) -> CaptureView {
        match self {
            Capture::Value(v) => CaptureView::Value(v@),
            Capture::Global(name) => CaptureView::Global(name@),
        }
    }
}

/// What the evaluator asks of the host.
#[derive(Debug)]
pub enum HostRequest {
    /// Compute `left op right` on numbers. Answer: the number.
    Arith { op: ArithOp, left: u64, right: u64 },
    /// Parse text as a decimal floating-point literal. Answer: the number, or
    /// [`Reply::Nothing`] where the text is none.
    ParseNumber(String),
    /// Coerce a value to a number as the host does. Answer: the number.
    ToNumber(Value),
    /// Coerce a value to a string as the host does. Answer: the string.
    ToText(Value),
    /// Render a value for a message. Answer: the string.
    Display(Value),
    /// Whether the host counts the value as true. Answer: a boolean.
    Truthy(Value),
    /// Whether two values are the same host object. Answer: a boolean.
    SameObject { left: Value, right: Value },
    /// Whether the object has the property. Answer: a boolean.
    HasProperty { object: Value, key: Value },
    /// Whether the value is an instance of the host constructor. Answer: a
    /// boolean.
    InstanceOf { value: Value, class: HostClass },
    /// Create an object with the given properties, defined in order. Answer:
    /// the object.
    CreateObject { prototype: Option<Value>, properties: Vec<Property> },
    /// Create an array of the given elements. Answer: the array.
    CreateArray(Vec<Value>),
    /// Create a regular expression. Answer: the object.
    CreateRegExp { exp: String, flags: String },
    /// Create an error object carrying the message. Answer: the object.
    CreateError(String),
    /// Create a promise resolved with the value. Answer: the promise.
    CreatePromise(Value),
    /// Make a shallow copy of the object's own enumerable properties. Answer:
    /// the copy.
    CopyObject(Value),
    /// Read a property. Answer: its value.
    GetProperty { object: Value, key: Value },
    /// Write a property. Answer: any value.
    SetProperty { object: Value, key: Value, value: Value },
    /// Delete a property. Answer: any value.
    DeleteProperty { object: Value, key: Value },
    /// The own enumerable keys of an object. Answer: [`Reply::Values`].
    Keys(Value),
    /// The own enumerable entries of an object. Answer: [`Reply::Entries`].
    Entries(Value),
    /// The elements of an array. Answer: [`Reply::Values`], or
    /// [`Reply::Nothing`] where the value is no array.
    Elements(Value),
    /// Everything that iterating the value yields. Answer: [`Reply::Values`].
    Iterate(Value),
    /// Obtain an iterator through the iteration protocol. Answer: the
    /// iterator.
    GetIterator(Value),
    /// Advance an iterator. Answer: the value yielded, or [`Reply::Nothing`]
    /// at exhaustion.
    IteratorNext(Value),
    /// Call a host function. Answer: what it returns.
    Apply { function: Value, this: Value, args: Vec<Value> },
    /// Construct through a host function. Answer: the new object.
    Construct { function: Value, args: Vec<Value> },
    /// Make a native function with the given parameter names and body, whose
    /// leading parameters stand for the captures, one per capture and in
    /// order. Answer: the function, which takes the remaining parameters.
    Compile { params: Vec<String>, captures: Vec<Capture>, body: String },
    /// Make a class of the constructor: give it a prototype object that
    /// inherits from the parent's prototype if there is a parent, install the
    /// members, and tie constructor and prototype to each other with
    /// properties of the attributes in `link`. The parent is a function: one
    /// of the host, or an interpreted one, whose prototype is that of its
    /// native form or, without one, the prototype that the closure holds.
    /// Answer: the constructor.
    AssembleClass {
        constructor: Value,
        parent: Option<Value>,
        members: Vec<ClassProperty>,
        link: Flags,
    },
    /// Wait until a promise-like object settles. Answer: what it resolved to.
    Await(Value),
    /// Load the module at the address. Answer: its namespace object.
    Import(String),
    /// Define a property of the host's own global object. Answer: any value.
    DefineGlobal { name: String, descriptor: Descriptor },
}

/// What the host answers.
#[derive(Debug)]
pub enum Reply {
    Value(Value),
    Values(Vec<Value>),
    Entries(Vec<(Value, Value)>),
    Nothing,
    /// The operation failed in the host, with this message.
    Error(String),
}

/// The host constructor that a value stands for on the right of `instanceof`.
pub open spec fn host_class_of(v: ValueView) -> Option<HostClass> {
    match v {
        ValueView::Bool(_) => Some(HostClass::Boolean),
        ValueView::Number(_) => Some(HostClass::Number),
        ValueView::String(_) => Some(HostClass::String),
        ValueView::Object(_) => Some(HostClass::Object),
        ValueView::JsFunction(_) => Some(HostClass::Function),
        _ => None,
    }
}

} // verus!
