//! Object literals, member access and construction.

use vstd::prelude::*;
use crate::ast::{Expr, ExprId, MemberProp, Program, Prop, PropName};
use crate::error::{ErrorKind, EvalError};
use crate::host::{Descriptor, Flags, HostRequest, Property, Slot};
use crate::evaluator::functions::{constructs, enters, function_begins};
use crate::evaluator::statements::decl::expr_at;
use crate::machine::{Action, CallState, Control, Delivery, Frame, Interpreter, ObjectState};
use crate::value::{ClosureId, Value, ValueView};

verus! {

/// How the key of a property is found.
pub enum KeyPlan {
    /// The key is known.
    Ready(Value),
    /// The key is the value of an expression.
    Eval(ExprId),
    /// The key is of a kind that is not supported.
    Unsupported,
}

/// The key that a property name stands for: an identifier or a string is the
/// string key of that text, a number the numeric key, a computed name the
/// value of its expression.
pub fn get_prop_name(prop_name: &PropName) -> (plan: KeyPlan)
    ensures
        match *prop_name {
            PropName::Ident(name) => plan matches KeyPlan::Ready(v) && v@ == ValueView::String(
                name@,
            ),
            PropName::Str(text) => plan matches KeyPlan::Ready(v) && v@ == ValueView::String(
                text@,
            ),
            PropName::Num(bits) => plan matches KeyPlan::Ready(v) && v@ == ValueView::Number(
                bits,
            ),
            PropName::Computed(expr) => plan matches KeyPlan::Eval(e) && e == expr,
            PropName::BigInt => plan is Unsupported,
        },
{
    match prop_name {
        PropName::Ident(name) => KeyPlan::Ready(Value::String(name.clone())),
        PropName::Str(text) => KeyPlan::Ready(Value::String(text.clone())),
        PropName::Num(bits) => KeyPlan::Ready(Value::Number(*bits)),
        PropName::Computed(expr) => KeyPlan::Eval(*expr),
        PropName::BigInt => KeyPlan::Unsupported,
    }
}

/// The kind of failure of reading a property from a value that has none:
/// a reference error on `undefined`, a type error on anything that is
/// neither a host object nor a host function.
pub open spec fn receiver_failure(v: ValueView) -> Option<ErrorKind> {
    match v {
        ValueView::Object(_) => None,
        ValueView::JsFunction(_) => None,
        ValueView::Undefined => Some(ErrorKind::Reference),
        _ => Some(ErrorKind::Type),
    }
}

/// Whether properties can be read from a value.
pub fn check_receiver(value: &Value) -> (r: Result<(), EvalError>)
    ensures
        match receiver_failure(value@) {
            None => r is Ok,
            Some(kind) => r is Err && r->Err_0.kind == kind,
        },
{
    match value {
        Value::Object(_) => Ok(()),
        Value::JsFunction(_) => Ok(()),
        Value::Undefined => Err(
            EvalError::with_text(ErrorKind::Reference, "ERROR: The object is not defined."),
        ),
        _ => Err(EvalError::with_text(ErrorKind::Type, "ERROR: The value is not an object.")),
    }
}

/// The property that a member of an object literal defines: a value under
/// the attributes of a literal's member, an accessor under those of an
/// accessor.
pub fn literal_property(key: Value, slot: Slot) -> (p: Property)
    ensures
        p.key == key,
        p.descriptor.slot == slot,
        p.descriptor.flags == (if slot is Value {
            Flags::literal()
        } else {
            Flags::accessor()
        }),
{
    let flags = match &slot {
        Slot::Value(_) => Flags::literal(),
        _ => Flags::accessor(),
    };
    Property { key, descriptor: Descriptor { flags, slot } }
}

/// Adds one plain property per entry, in order.
pub fn extend_with_entries(properties: &mut Vec<Property>, entries: &Vec<(Value, Value)>)
    ensures
        final(properties)@.len() == old(properties)@.len() + entries@.len(),
        forall|i: int|
            0 <= i < old(properties)@.len() ==> final(properties)@[i] == old(properties)@[i],
        forall|i: int|
            0 <= i < entries@.len() ==> {
                let p = #[trigger] final(properties)@[old(properties)@.len() + i];
                &&& p.key == entries@[i].0
                &&& p.descriptor.slot == Slot::Value(entries@[i].1)
                &&& p.descriptor.flags == Flags::literal()
            },
{
    let mut i: usize = 0;
    while i < entries.len()
        invariant
            i <= entries@.len(),
            properties@.len() == old(properties)@.len() + i,
            forall|j: int| 0 <= j < old(properties)@.len() ==> properties@[j] == old(properties)@[j],
            forall|j: int|
                0 <= j < i ==> {
                    let p = #[trigger] properties@[old(properties)@.len() + j];
                    &&& p.key == entries@[j].0
                    &&& p.descriptor.slot == Slot::Value(entries@[j].1)
                    &&& p.descriptor.flags == Flags::literal()
                },
        decreases entries@.len() - i,
    {
        let key = entries[i].0.clone();
        let value = entries[i].1.clone();
        properties.push(literal_property(key, Slot::Value(value)));
        i = i + 1;
    }
}

/// The request for a plain object that holds the given entries, in order.
pub fn create_object_from_entries(entries: Vec<(Value, Value)>) -> (request: HostRequest)
    ensures
        request matches HostRequest::CreateObject { prototype, properties } && {
            &&& prototype is None
            &&& properties@.len() == entries@.len()
            &&& forall|i: int|
                0 <= i < entries@.len() ==> {
                    let p = #[trigger] properties@[i];
                    &&& p.key == entries@[i].0
                    &&& p.descriptor.slot == Slot::Value(entries@[i].1)
                    &&& p.descriptor.flags == Flags::literal()
                }
        },
{
    let mut properties: Vec<Property> = Vec::new();
    extend_with_entries(&mut properties, &entries);
    assert forall|i: int| 0 <= i < entries@.len() implies {
        let p = #[trigger] properties@[i];
        &&& p.key == entries@[i].0
        &&& p.descriptor.slot == Slot::Value(entries@[i].1)
        &&& p.descriptor.flags == Flags::literal()
    } by {
        assert(properties@[0 + i] == properties@[i]);
    }
    HostRequest::CreateObject { prototype: None, properties }
}

/// How an object literal begins: no member is known yet.
pub open spec fn object_begins(
    node: ExprId,
    before: &Interpreter,
    after: &Interpreter,
    action: &Action,
) -> bool {
    &&& after.frames().len() == before.frames().len() + 1
    &&& after.frames().drop_last() == before.frames()
    &&& after.frames().last() matches Frame::ObjectProps(state)
    &&& state.node == node
    &&& state.next == 0
    &&& state.properties@.len() == 0
    &&& after.scopes() == before.scopes()
    &&& after.heap() == before.heap()
    &&& after.next() == Control::Deliver(Delivery::Nothing)
    &&& action is Continue
}

/// How a member access begins: with its object.
pub open spec fn member_begins(
    program: &Program,
    node: ExprId,
    before: &Interpreter,
    after: &Interpreter,
    action: &Action,
) -> bool {
    match expr_at(program, node) {
        Some(Expr::Member { obj, .. }) => {
            &&& after.pushed(before, Frame::MemberObject { node })
            &&& after.next() == Control::Expr(obj)
            &&& action is Continue
        },
        _ => after.raised(before, action, ErrorKind::Protocol),
    }
}

/// How the assignment of `value` to a member begins: with the member's
/// object.
pub open spec fn member_assignment_begins(
    program: &Program,
    node: ExprId,
    value: Value,
    before: &Interpreter,
    after: &Interpreter,
    action: &Action,
) -> bool {
    match expr_at(program, node) {
        Some(Expr::Member { obj, .. }) => {
            &&& after.pushed(before, Frame::AssignMemberObject { node, value })
            &&& after.next() == Control::Expr(obj)
            &&& action is Continue
        },
        _ => after.raised(before, action, ErrorKind::Protocol),
    }
}

/// How a construction begins: with its callee.
pub open spec fn new_begins(
    program: &Program,
    node: ExprId,
    before: &Interpreter,
    after: &Interpreter,
    action: &Action,
) -> bool {
    match expr_at(program, node) {
        Some(Expr::New { callee, .. }) => {
            &&& after.pushed(before, Frame::NewCallee { node })
            &&& after.next() == Control::Expr(callee)
            &&& action is Continue
        },
        _ => after.raised(before, action, ErrorKind::Protocol),
    }
}

/// What it means to construct through `callee`. An interpreted function
/// takes exactly as many arguments as it declares parameters; the host then
/// makes the object that will be `this`, with the function's prototype. A
/// host function is constructed by the host. Anything else is no function.
pub open spec fn constructing(
    before: &Interpreter,
    after: &Interpreter,
    action: &Action,
    callee: Value,
    args: Seq<Value>,
) -> bool {
    match callee@ {
        ValueView::Function(closure) => if closure >= before.heap().closure_count() {
            after.raised(before, action, ErrorKind::Protocol)
        } else if before.heap().spec_closure(closure as int).args@.len() != args.len() {
            after.raised(before, action, ErrorKind::Arity)
        } else {
            &&& after.frames().len() == before.frames().len() + 1
            &&& after.frames().drop_last() == before.frames()
            &&& after.frames().last() matches Frame::NewThis { closure: c, args: kept }
            &&& c == closure
            &&& kept@ == args
            &&& after.scopes() == before.scopes()
            &&& after.heap() == before.heap()
            &&& after.next() is Waiting
            &&& action matches Action::Request(HostRequest::CreateObject { prototype, properties })
            &&& properties@.len() == 0
            &&& match before.heap().spec_closure(closure as int).prototype {
                Some(handle) => prototype == Some(Value::Object(handle)),
                None => prototype is None,
            }
        },
        ValueView::JsFunction(_) => {
            &&& after.keeps(before)
            &&& after.next() is Waiting
            &&& action matches Action::Request(HostRequest::Construct { function, args: given })
            &&& function == callee
            &&& given@ == args
        },
        _ => after.raised(before, action, ErrorKind::Type),
    }
}

/// How a construction goes on with its arguments: the next argument is
/// evaluated, from left to right; when all are known, or where there is no
/// argument list, the object is constructed.
pub open spec fn new_goes_on(
    program: &Program,
    node: ExprId,
    next: usize,
    callee: Value,
    args: Seq<Value>,
    before: &Interpreter,
    after: &Interpreter,
    action: &Action,
) -> bool {
    match expr_at(program, node) {
        Some(Expr::New { args: Some(list), .. }) => if next < list@.len() {
            &&& after.frames().len() == before.frames().len() + 1
            &&& after.frames().drop_last() == before.frames()
            &&& after.frames().last() matches Frame::NewArgs(state)
            &&& state.node == node
            &&& state.next == next + 1
            &&& state.callee == callee
            &&& state.args@ == args
            &&& after.scopes() == before.scopes()
            &&& after.heap() == before.heap()
            &&& after.next() == Control::Expr(list@[next as int].expr)
            &&& action is Continue
        } else {
            constructing(before, after, action, callee, args)
        },
        Some(Expr::New { args: None, .. }) => constructing(before, after, action, callee, args),
        _ => after.raised(before, action, ErrorKind::Protocol),
    }
}

/// The members of an object literal.
pub open spec fn props_at(program: &Program, node: ExprId) -> Option<Vec<Prop>> {
    match expr_at(program, node) {
        Some(Expr::Object(props)) => Some(props),
        _ => None,
    }
}

/// A member of an object literal was noted: the properties known grew by
/// one, with the attributes that the kind of its slot asks for.
pub open spec fn noted(
    before: &Interpreter,
    after: &Interpreter,
    action: &Action,
    state: ObjectState,
    key: Value,
    slot: Slot,
) -> bool {
    &&& after.frames().len() == before.frames().len() + 1
    &&& after.frames().drop_last() == before.frames()
    &&& after.frames().last() matches Frame::ObjectProps(kept)
    &&& kept.node == state.node
    &&& kept.next == state.next
    &&& kept.properties@.len() == state.properties@.len() + 1
    &&& kept.properties@.drop_last() == state.properties@
    &&& kept.properties@.last().key == key
    &&& kept.properties@.last().descriptor.slot == slot
    &&& kept.properties@.last().descriptor.flags == (if slot is Value {
        Flags::literal()
    } else {
        Flags::accessor()
    })
    &&& after.scopes() == before.scopes()
    &&& after.heap() == before.heap()
    &&& after.next() == Control::Deliver(Delivery::Nothing)
    &&& action is Continue
}

/// As [`noted`], for a key known by its content.
pub open spec fn noted_view(
    before: &Interpreter,
    after: &Interpreter,
    action: &Action,
    state: ObjectState,
    key: ValueView,
    slot: Slot,
) -> bool {
    &&& after.frames().len() == before.frames().len() + 1
    &&& after.frames().drop_last() == before.frames()
    &&& after.frames().last() matches Frame::ObjectProps(kept)
    &&& kept.node == state.node
    &&& kept.next == state.next
    &&& kept.properties@.len() == state.properties@.len() + 1
    &&& kept.properties@.drop_last() == state.properties@
    &&& kept.properties@.last().key@ == key
    &&& kept.properties@.last().descriptor.slot == slot
    &&& kept.properties@.last().descriptor.flags == (if slot is Value {
        Flags::literal()
    } else {
        Flags::accessor()
    })
    &&& after.scopes() == before.scopes()
    &&& after.heap() == before.heap()
    &&& after.next() == Control::Deliver(Delivery::Nothing)
    &&& action is Continue
}

/// A member of an object literal has its value: a key that is known is
/// noted with it; a computed key is evaluated first; a big integer is no
/// key.
pub open spec fn keyed(
    before: &Interpreter,
    after: &Interpreter,
    action: &Action,
    state: ObjectState,
    key: PropName,
    slot: Slot,
) -> bool {
    match key {
        PropName::Ident(name) => noted_view(
            before,
            after,
            action,
            state,
            ValueView::String(name@),
            slot,
        ),
        PropName::Str(text) => noted_view(
            before,
            after,
            action,
            state,
            ValueView::String(text@),
            slot,
        ),
        PropName::Num(bits) => noted_view(
            before,
            after,
            action,
            state,
            ValueView::Number(bits),
            slot,
        ),
        PropName::Computed(expr) => {
            &&& after.pushed(before, Frame::ObjectKey { state, slot })
            &&& after.next() == Control::Expr(expr)
            &&& action is Continue
        },
        PropName::BigInt => after.raised(before, action, ErrorKind::Syntax),
    }
}

/// How an object literal goes on with its next member: each member first
/// gives its value; when all members are known the host creates the object
/// with the properties noted, in order.
pub open spec fn object_goes_on(
    program: &Program,
    state: ObjectState,
    before: &Interpreter,
    after: &Interpreter,
    action: &Action,
) -> bool {
    match props_at(program, state.node) {
        None => after.raised(before, action, ErrorKind::Protocol),
        Some(props) => if state.next >= props@.len() {
            &&& after.keeps(before)
            &&& after.next() is Waiting
            &&& action matches Action::Request(
                HostRequest::CreateObject { prototype, properties },
            )
            &&& prototype is None
            &&& properties == state.properties
        } else {
            let next = ObjectState { next: (state.next + 1) as usize, ..state };
            match props@[state.next as int] {
                Prop::Shorthand(name) => crate::evaluator::expressions::reads(
                    before,
                    before.frames().push(Frame::ObjectValue(next)),
                    after,
                    action,
                    name@,
                ),
                Prop::KeyValue { value, .. } => {
                    &&& after.pushed(before, Frame::ObjectValue(next))
                    &&& after.next() == Control::Expr(value)
                    &&& action is Continue
                },
                Prop::Assign { value, .. } => {
                    &&& after.pushed(before, Frame::ObjectValue(next))
                    &&& after.next() == Control::Expr(value)
                    &&& action is Continue
                },
                Prop::Method { function, .. } => function_begins(
                    program,
                    function,
                    None,
                    before.frames().push(Frame::ObjectValue(next)),
                    before,
                    after,
                    action,
                ),
                Prop::Getter { function, .. } => function_begins(
                    program,
                    function,
                    None,
                    before.frames().push(Frame::ObjectValue(next)),
                    before,
                    after,
                    action,
                ),
                Prop::Setter { function, .. } => function_begins(
                    program,
                    function,
                    None,
                    before.frames().push(Frame::ObjectValue(next)),
                    before,
                    after,
                    action,
                ),
                Prop::Spread(source) => {
                    &&& after.pushed(before, Frame::ObjectSpread(next))
                    &&& after.next() == Control::Expr(source)
                    &&& action is Continue
                },
            }
        },
    }
}

/// What the frame does with a delivery; see [`Interpreter::on_object_props`].
pub open spec fn object_props_takes(
    program: &Program,
    state: ObjectState,
    delivery: Delivery,
    before: &Interpreter,
    after: &Interpreter,
    action: &Action,
) -> bool {
    match delivery {
        Delivery::Nothing => object_goes_on(program, state, before, after, action),
        _ => after.raised(before, action, ErrorKind::Protocol),
    }
}

/// What the frame does with a delivery; see [`Interpreter::on_object_value`].
pub open spec fn object_value_takes(
    program: &Program,
    state: ObjectState,
    delivery: Delivery,
    before: &Interpreter,
    after: &Interpreter,
    action: &Action,
) -> bool {
    match delivery {
        Delivery::Value(value) => match props_at(program, state.node) {
            None => after.raised(before, action, ErrorKind::Protocol),
            Some(props) => if state.next == 0 || state.next > props@.len() {
                after.raised(before, action, ErrorKind::Protocol)
            } else {
                match props@[state.next - 1] {
                    Prop::Shorthand(name) => noted_view(
                        before,
                        after,
                        action,
                        state,
                        ValueView::String(name@),
                        Slot::Value(value),
                    ),
                    Prop::Assign { key, .. } => noted_view(
                        before,
                        after,
                        action,
                        state,
                        ValueView::String(key@),
                        Slot::Value(value),
                    ),
                    Prop::KeyValue { key, .. } => keyed(
                        before,
                        after,
                        action,
                        state,
                        key,
                        Slot::Value(value),
                    ),
                    Prop::Method { key, .. } => keyed(
                        before,
                        after,
                        action,
                        state,
                        key,
                        Slot::Value(value),
                    ),
                    Prop::Getter { key, .. } => keyed(
                        before,
                        after,
                        action,
                        state,
                        key,
                        Slot::Getter(value),
                    ),
                    Prop::Setter { key, .. } => keyed(
                        before,
                        after,
                        action,
                        state,
                        key,
                        Slot::Setter(value),
                    ),
                    Prop::Spread(_) => after.raised(
                        before,
                        action,
                        ErrorKind::Protocol,
                    ),
                }
            },
        },
        _ => after.raised(before, action, ErrorKind::Protocol),
    }
}

/// What the frame does with a delivery; see [`Interpreter::on_object_key`].
pub open spec fn object_key_takes(
    state: ObjectState,
    slot: Slot,
    delivery: Delivery,
    before: &Interpreter,
    after: &Interpreter,
    action: &Action,
) -> bool {
    match delivery {
        Delivery::Value(key) => noted(before, after, action, state, key, slot),
        _ => after.raised(before, action, ErrorKind::Protocol),
    }
}

/// What the frame does with a delivery; see [`Interpreter::on_object_spread`].
pub open spec fn object_spread_takes(
    state: ObjectState,
    delivery: Delivery,
    before: &Interpreter,
    after: &Interpreter,
    action: &Action,
) -> bool {
    match delivery {
        Delivery::Value(source) => if source@ is Object {
            &&& after.pushed(before, Frame::ObjectEntries(state))
            &&& after.next() is Waiting
            &&& action == Action::Request(HostRequest::Entries(source))
        } else {
            after.raised(before, action, ErrorKind::Type)
        },
        _ => after.raised(before, action, ErrorKind::Protocol),
    }
}

/// What the frame does with a delivery; see [`Interpreter::on_object_entries`].
pub open spec fn object_entries_takes(
    state: ObjectState,
    delivery: Delivery,
    before: &Interpreter,
    after: &Interpreter,
    action: &Action,
) -> bool {
    match delivery {
        Delivery::Entries(entries) => {
            &&& after.frames().len() == before.frames().len() + 1
            &&& after.frames().drop_last() == before.frames()
            &&& after.frames().last() matches Frame::ObjectProps(kept)
            &&& kept.node == state.node
            &&& kept.next == state.next
            &&& kept.properties@.len() == state.properties@.len() + entries@.len()
            &&& forall|i: int|
                0 <= i < state.properties@.len() ==> kept.properties@[i]
                    == state.properties@[i]
            &&& forall|i: int|
                0 <= i < entries@.len() ==> {
                    let p = #[trigger] kept.properties@[state.properties@.len() + i];
                    &&& p.key == entries@[i].0
                    &&& p.descriptor.slot == Slot::Value(entries@[i].1)
                    &&& p.descriptor.flags == Flags::literal()
                }
            &&& after.scopes() == before.scopes()
            &&& after.heap() == before.heap()
            &&& after.next() == Control::Deliver(Delivery::Nothing)
            &&& action is Continue
        },
        _ => after.raised(before, action, ErrorKind::Protocol),
    }
}

/// What the frame does with a delivery; see [`Interpreter::on_member_object`].
pub open spec fn member_object_takes(
    program: &Program,
    node: ExprId,
    delivery: Delivery,
    before: &Interpreter,
    after: &Interpreter,
    action: &Action,
) -> bool {
    match delivery {
        Delivery::Value(object) => match receiver_failure(object@) {
            Some(kind) => after.raised(before, action, kind),
            None => match expr_at(program, node) {
                Some(Expr::Member { prop, .. }) => match prop {
                    MemberProp::Ident(name) => {
                        &&& after.keeps(before)
                        &&& after.next() is Waiting
                        &&& action matches Action::Request(
                            HostRequest::GetProperty { object: o, key },
                        )
                        &&& o == object
                        &&& key@ == ValueView::String(name@)
                    },
                    MemberProp::Computed(expr) => {
                        &&& after.pushed(before, Frame::MemberKey { object })
                        &&& after.next() == Control::Expr(expr)
                        &&& action is Continue
                    },
                    MemberProp::Private => after.raised(
                        before,
                        action,
                        ErrorKind::Syntax,
                    ),
                },
                _ => after.raised(before, action, ErrorKind::Protocol),
            },
        },
        _ => after.raised(before, action, ErrorKind::Protocol),
    }
}

/// What the frame does with a delivery; see [`Interpreter::on_member_key`].
pub open spec fn member_key_takes(
    object: Value,
    delivery: Delivery,
    before: &Interpreter,
    after: &Interpreter,
    action: &Action,
) -> bool {
    match delivery {
        Delivery::Value(key) => after.asked(
            before,
            action,
            HostRequest::GetProperty { object, key },
        ),
        _ => after.raised(before, action, ErrorKind::Protocol),
    }
}

/// What the frame does with a delivery; see [`Interpreter::on_assign_member_object`].
pub open spec fn assign_member_object_takes(
    program: &Program,
    node: ExprId,
    value: Value,
    delivery: Delivery,
    before: &Interpreter,
    after: &Interpreter,
    action: &Action,
) -> bool {
    match delivery {
        Delivery::Value(object) => match expr_at(program, node) {
            Some(Expr::Member { prop, .. }) => match prop {
                MemberProp::Ident(name) => {
                    &&& after.pushed(before, Frame::Replace { value })
                    &&& after.next() is Waiting
                    &&& action matches Action::Request(
                        HostRequest::SetProperty { object: o, key, value: v },
                    )
                    &&& o == object
                    &&& key@ == ValueView::String(name@)
                    &&& v == value
                },
                MemberProp::Computed(expr) => {
                    &&& after.pushed(
                        before,
                        Frame::AssignMemberKey { object, value },
                    )
                    &&& after.next() == Control::Expr(expr)
                    &&& action is Continue
                },
                MemberProp::Private => after.raised(
                    before,
                    action,
                    ErrorKind::Syntax,
                ),
            },
            _ => after.raised(before, action, ErrorKind::Protocol),
        },
        _ => after.raised(before, action, ErrorKind::Protocol),
    }
}

/// What the frame does with a delivery; see [`Interpreter::on_assign_member_key`].
pub open spec fn assign_member_key_takes(
    object: Value,
    value: Value,
    delivery: Delivery,
    before: &Interpreter,
    after: &Interpreter,
    action: &Action,
) -> bool {
    match delivery {
        Delivery::Value(key) => {
            &&& after.pushed(before, Frame::Replace { value })
            &&& after.next() is Waiting
            &&& action == Action::Request(HostRequest::SetProperty { object, key, value })
        },
        _ => after.raised(before, action, ErrorKind::Protocol),
    }
}

/// What the frame does with a delivery; see [`Interpreter::on_new_callee`].
pub open spec fn new_callee_takes(
    program: &Program,
    node: ExprId,
    delivery: Delivery,
    before: &Interpreter,
    after: &Interpreter,
    action: &Action,
) -> bool {
    match delivery {
        Delivery::Value(callee) => new_goes_on(
            program,
            node,
            0,
            callee,
            Seq::empty(),
            before,
            after,
            action,
        ),
        _ => after.raised(before, action, ErrorKind::Protocol),
    }
}

/// What the frame does with a delivery; see [`Interpreter::on_new_args`].
pub open spec fn new_args_takes(
    program: &Program,
    state: CallState,
    delivery: Delivery,
    before: &Interpreter,
    after: &Interpreter,
    action: &Action,
) -> bool {
    match delivery {
        Delivery::Value(value) => new_goes_on(
            program,
            state.node,
            state.next,
            state.callee,
            state.args@.push(value),
            before,
            after,
            action,
        ),
        _ => after.raised(before, action, ErrorKind::Protocol),
    }
}

/// What the frame does with a delivery; see [`Interpreter::on_new_this`].
pub open spec fn new_this_takes(
    program: &Program,
    closure: ClosureId,
    args: Vec<Value>,
    delivery: Delivery,
    before: &Interpreter,
    after: &Interpreter,
    action: &Action,
) -> bool {
    match delivery {
        Delivery::Value(this) => enters(
            program,
            before,
            after,
            action,
            closure,
            this@,
            crate::evaluator::functions::views(args@),
            None,
        ),
        _ => after.raised(before, action, ErrorKind::Protocol),
    }
}

impl Interpreter {
    /// Begins an object literal.
    pub fn eval_obj_lit_expr(&mut self, program: &Program, node: ExprId) -> (action: Action)
        requires
            old(self).inv(),
            !old(self).is_idle(),
        ensures
            final(self).stepped(old(self), &action),
            object_begins(node, old(self), final(self), &action),
    {
        self.push_frame(
            Frame::ObjectProps(ObjectState { node, next: 0, properties: Vec::new() }),
        );
        self.tick()
    }

    /// Goes on with the next member of an object literal. Each member first
    /// gives its value and then its key; when all are known the host creates
    /// the object.
    pub(crate) fn object_member(&mut self, program: &Program, state: ObjectState) -> (action:
        Action)
        requires
            old(self).inv(),
            !old(self).is_idle(),
        ensures
            final(self).stepped(old(self), &action),
            object_goes_on(program, state, old(self), final(self), &action),
    {
        let props = match program.expr(state.node) {
            Some(Expr::Object(props)) => props,
            _ => {
                return self.broken();
            },
        };
        let index = state.next;
        if index >= props.len() {
            return self.ask(
                HostRequest::CreateObject { prototype: None, properties: state.properties },
            );
        }
        let mut state = state;
        state.next = index + 1;
        match &props[index] {
            Prop::Shorthand(name) => {
                self.push_frame(Frame::ObjectValue(state));
                self.read_variable(name.as_str())
            },
            Prop::KeyValue { value, .. } => {
                self.push_frame(Frame::ObjectValue(state));
                self.go_expr(*value)
            },
            Prop::Assign { value, .. } => {
                self.push_frame(Frame::ObjectValue(state));
                self.go_expr(*value)
            },
            Prop::Method { function, .. } => {
                self.push_frame(Frame::ObjectValue(state));
                self.function_declaration(program, *function, None)
            },
            Prop::Getter { function, .. } => {
                self.push_frame(Frame::ObjectValue(state));
                self.function_declaration(program, *function, None)
            },
            Prop::Setter { function, .. } => {
                self.push_frame(Frame::ObjectValue(state));
                self.function_declaration(program, *function, None)
            },
            Prop::Spread(source) => {
                self.push_frame(Frame::ObjectSpread(state));
                self.go_expr(*source)
            },
        }
    }

    /// An object literal takes its next turn.
    pub(crate) fn on_object_props(
        &mut self,
        program: &Program,
        state: ObjectState,
        delivery: Delivery,
    ) -> (action: Action)
        requires
            old(self).inv(),
            !old(self).is_idle(),
        ensures
            final(self).stepped(old(self), &action),
            object_props_takes(program, state, delivery, old(self), final(self), &action),
    {
        match delivery {
            Delivery::Nothing => self.object_member(program, state),
            _ => self.broken(),
        }
    }

    /// The value of a member of an object literal is known; its key is next.
    pub(crate) fn on_object_value(
        &mut self,
        program: &Program,
        state: ObjectState,
        delivery: Delivery,
    ) -> (action: Action)
        requires
            old(self).inv(),
            !old(self).is_idle(),
        ensures
            final(self).stepped(old(self), &action),
            object_value_takes(program, state, delivery, old(self), final(self), &action),
    {
        let value = match delivery.into_value() {
            Some(value) => value,
            None => {
                return self.broken();
            },
        };
        let props = match program.expr(state.node) {
            Some(Expr::Object(props)) => props,
            _ => {
                return self.broken();
            },
        };
        if state.next == 0 || state.next > props.len() {
            return self.broken();
        }
        let (plan, slot) = match &props[state.next - 1] {
            Prop::Shorthand(name) => (
                KeyPlan::Ready(Value::String(name.clone())),
                Slot::Value(value),
            ),
            Prop::Assign { key, .. } => (
                KeyPlan::Ready(Value::String(key.clone())),
                Slot::Value(value),
            ),
            Prop::KeyValue { key, .. } => (get_prop_name(key), Slot::Value(value)),
            Prop::Method { key, .. } => (get_prop_name(key), Slot::Value(value)),
            Prop::Getter { key, .. } => (get_prop_name(key), Slot::Getter(value)),
            Prop::Setter { key, .. } => (get_prop_name(key), Slot::Setter(value)),
            Prop::Spread(_) => {
                return self.broken();
            },
        };
        match plan {
            KeyPlan::Ready(key) => self.object_define(state, key, slot),
            KeyPlan::Eval(expr) => {
                self.push_frame(Frame::ObjectKey { state, slot });
                self.go_expr(expr)
            },
            KeyPlan::Unsupported => self.fail_with(
                ErrorKind::Syntax,
                "BigInt not supported as property name.",
            ),
        }
    }

    /// Notes a member of an object literal and goes on with the next.
    pub(crate) fn object_define(&mut self, state: ObjectState, key: Value, slot: Slot) -> (action:
        Action)
        requires
            old(self).inv(),
            !old(self).is_idle(),
        ensures
            final(self).stepped(old(self), &action),
            noted(old(self), final(self), &action, state, key, slot),
    {
        let ghost known = state.properties@;
        let mut state = state;
        state.properties.push(literal_property(key, slot));
        assert(state.properties@.drop_last() =~= known);
        self.push_frame(Frame::ObjectProps(state));
        self.tick()
    }

    /// The computed key of a member of an object literal is known.
    pub(crate) fn on_object_key(
        &mut self,
        state: ObjectState,
        slot: Slot,
        delivery: Delivery,
    ) -> (action: Action)
        requires
            old(self).inv(),
            !old(self).is_idle(),
        ensures
            final(self).stepped(old(self), &action),
            object_key_takes(state, slot, delivery, old(self), final(self), &action),
    {
        match delivery {
            Delivery::Value(key) => self.object_define(state, key, slot),
            _ => self.broken(),
        }
    }

    /// The source of a spread in an object literal is known: it must be an
    /// object, whose entries the host lists.
    pub(crate) fn on_object_spread(&mut self, state: ObjectState, delivery: Delivery) -> (action:
        Action)
        requires
            old(self).inv(),
            !old(self).is_idle(),
        ensures
            final(self).stepped(old(self), &action),
            object_spread_takes(state, delivery, old(self), final(self), &action),
    {
        match delivery {
            Delivery::Value(source) => {
                if source.is_object() {
                    self.push_frame(Frame::ObjectEntries(state));
                    self.ask(HostRequest::Entries(source))
                } else {
                    self.fail_with(
                        ErrorKind::Type,
                        "ERROR: Spread operator not supported for this value.",
                    )
                }
            },
            _ => self.broken(),
        }
    }

    /// The host listed the entries of the source of a spread: each becomes a
    /// plain member of the literal, in order.
    pub(crate) fn on_object_entries(&mut self, state: ObjectState, delivery: Delivery) -> (action:
        Action)
        requires
            old(self).inv(),
            !old(self).is_idle(),
        ensures
            final(self).stepped(old(self), &action),
            object_entries_takes(state, delivery, old(self), final(self), &action),
    {
        match delivery {
            Delivery::Entries(entries) => {
                let mut state = state;
                extend_with_entries(&mut state.properties, &entries);
                self.push_frame(Frame::ObjectProps(state));
                self.tick()
            },
            _ => self.broken(),
        }
    }

    /// Begins a member access: the object is evaluated first.
    pub fn eval_member_expr(&mut self, program: &Program, node: ExprId) -> (action: Action)
        requires
            old(self).inv(),
            !old(self).is_idle(),
        ensures
            final(self).stepped(old(self), &action),
            member_begins(program, node, old(self), final(self), &action),
    {
        match program.expr(node) {
            Some(Expr::Member { obj, .. }) => {
                self.push_frame(Frame::MemberObject { node });
                self.go_expr(*obj)
            },
            _ => self.broken(),
        }
    }

    /// The object of a member access is known. Reading from `undefined` is a
    /// reference error, reading from anything else that is no host object or
    /// function a type error; otherwise the host reads the property.
    pub(crate) fn on_member_object(
        &mut self,
        program: &Program,
        node: ExprId,
        delivery: Delivery,
    ) -> (action: Action)
        requires
            old(self).inv(),
            !old(self).is_idle(),
        ensures
            final(self).stepped(old(self), &action),
            member_object_takes(program, node, delivery, old(self), final(self), &action),
    {
        let object = match delivery.into_value() {
            Some(value) => value,
            None => {
                return self.broken();
            },
        };
        match check_receiver(&object) {
            Ok(()) => {},
            Err(error) => {
                return self.fail(error);
            },
        }
        match program.expr(node) {
            Some(Expr::Member { prop, .. }) => match prop {
                MemberProp::Ident(name) => self.ask(
                    HostRequest::GetProperty { object, key: Value::String(name.clone()) },
                ),
                MemberProp::Computed(expr) => {
                    self.push_frame(Frame::MemberKey { object });
                    self.go_expr(*expr)
                },
                MemberProp::Private => self.fail_with(
                    ErrorKind::Syntax,
                    "ERROR: Private member expression could not be evaluated.",
                ),
            },
            _ => self.broken(),
        }
    }

    /// The computed key of a member access is known: the host reads the
    /// property.
    pub(crate) fn on_member_key(&mut self, object: Value, delivery: Delivery) -> (action: Action)
        requires
            old(self).inv(),
            !old(self).is_idle(),
        ensures
            final(self).stepped(old(self), &action),
            member_key_takes(object, delivery, old(self), final(self), &action),
    {
        match delivery {
            Delivery::Value(key) => self.ask(HostRequest::GetProperty { object, key }),
            _ => self.broken(),
        }
    }

    /// Begins the assignment of `value` to a member: the object is evaluated
    /// first. The assignment evaluates to `value`.
    pub fn assign_member_expr(&mut self, program: &Program, node: ExprId, value: Value) -> (action:
        Action)
        requires
            old(self).inv(),
            !old(self).is_idle(),
        ensures
            final(self).stepped(old(self), &action),
            member_assignment_begins(program, node, value, old(self), final(self), &action),
    {
        match program.expr(node) {
            Some(Expr::Member { obj, .. }) => {
                self.push_frame(Frame::AssignMemberObject { node, value });
                self.go_expr(*obj)
            },
            _ => self.broken(),
        }
    }

    /// The object of a member assignment is known: the host writes the
    /// property, and the assignment evaluates to the value written.
    pub(crate) fn on_assign_member_object(
        &mut self,
        program: &Program,
        node: ExprId,
        value: Value,
        delivery: Delivery,
    ) -> (action: Action)
        requires
            old(self).inv(),
            !old(self).is_idle(),
        ensures
            final(self).stepped(old(self), &action),
            assign_member_object_takes(
                program,
                node,
                value,
                delivery,
                old(self),
                final(self),
                &action,
            ),
    {
        let object = match delivery.into_value() {
            Some(object) => object,
            None => {
                return self.broken();
            },
        };
        match program.expr(node) {
            Some(Expr::Member { prop, .. }) => match prop {
                MemberProp::Ident(name) => {
                    self.push_frame(Frame::Replace { value: value.clone() });
                    self.ask(
                        HostRequest::SetProperty {
                            object,
                            key: Value::String(name.clone()),
                            value,
                        },
                    )
                },
                MemberProp::Computed(expr) => {
                    self.push_frame(Frame::AssignMemberKey { object, value });
                    self.go_expr(*expr)
                },
                MemberProp::Private => self.fail_with(
                    ErrorKind::Syntax,
                    "ERROR: Private member expression could not be evaluated.",
                ),
            },
            _ => self.broken(),
        }
    }

    pub(crate) fn on_assign_member_key(
        &mut self,
        object: Value,
        value: Value,
        delivery: Delivery,
    ) -> (action: Action)
        requires
            old(self).inv(),
            !old(self).is_idle(),
        ensures
            final(self).stepped(old(self), &action),
            assign_member_key_takes(object, value, delivery, old(self), final(self), &action),
    {
        match delivery {
            Delivery::Value(key) => {
                self.push_frame(Frame::Replace { value: value.clone() });
                self.ask(HostRequest::SetProperty { object, key, value })
            },
            _ => self.broken(),
        }
    }

    /// Begins a construction: the callee is evaluated first, then the
    /// arguments from left to right.
    pub fn eval_new_expr(&mut self, program: &Program, node: ExprId) -> (action: Action)
        requires
            old(self).inv(),
            !old(self).is_idle(),
        ensures
            final(self).stepped(old(self), &action),
            new_begins(program, node, old(self), final(self), &action),
    {
        match program.expr(node) {
            Some(Expr::New { callee, .. }) => {
                self.push_frame(Frame::NewCallee { node });
                self.go_expr(*callee)
            },
            _ => self.broken(),
        }
    }

    /// The callee of a construction is known. The arguments are next.
    pub(crate) fn on_new_callee(
        &mut self,
        program: &Program,
        node: ExprId,
        delivery: Delivery,
    ) -> (action: Action)
        requires
            old(self).inv(),
            !old(self).is_idle(),
        ensures
            final(self).stepped(old(self), &action),
            new_callee_takes(program, node, delivery, old(self), final(self), &action),
    {
        match delivery {
            Delivery::Value(callee) => self.new_argument(
                program,
                CallState { node, next: 0, callee, this: Value::Undefined, args: Vec::new() },
            ),
            _ => self.broken(),
        }
    }

    /// Goes on with the next argument of a construction.
    pub(crate) fn new_argument(&mut self, program: &Program, state: CallState) -> (action: Action)
        requires
            old(self).inv(),
            !old(self).is_idle(),
        ensures
            final(self).stepped(old(self), &action),
            new_goes_on(
                program,
                state.node,
                state.next,
                state.callee,
                state.args@,
                old(self),
                final(self),
                &action,
            ),
    {
        let list = match program.expr(state.node) {
            Some(Expr::New { args, .. }) => args,
            _ => {
                return self.broken();
            },
        };
        match list {
            Some(list) => {
                let index = state.next;
                if index < list.len() {
                    let expr = list[index].expr;
                    let mut state = state;
                    state.next = index + 1;
                    self.push_frame(Frame::NewArgs(state));
                    self.go_expr(expr)
                } else {
                    self.construct(state.callee, state.args)
                }
            },
            None => self.construct(state.callee, state.args),
        }
    }

    /// An argument of a construction is known.
    pub(crate) fn on_new_args(
        &mut self,
        program: &Program,
        state: CallState,
        delivery: Delivery,
    ) -> (action: Action)
        requires
            old(self).inv(),
            !old(self).is_idle(),
        ensures
            final(self).stepped(old(self), &action),
            new_args_takes(program, state, delivery, old(self), final(self), &action),
    {
        match delivery {
            Delivery::Value(value) => {
                let mut state = state;
                state.args.push(value);
                self.new_argument(program, state)
            },
            _ => self.broken(),
        }
    }

    /// Constructs through `callee`. An interpreted function takes exactly as
    /// many arguments as it declares parameters, and runs with a new object
    /// as `this` whose prototype is the function's; a host function is
    /// constructed by the host; anything else is no function.
    pub(crate) fn construct(&mut self, callee: Value, args: Vec<Value>) -> (action: Action)
        requires
            old(self).inv(),
            !old(self).is_idle(),
        ensures
            final(self).stepped(old(self), &action),
            constructing(old(self), final(self), &action, callee, args@),
    {
        match callee {
            Value::Function(closure) => {
                let (parameters, prototype) = match self.store().closure(closure) {
                    Some(function) => (function.args.len(), function.prototype),
                    None => {
                        return self.broken();
                    },
                };
                if !crate::evaluator::functions::constructs(parameters, args.len()) {
                    return self.fail_with(
                        ErrorKind::Arity,
                        "ERROR: The function was given another number of arguments than it requires.",
                    );
                }
                let prototype = match prototype {
                    Some(handle) => Some(Value::Object(handle)),
                    None => None,
                };
                self.push_frame(Frame::NewThis { closure, args });
                self.ask(HostRequest::CreateObject { prototype, properties: Vec::new() })
            },
            Value::JsFunction(_) => self.ask(HostRequest::Construct { function: callee, args }),
            _ => self.fail_with(ErrorKind::Type, "TypeError: The callee is not a function."),
        }
    }

    /// The host made the object of a construction: the function is entered
    /// with it as `this`.
    pub(crate) fn on_new_this(
        &mut self,
        program: &Program,
        closure: ClosureId,
        args: Vec<Value>,
        delivery: Delivery,
    ) -> (action: Action)
        requires
            old(self).inv(),
            !old(self).is_idle(),
        ensures
            final(self).stepped(old(self), &action),
            new_this_takes(program, closure, args, delivery, old(self), final(self), &action),
    {
        match delivery {
            Delivery::Value(this) => self.enter_function(program, closure, this, args, None),
            _ => self.broken(),
        }
    }
}

} // verus!
