//! Classes.

use vstd::prelude::*;
use crate::ast::{Class, ClassId, ClassMember, Program};
use crate::environment::ClosedEnvironment;
use crate::error::ErrorKind;
use crate::ast::PropName;
use crate::evaluator::functions::{function_at, native_plan, new_jsfunction, params_begin};
use crate::host::Capture;
use crate::hygiene::texts;
use crate::machine::Control;
use crate::value::{BindingId, ValueView};
use crate::evaluator::objects::{get_prop_name, KeyPlan};
use crate::host::{ClassProperty, Descriptor, Flags, HostRequest, Property, Slot};
use crate::machine::{Action, ClassState, Delivery, Frame, Interpreter};
use crate::value::{FunctionId, Value};

verus! {

/// The explicit constructor of a class: the first member that is one.
pub open spec fn constructor_of(body: Seq<ClassMember>) -> Option<FunctionId>
    decreases body.len(),
{
    if body.len() == 0 {
        None
    } else {
        match body.first() {
            ClassMember::Constructor(function) => Some(function),
            _ => constructor_of(body.drop_first()),
        }
    }
}

/// Finds [`constructor_of`] a class.
pub fn find_constructor(class: &Class) -> (r: Option<FunctionId>)
    ensures
        r == constructor_of(class.body@),
{
    let mut i: usize = 0;
    assert(class.body@.skip(0) =~= class.body@);
    while i < class.body.len()
        invariant
            i <= class.body@.len(),
            constructor_of(class.body@) == constructor_of(class.body@.skip(i as int)),
        decreases class.body@.len() - i,
    {
        match &class.body[i] {
            ClassMember::Constructor(function) => {
                assert(class.body@.skip(i as int).first() == class.body@[i as int]);
                return Some(*function);
            },
            _ => {},
        }
        assert(class.body@.skip(i as int).first() == class.body@[i as int]);
        assert(class.body@.skip(i as int).drop_first() =~= class.body@.skip(i + 1));
        i = i + 1;
    }
    None
}

/// The member of a class to install: on the constructor if static, else on
/// the prototype; enumerable and writable, but not configurable.
pub fn class_property(is_static: bool, key: Value, value: Value) -> (p: ClassProperty)
    ensures
        p.on_constructor == is_static,
        p.property.key == key,
        p.property.descriptor.slot == Slot::Value(value),
        p.property.descriptor.flags == Flags::member(),
{
    ClassProperty {
        on_constructor: is_static,
        property: Property {
            key,
            descriptor: Descriptor { flags: Flags::member(), slot: Slot::Value(value) },
        },
    }
}

/// The class at `class`, if there is one.
pub open spec fn class_at(program: &Program, class: ClassId) -> Option<Class> {
    if class < program.classes@.len() {
        Some(program.classes@[class as int])
    } else {
        None
    }
}

/// The member before position `next` of a class.
pub open spec fn member_before(program: &Program, class: ClassId, next: usize) -> Option<
    ClassMember,
> {
    match class_at(program, class) {
        Some(node) => if 0 < next <= node.body@.len() {
            Some(node.body@[next - 1])
        } else {
            None
        },
        None => None,
    }
}

/// How the evaluation of a class begins, on a continuation that was `from`:
/// with the parameters of its constructor. A class without an explicit
/// constructor has one without parameters.
pub open spec fn class_begins(
    program: &Program,
    class: ClassId,
    from: Seq<Frame>,
    before: &Interpreter,
    after: &Interpreter,
    action: &Action,
) -> bool {
    &&& action is Continue
    &&& match class_at(program, class) {
        None => after.failed_on(before, from, ErrorKind::Protocol),
        Some(node) => match constructor_of(node.body@) {
            Some(function) => params_begin(
                program,
                function,
                from.push(Frame::ClassCtorParams { class }),
                before,
                after,
                action,
            ),
            None => {
                &&& after.frames() == from.push(Frame::ClassCtorParams { class })
                &&& after.scopes() == before.scopes()
                &&& after.heap() == before.heap()
                &&& after.next() matches Control::Deliver(Delivery::Params { names, env })
                &&& names@.len() == 0
                &&& env@ == crate::environment::flatten(before.scopes()@)
            },
        },
    }
}

/// Whether a value can be a superclass: a function can, interpreted or of
/// the host, with or without a native form; nothing else can.
pub open spec fn superclass(parent: ValueView) -> bool {
    parent is Function || parent is JsFunction
}

/// The host is asked to compile a native form, on a continuation that is
/// `from`: the request is the plan for the given parameter names, source and
/// snapshot.
pub open spec fn compiles(
    names: Seq<Seq<char>>,
    source: Seq<char>,
    env: Map<Seq<char>, BindingId>,
    from: Seq<Frame>,
    before: &Interpreter,
    after: &Interpreter,
    action: &Action,
) -> bool {
    &&& after.frames() == from
    &&& after.scopes() == before.scopes()
    &&& after.heap() == before.heap()
    &&& match native_plan(names, source, env, before.heap()@) {
        Some((parameters, bound)) => {
            &&& after.next() is Waiting
            &&& action matches Action::Request(HostRequest::Compile { params, captures, body })
            &&& texts(params@) == parameters
            &&& captures@.map_values(|c: Capture| c@) == bound
            &&& body@ == source
        },
        None => action is Continue && after.fails(ErrorKind::Protocol),
    }
}

/// A member of a class was noted: the members known grew by one, to be
/// installed on the constructor if static and on the prototype otherwise,
/// enumerable and writable but not configurable.
pub open spec fn class_noted(
    program: &Program,
    state: ClassState,
    key: ValueView,
    value: Value,
    before: &Interpreter,
    after: &Interpreter,
    action: &Action,
) -> bool {
    match member_before(program, state.class, state.next) {
        Some(ClassMember::Method { is_static, .. }) => class_grew(
            state,
            is_static,
            key,
            value,
            before,
            after,
            action,
        ),
        Some(ClassMember::ClassProp { is_static, .. }) => class_grew(
            state,
            is_static,
            key,
            value,
            before,
            after,
            action,
        ),
        _ => after.raised(before, action, ErrorKind::Protocol),
    }
}

/// The members known of a class grew by the given one.
pub open spec fn class_grew(
    state: ClassState,
    is_static: bool,
    key: ValueView,
    value: Value,
    before: &Interpreter,
    after: &Interpreter,
    action: &Action,
) -> bool {
    &&& after.frames().len() == before.frames().len() + 1
    &&& after.frames().drop_last() == before.frames()
    &&& after.frames().last() matches Frame::ClassMembers(kept)
    &&& kept.class == state.class
    &&& kept.next == state.next
    &&& kept.constructor == state.constructor
    &&& kept.parent == state.parent
    &&& kept.members@.len() == state.members@.len() + 1
    &&& kept.members@.drop_last() == state.members@
    &&& kept.members@.last().on_constructor == is_static
    &&& kept.members@.last().property.key@ == key
    &&& kept.members@.last().property.descriptor.slot == Slot::Value(value)
    &&& kept.members@.last().property.descriptor.flags == Flags::member()
    &&& after.scopes() == before.scopes()
    &&& after.heap() == before.heap()
    &&& after.next() == Control::Deliver(Delivery::Nothing)
    &&& action is Continue
}

/// The value of a member of a class is known: a key that is known is noted
/// with it; a computed key is evaluated first; a big integer is no key.
pub open spec fn class_keyed(
    program: &Program,
    state: ClassState,
    key: PropName,
    value: Value,
    before: &Interpreter,
    after: &Interpreter,
    action: &Action,
) -> bool {
    match key {
        PropName::Ident(name) => class_noted(
            program,
            state,
            ValueView::String(name@),
            value,
            before,
            after,
            action,
        ),
        PropName::Str(text) => class_noted(
            program,
            state,
            ValueView::String(text@),
            value,
            before,
            after,
            action,
        ),
        PropName::Num(bits) => class_noted(
            program,
            state,
            ValueView::Number(bits),
            value,
            before,
            after,
            action,
        ),
        PropName::Computed(expr) => {
            &&& after.pushed(before, Frame::ClassMemberKey { state, value })
            &&& after.next() == Control::Expr(expr)
            &&& action is Continue
        },
        PropName::BigInt => after.raised(before, action, ErrorKind::Syntax),
    }
}

/// How a class goes on with its next member, from first to last: a method
/// is compiled to its native form, beginning with its parameters; a field
/// gives its value, `undefined` without an initialiser; the constructor,
/// which was compiled first, is passed over; a member of any other kind is
/// a syntax error. When all members are known the host assembles the
/// class: the members are installed, and constructor and prototype are tied
/// to each other by properties without any attribute.
pub open spec fn class_goes_on(
    program: &Program,
    state: ClassState,
    before: &Interpreter,
    after: &Interpreter,
    action: &Action,
) -> bool {
    match class_at(program, state.class) {
        None => after.raised(before, action, ErrorKind::Protocol),
        Some(node) => if state.next >= node.body@.len() {
            &&& after.keeps(before)
            &&& after.next() is Waiting
            &&& action == Action::Request(
                HostRequest::AssembleClass {
                    constructor: state.constructor,
                    parent: state.parent,
                    members: state.members,
                    link: Flags::link(),
                },
            )
        } else {
            let next = ClassState { next: (state.next + 1) as usize, ..state };
            match node.body@[state.next as int] {
                ClassMember::Method { function, .. } => match function_at(
                    program,
                    function,
                ) {
                    None => after.raised(before, action, ErrorKind::Protocol),
                    Some(def) => if def.body is None {
                        after.raised(before, action, ErrorKind::Syntax)
                    } else {
                        params_begin(
                            program,
                            function,
                            before.frames().push(Frame::ClassMethodParams(next)),
                            before,
                            after,
                            action,
                        )
                    },
                },
                ClassMember::ClassProp { value, .. } => {
                    &&& after.pushed(before, Frame::ClassPropValue(next))
                    &&& action is Continue
                    &&& after.next() == (match value {
                        Some(expr) => Control::Expr(expr),
                        None => Control::Deliver(Delivery::Value(Value::Undefined)),
                    })
                },
                ClassMember::Constructor(_) => {
                    &&& after.pushed(before, Frame::ClassMembers(next))
                    &&& action is Continue
                    &&& after.next() == Control::Deliver(Delivery::Nothing)
                },
                ClassMember::Other => after.raised(before, action, ErrorKind::Syntax),
            }
        },
    }
}

/// What the frame does with a delivery; see [`Interpreter::on_class_ctor_params`].
pub open spec fn class_ctor_params_takes(
    program: &Program,
    class: ClassId,
    delivery: Delivery,
    before: &Interpreter,
    after: &Interpreter,
    action: &Action,
) -> bool {
    match delivery {
        Delivery::Params { names, env } => match class_at(program, class) {
            None => after.raised(before, action, ErrorKind::Protocol),
            Some(node) => match constructor_of(node.body@) {
                Some(function) => match function_at(program, function) {
                    Some(def) => compiles(
                        texts(names@),
                        def.source@,
                        env@,
                        before.frames().push(Frame::ClassCtor { class }),
                        before,
                        after,
                        action,
                    ),
                    None => after.failed_on(
                        before,
                        before.frames().push(Frame::ClassCtor { class }),
                        ErrorKind::Protocol,
                    ),
                },
                None => compiles(
                    texts(names@),
                    ""@,
                    env@,
                    before.frames().push(Frame::ClassCtor { class }),
                    before,
                    after,
                    action,
                ),
            },
        },
        _ => after.raised(before, action, ErrorKind::Protocol),
    }
}

/// What the frame does with a delivery; see [`Interpreter::on_class_ctor`].
pub open spec fn class_ctor_takes(
    program: &Program,
    class: ClassId,
    delivery: Delivery,
    before: &Interpreter,
    after: &Interpreter,
    action: &Action,
) -> bool {
    match delivery {
        Delivery::Value(constructor) => match class_at(program, class) {
            None => after.raised(before, action, ErrorKind::Protocol),
            Some(node) => match node.super_class {
                Some(parent) => {
                    &&& after.pushed(
                        before,
                        Frame::ClassSuper { class, constructor },
                    )
                    &&& after.next() == Control::Expr(parent)
                    &&& action is Continue
                },
                None => exists|members: Vec<ClassProperty>|
                    members@.len() == 0 && #[trigger] class_goes_on(
                        program,
                        ClassState { class, next: 0, constructor, parent: None, members },
                        before,
                        after,
                        action,
                    ),
            },
        },
        _ => after.raised(before, action, ErrorKind::Protocol),
    }
}

/// What the frame does with a delivery; see [`Interpreter::on_class_super`].
pub open spec fn class_super_takes(
    program: &Program,
    class: ClassId,
    constructor: Value,
    delivery: Delivery,
    before: &Interpreter,
    after: &Interpreter,
    action: &Action,
) -> bool {
    match delivery {
        Delivery::Value(parent) => if superclass(parent@) {
            exists|members: Vec<ClassProperty>|
                members@.len() == 0 && #[trigger] class_goes_on(
                    program,
                    ClassState { class, next: 0, constructor, parent: Some(parent), members },
                    before,
                    after,
                    action,
                )
        } else {
            after.raised(before, action, ErrorKind::Type)
        },
        _ => after.raised(before, action, ErrorKind::Protocol),
    }
}

/// What the frame does with a delivery; see [`Interpreter::on_class_members`].
pub open spec fn class_members_takes(
    program: &Program,
    state: ClassState,
    delivery: Delivery,
    before: &Interpreter,
    after: &Interpreter,
    action: &Action,
) -> bool {
    match delivery {
        Delivery::Nothing => class_goes_on(program, state, before, after, action),
        _ => after.raised(before, action, ErrorKind::Protocol),
    }
}

/// What the frame does with a delivery; see [`Interpreter::on_class_method_params`].
pub open spec fn class_method_params_takes(
    program: &Program,
    state: ClassState,
    delivery: Delivery,
    before: &Interpreter,
    after: &Interpreter,
    action: &Action,
) -> bool {
    match delivery {
        Delivery::Params { names, env } => match member_before(
            program,
            state.class,
            state.next,
        ) {
            Some(ClassMember::Method { function, .. }) => match function_at(
                program,
                function,
            ) {
                Some(def) => compiles(
                    texts(names@),
                    def.source@,
                    env@,
                    before.frames().push(Frame::ClassMethodCompiled(state)),
                    before,
                    after,
                    action,
                ),
                None => after.raised(before, action, ErrorKind::Protocol),
            },
            _ => after.raised(before, action, ErrorKind::Protocol),
        },
        _ => after.raised(before, action, ErrorKind::Protocol),
    }
}

/// What the frame does with a delivery; see [`Interpreter::on_class_member_value`].
pub open spec fn class_member_value_takes(
    program: &Program,
    state: ClassState,
    delivery: Delivery,
    before: &Interpreter,
    after: &Interpreter,
    action: &Action,
) -> bool {
    match delivery {
        Delivery::Value(value) => match member_before(program, state.class, state.next) {
            Some(ClassMember::Method { key, .. }) => class_keyed(
                program,
                state,
                key,
                value,
                before,
                after,
                action,
            ),
            Some(ClassMember::ClassProp { key, .. }) => class_keyed(
                program,
                state,
                key,
                value,
                before,
                after,
                action,
            ),
            _ => after.raised(before, action, ErrorKind::Protocol),
        },
        _ => after.raised(before, action, ErrorKind::Protocol),
    }
}

/// What the frame does with a delivery; see [`Interpreter::on_class_member_key`].
pub open spec fn class_member_key_takes(
    program: &Program,
    state: ClassState,
    value: Value,
    delivery: Delivery,
    before: &Interpreter,
    after: &Interpreter,
    action: &Action,
) -> bool {
    match delivery {
        Delivery::Value(key) => class_noted(
            program,
            state,
            key@,
            value,
            before,
            after,
            action,
        ),
        _ => after.raised(before, action, ErrorKind::Protocol),
    }
}

impl Interpreter {
    /// Begins the evaluation of a class: the constructor comes first, the
    /// explicit one if the class has one and otherwise one without
    /// parameters and body.
    pub(crate) fn eval_class(&mut self, program: &Program, class: ClassId) -> (action: Action)
        requires
            old(self).inv(),
            !old(self).is_idle(),
        ensures
            final(self).stepped(old(self), &action),
            class_begins(program, class, old(self).frames(), old(self), final(self), &action),
    {
        let node = match program.class(class) {
            Some(node) => node,
            None => {
                return self.broken();
            },
        };
        self.push_frame(Frame::ClassCtorParams { class });
        match find_constructor(node) {
            Some(function) => self.args_to_string(program, function),
            None => {
                let env = self.envs().closure();
                self.deliver(Delivery::Params { names: Vec::new(), env })
            },
        }
    }

    /// Asks the host to compile the native form of a constructor or method.
    pub(crate) fn compile(
        &mut self,
        names: &Vec<String>,
        source: &str,
        env: &ClosedEnvironment,
    ) -> (action: Action)
        requires
            old(self).inv(),
            !old(self).is_idle(),
        ensures
            final(self).stepped(old(self), &action),
            compiles(
                texts(names@),
                source@,
                env@,
                old(self).frames(),
                old(self),
                final(self),
                &action,
            ),
    {
        match new_jsfunction(names, source, env, self.store()) {
            Ok(request) => self.ask(request),
            Err(error) => self.fail(error),
        }
    }

    /// The parameters of the constructor are known: the host compiles the
    /// constructor, from the source of the explicit one or from an empty
    /// body.
    pub(crate) fn on_class_ctor_params(
        &mut self,
        program: &Program,
        class: ClassId,
        delivery: Delivery,
    ) -> (action: Action)
        requires
            old(self).inv(),
            !old(self).is_idle(),
        ensures
            final(self).stepped(old(self), &action),
            class_ctor_params_takes(program, class, delivery, old(self), final(self), &action),
    {
        let (names, env) = match delivery {
            Delivery::Params { names, env } => (names, env),
            _ => {
                return self.broken();
            },
        };
        let node = match program.class(class) {
            Some(node) => node,
            None => {
                return self.broken();
            },
        };
        self.push_frame(Frame::ClassCtor { class });
        match find_constructor(node) {
            Some(function) => match program.function(function) {
                Some(def) => self.compile(&names, def.source.as_str(), &env),
                None => self.broken(),
            },
            None => self.compile(&names, "", &env),
        }
    }

    /// The constructor is compiled; the superclass is next.
    pub(crate) fn on_class_ctor(
        &mut self,
        program: &Program,
        class: ClassId,
        delivery: Delivery,
    ) -> (action: Action)
        requires
            old(self).inv(),
            !old(self).is_idle(),
        ensures
            final(self).stepped(old(self), &action),
            class_ctor_takes(program, class, delivery, old(self), final(self), &action),
    {
        let constructor = match delivery.into_value() {
            Some(value) => value,
            None => {
                return self.broken();
            },
        };
        match program.class(class) {
            Some(node) => match node.super_class {
                Some(parent) => {
                    self.push_frame(Frame::ClassSuper { class, constructor });
                    self.go_expr(parent)
                },
                None => self.class_member(
                    program,
                    ClassState { class, next: 0, constructor, parent: None, members: Vec::new() },
                ),
            },
            None => self.broken(),
        }
    }

    /// The superclass is known. It must be a function, interpreted or of the
    /// host; the class is assembled with it as the parent.
    pub(crate) fn on_class_super(
        &mut self,
        program: &Program,
        class: ClassId,
        constructor: Value,
        delivery: Delivery,
    ) -> (action: Action)
        requires
            old(self).inv(),
            !old(self).is_idle(),
        ensures
            final(self).stepped(old(self), &action),
            class_super_takes(
                program,
                class,
                constructor,
                delivery,
                old(self),
                final(self),
                &action,
            ),
    {
        let parent = match delivery {
            Delivery::Value(Value::JsFunction(handle)) => Value::JsFunction(handle),
            Delivery::Value(Value::Function(closure)) => Value::Function(closure),
            Delivery::Value(_) => {
                return self.fail_with(
                    ErrorKind::Type,
                    "TypeError: The superclass is not a function.",
                );
            },
            _ => {
                return self.broken();
            },
        };
        self.class_member(
            program,
            ClassState { class, next: 0, constructor, parent: Some(parent), members: Vec::new() },
        )
    }

    /// Goes on with the next member of a class, from first to last. A method
    /// is compiled to its native form, a field gives its value (`undefined`
    /// without an initialiser); then the key is found. When all members are
    /// known the host assembles the class.
    pub(crate) fn class_member(&mut self, program: &Program, state: ClassState) -> (action: Action)
        requires
            old(self).inv(),
            !old(self).is_idle(),
        ensures
            final(self).stepped(old(self), &action),
            class_goes_on(program, state, old(self), final(self), &action),
    {
        let body = match program.class(state.class) {
            Some(node) => &node.body,
            None => {
                return self.broken();
            },
        };
        let index = state.next;
        if index >= body.len() {
            return self.ask(
                HostRequest::AssembleClass {
                    constructor: state.constructor,
                    parent: state.parent,
                    members: state.members,
                    link: Flags::link(),
                },
            );
        }
        let mut state = state;
        state.next = index + 1;
        match &body[index] {
            ClassMember::Method { function, .. } => match program.function(*function) {
                Some(def) => {
                    if def.body.is_none() {
                        self.fail_with(
                            ErrorKind::Syntax,
                            "ERROR: Function body of method property invalid.",
                        )
                    } else {
                        self.push_frame(Frame::ClassMethodParams(state));
                        self.args_to_string(program, *function)
                    }
                },
                None => self.broken(),
            },
            ClassMember::ClassProp { value, .. } => {
                self.push_frame(Frame::ClassPropValue(state));
                match value {
                    Some(expr) => self.go_expr(*expr),
                    None => self.give(Value::Undefined),
                }
            },
            ClassMember::Constructor(_) => {
                self.push_frame(Frame::ClassMembers(state));
                self.tick()
            },
            ClassMember::Other => self.fail_with(
                ErrorKind::Syntax,
                "ERROR: Class member of this kind is not supported.",
            ),
        }
    }

    /// A class takes its next turn.
    pub(crate) fn on_class_members(
        &mut self,
        program: &Program,
        state: ClassState,
        delivery: Delivery,
    ) -> (action: Action)
        requires
            old(self).inv(),
            !old(self).is_idle(),
        ensures
            final(self).stepped(old(self), &action),
            class_members_takes(program, state, delivery, old(self), final(self), &action),
    {
        match delivery {
            Delivery::Nothing => self.class_member(program, state),
            _ => self.broken(),
        }
    }

    /// The parameters of a method are known: the host compiles the method.
    pub(crate) fn on_class_method_params(
        &mut self,
        program: &Program,
        state: ClassState,
        delivery: Delivery,
    ) -> (action: Action)
        requires
            old(self).inv(),
            !old(self).is_idle(),
        ensures
            final(self).stepped(old(self), &action),
            class_method_params_takes(program, state, delivery, old(self), final(self), &action),
    {
        let (names, env) = match delivery {
            Delivery::Params { names, env } => (names, env),
            _ => {
                return self.broken();
            },
        };
        let body = match program.class(state.class) {
            Some(node) => &node.body,
            None => {
                return self.broken();
            },
        };
        if state.next == 0 || state.next > body.len() {
            return self.broken();
        }
        match &body[state.next - 1] {
            ClassMember::Method { function, .. } => match program.function(*function) {
                Some(def) => {
                    self.push_frame(Frame::ClassMethodCompiled(state));
                    self.compile(&names, def.source.as_str(), &env)
                },
                None => self.broken(),
            },
            _ => self.broken(),
        }
    }

    /// The value of a member of a class is known; its key is next.
    pub(crate) fn on_class_member_value(
        &mut self,
        program: &Program,
        state: ClassState,
        delivery: Delivery,
    ) -> (action: Action)
        requires
            old(self).inv(),
            !old(self).is_idle(),
        ensures
            final(self).stepped(old(self), &action),
            class_member_value_takes(program, state, delivery, old(self), final(self), &action),
    {
        let value = match delivery.into_value() {
            Some(value) => value,
            None => {
                return self.broken();
            },
        };
        let body = match program.class(state.class) {
            Some(node) => &node.body,
            None => {
                return self.broken();
            },
        };
        if state.next == 0 || state.next > body.len() {
            return self.broken();
        }
        let plan = match &body[state.next - 1] {
            ClassMember::Method { key, .. } => get_prop_name(key),
            ClassMember::ClassProp { key, .. } => get_prop_name(key),
            _ => {
                return self.broken();
            },
        };
        match plan {
            KeyPlan::Ready(key) => self.class_define(program, state, key, value),
            KeyPlan::Eval(expr) => {
                self.push_frame(Frame::ClassMemberKey { state, value });
                self.go_expr(expr)
            },
            KeyPlan::Unsupported => self.fail_with(
                ErrorKind::Syntax,
                "BigInt not supported as property name.",
            ),
        }
    }

    /// Notes a member of a class and goes on with the next.
    pub(crate) fn class_define(
        &mut self,
        program: &Program,
        state: ClassState,
        key: Value,
        value: Value,
    ) -> (action: Action)
        requires
            old(self).inv(),
            !old(self).is_idle(),
        ensures
            final(self).stepped(old(self), &action),
            class_noted(program, state, key@, value, old(self), final(self), &action),
    {
        let body = match program.class(state.class) {
            Some(node) => &node.body,
            None => {
                return self.broken();
            },
        };
        if state.next == 0 || state.next > body.len() {
            return self.broken();
        }
        let is_static = match &body[state.next - 1] {
            ClassMember::Method { is_static, .. } => *is_static,
            ClassMember::ClassProp { is_static, .. } => *is_static,
            _ => {
                return self.broken();
            },
        };
        let ghost known = state.members@;
        let mut state = state;
        state.members.push(class_property(is_static, key, value));
        assert(state.members@.drop_last() =~= known);
        self.push_frame(Frame::ClassMembers(state));
        self.tick()
    }

    /// The computed key of a member of a class is known.
    pub(crate) fn on_class_member_key(
        &mut self,
        program: &Program,
        state: ClassState,
        value: Value,
        delivery: Delivery,
    ) -> (action: Action)
        requires
            old(self).inv(),
            !old(self).is_idle(),
        ensures
            final(self).stepped(old(self), &action),
            class_member_key_takes(
                program,
                state,
                value,
                delivery,
                old(self),
                final(self),
                &action,
            ),
    {
        match delivery {
            Delivery::Value(key) => self.class_define(program, state, key, value),
            _ => self.broken(),
        }
    }
}

} // verus!
