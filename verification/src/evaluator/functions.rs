//! Functions: how they are made, and how they are called.

use vstd::prelude::*;
use crate::ast::{Callee, Expr, ExprId, MemberProp, Pat, Program};
use crate::environment::{ClosedEnvironment, Environments};
use crate::error::{ErrorKind, EvalError};
use crate::ast::PatId;
use crate::evaluator::objects::{check_receiver, receiver_failure};
use crate::evaluator::statements::decl::{expr_at, pat_at};
use crate::globals::{in_global_this, is_global_name};
use crate::host::{Capture, CaptureView, HostRequest};
use crate::hygiene::{
    contains_name, get_variable_names, hygienic_names, identifiers_in, plain_name, strip_hygiene,
    texts,
};
use crate::machine::{
    Action, CallState, Control, Delivery, Frame, Interpreter, ParamState, Pending,
};
use crate::store::Store;
use crate::value::{BindingId, ClosureId, Function, FunctionId, Handle, Value, ValueView};

verus! {

/// How the arguments of a call are bound to the parameters of an interpreted
/// function.
#[derive(Clone, Copy, Debug, PartialEq, Eq, Structural)]
pub enum Binding {
    /// One argument per parameter.
    Exact,
    /// The first `positional` arguments go to the parameters before the last,
    /// and the last parameter receives all others as an array.
    Rest { positional: usize },
    /// There are fewer arguments than parameters.
    TooFew,
    /// There are arguments, but no parameter to take them.
    NoParameter,
}

/// The rule of [`bind_arguments`].
pub open spec fn binding_rule(parameters: usize, arguments: usize) -> Binding {
    if arguments == parameters {
        Binding::Exact
    } else if arguments < parameters {
        Binding::TooFew
    } else if parameters == 0 {
        Binding::NoParameter
    } else {
        Binding::Rest { positional: (parameters - 1) as usize }
    }
}

/// Decides how a call with `arguments` arguments binds the `parameters`
/// parameters of an interpreted function.
pub fn bind_arguments(parameters: usize, arguments: usize) -> (b: Binding)
    ensures
        b == binding_rule(parameters, arguments),
{
    if arguments == parameters {
        Binding::Exact
    } else if arguments < parameters {
        Binding::TooFew
    } else if parameters == 0 {
        Binding::NoParameter
    } else {
        Binding::Rest { positional: parameters - 1 }
    }
}

/// Whether a construction with `arguments` arguments is accepted by an
/// interpreted function of `parameters` parameters: only with exactly as
/// many.
pub fn constructs(parameters: usize, arguments: usize) -> (r: bool)
    ensures
        r == (parameters == arguments),
{
    parameters == arguments
}

/// A call binds its arguments without failure exactly if there are at least
/// as many as parameters and, where there are more, a parameter to take the
/// rest; every argument is then bound, the excess packed into the last
/// parameter. A construction is accepted only where the call binds exactly.
pub proof fn lemma_arity(parameters: usize, arguments: usize)
    ensures
        binding_rule(parameters, arguments) is TooFew <==> arguments < parameters,
        binding_rule(parameters, arguments) is Rest ==> arguments > parameters && binding_rule(
            parameters,
            arguments,
        )->positional + 1 == parameters,
        binding_rule(parameters, arguments) is Exact <==> parameters == arguments,
{
}

/// A copy of a list of names.
pub fn clone_names(names: &Vec<String>) -> (copy: Vec<String>)
    ensures
        copy@.len() == names@.len(),
        forall|i: int| 0 <= i < names@.len() ==> copy@[i] == names@[i],
{
    let mut copy: Vec<String> = Vec::new();
    let mut i: usize = 0;
    while i < names.len()
        invariant
            i <= names@.len(),
            copy@.len() == i,
            forall|j: int| 0 <= j < i ==> copy@[j] == names@[j],
        decreases names@.len() - i,
    {
        copy.push(names[i].clone());
        i = i + 1;
    }
    copy
}

/// The patterns of a list as work to do: what is on top is done first, so
/// that the patterns are walked from first to last.
pub open spec fn pending_patterns(pats: Seq<PatId>) -> Seq<Pending>
    decreases pats.len(),
{
    if pats.len() == 0 {
        Seq::empty()
    } else {
        pending_patterns(pats.drop_first()).push(Pending::Pat(pats.first()))
    }
}

/// The elements of an array pattern as work to do, holes left out.
pub open spec fn pending_elements(elems: Seq<Option<PatId>>) -> Seq<Pending>
    decreases elems.len(),
{
    if elems.len() == 0 {
        Seq::empty()
    } else {
        match elems.first() {
            Some(pat) => pending_elements(elems.drop_first()).push(Pending::Pat(pat)),
            None => pending_elements(elems.drop_first()),
        }
    }
}

/// Puts the patterns of a list on the work to do.
pub fn stack_patterns(pending: &mut Vec<Pending>, pats: &Vec<PatId>)
    ensures
        final(pending)@ == old(pending)@ + pending_patterns(pats@),
{
    let mut i: usize = pats.len();
    assert(pats@.skip(i as int) =~= Seq::<PatId>::empty());
    assert(pending@ =~= old(pending)@ + pending_patterns(pats@.skip(i as int)));
    while i > 0
        invariant
            i <= pats@.len(),
            pending@ == old(pending)@ + pending_patterns(pats@.skip(i as int)),
        decreases i,
    {
        i = i - 1;
        pending.push(Pending::Pat(pats[i]));
        proof {
            assert(pats@.skip(i as int).first() == pats@[i as int]);
            assert(pats@.skip(i as int).drop_first() =~= pats@.skip(i + 1));
            assert(pending@ =~= old(pending)@ + pending_patterns(pats@.skip(i as int)));
        }
    }
    assert(pats@.skip(0) =~= pats@);
}

/// Puts the elements of an array pattern on the work to do.
pub fn stack_elements(pending: &mut Vec<Pending>, elems: &Vec<Option<PatId>>)
    ensures
        final(pending)@ == old(pending)@ + pending_elements(elems@),
{
    let mut i: usize = elems.len();
    assert(elems@.skip(i as int) =~= Seq::<Option<PatId>>::empty());
    assert(pending@ =~= old(pending)@ + pending_elements(elems@.skip(i as int)));
    while i > 0
        invariant
            i <= elems@.len(),
            pending@ == old(pending)@ + pending_elements(elems@.skip(i as int)),
        decreases i,
    {
        i = i - 1;
        proof {
            assert(elems@.skip(i as int).first() == elems@[i as int]);
            assert(elems@.skip(i as int).drop_first() =~= elems@.skip(i + 1));
        }
        match elems[i] {
            Some(element) => {
                pending.push(Pending::Pat(element));
                assert(pending@ =~= old(pending)@ + pending_elements(elems@.skip(i as int)));
            },
            None => {},
        }
    }
    assert(elems@.skip(0) =~= elems@);
}

/// One step of the walk of parameter patterns is done: the walk goes on with
/// the given work to do and names, and the same snapshot.
pub open spec fn walked(
    before: &Interpreter,
    after: &Interpreter,
    pending: Seq<Pending>,
    names: Seq<String>,
    env: ClosedEnvironment,
) -> bool {
    &&& after.frames().len() == before.frames().len() + 1
    &&& after.frames().drop_last() == before.frames()
    &&& after.frames().last() matches Frame::Params(state)
    &&& state.pending@ == pending
    &&& state.names@ == names
    &&& state.env == env
    &&& after.next() == Control::Deliver(Delivery::Nothing)
}

/// A function value was made: the closure is stored, and the value that
/// stands for it is handed to the continuation.
pub open spec fn closes(
    before: &Interpreter,
    after: &Interpreter,
    action: &Action,
    function: Function,
) -> bool {
    &&& after.frames() == before.frames()
    &&& after.scopes() == before.scopes()
    &&& after.heap()@ == before.heap()@
    &&& after.heap().closure_count() == before.heap().closure_count() + 1
    &&& after.heap().spec_closure(before.heap().closure_count() as int) == function
    &&& forall|i: int|
        0 <= i < before.heap().closure_count() ==> #[trigger] after.heap().spec_closure(i)
            == before.heap().spec_closure(i)
    &&& after.next() == Control::Deliver(
        Delivery::Value(Value::Function(before.heap().closure_count() as ClosureId)),
    )
    &&& action is Continue
}

/// The function at `function`, if there is one.
pub open spec fn function_at(program: &Program, function: FunctionId) -> Option<
    crate::ast::FunctionDef,
> {
    if function < program.functions@.len() {
        Some(program.functions@[function as int])
    } else {
        None
    }
}

/// How the walk of a function's parameter patterns begins, on a continuation
/// that was `from`: all patterns are still to do, no name is known, and the
/// snapshot is that of the environment as it is.
pub open spec fn params_begin(
    program: &Program,
    function: FunctionId,
    from: Seq<Frame>,
    before: &Interpreter,
    after: &Interpreter,
    action: &Action,
) -> bool {
    &&& action is Continue
    &&& after.scopes() == before.scopes()
    &&& after.heap() == before.heap()
    &&& match function_at(program, function) {
        None => after.frames() == from && after.fails(ErrorKind::Protocol),
        Some(def) => {
            &&& after.frames().len() == from.len() + 1
            &&& after.frames().drop_last() == from
            &&& after.frames().last() matches Frame::Params(state)
            &&& state.pending@ == pending_patterns(def.params@)
            &&& state.names@.len() == 0
            &&& state.env@ == crate::environment::flatten(before.scopes()@)
            &&& after.next() == Control::Deliver(Delivery::Nothing)
        },
    }
}

/// How the making of a function value begins, on a continuation that was
/// `from`: a function without a body is a type error; otherwise the
/// parameters are walked.
pub open spec fn function_begins(
    program: &Program,
    function: FunctionId,
    prototype: Option<Handle>,
    from: Seq<Frame>,
    before: &Interpreter,
    after: &Interpreter,
    action: &Action,
) -> bool {
    &&& action is Continue
    &&& match function_at(program, function) {
        None => after.failed_on(before, from, ErrorKind::Protocol),
        Some(def) => if def.body is None {
            after.failed_on(before, from, ErrorKind::Type)
        } else {
            params_begin(
                program,
                function,
                from.push(Frame::MakeClosure { function, prototype }),
                before,
                after,
                action,
            )
        },
    }
}

/// How a call begins: where the callee is a member expression, with its
/// object, which will be the receiver; otherwise with the callee. `super`
/// and `import` can not be called.
pub open spec fn call_begins(
    program: &Program,
    node: ExprId,
    before: &Interpreter,
    after: &Interpreter,
    action: &Action,
) -> bool {
    match expr_at(program, node) {
        Some(Expr::Call { callee, .. }) => match callee {
            Callee::Expr(expr) => match expr_at(program, expr) {
                Some(Expr::Member { obj, .. }) => {
                    &&& after.pushed(before, Frame::CallReceiver { node })
                    &&& after.next() == Control::Expr(obj)
                    &&& action is Continue
                },
                Some(_) => {
                    &&& after.pushed(before, Frame::CallCallee { node })
                    &&& after.next() == Control::Expr(expr)
                    &&& action is Continue
                },
                None => after.raised(before, action, ErrorKind::Protocol),
            },
            Callee::Super => after.raised(before, action, ErrorKind::Syntax),
            Callee::Import => after.raised(before, action, ErrorKind::Syntax),
        },
        _ => after.raised(before, action, ErrorKind::Protocol),
    }
}

/// How a call goes on with its arguments: the next argument is evaluated,
/// from left to right; when all are known the callee is called.
pub open spec fn call_goes_on(
    program: &Program,
    node: ExprId,
    next: usize,
    callee: Value,
    this: Value,
    args: Seq<Value>,
    before: &Interpreter,
    after: &Interpreter,
    action: &Action,
) -> bool {
    match expr_at(program, node) {
        Some(Expr::Call { args: list, .. }) => if next >= list@.len() {
            invokes(program, before, after, action, callee, this, args)
        } else {
            let argument = list@[next as int];
            &&& after.frames().len() == before.frames().len() + 1
            &&& after.frames().drop_last() == before.frames()
            &&& after.scopes() == before.scopes()
            &&& after.heap() == before.heap()
            &&& match after.frames().last() {
                Frame::CallSpread(state) => argument.spread && state.node == node && state.next
                    == next + 1 && state.callee == callee && state.this == this && state.args@
                    == args,
                Frame::CallArgs(state) => !argument.spread && state.node == node && state.next
                    == next + 1 && state.callee == callee && state.this == this && state.args@
                    == args,
                _ => false,
            }
            &&& after.next() == Control::Expr(argument.expr)
            &&& action is Continue
        },
        _ => after.raised(before, action, ErrorKind::Protocol),
    }
}

/// One step of the walk of a function's parameter patterns. With nothing
/// left to do the walk delivers the names and the snapshot. An identifier
/// gives a name; a rest pattern goes on with its argument; a pattern with a
/// default goes on with its left side, and remembers to evaluate the default
/// and to store it under the first name of that side; an array pattern goes
/// on with its elements. No other pattern is a parameter.
pub open spec fn walks(
    program: &Program,
    state: ParamState,
    before: &Interpreter,
    after: &Interpreter,
    action: &Action,
) -> bool {
    &&& after.scopes() == before.scopes()
    &&& after.heap() == before.heap()
    &&& action is Continue
    &&& if state.pending@.len() == 0 {
        &&& after.frames() == before.frames()
        &&& after.next() == Control::Deliver(
            Delivery::Params { names: state.names, env: state.env },
        )
    } else {
        let rest = state.pending@.drop_last();
        match state.pending@.last() {
            Pending::Pat(pat) => match pat_at(program, pat) {
                None => after.frames() == before.frames() && after.fails(
                    ErrorKind::Protocol,
                ),
                Some(Pat::Ident(name)) => walked(
                    before,
                    after,
                    rest,
                    state.names@.push(name),
                    state.env,
                ),
                Some(Pat::Rest(arg)) => walked(
                    before,
                    after,
                    rest.push(Pending::Pat(arg)),
                    state.names@,
                    state.env,
                ),
                Some(Pat::Assign { left, right }) => walked(
                    before,
                    after,
                    rest.push(
                        Pending::Default { right, mark: state.names@.len() as usize },
                    ).push(Pending::Pat(left)),
                    state.names@,
                    state.env,
                ),
                Some(Pat::Array(elems)) => walked(
                    before,
                    after,
                    rest + pending_elements(elems@),
                    state.names@,
                    state.env,
                ),
                Some(_) => after.frames() == before.frames() && after.fails(
                    ErrorKind::Syntax,
                ),
            },
            Pending::Default { right, mark } => if mark < state.names@.len() {
                &&& after.frames().len() == before.frames().len() + 1
                &&& after.frames().drop_last() == before.frames()
                &&& after.frames().last() matches Frame::ParamDefault {
                    state: kept,
                    mark: m,
                }
                &&& m == mark
                &&& kept.pending@ == rest
                &&& kept.names == state.names
                &&& kept.env == state.env
                &&& after.next() == Control::Expr(right)
            } else {
                after.frames() == before.frames() && after.fails(
                    ErrorKind::Syntax,
                )
            },
        }
    }
}

/// What the frame does with a delivery; see [`Interpreter::on_make_closure`].
pub open spec fn make_closure_takes(
    program: &Program,
    function: FunctionId,
    prototype: Option<Handle>,
    delivery: Delivery,
    before: &Interpreter,
    after: &Interpreter,
    action: &Action,
) -> bool {
    match delivery {
        Delivery::Params { names, env } => match function_at(program, function) {
            None => after.raised(before, action, ErrorKind::Protocol),
            Some(def) => if def.is_async {
                closes(
                    before,
                    after,
                    action,
                    Function {
                        args: names,
                        body: function,
                        env,
                        async_: true,
                        jsfunction: None,
                        prototype,
                    },
                )
            } else {
                match native_plan(texts(names@), def.source@, env@, before.heap()@) {
                    Some((parameters, bound)) => {
                        &&& after.pushed(
                            before,
                            Frame::Compiled { function, names, env, prototype },
                        )
                        &&& after.next() is Waiting
                        &&& action matches Action::Request(
                            HostRequest::Compile { params, captures, body },
                        )
                        &&& texts(params@) == parameters
                        &&& captures@.map_values(|c: Capture| c@) == bound
                        &&& body@ == def.source@
                    },
                    None => after.raised(before, action, ErrorKind::Protocol),
                }
            },
        },
        _ => after.raised(before, action, ErrorKind::Protocol),
    }
}

/// What the frame does with a delivery; see [`Interpreter::on_params`].
pub open spec fn params_takes(
    program: &Program,
    state: ParamState,
    delivery: Delivery,
    before: &Interpreter,
    after: &Interpreter,
    action: &Action,
) -> bool {
    match delivery {
        Delivery::Nothing => walks(program, state, before, after, action),
        _ => after.raised(before, action, ErrorKind::Protocol),
    }
}

/// What the frame does with a delivery; see [`Interpreter::on_param_default`].
pub open spec fn param_default_takes(
    state: ParamState,
    mark: usize,
    delivery: Delivery,
    before: &Interpreter,
    after: &Interpreter,
    action: &Action,
) -> bool {
    match delivery {
        Delivery::Value(value) => if mark < state.names@.len() {
            &&& after.frames().len() == before.frames().len() + 1
            &&& after.frames().drop_last() == before.frames()
            &&& after.frames().last() matches Frame::Params(kept)
            &&& kept.pending == state.pending
            &&& kept.names == state.names
            &&& kept.env@ == state.env@.insert(
                state.names@[mark as int]@,
                before.heap()@.len() as BindingId,
            )
            &&& after.heap()@ == before.heap()@.push(value@)
            &&& after.heap().same_closures(&before.heap())
            &&& after.scopes() == before.scopes()
            &&& after.next() == Control::Deliver(Delivery::Nothing)
            &&& action is Continue
        } else {
            after.raised(before, action, ErrorKind::Protocol)
        },
        _ => after.raised(before, action, ErrorKind::Protocol),
    }
}

/// What the frame does with a delivery; see [`Interpreter::on_compiled`].
pub open spec fn compiled_takes(
    function: FunctionId,
    names: Vec<String>,
    env: ClosedEnvironment,
    prototype: Option<Handle>,
    delivery: Delivery,
    before: &Interpreter,
    after: &Interpreter,
    action: &Action,
) -> bool {
    match delivery {
        Delivery::Value(Value::JsFunction(native)) => closes(
            before,
            after,
            action,
            Function {
                args: names,
                body: function,
                env,
                async_: false,
                jsfunction: Some(native),
                prototype,
            },
        ),
        _ => after.raised(before, action, ErrorKind::Protocol),
    }
}

/// What the frame does with a delivery; see [`Interpreter::on_call_callee`].
pub open spec fn call_callee_takes(
    program: &Program,
    node: ExprId,
    delivery: Delivery,
    before: &Interpreter,
    after: &Interpreter,
    action: &Action,
) -> bool {
    match delivery {
        Delivery::Value(callee) => call_goes_on(
            program,
            node,
            0,
            callee,
            Value::Undefined,
            Seq::empty(),
            before,
            after,
            action,
        ),
        _ => after.raised(before, action, ErrorKind::Protocol),
    }
}

/// What the frame does with a delivery; see [`Interpreter::on_call_receiver`].
pub open spec fn call_receiver_takes(
    program: &Program,
    node: ExprId,
    delivery: Delivery,
    before: &Interpreter,
    after: &Interpreter,
    action: &Action,
) -> bool {
    match delivery {
        Delivery::Value(this) => match receiver_failure(this@) {
            Some(kind) => after.raised(before, action, kind),
            None => match expr_at(program, node) {
                Some(Expr::Call { callee: Callee::Expr(member), .. }) => match expr_at(
                    program,
                    member,
                ) {
                    Some(Expr::Member { prop, .. }) => match prop {
                        MemberProp::Ident(name) => {
                            &&& after.pushed(
                                before,
                                Frame::CallMethod { node, this },
                            )
                            &&& after.next() is Waiting
                            &&& action matches Action::Request(
                                HostRequest::GetProperty { object, key },
                            )
                            &&& object == this
                            &&& key@ == ValueView::String(name@)
                        },
                        MemberProp::Computed(expr) => {
                            &&& after.pushed(
                                before,
                                Frame::CallMethodKey { node, this },
                            )
                            &&& after.next() == Control::Expr(expr)
                            &&& action is Continue
                        },
                        MemberProp::Private => after.raised(
                            before,
                            action,
                            ErrorKind::Syntax,
                        ),
                    },
                    _ => after.raised(before, action, ErrorKind::Protocol),
                },
                _ => after.raised(before, action, ErrorKind::Protocol),
            },
        },
        _ => after.raised(before, action, ErrorKind::Protocol),
    }
}

/// What the frame does with a delivery; see [`Interpreter::on_call_method_key`].
pub open spec fn call_method_key_takes(
    node: ExprId,
    this: Value,
    delivery: Delivery,
    before: &Interpreter,
    after: &Interpreter,
    action: &Action,
) -> bool {
    match delivery {
        Delivery::Value(key) => {
            &&& after.pushed(before, Frame::CallMethod { node, this })
            &&& after.next() is Waiting
            &&& action == Action::Request(HostRequest::GetProperty { object: this, key })
        },
        _ => after.raised(before, action, ErrorKind::Protocol),
    }
}

/// What the frame does with a delivery; see [`Interpreter::on_call_method`].
pub open spec fn call_method_takes(
    program: &Program,
    node: ExprId,
    this: Value,
    delivery: Delivery,
    before: &Interpreter,
    after: &Interpreter,
    action: &Action,
) -> bool {
    match delivery {
        Delivery::Value(callee) => call_goes_on(
            program,
            node,
            0,
            callee,
            this,
            Seq::empty(),
            before,
            after,
            action,
        ),
        _ => after.raised(before, action, ErrorKind::Protocol),
    }
}

/// What the frame does with a delivery; see [`Interpreter::on_call_args`].
pub open spec fn call_args_takes(
    program: &Program,
    state: CallState,
    delivery: Delivery,
    before: &Interpreter,
    after: &Interpreter,
    action: &Action,
) -> bool {
    match delivery {
        Delivery::Value(value) => call_goes_on(
            program,
            state.node,
            state.next,
            state.callee,
            state.this,
            state.args@.push(value),
            before,
            after,
            action,
        ),
        _ => after.raised(before, action, ErrorKind::Protocol),
    }
}

/// What the frame does with a delivery; see [`Interpreter::on_call_spread`].
pub open spec fn call_spread_takes(
    state: CallState,
    delivery: Delivery,
    before: &Interpreter,
    after: &Interpreter,
    action: &Action,
) -> bool {
    match delivery {
        Delivery::Value(source) => {
            &&& after.pushed(before, Frame::CallSpreadItems(state))
            &&& after.next() is Waiting
            &&& action == Action::Request(HostRequest::Iterate(source))
        },
        _ => after.raised(before, action, ErrorKind::Protocol),
    }
}

/// What the frame does with a delivery; see [`Interpreter::on_call_spread_items`].
pub open spec fn call_spread_items_takes(
    program: &Program,
    state: CallState,
    delivery: Delivery,
    before: &Interpreter,
    after: &Interpreter,
    action: &Action,
) -> bool {
    match delivery {
        Delivery::Values(items) => call_goes_on(
            program,
            state.node,
            state.next,
            state.callee,
            state.this,
            state.args@ + items@,
            before,
            after,
            action,
        ),
        _ => after.raised(before, action, ErrorKind::Protocol),
    }
}

/// What the frame does with a delivery; see [`Interpreter::on_call_rest`].
pub open spec fn call_rest_takes(
    program: &Program,
    closure: ClosureId,
    this: Value,
    args: Vec<Value>,
    delivery: Delivery,
    before: &Interpreter,
    after: &Interpreter,
    action: &Action,
) -> bool {
    match delivery {
        Delivery::Value(rest) => enters(
            program,
            before,
            after,
            action,
            closure,
            this@,
            views(args@),
            Some(rest),
        ),
        _ => after.raised(before, action, ErrorKind::Protocol),
    }
}

impl Interpreter {
    /// Begins the making of a function value: the parameter patterns are
    /// walked with a snapshot of the environment taken before any of them is
    /// bound.
    pub fn function_declaration(
        &mut self,
        program: &Program,
        function: FunctionId,
        prototype: Option<Handle>,
    ) -> (action: Action)
        requires
            old(self).inv(),
            !old(self).is_idle(),
        ensures
            final(self).stepped(old(self), &action),
            function_begins(
                program,
                function,
                prototype,
                old(self).frames(),
                old(self),
                final(self),
                &action,
            ),
    {
        match program.function(function) {
            Some(def) => {
                if def.body.is_none() {
                    return self.fail_with(
                        ErrorKind::Type,
                        "TypeError: Expected function body, got none.",
                    );
                }
                self.push_frame(Frame::MakeClosure { function, prototype });
                self.args_to_string(program, function)
            },
            None => self.broken(),
        }
    }

    /// Begins the walk of the parameter patterns of a function. It delivers
    /// the parameter names, in order, with the snapshot of the environment in
    /// which the defaults were stored.
    pub(crate) fn args_to_string(&mut self, program: &Program, function: FunctionId) -> (action:
        Action)
        requires
            old(self).inv(),
            !old(self).is_idle(),
        ensures
            final(self).stepped(old(self), &action),
            params_begin(program, function, old(self).frames(), old(self), final(self), &action),
    {
        let params = match program.function(function) {
            Some(def) => &def.params,
            None => {
                return self.broken();
            },
        };
        let mut pending: Vec<Pending> = Vec::new();
        stack_patterns(&mut pending, params);
        assert(pending@ =~= pending_patterns(params@));
        let env = self.envs().closure();
        self.push_frame(Frame::Params(ParamState { pending, names: Vec::new(), env }));
        self.tick()
    }

    /// Takes the next step in the walk of a function's parameter patterns. An
    /// identifier gives a name, a rest pattern the names of its argument, an
    /// array pattern those of its elements; a pattern with a default gives
    /// the names of its left side, and the value of the default is stored in
    /// the snapshot under the first of them.
    pub(crate) fn pat_to_string(&mut self, program: &Program, state: ParamState) -> (action:
        Action)
        requires
            old(self).inv(),
            !old(self).is_idle(),
        ensures
            final(self).stepped(old(self), &action),
            walks(program, state, old(self), final(self), &action),
    {
        let mut state = state;
        let item = match state.pending.pop() {
            Some(item) => item,
            None => {
                return self.deliver(Delivery::Params { names: state.names, env: state.env });
            },
        };
        match item {
            Pending::Pat(pat) => match program.pat(pat) {
                Some(Pat::Ident(name)) => {
                    state.names.push(name.clone());
                    self.push_frame(Frame::Params(state));
                    self.tick()
                },
                Some(Pat::Rest(arg)) => {
                    state.pending.push(Pending::Pat(*arg));
                    self.push_frame(Frame::Params(state));
                    self.tick()
                },
                Some(Pat::Assign { left, right }) => {
                    state.pending.push(Pending::Default { right: *right, mark: state.names.len() });
                    state.pending.push(Pending::Pat(*left));
                    self.push_frame(Frame::Params(state));
                    self.tick()
                },
                Some(Pat::Array(elems)) => {
                    stack_elements(&mut state.pending, elems);
                    self.push_frame(Frame::Params(state));
                    self.tick()
                },
                Some(_) => self.fail_with(
                    ErrorKind::Syntax,
                    "ERROR: Pattern is not supported for functions arguments.",
                ),
                None => self.broken(),
            },
            Pending::Default { right, mark } => {
                if mark < state.names.len() {
                    self.push_frame(Frame::ParamDefault { state, mark });
                    self.go_expr(right)
                } else {
                    self.fail_with(
                        ErrorKind::Syntax,
                        "ERROR: Pattern is not supported for functions arguments.",
                    )
                }
            },
        }
    }

    /// The walk of a function's parameter patterns takes its next turn.
    pub(crate) fn on_params(
        &mut self,
        program: &Program,
        state: ParamState,
        delivery: Delivery,
    ) -> (action: Action)
        requires
            old(self).inv(),
            !old(self).is_idle(),
        ensures
            final(self).stepped(old(self), &action),
            params_takes(program, state, delivery, old(self), final(self), &action),
    {
        match delivery {
            Delivery::Nothing => self.pat_to_string(program, state),
            _ => self.broken(),
        }
    }

    /// The default of a parameter was evaluated, at the time the function is
    /// made: the snapshot binds the parameter's name to a new cell that holds
    /// the value.
    pub(crate) fn on_param_default(
        &mut self,
        state: ParamState,
        mark: usize,
        delivery: Delivery,
    ) -> (action: Action)
        requires
            old(self).inv(),
            !old(self).is_idle(),
        ensures
            final(self).stepped(old(self), &action),
            param_default_takes(state, mark, delivery, old(self), final(self), &action),
    {
        match delivery {
            Delivery::Value(value) => {
                if mark < state.names.len() {
                    let cell = self.allocate(value);
                    let mut state = state;
                    state.env.insert(state.names[mark].as_str(), cell);
                    self.push_frame(Frame::Params(state));
                    self.tick()
                } else {
                    self.broken()
                }
            },
            _ => self.broken(),
        }
    }

    /// The parameters of a function are known. An async function is complete
    /// with that; any other also gets a natively invocable form, which the
    /// host compiles.
    pub(crate) fn on_make_closure(
        &mut self,
        program: &Program,
        function: FunctionId,
        prototype: Option<Handle>,
        delivery: Delivery,
    ) -> (action: Action)
        requires
            old(self).inv(),
            !old(self).is_idle(),
        ensures
            final(self).stepped(old(self), &action),
            make_closure_takes(
                program,
                function,
                prototype,
                delivery,
                old(self),
                final(self),
                &action,
            ),
    {
        let (names, env) = match delivery {
            Delivery::Params { names, env } => (names, env),
            _ => {
                return self.broken();
            },
        };
        let def = match program.function(function) {
            Some(def) => def,
            None => {
                return self.broken();
            },
        };
        if def.is_async {
            let closure = self.add_closure(Function::new(names, function, env, true, None, prototype));
            self.give(Value::Function(closure))
        } else {
            match new_jsfunction(&names, def.source.as_str(), &env, self.store()) {
                Ok(request) => {
                    self.push_frame(Frame::Compiled { function, names, env, prototype });
                    self.ask(request)
                },
                Err(error) => self.fail(error),
            }
        }
    }

    /// The host compiled the native form: the function value is complete.
    pub(crate) fn on_compiled(
        &mut self,
        function: FunctionId,
        names: Vec<String>,
        env: ClosedEnvironment,
        prototype: Option<Handle>,
        delivery: Delivery,
    ) -> (action: Action)
        requires
            old(self).inv(),
            !old(self).is_idle(),
        ensures
            final(self).stepped(old(self), &action),
            compiled_takes(
                function,
                names,
                env,
                prototype,
                delivery,
                old(self),
                final(self),
                &action,
            ),
    {
        match delivery {
            Delivery::Value(Value::JsFunction(native)) => {
                let closure = self.add_closure(
                    Function::new(names, function, env, false, Some(native), prototype),
                );
                self.give(Value::Function(closure))
            },
            _ => self.broken(),
        }
    }

    /// Begins a call. Where the callee is a member expression, its object is
    /// evaluated and becomes the receiver; otherwise the receiver is
    /// `undefined`.
    pub fn call_function(&mut self, program: &Program, node: ExprId) -> (action: Action)
        requires
            old(self).inv(),
            !old(self).is_idle(),
        ensures
            final(self).stepped(old(self), &action),
            call_begins(program, node, old(self), final(self), &action),
    {
        match program.expr(node) {
            Some(Expr::Call { callee, .. }) => match callee {
                Callee::Expr(expr) => match program.expr(*expr) {
                    Some(Expr::Member { obj, .. }) => {
                        self.push_frame(Frame::CallReceiver { node });
                        self.go_expr(*obj)
                    },
                    Some(_) => {
                        self.push_frame(Frame::CallCallee { node });
                        self.go_expr(*expr)
                    },
                    None => self.broken(),
                },
                Callee::Super => self.fail_with(
                    ErrorKind::Syntax,
                    "ERROR: Function callee super is not supported.",
                ),
                Callee::Import => self.fail_with(
                    ErrorKind::Syntax,
                    "ERROR: Dynamic import is not supported.",
                ),
            },
            _ => self.broken(),
        }
    }

    /// The callee of a call is known; it has no receiver. The arguments are
    /// next.
    pub(crate) fn on_call_callee(
        &mut self,
        program: &Program,
        node: ExprId,
        delivery: Delivery,
    ) -> (action: Action)
        requires
            old(self).inv(),
            !old(self).is_idle(),
        ensures
            final(self).stepped(old(self), &action),
            call_callee_takes(program, node, delivery, old(self), final(self), &action),
    {
        match delivery {
            Delivery::Value(callee) => self.call_argument(
                program,
                CallState { node, next: 0, callee, this: Value::Undefined, args: Vec::new() },
            ),
            _ => self.broken(),
        }
    }

    /// The receiver of a method call is known; the method is read from it.
    pub(crate) fn on_call_receiver(
        &mut self,
        program: &Program,
        node: ExprId,
        delivery: Delivery,
    ) -> (action: Action)
        requires
            old(self).inv(),
            !old(self).is_idle(),
        ensures
            final(self).stepped(old(self), &action),
            call_receiver_takes(program, node, delivery, old(self), final(self), &action),
    {
        let this = match delivery.into_value() {
            Some(value) => value,
            None => {
                return self.broken();
            },
        };
        match check_receiver(&this) {
            Ok(()) => {},
            Err(error) => {
                return self.fail(error);
            },
        }
        let member = match program.expr(node) {
            Some(Expr::Call { callee: Callee::Expr(member), .. }) => *member,
            _ => {
                return self.broken();
            },
        };
        match program.expr(member) {
            Some(Expr::Member { prop, .. }) => match prop {
                MemberProp::Ident(name) => {
                    let object = this.clone();
                    self.push_frame(Frame::CallMethod { node, this });
                    self.ask(HostRequest::GetProperty { object, key: Value::String(name.clone()) })
                },
                MemberProp::Computed(expr) => {
                    self.push_frame(Frame::CallMethodKey { node, this });
                    self.go_expr(*expr)
                },
                MemberProp::Private => self.fail_with(
                    ErrorKind::Syntax,
                    "ERROR: Private member expression could not be evaluated.",
                ),
            },
            _ => self.broken(),
        }
    }

    /// The computed key of a method call is known: the host reads the method
    /// from the receiver.
    pub(crate) fn on_call_method_key(
        &mut self,
        node: ExprId,
        this: Value,
        delivery: Delivery,
    ) -> (action: Action)
        requires
            old(self).inv(),
            !old(self).is_idle(),
        ensures
            final(self).stepped(old(self), &action),
            call_method_key_takes(node, this, delivery, old(self), final(self), &action),
    {
        match delivery {
            Delivery::Value(key) => {
                let object = this.clone();
                self.push_frame(Frame::CallMethod { node, this });
                self.ask(HostRequest::GetProperty { object, key })
            },
            _ => self.broken(),
        }
    }

    /// The method of a method call is known. The arguments are next.
    pub(crate) fn on_call_method(
        &mut self,
        program: &Program,
        node: ExprId,
        this: Value,
        delivery: Delivery,
    ) -> (action: Action)
        requires
            old(self).inv(),
            !old(self).is_idle(),
        ensures
            final(self).stepped(old(self), &action),
            call_method_takes(program, node, this, delivery, old(self), final(self), &action),
    {
        match delivery {
            Delivery::Value(callee) => self.call_argument(
                program,
                CallState { node, next: 0, callee, this, args: Vec::new() },
            ),
            _ => self.broken(),
        }
    }

    /// Goes on with the next argument of a call, from left to right; a spread
    /// argument is expanded through the iteration protocol.
    pub(crate) fn call_argument(&mut self, program: &Program, state: CallState) -> (action: Action)
        requires
            old(self).inv(),
            !old(self).is_idle(),
        ensures
            final(self).stepped(old(self), &action),
            call_goes_on(
                program,
                state.node,
                state.next,
                state.callee,
                state.this,
                state.args@,
                old(self),
                final(self),
                &action,
            ),
    {
        let list = match program.expr(state.node) {
            Some(Expr::Call { args, .. }) => args,
            _ => {
                return self.broken();
            },
        };
        let index = state.next;
        if index >= list.len() {
            return self.invoke(program, state.callee, state.this, state.args);
        }
        let argument = list[index];
        let mut state = state;
        state.next = index + 1;
        if argument.spread {
            self.push_frame(Frame::CallSpread(state));
        } else {
            self.push_frame(Frame::CallArgs(state));
        }
        self.go_expr(argument.expr)
    }

    /// An argument of a call is known.
    pub(crate) fn on_call_args(
        &mut self,
        program: &Program,
        state: CallState,
        delivery: Delivery,
    ) -> (action: Action)
        requires
            old(self).inv(),
            !old(self).is_idle(),
        ensures
            final(self).stepped(old(self), &action),
            call_args_takes(program, state, delivery, old(self), final(self), &action),
    {
        match delivery {
            Delivery::Value(value) => {
                let mut state = state;
                state.args.push(value);
                self.call_argument(program, state)
            },
            _ => self.broken(),
        }
    }

    /// The source of a spread argument is known: the host lists what
    /// iterating it yields.
    pub(crate) fn on_call_spread(&mut self, state: CallState, delivery: Delivery) -> (action:
        Action)
        requires
            old(self).inv(),
            !old(self).is_idle(),
        ensures
            final(self).stepped(old(self), &action),
            call_spread_takes(state, delivery, old(self), final(self), &action),
    {
        match delivery {
            Delivery::Value(source) => {
                self.push_frame(Frame::CallSpreadItems(state));
                self.ask(HostRequest::Iterate(source))
            },
            _ => self.broken(),
        }
    }

    /// The host listed what a spread argument yields: each item is an
    /// argument of the call.
    pub(crate) fn on_call_spread_items(
        &mut self,
        program: &Program,
        state: CallState,
        delivery: Delivery,
    ) -> (action: Action)
        requires
            old(self).inv(),
            !old(self).is_idle(),
        ensures
            final(self).stepped(old(self), &action),
            call_spread_items_takes(program, state, delivery, old(self), final(self), &action),
    {
        match delivery {
            Delivery::Values(items) => {
                let mut state = state;
                let mut items = items;
                state.args.append(&mut items);
                self.call_argument(program, state)
            },
            _ => self.broken(),
        }
    }

    /// Calls `callee` with a receiver and arguments. An interpreted function
    /// binds its parameters by position; with more arguments than parameters
    /// the last parameter receives the excess as an array, with fewer the
    /// call fails. A host function is applied by the host. Anything else is
    /// no function.
    pub(crate) fn invoke(
        &mut self,
        program: &Program,
        callee: Value,
        this: Value,
        args: Vec<Value>,
    ) -> (action: Action)
        requires
            old(self).inv(),
            !old(self).is_idle(),
        ensures
            final(self).stepped(old(self), &action),
            invokes(program, old(self), final(self), &action, callee, this, args@),
    {
        match callee {
            Value::Function(closure) => {
                let parameters = match self.store().closure(closure) {
                    Some(function) => function.args.len(),
                    None => {
                        return self.broken();
                    },
                };
                match bind_arguments(parameters, args.len()) {
                    Binding::Exact => self.enter_function(program, closure, this, args, None),
                    Binding::Rest { positional } => {
                        let mut args = args;
                        let rest = args.split_off(positional);
                        self.push_frame(Frame::CallRest { closure, this, args });
                        self.ask(HostRequest::CreateArray(rest))
                    },
                    Binding::TooFew => self.fail_with(
                        ErrorKind::Arity,
                        "ERROR: The function requires more arguments than were given.",
                    ),
                    Binding::NoParameter => self.fail_with(
                        ErrorKind::Arity,
                        "ERROR: Too few functions arguments.",
                    ),
                }
            },
            Value::JsFunction(_) => self.ask(HostRequest::Apply { function: callee, this, args }),
            _ => self.fail_with(ErrorKind::Type, "TypeError: The callee is not a function."),
        }
    }

    /// The host made the array of the excess arguments: the function is
    /// entered, and its last parameter receives the array.
    pub(crate) fn on_call_rest(
        &mut self,
        program: &Program,
        closure: ClosureId,
        this: Value,
        args: Vec<Value>,
        delivery: Delivery,
    ) -> (action: Action)
        requires
            old(self).inv(),
            !old(self).is_idle(),
        ensures
            final(self).stepped(old(self), &action),
            call_rest_takes(
                program,
                closure,
                this,
                args,
                delivery,
                old(self),
                final(self),
                &action,
            ),
    {
        match delivery {
            Delivery::Value(rest) => self.enter_function(program, closure, this, args, Some(rest)),
            _ => self.broken(),
        }
    }

    /// Enters the body of an interpreted function: the environment of the
    /// call holds the captured bindings and, above them, a new frame with
    /// `this` (where the receiver is an object) and the parameters. The
    /// arguments go to the parameters by position, and `rest` to the
    /// parameter after them.
    pub(crate) fn enter_function(
        &mut self,
        program: &Program,
        closure: ClosureId,
        this: Value,
        args: Vec<Value>,
        rest: Option<Value>,
    ) -> (action: Action)
        requires
            old(self).inv(),
            !old(self).is_idle(),
        ensures
            final(self).stepped(old(self), &action),
            enters(program, old(self), final(self), &action, closure, this@, views(args@), rest),
    {
        let (names, captured, body, is_async) = match self.store().closure(closure) {
            Some(function) => (
                clone_names(&function.args),
                function.env.clone(),
                function.body,
                function.async_,
            ),
            None => {
                return self.broken();
            },
        };
        let ghost function = old(self).heap().spec_closure(closure as int);
        let ghost first = old(self).heap()@.len();
        let ghost cells = old(self).heap()@;
        let ghost params = texts(function.args@);
        proof {
            assert(texts(names@) =~= params);
        }
        let mut env = Environments::from_closed_env(captured);
        env.push_env();
        self.enter_call(env, is_async);
        let ghost mut bound: Seq<Seq<char>> = Seq::empty();
        let ghost mut held: Seq<ValueView> = Seq::empty();
        proof {
            assert(self.scopes()@ =~= seq![function.env@, bind_all(bound, first)]);
            assert(self.heap()@ =~= cells + held);
        }
        if this.is_object() {
            let ghost receiver = this@;
            match self.declare("this", this) {
                Ok(_) => {},
                Err(error) => {
                    return self.fail(error);
                },
            }
            proof {
                lemma_bind_all_push(bound, "this"@, first);
                bound = bound.push("this"@);
                held = held.push(receiver);
                assert(self.scopes()@ =~= seq![function.env@, bind_all(bound, first)]);
                assert(self.heap()@ =~= cells + held);
            }
        }
        let ghost start = bound;
        let ghost start_held = held;
        let mut i: usize = 0;
        proof {
            assert(start + params.take(0) =~= bound);
            assert(start_held + views(args@).take(0) =~= held);
        }
        while i < args.len() && i < names.len()
            invariant
                self.inv(),
                !self.is_idle(),
                self.base_depth() == old(self).base_depth(),
                self.next() == old(self).next(),
                i <= args@.len(),
                i <= names@.len(),
                texts(names@) == params,
                cells.len() == first,
                bound == start + params.take(i as int),
                held == start_held + views(args@).take(i as int),
                bound.len() == held.len(),
                self.scopes()@ == seq![function.env@, bind_all(bound, first)],
                self.heap()@ == cells + held,
                self.heap().same_closures(&old(self).heap()),
                self.frames() == old(self).frames().push(
                    Frame::Call { saved: old(self).scopes(), is_async },
                ),
            decreases args@.len() - i,
        {
            let ghost name = names@[i as int]@;
            let ghost value = args@[i as int]@;
            match self.declare(names[i].as_str(), args[i].clone()) {
                Ok(_) => {},
                Err(error) => {
                    return self.fail(error);
                },
            }
            proof {
                lemma_bind_all_push(bound, name, first);
                assert(params.take(i + 1) =~= params.take(i as int).push(name));
                assert(views(args@).take(i + 1) =~= views(args@).take(i as int).push(value));
                bound = bound.push(name);
                held = held.push(value);
                assert(bound =~= start + params.take(i + 1));
                assert(held =~= start_held + views(args@).take(i + 1));
                assert(self.scopes()@ =~= seq![function.env@, bind_all(bound, first)]);
                assert(self.heap()@ =~= cells + held);
            }
            i = i + 1;
        }
        match rest {
            Some(array) => {
                if i < names.len() {
                    let ghost name = names@[i as int]@;
                    let ghost value = array@;
                    match self.declare(names[i].as_str(), array) {
                        Ok(_) => {},
                        Err(error) => {
                            return self.fail(error);
                        },
                    }
                    proof {
                        lemma_bind_all_push(bound, name, first);
                        bound = bound.push(name);
                        held = held.push(value);
                        assert(self.scopes()@ =~= seq![function.env@, bind_all(bound, first)]);
                        assert(self.heap()@ =~= cells + held);
                    }
                }
            },
            None => {},
        }
        proof {
            assert(bound =~= call_names(this@, params, args@.len(), rest is Some));
            assert(held =~= call_values(this@, params.len(), views(args@), rest));
        }
        match program.function(body) {
            Some(def) => match def.body {
                Some(block) => self.eval(program, block),
                None => self.give(Value::Undefined),
            },
            None => self.broken(),
        }
    }
}

/// The contents of a list of values.
pub open spec fn views(values: Seq<Value>) -> Seq<ValueView> {
    values.map_values(|v: Value| v@)
}

/// How many arguments a call binds by position.
pub open spec fn positional(parameters: nat, arguments: nat) -> nat {
    if arguments < parameters {
        arguments
    } else {
        parameters
    }
}

/// The names that a call binds, in the order in which it binds them: `this`
/// where the receiver is an object, the parameters that receive an argument
/// by position, and the parameter after them where there is a rest.
pub open spec fn call_names(this: ValueView, params: Seq<Seq<char>>, arguments: nat, rest: bool) -> Seq<
    Seq<char>,
> {
    let bound = positional(params.len(), arguments);
    (if this is Object {
        seq!["this"@]
    } else {
        Seq::empty()
    }) + params.take(bound as int) + (if rest && bound < params.len() {
        seq![params[bound as int]]
    } else {
        Seq::empty()
    })
}

/// The values that a call binds, in the order of [`call_names`].
pub open spec fn call_values(
    this: ValueView,
    parameters: nat,
    args: Seq<ValueView>,
    rest: Option<Value>,
) -> Seq<ValueView> {
    let bound = positional(parameters, args.len());
    (if this is Object {
        seq![this]
    } else {
        Seq::empty()
    }) + args.take(bound as int) + (match rest {
        Some(array) => if bound < parameters {
            seq![array@]
        } else {
            Seq::empty()
        },
        None => Seq::empty(),
    })
}

/// The scope in which each name of a list is bound, in order, to a new cell,
/// the first of them to the cell `first`. A later name replaces an earlier
/// one that is the same.
pub open spec fn bind_all(names: Seq<Seq<char>>, first: nat) -> Map<Seq<char>, BindingId>
    decreases names.len(),
{
    if names.len() == 0 {
        Map::empty()
    } else {
        bind_all(names.drop_last(), first).insert(
            names.last(),
            (first + names.len() - 1) as BindingId,
        )
    }
}

proof fn lemma_bind_all_push(names: Seq<Seq<char>>, name: Seq<char>, first: nat)
    ensures
        bind_all(names.push(name), first) == bind_all(names, first).insert(
            name,
            (first + names.len()) as BindingId,
        ),
{
    assert(names.push(name).drop_last() =~= names);
}

/// What it means to enter the body of the closure at `closure`: the
/// environment becomes that of the call, which holds the bindings that the
/// closure captured and, above them, one frame with the names that the call
/// binds, each in a new cell; the caller's environment is kept on the
/// continuation; and the body begins.
pub open spec fn enters(
    program: &Program,
    before: &Interpreter,
    after: &Interpreter,
    action: &Action,
    closure: ClosureId,
    this: ValueView,
    args: Seq<ValueView>,
    rest: Option<Value>,
) -> bool {
    if closure >= before.heap().closure_count() {
        after.raised(before, action, ErrorKind::Protocol)
    } else {
        let function = before.heap().spec_closure(closure as int);
        let params = texts(function.args@);
        let from = before.frames().push(
            Frame::Call { saved: before.scopes(), is_async: function.async_ },
        );
        &&& after.scopes()@ == seq![
            function.env@,
            bind_all(call_names(this, params, args.len(), rest is Some), before.heap()@.len()),
        ]
        &&& after.heap()@ == before.heap()@ + call_values(this, params.len(), args, rest)
        &&& after.heap().same_closures(&before.heap())
        &&& action is Continue
        &&& if function.body >= program.functions@.len() {
            after.frames() == from && after.fails(ErrorKind::Protocol)
        } else {
            match program.functions@[function.body as int].body {
                Some(block) => crate::evaluator::begins(program, block, from, after, action),
                None => after.frames() == from && after.next() == Control::Deliver(
                    Delivery::Value(Value::Undefined),
                ),
            }
        }
    }
}

/// What it means to call `callee` with a receiver and arguments. An
/// interpreted function is entered if there is one argument for each
/// parameter; with more arguments the host first makes an array of the
/// excess, for the last parameter; with fewer the call fails. A host
/// function is applied by the host. Anything else is no function.
pub open spec fn invokes(
    program: &Program,
    before: &Interpreter,
    after: &Interpreter,
    action: &Action,
    callee: Value,
    this: Value,
    args: Seq<Value>,
) -> bool {
    match callee@ {
        ValueView::Function(closure) => if closure >= before.heap().closure_count() {
            after.raised(before, action, ErrorKind::Protocol)
        } else {
            match binding_rule(
                before.heap().spec_closure(closure as int).args@.len() as usize,
                args.len() as usize,
            ) {
                Binding::Exact => enters(
                    program,
                    before,
                    after,
                    action,
                    closure,
                    this@,
                    views(args),
                    None,
                ),
                Binding::Rest { positional } => {
                    &&& after.frames().len() == before.frames().len() + 1
                    &&& after.frames().drop_last() == before.frames()
                    &&& after.frames().last() matches Frame::CallRest {
                        closure: c,
                        this: t,
                        args: first,
                    }
                    &&& c == closure
                    &&& t == this
                    &&& first@ == args.subrange(0, positional as int)
                    &&& after.scopes() == before.scopes()
                    &&& after.heap() == before.heap()
                    &&& after.next() is Waiting
                    &&& action matches Action::Request(HostRequest::CreateArray(excess))
                    &&& excess@ == args.subrange(positional as int, args.len() as int)
                },
                Binding::TooFew => after.raised(before, action, ErrorKind::Arity),
                Binding::NoParameter => after.raised(before, action, ErrorKind::Arity),
            }
        },
        ValueView::JsFunction(_) => {
            &&& after.keeps(before)
            &&& after.next() is Waiting
            &&& action matches Action::Request(
                HostRequest::Apply { function, this: receiver, args: given },
            )
            &&& function == callee
            &&& receiver == this
            &&& given@ == args
        },
        _ => after.raised(before, action, ErrorKind::Type),
    }
}

/// How one identifier found in a function's native source is treated.
pub enum Treatment {
    /// It is a parameter, or names nothing that is known: it stays free.
    Skip,
    /// It is bound when the native form is made.
    Capture(CaptureView),
    /// The snapshot binds it to a cell that does not exist.
    Dangling,
}

/// How a hygienic name is treated: a parameter is skipped; a name that the
/// snapshot binds is captured with the value of its cell; a global name is
/// captured as one; any other name is skipped.
pub open spec fn treatment(
    name: Seq<char>,
    params: Seq<Seq<char>>,
    env: Map<Seq<char>, BindingId>,
    cells: Seq<ValueView>,
) -> Treatment {
    if params.contains(name) {
        Treatment::Skip
    } else {
        match plain_name(name) {
            None => Treatment::Skip,
            Some(plain) => if env.contains_key(plain) {
                if env[plain] < cells.len() {
                    Treatment::Capture(CaptureView::Value(cells[env[plain] as int]))
                } else {
                    Treatment::Dangling
                }
            } else if is_global_name(plain) {
                Treatment::Capture(CaptureView::Global(plain))
            } else {
                Treatment::Skip
            },
        }
    }
}

/// The names that are captured, in the order of `names`, each with what it
/// is bound to; `None` where a cell does not exist.
pub open spec fn captured(
    names: Seq<Seq<char>>,
    params: Seq<Seq<char>>,
    env: Map<Seq<char>, BindingId>,
    cells: Seq<ValueView>,
) -> Option<Seq<(Seq<char>, CaptureView)>>
    decreases names.len(),
{
    if names.len() == 0 {
        Some(Seq::empty())
    } else {
        match captured(names.drop_last(), params, env, cells) {
            None => None,
            Some(rest) => match treatment(names.last(), params, env, cells) {
                Treatment::Skip => Some(rest),
                Treatment::Capture(capture) => Some(rest.push((names.last(), capture))),
                Treatment::Dangling => None,
            },
        }
    }
}

/// The names and the captures of a list of pairs.
pub open spec fn capture_views(pairs: Seq<(String, Capture)>) -> Seq<(Seq<char>, CaptureView)> {
    pairs.map_values(|p: (String, Capture)| (p.0@, p.1@))
}

/// Decides, for each identifier found in a function's native source, whether
/// and how it is bound when the native form is made. `names` are the
/// identifiers found, `params` the hygienic names of the parameters.
pub fn plan_captures(
    names: &Vec<String>,
    params: &Vec<String>,
    env: &ClosedEnvironment,
    store: &Store,
) -> (r: Result<Vec<(String, Capture)>, EvalError>)
    ensures
        match captured(texts(names@), texts(params@), env@, store@) {
            Some(plan) => r is Ok && capture_views(r->Ok_0@) == plan,
            None => r is Err && r->Err_0.kind == ErrorKind::Protocol,
        },
{
    let mut pairs: Vec<(String, Capture)> = Vec::new();
    let mut i: usize = 0;
    assert(texts(names@).take(0) =~= Seq::<Seq<char>>::empty());
    assert(capture_views(pairs@) =~= Seq::<(Seq<char>, CaptureView)>::empty());
    assert(texts(names@).take(names@.len() as int) =~= texts(names@));
    while i < names.len()
        invariant
            i <= names@.len(),
            texts(names@).take(names@.len() as int) == texts(names@),
            captured(texts(names@).take(i as int), texts(params@), env@, store@) == Some(
                capture_views(pairs@),
            ),
        ensures
            i <= names@.len(),
            i == names@.len() ==> captured(texts(names@), texts(params@), env@, store@) == Some(
                capture_views(pairs@),
            ),
            i < names@.len() ==> captured(texts(names@), texts(params@), env@, store@) is None,
        decreases names@.len() - i,
    {
        let name = &names[i];
        proof {
            let more = texts(names@).take(i + 1);
            assert(more.drop_last() =~= texts(names@).take(i as int));
            assert(more.last() == name@);
        }
        let ghost before = capture_views(pairs@);
        let mut dangling = false;
        if !contains_name(params, name.as_str()) {
            match strip_hygiene(name.as_str()) {
                Some(plain) => match env.bindings().get(plain.as_str()) {
                    Some(cell) => match store.read(cell) {
                        Some(value) => {
                            pairs.push((name.clone(), Capture::Value(value.clone())));
                            assert(capture_views(pairs@) =~= before.push(
                                (name@, CaptureView::Value(store@[cell as int])),
                            ));
                        },
                        None => {
                            dangling = true;
                        },
                    },
                    None => {
                        if in_global_this(plain.as_str()) {
                            pairs.push((name.clone(), Capture::Global(plain)));
                            assert(capture_views(pairs@) =~= before.push(
                                (name@, CaptureView::Global(plain@)),
                            ));
                        }
                    },
                },
                None => {},
            }
        }
        if dangling {
            proof {
                lemma_captured_fails(texts(names@), texts(params@), env@, store@, i + 1);
            }
            break;
        }
        i = i + 1;
    }
    if i < names.len() {
        Err(EvalError::with_text(ErrorKind::Protocol, "ERROR: No such binding."))
    } else {
        Ok(pairs)
    }
}

/// Once a prefix of the names fails, the whole list fails.
proof fn lemma_captured_fails(
    names: Seq<Seq<char>>,
    params: Seq<Seq<char>>,
    env: Map<Seq<char>, BindingId>,
    cells: Seq<ValueView>,
    n: int,
)
    requires
        0 <= n <= names.len(),
        captured(names.take(n), params, env, cells) is None,
    ensures
        captured(names, params, env, cells) is None,
    decreases names.len() - n,
{
    if n == names.len() {
        assert(names.take(n) =~= names);
    } else {
        assert(names.take(n + 1).drop_last() =~= names.take(n));
        lemma_captured_fails(names, params, env, cells, n + 1);
    }
}

/// The parameters and captures of the native form of a function: the names
/// captured from the identifiers of the source come first, bound in order to
/// their captures, and the hygienic names of the function's own parameters
/// follow. `None` where a captured cell does not exist.
pub open spec fn native_plan(
    args: Seq<Seq<char>>,
    source: Seq<char>,
    env: Map<Seq<char>, BindingId>,
    cells: Seq<ValueView>,
) -> Option<(Seq<Seq<char>>, Seq<CaptureView>)> {
    let params = args.map_values(|name: Seq<char>| "weblab_"@ + name);
    let names = match identifiers_in(source) {
        Some(names) => names,
        None => Seq::empty(),
    };
    match captured(names, params, env, cells) {
        Some(plan) => Some(
            (
                plan.map_values(|p: (Seq<char>, CaptureView)| p.0) + params,
                plan.map_values(|p: (Seq<char>, CaptureView)| p.1),
            ),
        ),
        None => None,
    }
}

/// Plans the natively invocable form of a function from its parameter names,
/// its body as native source, and the snapshot of the environment it was
/// defined in: the request that the host compiles.
pub fn new_jsfunction(
    args: &Vec<String>,
    source: &str,
    env: &ClosedEnvironment,
    store: &Store,
) -> (r: Result<HostRequest, EvalError>)
    ensures
        match native_plan(texts(args@), source@, env@, store@) {
            Some((names, bound)) => {
                &&& r is Ok
                &&& r->Ok_0 matches HostRequest::Compile { params, captures, body }
                &&& texts(params@) == names
                &&& captures@.map_values(|c: Capture| c@) == bound
                &&& body@ == source@
            },
            None => r is Err && r->Err_0.kind == ErrorKind::Protocol,
        },
{
    let own = hygienic_names(args);
    assert(texts(own@) =~= texts(args@).map_values(|name: Seq<char>| "weblab_"@ + name));
    let names = match get_variable_names(source) {
        Some(names) => names,
        None => Vec::new(),
    };
    assert(identifiers_in(source@) is None ==> texts(names@) =~= Seq::<Seq<char>>::empty());
    let pairs = match plan_captures(&names, &own, env, store) {
        Ok(pairs) => pairs,
        Err(error) => {
            return Err(error);
        },
    };
    let mut params: Vec<String> = Vec::new();
    let mut captures: Vec<Capture> = Vec::new();
    let ghost plan = capture_views(pairs@);
    let mut pairs = pairs;
    let mut i: usize = 0;
    let n = pairs.len();
    // The pairs are taken apart from the front, in order.
    let mut rest: Vec<(String, Capture)> = Vec::new();
    std::mem::swap(&mut rest, &mut pairs);
    while i < n
        invariant
            i <= n,
            n == rest@.len(),
            capture_views(rest@) == plan,
            params@.len() == i,
            captures@.len() == i,
            forall|j: int| 0 <= j < i ==> (#[trigger] params@[j])@ == plan[j].0,
            forall|j: int| 0 <= j < i ==> (#[trigger] captures@[j])@ == plan[j].1,
        decreases n - i,
    {
        let name = rest[i].0.clone();
        let capture = match &rest[i].1 {
            Capture::Value(value) => Capture::Value(value.clone()),
            Capture::Global(name) => Capture::Global(name.clone()),
        };
        assert(capture_views(rest@)[i as int] == (rest@[i as int].0@, rest@[i as int].1@));
        params.push(name);
        captures.push(capture);
        i = i + 1;
    }
    let ghost front = texts(params@);
    let mut own = own;
    let ghost back = texts(own@);
    params.append(&mut own);
    assert(front =~= plan.map_values(|p: (Seq<char>, CaptureView)| p.0));
    assert(texts(params@) =~= front + back);
    assert(captures@.map_values(|c: Capture| c@) =~= plan.map_values(
        |p: (Seq<char>, CaptureView)| p.1,
    ));
    Ok(HostRequest::Compile { params, captures, body: source.to_owned() })
}

} // verus!
