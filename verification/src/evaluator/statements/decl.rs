//! Declarations and destructuring.
//!
//! A pattern is bound in one of two ways: a declaration creates its bindings
//! in the innermost scope, an assignment updates the bindings that exist and
//! creates those that do not.

use vstd::prelude::*;
use crate::ast::{Decl, Expr, ExprId, ForInit, ObjectPatProp, Pat, PatId, Program, Stmt, StmtId, VarDeclarator};
use crate::error::{ErrorKind, EvalError};
use crate::evaluator::objects::{get_prop_name, KeyPlan};
use crate::host::HostRequest;
use crate::evaluator::statements::stmt_at;
use crate::machine::{
    Action, ArrayPatState, Control, DeclOrAssign, Delivery, Frame, Interpreter, ObjectPatState,
};
use crate::ast::PropName;
use crate::value::{Value, ValueView};

verus! {

/// The declarators of a variable declaration, be it a statement or the head
/// of a `for` loop.
pub open spec fn declarators_of(stmt: Stmt) -> Option<Vec<VarDeclarator>> {
    match stmt {
        Stmt::Decl(Decl::Var(list)) => Some(list),
        Stmt::For { init: Some(ForInit::VarDecl(list)), .. } => Some(list),
        _ => None,
    }
}

/// Finds [`declarators_of`] the statement at `stmt`.
pub fn declarators(program: &Program, stmt: StmtId) -> (r: Option<&Vec<VarDeclarator>>)
    ensures
        match r {
            Some(list) => stmt < program.stmts@.len() && declarators_of(program.stmts@[stmt as int])
                == Some(*list),
            None => stmt >= program.stmts@.len() || declarators_of(program.stmts@[stmt as int])
                is None,
        },
{
    match program.stmt(stmt) {
        Some(Stmt::Decl(Decl::Var(list))) => Some(list),
        Some(Stmt::For { init: Some(ForInit::VarDecl(list)), .. }) => Some(list),
        _ => None,
    }
}

/// What binding a pattern evaluates to: `undefined` for a declaration, the
/// right-hand side for an assignment.
pub fn completion(mode: DeclOrAssign, rhs: Value) -> (v: Value)
    ensures
        v == (match mode {
            DeclOrAssign::Decl => Value::Undefined,
            DeclOrAssign::Assign => rhs,
        }),
{
    match mode {
        DeclOrAssign::Decl => Value::Undefined,
        DeclOrAssign::Assign => rhs,
    }
}

/// The elements that a trailing rest element of an array pattern captures:
/// those from position `start` on, and none where there are fewer.
pub fn rest_elements(values: &Vec<Value>, start: usize) -> (rest: Vec<Value>)
    ensures
        rest@ == (if start <= values@.len() {
            values@.subrange(start as int, values@.len() as int)
        } else {
            Seq::<Value>::empty()
        }),
{
    let mut rest: Vec<Value> = Vec::new();
    if start > values.len() {
        return rest;
    }
    let mut i: usize = start;
    while i < values.len()
        invariant
            start <= i <= values.len(),
            rest@ == values@.subrange(start as int, i as int),
        decreases values.len() - i,
    {
        rest.push(values[i].clone());
        assert(rest@ =~= values@.subrange(start as int, i + 1));
        i = i + 1;
    }
    rest
}

/// The value at position `index`, and `undefined` past the end.
pub fn element_or_undefined(values: &Vec<Value>, index: usize) -> (v: Value)
    ensures
        v == (if index < values@.len() {
            values@[index as int]
        } else {
            Value::Undefined
        }),
{
    if index < values.len() {
        values[index].clone()
    } else {
        Value::Undefined
    }
}

/// The pattern at `pat`, if there is one.
pub open spec fn pat_at(program: &Program, pat: PatId) -> Option<Pat> {
    if pat < program.pats@.len() {
        Some(program.pats@[pat as int])
    } else {
        None
    }
}

/// The expression at `expr`, if there is one.
pub open spec fn expr_at(program: &Program, expr: crate::ast::ExprId) -> Option<Expr> {
    if expr < program.exprs@.len() {
        Some(program.exprs@[expr as int])
    } else {
        None
    }
}

/// A name is bound to a value and the binding evaluates: a declaration
/// creates the binding in the innermost scope and evaluates to `undefined`;
/// an assignment updates the environment and evaluates to the value.
pub open spec fn binds(
    before: &Interpreter,
    after: &Interpreter,
    action: &Action,
    name: Seq<char>,
    value: Value,
    mode: DeclOrAssign,
) -> bool {
    &&& action is Continue
    &&& after.frames() == before.frames()
    &&& match mode {
        DeclOrAssign::Decl => if before.depth() > 0 {
            &&& after.declared(before, name, value@)
            &&& after.next() == Control::Deliver(Delivery::Value(Value::Undefined))
        } else {
            &&& after.fails(ErrorKind::Name)
            &&& after.scopes()@ == before.scopes()@
            &&& after.heap()@ == before.heap()@
            &&& after.heap().same_closures(&before.heap())
        },
        DeclOrAssign::Assign => {
            &&& after.assigned(before, name, value@)
            &&& if before.assignable(name, value@) {
                after.next() == Control::Deliver(Delivery::Value(value))
            } else {
                after.next() is Raise
            }
        },
    }
}

/// As [`binds`], for a value known by its content.
pub open spec fn binds_name(
    before: &Interpreter,
    after: &Interpreter,
    action: &Action,
    name: Seq<char>,
    value: ValueView,
    mode: DeclOrAssign,
) -> bool {
    &&& action is Continue
    &&& after.frames() == before.frames()
    &&& match mode {
        DeclOrAssign::Decl => if before.depth() > 0 {
            &&& after.declared(before, name, value)
            &&& after.next() == Control::Deliver(Delivery::Value(Value::Undefined))
        } else {
            &&& after.fails(ErrorKind::Name)
            &&& after.scopes()@ == before.scopes()@
            &&& after.heap()@ == before.heap()@
            &&& after.heap().same_closures(&before.heap())
        },
        DeclOrAssign::Assign => {
            &&& after.assigned(before, name, value)
            &&& if before.assignable(name, value) {
                &&& after.next() matches Control::Deliver(Delivery::Value(given))
                &&& given@ == value
            } else {
                after.next() is Raise
            }
        },
    }
}

/// How a variable declaration goes on with the declarator at `next`, on a
/// continuation that was `from`: the initialiser is evaluated first, and a
/// declarator without one is bound to `undefined`.
pub open spec fn declares(
    program: &Program,
    stmt: StmtId,
    next: usize,
    from: Seq<Frame>,
    after: &Interpreter,
    action: &Action,
) -> bool {
    &&& action is Continue
    &&& match stmt_at(program, stmt) {
        None => after.frames() == from && after.fails(ErrorKind::Protocol),
        Some(node) => match declarators_of(node) {
            None => after.frames() == from && after.fails(ErrorKind::Protocol),
            Some(list) => if list@.len() == 0 {
                after.frames() == from && after.fails(ErrorKind::Reference)
            } else if next >= list@.len() {
                after.frames() == from && after.next() == Control::Deliver(
                    Delivery::Value(Value::Undefined),
                )
            } else {
                match list@[next as int].init {
                    Some(init) => after.frames() == from.push(Frame::VarInit { stmt, index: next })
                        && after.next() == Control::Expr(init),
                    None => after.frames() == from.push(
                        Frame::VarDecls { stmt, next: (next + 1) as usize },
                    ) && after.next() == (Control::Pattern {
                        pat: list@[next as int].name,
                        value: Value::Undefined,
                        mode: DeclOrAssign::Decl,
                    }),
                }
            },
        },
    }
}

/// How a declaration begins, on a continuation that was `from`: a variable
/// declaration with its first declarator; a function or class declaration
/// with the making of the function or class, whose name is bound afterwards.
pub open spec fn declaration_begins(
    program: &Program,
    stmt: StmtId,
    from: Seq<Frame>,
    before: &Interpreter,
    after: &Interpreter,
    action: &Action,
) -> bool {
    &&& action is Continue
    &&& match stmt_at(program, stmt) {
        Some(Stmt::Decl(decl)) => match decl {
            Decl::Var(_) => {
                &&& declares(program, stmt, 0, from, after, action)
                &&& after.scopes() == before.scopes()
                &&& after.heap() == before.heap()
            },
            Decl::Fn { function, .. } => crate::evaluator::functions::function_begins(
                program,
                function,
                None,
                from.push(Frame::DeclareName { stmt }),
                before,
                after,
                action,
            ),
            Decl::Class { class, .. } => crate::evaluator::class::class_begins(
                program,
                class,
                from.push(Frame::DeclareName { stmt }),
                before,
                after,
                action,
            ),
            Decl::Unsupported(_) => after.failed_on(before, from, ErrorKind::Syntax),
        },
        _ => after.failed_on(before, from, ErrorKind::Protocol),
    }
}

/// The elements of an array pattern.
pub open spec fn elements_at(program: &Program, pat: PatId) -> Option<Vec<Option<PatId>>> {
    match pat_at(program, pat) {
        Some(Pat::Array(elems)) => Some(elems),
        _ => None,
    }
}

/// The members of an object pattern.
pub open spec fn members_at(program: &Program, pat: PatId) -> Option<Vec<ObjectPatProp>> {
    match pat_at(program, pat) {
        Some(Pat::Object(props)) => Some(props),
        _ => None,
    }
}

/// The values that the rest element of an array pattern of `count` elements
/// captures: those from the position of the pattern's last element on.
pub open spec fn rest_of(values: Seq<Value>, count: nat) -> Seq<Value> {
    if count - 1 <= values.len() {
        values.subrange(count - 1, values.len() as int)
    } else {
        Seq::empty()
    }
}

/// How an array pattern goes on with the element at `state.next`: position
/// by position, a hole skipping one value, a missing value counting as
/// `undefined`; for a rest element the host makes the array of the values it
/// captures. After the last element the binding is complete.
pub open spec fn array_pattern_goes(
    program: &Program,
    state: ArrayPatState,
    before: &Interpreter,
    after: &Interpreter,
    action: &Action,
) -> bool {
    match elements_at(program, state.pat) {
        None => after.raised(before, action, ErrorKind::Protocol),
        Some(elems) => if state.next >= elems@.len() {
            after.gave(
                before,
                action,
                match state.mode {
                    DeclOrAssign::Decl => Value::Undefined,
                    DeclOrAssign::Assign => state.rhs,
                },
            )
        } else {
            let next = ArrayPatState { next: (state.next + 1) as usize, ..state };
            match elems@[state.next as int] {
                None => {
                    &&& after.pushed(before, Frame::PatArrayNext(next))
                    &&& after.next() == Control::Deliver(Delivery::Nothing)
                    &&& action is Continue
                },
                Some(element) => match pat_at(program, element) {
                    None => after.raised(before, action, ErrorKind::Protocol),
                    Some(Pat::Rest(arg)) => {
                        &&& after.pushed(before, Frame::PatArrayRest { state: next, arg })
                        &&& after.next() is Waiting
                        &&& action matches Action::Request(HostRequest::CreateArray(rest))
                        &&& rest@ == rest_of(state.values@, elems@.len())
                    },
                    Some(_) => {
                        &&& after.pushed(before, Frame::PatArrayNext(next))
                        &&& after.next() == (Control::Pattern {
                            pat: element,
                            value: if state.next < state.values@.len() {
                                state.values@[state.next as int]
                            } else {
                                Value::Undefined
                            },
                            mode: state.mode,
                        })
                        &&& action is Continue
                    },
                },
            }
        },
    }
}

/// A member of an object pattern has its value: a shorthand member binds its
/// name to it, a member with a pattern binds the pattern; the object
/// pattern goes on afterwards.
pub open spec fn member_binds(
    program: &Program,
    state: ObjectPatState,
    value: Value,
    before: &Interpreter,
    after: &Interpreter,
    action: &Action,
) -> bool {
    match members_at(program, state.pat) {
        None => after.raised(before, action, ErrorKind::Protocol),
        Some(props) => if state.next == 0 || state.next > props@.len() {
            after.raised(before, action, ErrorKind::Protocol)
        } else {
            match props@[state.next - 1] {
                ObjectPatProp::Assign { key, .. } => {
                    &&& action is Continue
                    &&& match state.mode {
                        DeclOrAssign::Decl => if before.depth() > 0 {
                            &&& after.declared(before, key@, value@)
                            &&& after.frames() == before.frames().push(
                                Frame::PatObjectNext(state),
                            )
                            &&& after.next() == Control::Deliver(
                                Delivery::Value(Value::Undefined),
                            )
                        } else {
                            after.frames() == before.frames() && after.fails(ErrorKind::Name)
                        },
                        DeclOrAssign::Assign => {
                            &&& after.assigned(before, key@, value@)
                            &&& if before.assignable(key@, value@) {
                                &&& after.frames() == before.frames().push(
                                    Frame::PatObjectNext(state),
                                )
                                &&& after.next() == Control::Deliver(
                                    Delivery::Value(Value::Undefined),
                                )
                            } else {
                                after.frames() == before.frames() && after.next() is Raise
                            }
                        },
                    }
                },
                ObjectPatProp::KeyValue { value: target, .. } => {
                    &&& after.pushed(before, Frame::PatObjectNext(state))
                    &&& after.next() == (Control::Pattern {
                        pat: target,
                        value,
                        mode: state.mode,
                    })
                    &&& action is Continue
                },
                ObjectPatProp::Rest(_) => after.raised(before, action, ErrorKind::Protocol),
            }
        },
    }
}

/// The default of the member before position `state.next`, where it is a
/// shorthand member that has one.
pub open spec fn default_of(program: &Program, state: ObjectPatState) -> Option<ExprId> {
    match members_at(program, state.pat) {
        Some(props) => if 0 < state.next <= props@.len() {
            match props@[state.next - 1] {
                ObjectPatProp::Assign { value, .. } => value,
                _ => None,
            }
        } else {
            None
        },
        None => None,
    }
}

/// The key of a member of an object pattern was read and found to hold
/// `value`. A shorthand member with a default evaluates the default where
/// the value is `undefined`, and only there; every other member is bound to
/// the value as [`member_binds`] says.
pub open spec fn member_found(
    program: &Program,
    state: ObjectPatState,
    value: Value,
    before: &Interpreter,
    after: &Interpreter,
    action: &Action,
) -> bool {
    match default_of(program, state) {
        Some(default) if value is Undefined => {
            &&& after.pushed(before, Frame::PatObjectDefault(state))
            &&& after.next() == Control::Expr(default)
            &&& action is Continue
        },
        _ => member_binds(program, state, value, before, after, action),
    }
}

/// How an object pattern goes on with the member at `state.next`. A member
/// with a key reads it from the copy of the right-hand side (the key is
/// deleted from the copy afterwards); a rest member is bound to the copy,
/// which holds the keys that are left. After the last member the binding is
/// complete.
pub open spec fn object_pattern_goes(
    program: &Program,
    state: ObjectPatState,
    before: &Interpreter,
    after: &Interpreter,
    action: &Action,
) -> bool {
    match members_at(program, state.pat) {
        None => after.raised(before, action, ErrorKind::Protocol),
        Some(props) => if state.next >= props@.len() {
            after.gave(
                before,
                action,
                match state.mode {
                    DeclOrAssign::Decl => Value::Undefined,
                    DeclOrAssign::Assign => state.rhs,
                },
            )
        } else {
            let next = ObjectPatState { next: (state.next + 1) as usize, ..state };
            match props@[state.next as int] {
                ObjectPatProp::Assign { key, .. } => key_read(
                    next,
                    ValueView::String(key@),
                    before,
                    after,
                    action,
                ),
                ObjectPatProp::KeyValue { key, .. } => match key {
                    PropName::Ident(name) => key_read(
                        next,
                        ValueView::String(name@),
                        before,
                        after,
                        action,
                    ),
                    PropName::Str(text) => key_read(
                        next,
                        ValueView::String(text@),
                        before,
                        after,
                        action,
                    ),
                    PropName::Num(bits) => key_read(
                        next,
                        ValueView::Number(bits),
                        before,
                        after,
                        action,
                    ),
                    PropName::Computed(expr) => {
                        &&& after.pushed(before, Frame::PatObjectKey(next))
                        &&& after.next() == Control::Expr(expr)
                        &&& action is Continue
                    },
                    PropName::BigInt => after.raised(before, action, ErrorKind::Syntax),
                },
                ObjectPatProp::Rest(arg) => {
                    &&& after.pushed(before, Frame::PatObjectNext(next))
                    &&& after.next() == (Control::Pattern {
                        pat: arg,
                        value: state.copy,
                        mode: state.mode,
                    })
                    &&& action is Continue
                },
            }
        },
    }
}

/// The host is asked to read the key of a member of an object pattern from
/// the copy of the right-hand side.
pub open spec fn key_read(
    state: ObjectPatState,
    key: ValueView,
    before: &Interpreter,
    after: &Interpreter,
    action: &Action,
) -> bool {
    &&& after.frames().len() == before.frames().len() + 1
    &&& after.frames().drop_last() == before.frames()
    &&& after.frames().last() matches Frame::PatObjectGot { state: kept, key: k }
    &&& kept == state
    &&& k@ == key
    &&& after.scopes() == before.scopes()
    &&& after.heap() == before.heap()
    &&& after.next() is Waiting
    &&& action matches Action::Request(HostRequest::GetProperty { object, key: asked })
    &&& object == state.copy
    &&& asked@ == key
}

/// How a pattern is bound to a value.
///
/// An identifier is bound directly. A pattern with a default takes the
/// default only where the value is `undefined`. For an array pattern the
/// host lists the elements of the value; for an object pattern the value
/// must be an object, of which the host makes a shallow copy. An expression
/// can only be assigned to, and only if it is an identifier or a member.
pub open spec fn binds_pattern(
    program: &Program,
    pat: PatId,
    value: Value,
    mode: DeclOrAssign,
    before: &Interpreter,
    after: &Interpreter,
    action: &Action,
) -> bool {
    match pat_at(program, pat) {
        None => after.raised(before, action, ErrorKind::Protocol),
        Some(Pat::Ident(name)) => binds_name(before, after, action, name@, value@, mode),
        Some(Pat::Assign { left, right }) => if value@ is Undefined {
            &&& after.pushed(before, Frame::PatDefault { left, mode })
            &&& after.next() == Control::Expr(right)
            &&& action is Continue
        } else {
            &&& after.keeps(before)
            &&& after.next() == (Control::Pattern { pat: left, value, mode })
            &&& action is Continue
        },
        Some(Pat::Array(_)) => {
            &&& after.frames().len() == before.frames().len() + 1
            &&& after.frames().drop_last() == before.frames()
            &&& after.frames().last() matches Frame::PatArray { pat: p, mode: m, rhs }
            &&& p == pat
            &&& m == mode
            &&& rhs == value
            &&& after.scopes() == before.scopes()
            &&& after.heap() == before.heap()
            &&& action == Action::Request(HostRequest::Elements(value))
        },
        Some(Pat::Object(_)) => if value@ is Object {
            &&& after.frames().len() == before.frames().len() + 1
            &&& after.frames().drop_last() == before.frames()
            &&& after.frames().last() matches Frame::PatObject { pat: p, mode: m, rhs }
            &&& p == pat
            &&& m == mode
            &&& rhs == value
            &&& after.scopes() == before.scopes()
            &&& after.heap() == before.heap()
            &&& action == Action::Request(HostRequest::CopyObject(value))
        } else {
            after.raised(before, action, ErrorKind::Type)
        },
        Some(Pat::Expr(target)) => match mode {
            DeclOrAssign::Decl => after.raised(before, action, ErrorKind::Syntax),
            DeclOrAssign::Assign => match expr_at(program, target) {
                None => after.raised(before, action, ErrorKind::Protocol),
                Some(Expr::Ident(name)) => binds_name(
                    before,
                    after,
                    action,
                    name@,
                    value@,
                    DeclOrAssign::Assign,
                ),
                Some(Expr::Member { obj, .. }) => {
                    &&& after.pushed(
                        before,
                        Frame::AssignMemberObject { node: target, value },
                    )
                    &&& after.next() == Control::Expr(obj)
                    &&& action is Continue
                },
                Some(_) => after.raised(before, action, ErrorKind::Syntax),
            },
        },
        Some(_) => after.raised(before, action, ErrorKind::Syntax),
    }
}

/// What the frame does with a delivery; see [`Interpreter::on_var_decls`].
pub open spec fn var_decls_takes(
    program: &Program,
    stmt: StmtId,
    next: usize,
    delivery: Delivery,
    before: &Interpreter,
    after: &Interpreter,
    action: &Action,
) -> bool {
    match delivery {
        Delivery::Value(_) => {
            &&& declares(program, stmt, next, before.frames(), after, action)
            &&& after.scopes() == before.scopes()
            &&& after.heap() == before.heap()
        },
        _ => after.raised(before, action, ErrorKind::Protocol),
    }
}

/// What the frame does with a delivery; see [`Interpreter::on_var_init`].
pub open spec fn var_init_takes(
    program: &Program,
    stmt: StmtId,
    index: usize,
    delivery: Delivery,
    before: &Interpreter,
    after: &Interpreter,
    action: &Action,
) -> bool {
    match delivery {
        Delivery::Value(value) => match stmt_at(program, stmt) {
            Some(node) => match declarators_of(node) {
                Some(list) => if index < list@.len() {
                    &&& after.pushed(
                        before,
                        Frame::VarDecls { stmt, next: (index + 1) as usize },
                    )
                    &&& after.next() == (Control::Pattern {
                        pat: list@[index as int].name,
                        value,
                        mode: DeclOrAssign::Decl,
                    })
                } else {
                    after.raised(before, action, ErrorKind::Protocol)
                },
                None => after.raised(before, action, ErrorKind::Protocol),
            },
            None => after.raised(before, action, ErrorKind::Protocol),
        },
        _ => after.raised(before, action, ErrorKind::Protocol),
    }
}

/// What the frame does with a delivery; see [`Interpreter::on_declare_name`].
pub open spec fn declare_name_takes(
    program: &Program,
    stmt: StmtId,
    delivery: Delivery,
    before: &Interpreter,
    after: &Interpreter,
    action: &Action,
) -> bool {
    match delivery {
        Delivery::Value(value) => match stmt_at(program, stmt) {
            Some(Stmt::Decl(Decl::Fn { ident, .. })) => binds(
                before,
                after,
                action,
                ident@,
                value,
                DeclOrAssign::Decl,
            ),
            Some(Stmt::Decl(Decl::Class { ident, .. })) => binds(
                before,
                after,
                action,
                ident@,
                value,
                DeclOrAssign::Decl,
            ),
            _ => after.raised(before, action, ErrorKind::Protocol),
        },
        _ => after.raised(before, action, ErrorKind::Protocol),
    }
}

/// What the frame does with a delivery; see [`Interpreter::on_pat_default`].
pub open spec fn pat_default_takes(
    left: PatId,
    mode: DeclOrAssign,
    delivery: Delivery,
    before: &Interpreter,
    after: &Interpreter,
    action: &Action,
) -> bool {
    match delivery {
        Delivery::Value(value) => {
            &&& after.keeps(before)
            &&& after.next() == (Control::Pattern { pat: left, value, mode })
            &&& action is Continue
        },
        _ => after.raised(before, action, ErrorKind::Protocol),
    }
}

/// What the frame does with a delivery; see [`Interpreter::on_pat_array`].
pub open spec fn pat_array_takes(
    program: &Program,
    pat: PatId,
    mode: DeclOrAssign,
    rhs: Value,
    delivery: Delivery,
    before: &Interpreter,
    after: &Interpreter,
    action: &Action,
) -> bool {
    match delivery {
        Delivery::Values(values) => array_pattern_goes(
            program,
            ArrayPatState { pat, mode, rhs, values, next: 0 },
            before,
            after,
            action,
        ),
        Delivery::Nothing => after.raised(before, action, ErrorKind::Type),
        _ => after.raised(before, action, ErrorKind::Protocol),
    }
}

/// What the frame does with a delivery; see [`Interpreter::on_pat_array_next`].
pub open spec fn pat_array_next_takes(
    program: &Program,
    state: ArrayPatState,
    delivery: Delivery,
    before: &Interpreter,
    after: &Interpreter,
    action: &Action,
) -> bool {
    match delivery {
        Delivery::Value(_) => array_pattern_goes(
            program,
            state,
            before,
            after,
            action,
        ),
        Delivery::Nothing => array_pattern_goes(
            program,
            state,
            before,
            after,
            action,
        ),
        _ => after.raised(before, action, ErrorKind::Protocol),
    }
}

/// What the frame does with a delivery; see [`Interpreter::on_pat_array_rest`].
pub open spec fn pat_array_rest_takes(
    state: ArrayPatState,
    arg: PatId,
    delivery: Delivery,
    before: &Interpreter,
    after: &Interpreter,
    action: &Action,
) -> bool {
    match delivery {
        Delivery::Value(array) => {
            &&& after.pushed(before, Frame::PatArrayNext(state))
            &&& after.next() == (Control::Pattern {
                pat: arg,
                value: array,
                mode: state.mode,
            })
            &&& action is Continue
        },
        _ => after.raised(before, action, ErrorKind::Protocol),
    }
}

/// What the frame does with a delivery; see [`Interpreter::on_pat_object`].
pub open spec fn pat_object_takes(
    program: &Program,
    pat: PatId,
    mode: DeclOrAssign,
    rhs: Value,
    delivery: Delivery,
    before: &Interpreter,
    after: &Interpreter,
    action: &Action,
) -> bool {
    match delivery {
        Delivery::Value(copy) => object_pattern_goes(
            program,
            ObjectPatState { pat, mode, rhs, copy, next: 0 },
            before,
            after,
            action,
        ),
        _ => after.raised(before, action, ErrorKind::Protocol),
    }
}

/// What the frame does with a delivery; see [`Interpreter::on_pat_object_next`].
pub open spec fn pat_object_next_takes(
    program: &Program,
    state: ObjectPatState,
    delivery: Delivery,
    before: &Interpreter,
    after: &Interpreter,
    action: &Action,
) -> bool {
    match delivery {
        Delivery::Value(_) => object_pattern_goes(
            program,
            state,
            before,
            after,
            action,
        ),
        _ => after.raised(before, action, ErrorKind::Protocol),
    }
}

/// What the frame does with a delivery; see [`Interpreter::on_pat_object_default`].
pub open spec fn pat_object_default_takes(
    program: &Program,
    state: ObjectPatState,
    delivery: Delivery,
    before: &Interpreter,
    after: &Interpreter,
    action: &Action,
) -> bool {
    match delivery {
        Delivery::Value(value) => member_binds(
            program,
            state,
            value,
            before,
            after,
            action,
        ),
        _ => after.raised(before, action, ErrorKind::Protocol),
    }
}

/// What the frame does with a delivery; see [`Interpreter::on_pat_object_key`].
pub open spec fn pat_object_key_takes(
    state: ObjectPatState,
    delivery: Delivery,
    before: &Interpreter,
    after: &Interpreter,
    action: &Action,
) -> bool {
    match delivery {
        Delivery::Value(key) => {
            &&& after.pushed(before, Frame::PatObjectGot { state, key })
            &&& after.next() is Waiting
            &&& action == Action::Request(
                HostRequest::GetProperty { object: state.copy, key },
            )
        },
        _ => after.raised(before, action, ErrorKind::Protocol),
    }
}

/// What the frame does with a delivery; see [`Interpreter::on_pat_object_got`].
pub open spec fn pat_object_got_takes(
    state: ObjectPatState,
    key: Value,
    delivery: Delivery,
    before: &Interpreter,
    after: &Interpreter,
    action: &Action,
) -> bool {
    match delivery {
        Delivery::Value(value) => {
            &&& after.pushed(before, Frame::PatObjectDeleted { state, value })
            &&& after.next() is Waiting
            &&& action == Action::Request(
                HostRequest::DeleteProperty { object: state.copy, key },
            )
        },
        _ => after.raised(before, action, ErrorKind::Protocol),
    }
}

/// What the frame does with a delivery; see [`Interpreter::on_pat_object_deleted`].
pub open spec fn pat_object_deleted_takes(
    program: &Program,
    state: ObjectPatState,
    value: Value,
    delivery: Delivery,
    before: &Interpreter,
    after: &Interpreter,
    action: &Action,
) -> bool {
    match delivery {
        Delivery::Value(_) => member_found(
            program,
            state,
            value,
            before,
            after,
            action,
        ),
        _ => after.raised(before, action, ErrorKind::Protocol),
    }
}

impl Interpreter {
    /// Executes a declaration.
    pub(crate) fn eval_decl(&mut self, program: &Program, stmt: StmtId) -> (action: Action)
        requires
            old(self).inv(),
            !old(self).is_idle(),
        ensures
            final(self).stepped(old(self), &action),
            declaration_begins(program, stmt, old(self).frames(), old(self), final(self), &action),
    {
        match program.stmt(stmt) {
            Some(Stmt::Decl(decl)) => match decl {
                Decl::Var(_) => self.var_decls(program, stmt, 0),
                Decl::Fn { function, .. } => {
                    self.push_frame(Frame::DeclareName { stmt });
                    self.function_declaration(program, *function, None)
                },
                Decl::Class { class, .. } => {
                    self.push_frame(Frame::DeclareName { stmt });
                    self.eval_class(program, *class)
                },
                Decl::Unsupported(_) => self.fail_with(
                    ErrorKind::Syntax,
                    "ERROR: Declaration is not supported.",
                ),
            },
            _ => self.broken(),
        }
    }

    /// Goes on with the declarator at `next` of a variable declaration. A
    /// declaration without declarators fails.
    pub(crate) fn var_decls(&mut self, program: &Program, stmt: StmtId, next: usize) -> (action:
        Action)
        requires
            old(self).inv(),
            !old(self).is_idle(),
        ensures
            final(self).stepped(old(self), &action),
            declares(program, stmt, next, old(self).frames(), final(self), &action),
            final(self).scopes() == old(self).scopes(),
            final(self).heap() == old(self).heap(),
    {
        let list = match declarators(program, stmt) {
            Some(list) => list,
            None => {
                return self.broken();
            },
        };
        if list.len() == 0 {
            return self.fail_with(
                ErrorKind::Reference,
                "ReferenceError: No Variables in declaration.",
            );
        }
        if next >= list.len() {
            return self.give(Value::Undefined);
        }
        let declarator = list[next];
        match declarator.init {
            Some(init) => {
                self.push_frame(Frame::VarInit { stmt, index: next });
                self.go_expr(init)
            },
            None => {
                self.push_frame(Frame::VarDecls { stmt, next: next + 1 });
                self.go_pattern(declarator.name, Value::Undefined, DeclOrAssign::Decl)
            },
        }
    }

    /// The initialiser of a declarator is known: the declarator's pattern is
    /// bound to it, by declaration.
    pub(crate) fn on_var_init(
        &mut self,
        program: &Program,
        stmt: StmtId,
        index: usize,
        delivery: Delivery,
    ) -> (action: Action)
        requires
            old(self).inv(),
            !old(self).is_idle(),
        ensures
            final(self).stepped(old(self), &action),
            var_init_takes(program, stmt, index, delivery, old(self), final(self), &action),
    {
        let value = match delivery.into_value() {
            Some(value) => value,
            None => {
                return self.broken();
            },
        };
        match declarators(program, stmt) {
            Some(list) => {
                if index < list.len() {
                    let name = list[index].name;
                    self.push_frame(Frame::VarDecls { stmt, next: index + 1 });
                    self.go_pattern(name, value, DeclOrAssign::Decl)
                } else {
                    self.broken()
                }
            },
            None => self.broken(),
        }
    }

    pub(crate) fn on_var_decls(
        &mut self,
        program: &Program,
        stmt: StmtId,
        next: usize,
        delivery: Delivery,
    ) -> (action: Action)
        requires
            old(self).inv(),
            !old(self).is_idle(),
        ensures
            final(self).stepped(old(self), &action),
            var_decls_takes(program, stmt, next, delivery, old(self), final(self), &action),
    {
        match delivery {
            Delivery::Value(_) => self.var_decls(program, stmt, next),
            _ => self.broken(),
        }
    }

    /// A declared function or class was made: its name is bound to it in the
    /// innermost scope.
    pub(crate) fn on_declare_name(
        &mut self,
        program: &Program,
        stmt: StmtId,
        delivery: Delivery,
    ) -> (action: Action)
        requires
            old(self).inv(),
            !old(self).is_idle(),
        ensures
            final(self).stepped(old(self), &action),
            declare_name_takes(program, stmt, delivery, old(self), final(self), &action),
    {
        let value = match delivery.into_value() {
            Some(value) => value,
            None => {
                return self.broken();
            },
        };
        let name = match program.stmt(stmt) {
            Some(Stmt::Decl(Decl::Fn { ident, .. })) => ident,
            Some(Stmt::Decl(Decl::Class { ident, .. })) => ident,
            _ => {
                return self.broken();
            },
        };
        match self.declare(name.as_str(), value) {
            Ok(_) => self.give(Value::Undefined),
            Err(error) => self.fail(error),
        }
    }

    /// Binds a name to a value, declaring or assigning as `mode` says.
    pub(crate) fn bind_name(&mut self, name: &str, value: Value, mode: DeclOrAssign) -> (r: Result<
        (),
        EvalError,
    >)
        requires
            old(self).inv(),
        ensures
            final(self).inv(),
            final(self).base_depth() == old(self).base_depth(),
            final(self).next() == old(self).next(),
            final(self).frames() == old(self).frames(),
            match mode {
                DeclOrAssign::Decl => if old(self).depth() > 0 {
                    r is Ok && final(self).declared(old(self), name@, value@)
                } else {
                    &&& r is Err
                    &&& r->Err_0.kind == ErrorKind::Name
                    &&& final(self).scopes()@ == old(self).scopes()@
                    &&& final(self).heap()@ == old(self).heap()@
                    &&& final(self).heap().same_closures(&old(self).heap())
                },
                DeclOrAssign::Assign => final(self).assigned(old(self), name@, value@) && (r is Ok
                    <==> old(self).assignable(name@, value@)),
            },
    {
        let bound = match mode {
            DeclOrAssign::Decl => self.declare(name, value),
            DeclOrAssign::Assign => self.assign(name, value),
        };
        match bound {
            Ok(_) => Ok(()),
            Err(error) => Err(error),
        }
    }

    /// Binds a pattern to a value.
    ///
    /// An identifier is bound directly. A pattern with a default takes the
    /// default only where the value is `undefined`. An array pattern asks for
    /// the elements of the value, which must be an array; an object pattern
    /// asks for a shallow copy of the value, which must be an object.
    pub(crate) fn set_pat(
        &mut self,
        program: &Program,
        pat: PatId,
        value: Value,
        mode: DeclOrAssign,
    ) -> (action: Action)
        requires
            old(self).inv(),
            !old(self).is_idle(),
        ensures
            final(self).stepped(old(self), &action),
            binds_pattern(program, pat, value, mode, old(self), final(self), &action),
    {
        let node = match program.pat(pat) {
            Some(node) => node,
            None => {
                return self.broken();
            },
        };
        match node {
            Pat::Ident(name) => {
                let result = completion(mode, value.clone());
                match self.bind_name(name.as_str(), value, mode) {
                    Ok(()) => self.give(result),
                    Err(error) => self.fail(error),
                }
            },
            Pat::Assign { left, right } => {
                if value.is_undefined() {
                    self.push_frame(Frame::PatDefault { left: *left, mode });
                    self.go_expr(*right)
                } else {
                    self.go_pattern(*left, value, mode)
                }
            },
            Pat::Array(_) => {
                self.push_frame(Frame::PatArray { pat, mode, rhs: value.clone() });
                self.ask(HostRequest::Elements(value))
            },
            Pat::Object(_) => {
                if value.is_object() {
                    self.push_frame(Frame::PatObject { pat, mode, rhs: value.clone() });
                    self.ask(HostRequest::CopyObject(value))
                } else {
                    self.fail_with(
                        ErrorKind::Type,
                        "ERROR: Expression on right-hand-side of declaration is not an object.",
                    )
                }
            },
            Pat::Expr(target) => match mode {
                DeclOrAssign::Assign => match program.expr(*target) {
                    Some(Expr::Ident(name)) => {
                        let result = value.clone();
                        match self.assign(name.as_str(), value) {
                            Ok(_) => self.give(result),
                            Err(error) => self.fail(error),
                        }
                    },
                    Some(Expr::Member { .. }) => self.assign_member_expr(program, *target, value),
                    Some(_) => self.fail_with(
                        ErrorKind::Syntax,
                        "ERROR: Expression is not supported as a pattern.",
                    ),
                    None => self.broken(),
                },
                DeclOrAssign::Decl => self.fail_with(
                    ErrorKind::Syntax,
                    "ERROR: Expression is not supported as a pattern in declaration.",
                ),
            },
            _ => self.fail_with(ErrorKind::Syntax, "ERROR: Pattern is not supported."),
        }
    }

    /// The default of a pattern was evaluated: the pattern is bound to it.
    pub(crate) fn on_pat_default(
        &mut self,
        left: PatId,
        mode: DeclOrAssign,
        delivery: Delivery,
    ) -> (action: Action)
        requires
            old(self).inv(),
            !old(self).is_idle(),
        ensures
            final(self).stepped(old(self), &action),
            pat_default_takes(left, mode, delivery, old(self), final(self), &action),
    {
        match delivery {
            Delivery::Value(value) => self.go_pattern(left, value, mode),
            _ => self.broken(),
        }
    }

    /// The host gave the elements of the right-hand side of an array
    /// pattern, or said that it is no array.
    pub(crate) fn on_pat_array(
        &mut self,
        program: &Program,
        pat: PatId,
        mode: DeclOrAssign,
        rhs: Value,
        delivery: Delivery,
    ) -> (action: Action)
        requires
            old(self).inv(),
            !old(self).is_idle(),
        ensures
            final(self).stepped(old(self), &action),
            pat_array_takes(program, pat, mode, rhs, delivery, old(self), final(self), &action),
    {
        match delivery {
            Delivery::Values(values) => self.array_element(
                program,
                ArrayPatState { pat, mode, rhs, values, next: 0 },
            ),
            Delivery::Nothing => self.fail_with(
                ErrorKind::Type,
                "ERROR: Expression on right-hand-side of declaration is not an array.",
            ),
            _ => self.broken(),
        }
    }

    /// Binds the next element of an array pattern: position by position, a
    /// hole skipping one value, a missing value counting as `undefined`, and
    /// a rest element capturing, as a new array, the values from the position
    /// of the pattern's last element on.
    pub(crate) fn array_element(&mut self, program: &Program, state: ArrayPatState) -> (action:
        Action)
        requires
            old(self).inv(),
            !old(self).is_idle(),
        ensures
            final(self).stepped(old(self), &action),
            array_pattern_goes(program, state, old(self), final(self), &action),
    {
        let elems = match program.pat(state.pat) {
            Some(Pat::Array(elems)) => elems,
            _ => {
                return self.broken();
            },
        };
        let index = state.next;
        if index >= elems.len() {
            return self.give(completion(state.mode, state.rhs));
        }
        let mode = state.mode;
        let value = element_or_undefined(&state.values, index);
        let rest = rest_elements(&state.values, elems.len() - 1);
        let mut state = state;
        state.next = index + 1;
        match elems[index] {
            None => {
                self.push_frame(Frame::PatArrayNext(state));
                self.tick()
            },
            Some(element) => match program.pat(element) {
                Some(Pat::Rest(arg)) => {
                    self.push_frame(Frame::PatArrayRest { state, arg: *arg });
                    self.ask(HostRequest::CreateArray(rest))
                },
                Some(_) => {
                    self.push_frame(Frame::PatArrayNext(state));
                    self.go_pattern(element, value, mode)
                },
                None => self.broken(),
            },
        }
    }

    /// An element of an array pattern was bound, or skipped.
    pub(crate) fn on_pat_array_next(
        &mut self,
        program: &Program,
        state: ArrayPatState,
        delivery: Delivery,
    ) -> (action: Action)
        requires
            old(self).inv(),
            !old(self).is_idle(),
        ensures
            final(self).stepped(old(self), &action),
            pat_array_next_takes(program, state, delivery, old(self), final(self), &action),
    {
        match delivery {
            Delivery::Value(_) => self.array_element(program, state),
            Delivery::Nothing => self.array_element(program, state),
            _ => self.broken(),
        }
    }

    /// The host made the array that a rest element captures: the argument of
    /// the rest element is bound to it.
    pub(crate) fn on_pat_array_rest(
        &mut self,
        state: ArrayPatState,
        arg: PatId,
        delivery: Delivery,
    ) -> (action: Action)
        requires
            old(self).inv(),
            !old(self).is_idle(),
        ensures
            final(self).stepped(old(self), &action),
            pat_array_rest_takes(state, arg, delivery, old(self), final(self), &action),
    {
        match delivery {
            Delivery::Value(array) => {
                let mode = state.mode;
                self.push_frame(Frame::PatArrayNext(state));
                self.go_pattern(arg, array, mode)
            },
            _ => self.broken(),
        }
    }

    /// The host made the shallow copy of the right-hand side of an object
    /// pattern.
    pub(crate) fn on_pat_object(
        &mut self,
        program: &Program,
        pat: PatId,
        mode: DeclOrAssign,
        rhs: Value,
        delivery: Delivery,
    ) -> (action: Action)
        requires
            old(self).inv(),
            !old(self).is_idle(),
        ensures
            final(self).stepped(old(self), &action),
            pat_object_takes(program, pat, mode, rhs, delivery, old(self), final(self), &action),
    {
        match delivery {
            Delivery::Value(copy) => self.object_prop(
                program,
                ObjectPatState { pat, mode, rhs, copy, next: 0 },
            ),
            _ => self.broken(),
        }
    }

    /// Binds the next member of an object pattern. A key that is taken is
    /// read from the copy of the right-hand side and then deleted from it, so
    /// that a rest member receives the copy with the keys that are left.
    pub(crate) fn object_prop(&mut self, program: &Program, state: ObjectPatState) -> (action:
        Action)
        requires
            old(self).inv(),
            !old(self).is_idle(),
        ensures
            final(self).stepped(old(self), &action),
            object_pattern_goes(program, state, old(self), final(self), &action),
    {
        let props = match program.pat(state.pat) {
            Some(Pat::Object(props)) => props,
            _ => {
                return self.broken();
            },
        };
        let index = state.next;
        if index >= props.len() {
            return self.give(completion(state.mode, state.rhs));
        }
        let mode = state.mode;
        let copy = state.copy.clone();
        let mut state = state;
        state.next = index + 1;
        match &props[index] {
            ObjectPatProp::Assign { key, .. } => {
                let name = Value::String(key.clone());
                self.push_frame(Frame::PatObjectGot { state, key: name.clone() });
                self.ask(HostRequest::GetProperty { object: copy, key: name })
            },
            ObjectPatProp::KeyValue { key, .. } => match get_prop_name(key) {
                KeyPlan::Ready(name) => {
                    self.push_frame(Frame::PatObjectGot { state, key: name.clone() });
                    self.ask(HostRequest::GetProperty { object: copy, key: name })
                },
                KeyPlan::Eval(expr) => {
                    self.push_frame(Frame::PatObjectKey(state));
                    self.go_expr(expr)
                },
                KeyPlan::Unsupported => self.fail_with(
                    ErrorKind::Syntax,
                    "BigInt not supported as property name.",
                ),
            },
            ObjectPatProp::Rest(arg) => {
                self.push_frame(Frame::PatObjectNext(state));
                self.go_pattern(*arg, copy, mode)
            },
        }
    }

    /// A member of an object pattern was bound.
    pub(crate) fn on_pat_object_next(
        &mut self,
        program: &Program,
        state: ObjectPatState,
        delivery: Delivery,
    ) -> (action: Action)
        requires
            old(self).inv(),
            !old(self).is_idle(),
        ensures
            final(self).stepped(old(self), &action),
            pat_object_next_takes(program, state, delivery, old(self), final(self), &action),
    {
        match delivery {
            Delivery::Value(_) => self.object_prop(program, state),
            _ => self.broken(),
        }
    }

    /// The default of a shorthand member was evaluated: the member's name is
    /// bound to it.
    pub(crate) fn on_pat_object_default(
        &mut self,
        program: &Program,
        state: ObjectPatState,
        delivery: Delivery,
    ) -> (action: Action)
        requires
            old(self).inv(),
            !old(self).is_idle(),
        ensures
            final(self).stepped(old(self), &action),
            pat_object_default_takes(program, state, delivery, old(self), final(self), &action),
    {
        match delivery {
            Delivery::Value(value) => self.bind_member(program, state, value),
            _ => self.broken(),
        }
    }

    /// The computed key of a member of an object pattern is known: the host
    /// reads it from the copy.
    pub(crate) fn on_pat_object_key(
        &mut self,
        state: ObjectPatState,
        delivery: Delivery,
    ) -> (action: Action)
        requires
            old(self).inv(),
            !old(self).is_idle(),
        ensures
            final(self).stepped(old(self), &action),
            pat_object_key_takes(state, delivery, old(self), final(self), &action),
    {
        match delivery {
            Delivery::Value(key) => {
                let object = state.copy.clone();
                self.push_frame(Frame::PatObjectGot { state, key: key.clone() });
                self.ask(HostRequest::GetProperty { object, key })
            },
            _ => self.broken(),
        }
    }

    /// The host read the key of a member of an object pattern: the key is
    /// deleted from the copy, so that a rest member does not receive it.
    pub(crate) fn on_pat_object_got(
        &mut self,
        state: ObjectPatState,
        key: Value,
        delivery: Delivery,
    ) -> (action: Action)
        requires
            old(self).inv(),
            !old(self).is_idle(),
        ensures
            final(self).stepped(old(self), &action),
            pat_object_got_takes(state, key, delivery, old(self), final(self), &action),
    {
        match delivery {
            Delivery::Value(value) => {
                let object = state.copy.clone();
                self.push_frame(Frame::PatObjectDeleted { state, value });
                self.ask(HostRequest::DeleteProperty { object, key })
            },
            _ => self.broken(),
        }
    }

    /// The host deleted the key from the copy: the member is bound to the
    /// value that was read.
    pub(crate) fn on_pat_object_deleted(
        &mut self,
        program: &Program,
        state: ObjectPatState,
        value: Value,
        delivery: Delivery,
    ) -> (action: Action)
        requires
            old(self).inv(),
            !old(self).is_idle(),
        ensures
            final(self).stepped(old(self), &action),
            pat_object_deleted_takes(
                program,
                state,
                value,
                delivery,
                old(self),
                final(self),
                &action,
            ),
    {
        match delivery {
            Delivery::Value(_) => self.found_member(program, state, value),
            _ => self.broken(),
        }
    }

    /// The value under the key of the member before position `state.next`
    /// is known: a shorthand member whose value is `undefined` evaluates its
    /// default, if it has one; otherwise the member is bound to the value.
    pub(crate) fn found_member(
        &mut self,
        program: &Program,
        state: ObjectPatState,
        value: Value,
    ) -> (action: Action)
        requires
            old(self).inv(),
            !old(self).is_idle(),
        ensures
            final(self).stepped(old(self), &action),
            member_found(program, state, value, old(self), final(self), &action),
    {
        let default = match program.pat(state.pat) {
            Some(Pat::Object(props)) => if 0 < state.next && state.next <= props.len() {
                match &props[state.next - 1] {
                    ObjectPatProp::Assign { value: default, .. } => *default,
                    _ => None,
                }
            } else {
                None
            },
            _ => None,
        };
        match (default, &value) {
            (Some(default), Value::Undefined) => {
                self.push_frame(Frame::PatObjectDefault(state));
                self.go_expr(default)
            },
            _ => self.bind_member(program, state, value),
        }
    }

    /// Binds the member before position `state.next` of an object pattern to
    /// the value found for it, and goes on with the pattern.
    pub(crate) fn bind_member(
        &mut self,
        program: &Program,
        state: ObjectPatState,
        value: Value,
    ) -> (action: Action)
        requires
            old(self).inv(),
            !old(self).is_idle(),
        ensures
            final(self).stepped(old(self), &action),
            member_binds(program, state, value, old(self), final(self), &action),
    {
        let props = match program.pat(state.pat) {
            Some(Pat::Object(props)) => props,
            _ => {
                return self.broken();
            },
        };
        if state.next == 0 || state.next > props.len() {
            return self.broken();
        }
        let mode = state.mode;
        match &props[state.next - 1] {
            ObjectPatProp::Assign { key, .. } => {
                match self.bind_name(key.as_str(), value, mode) {
                    Ok(()) => {
                        self.push_frame(Frame::PatObjectNext(state));
                        self.give(Value::Undefined)
                    },
                    Err(error) => self.fail(error),
                }
            },
            ObjectPatProp::KeyValue { value: target, .. } => {
                self.push_frame(Frame::PatObjectNext(state));
                self.go_pattern(*target, value, mode)
            },
            ObjectPatProp::Rest(_) => self.broken(),
        }
    }
}

} // verus!
