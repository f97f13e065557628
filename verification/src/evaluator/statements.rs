//! Statements: the control-flow transitions of the machine.
//!
//! A loop runs each turn of its body in a scope of its own. `break` and
//! `continue` are recognised where they stand directly in the block of a
//! loop, or are the loop's whole body; anywhere else they are unsupported
//! statements.

use vstd::prelude::*;
use crate::ast::{BlockId, ForHead, ForInit, Pat, Program, Stmt, StmtId};
use crate::error::{ErrorKind, EvalError};
use crate::host::HostRequest;
use crate::machine::{Action, DeclOrAssign, Delivery, Frame, Interpreter};
use crate::text::concat_text;
use crate::builtin::iterator::get_iterator;
use crate::machine::Control;
use crate::value::{truthiness, BindingId, Value, ValueView};

pub mod decl;

verus! {

/// How the body of a loop begins, on a continuation that was `from`: a block
/// runs statement by statement and watches for `break` and `continue`; a
/// body that is itself one of the two gives that signal; any other statement
/// is executed.
pub open spec fn loop_begins(
    program: &Program,
    body: StmtId,
    from: Seq<Frame>,
    after: &Interpreter,
    action: &Action,
) -> bool {
    &&& action is Continue
    &&& if body >= program.stmts@.len() {
        &&& after.frames() == from
        &&& after.next() matches Control::Raise(error)
        &&& error.kind == ErrorKind::Protocol
    } else {
        match program.stmts@[body as int] {
            Stmt::Block(block) => {
                &&& after.frames() == from.push(Frame::LoopBlock { block, next: 0 })
                &&& after.next() == Control::Deliver(Delivery::Nothing)
            },
            Stmt::Continue => {
                &&& after.frames() == from
                &&& after.next() == Control::Deliver(Delivery::Continue)
            },
            Stmt::Break => {
                &&& after.frames() == from
                &&& after.next() == Control::Deliver(Delivery::Break)
            },
            _ => {
                &&& after.frames() == from
                &&& after.next() == Control::Stmt(body)
            },
        }
    }
}

/// A turn of a loop begins: the loop's frame and a new scope are entered, and
/// then the body.
pub open spec fn turn_begins(
    program: &Program,
    body: StmtId,
    frame: Frame,
    before: &Interpreter,
    after: &Interpreter,
    action: &Action,
) -> bool {
    &&& loop_begins(program, body, before.frames().push(frame).push(Frame::Scope), after, action)
    &&& after.scopes()@ == before.scopes()@.push(Map::<Seq<char>, BindingId>::empty())
    &&& after.heap() == before.heap()
}

/// A turn of a loop begins whose body runs above a frame of its own inside
/// the scope of the turn.
pub open spec fn inner_turn_begins(
    program: &Program,
    body: StmtId,
    frame: Frame,
    inner: Frame,
    before: &Interpreter,
    after: &Interpreter,
    action: &Action,
) -> bool {
    &&& loop_begins(
        program,
        body,
        before.frames().push(frame).push(Frame::Scope).push(inner),
        after,
        action,
    )
    &&& after.scopes()@ == before.scopes()@.push(Map::<Seq<char>, BindingId>::empty())
    &&& after.heap() == before.heap()
}

/// A failure reached the `try` at `stmt`, below which the continuation is
/// `from`. With a handler the failure is caught: a scope is entered for the
/// handler's block; for a handler with a parameter the host first wraps the
/// failure's message in an error object. The parameter must be an
/// identifier: with any other pattern the handler is refused as a syntax
/// error, which goes on in place of the failure. Without a handler the
/// failure goes on.
pub open spec fn catches(
    program: &Program,
    stmt: StmtId,
    error: EvalError,
    from: Seq<Frame>,
    scopes: Seq<Map<Seq<char>, BindingId>>,
    heap: crate::store::Store,
    after: &Interpreter,
    action: &Action,
) -> bool {
    &&& after.heap() == heap
    &&& match stmt_at(program, stmt) {
        Some(Stmt::Try { handler: Some(clause), .. }) => match clause.param {
            Some(param) => match decl::pat_at(program, param) {
                Some(Pat::Ident(_)) => {
                    &&& after.scopes()@ == scopes.push(Map::<Seq<char>, BindingId>::empty())
                    &&& after.frames() == from.push(Frame::Scope).push(Frame::CatchBind { stmt })
                    &&& after.next() is Waiting
                    &&& *action == Action::Request(HostRequest::CreateError(error.message))
                },
                Some(_) => {
                    &&& after.frames() == from
                    &&& after.scopes()@ == scopes
                    &&& after.fails(ErrorKind::Syntax)
                    &&& action is Continue
                },
                None => {
                    &&& after.frames() == from
                    &&& after.scopes()@ == scopes
                    &&& after.fails(ErrorKind::Protocol)
                    &&& action is Continue
                },
            },
            None => {
                &&& after.scopes()@ == scopes.push(Map::<Seq<char>, BindingId>::empty())
                &&& crate::evaluator::begins(
                    program,
                    clause.body,
                    from.push(Frame::Scope),
                    after,
                    action,
                )
            },
        },
        _ => {
            &&& after.frames() == from
            &&& after.scopes()@ == scopes
            &&& after.next() == Control::Raise(error)
            &&& action is Continue
        },
    }
}

/// A turn of a `for ... of` or `for ... in` loop begins: the loop's frame and
/// a new scope are entered, and the head of the loop is bound, by
/// declaration, to the value of the turn; the body follows.
pub open spec fn binds_turn(
    left: ForHead,
    body: StmtId,
    value: Value,
    frame: Frame,
    before: &Interpreter,
    after: &Interpreter,
    action: &Action,
) -> bool {
    &&& after.scopes()@ == before.scopes()@.push(Map::<Seq<char>, BindingId>::empty())
    &&& after.heap() == before.heap()
    &&& action is Continue
    &&& match left {
        ForHead::UsingDecl => {
            &&& after.frames() == before.frames().push(frame).push(Frame::Scope)
            &&& after.next() matches Control::Raise(error)
            &&& error.kind == ErrorKind::Syntax
        },
        ForHead::Pat(pat) => {
            &&& after.frames() == before.frames().push(frame).push(Frame::Scope).push(
                Frame::LoopBind { body },
            )
            &&& after.next() == (Control::Pattern { pat, value, mode: DeclOrAssign::Decl })
        },
        ForHead::VarDecl(pat) => {
            &&& after.frames() == before.frames().push(frame).push(Frame::Scope).push(
                Frame::LoopBind { body },
            )
            &&& after.next() == (Control::Pattern { pat, value, mode: DeclOrAssign::Decl })
        },
    }
}

/// The statement at `stmt`, if there is one.
pub open spec fn stmt_at(program: &Program, stmt: StmtId) -> Option<Stmt> {
    if stmt < program.stmts@.len() {
        Some(program.stmts@[stmt as int])
    } else {
        None
    }
}

/// How a `for` loop goes to its test: the test is evaluated; a loop without
/// one begins a turn at once.
pub open spec fn for_tests(
    program: &Program,
    stmt: StmtId,
    before: &Interpreter,
    after: &Interpreter,
    action: &Action,
) -> bool {
    match stmt_at(program, stmt) {
        Some(Stmt::For { test, body, .. }) => match test {
            Some(expr) => {
                &&& after.pushed(before, Frame::ForTest { stmt })
                &&& after.next() == Control::Expr(expr)
                &&& action is Continue
            },
            None => inner_turn_begins(
                program,
                body,
                Frame::ForLoop { stmt },
                Frame::ForBody { stmt },
                before,
                after,
                action,
            ),
        },
        _ => after.raised(before, action, ErrorKind::Protocol),
    }
}

/// How a statement is executed.
///
/// A declaration evaluates to `undefined`. A block runs its statements in
/// the scope it stands in. `return` evaluates its argument, and `null`
/// without one, as the empty statement does. `try` runs its block in a scope
/// of its own. A loop begins with its test, `do ... while` with its body,
/// `for` with its initialiser in the scope the loop stands in. `break` and
/// `continue` are not supported where a statement is executed, and neither
/// is any statement of another kind.
pub open spec fn executes(
    program: &Program,
    stmt: StmtId,
    before: &Interpreter,
    after: &Interpreter,
    action: &Action,
) -> bool {
    match stmt_at(program, stmt) {
        None => after.raised(before, action, ErrorKind::Protocol),
        Some(node) => match node {
            Stmt::Decl(_) => decl::declaration_begins(
                program,
                stmt,
                before.frames().push(Frame::Replace { value: Value::Undefined }),
                before,
                after,
                action,
            ),
            Stmt::Expr(expr) => {
                &&& after.keeps(before)
                &&& after.next() == Control::Expr(expr)
                &&& action is Continue
            },
            Stmt::Block(block) => {
                &&& crate::evaluator::begins(program, block, before.frames(), after, action)
                &&& after.scopes() == before.scopes()
                &&& after.heap() == before.heap()
            },
            Stmt::If { test, .. } => {
                &&& after.pushed(before, Frame::IfTest { stmt })
                &&& after.next() == Control::Expr(test)
                &&& action is Continue
            },
            Stmt::Return(arg) => match arg {
                Some(expr) => {
                    &&& after.keeps(before)
                    &&& after.next() == Control::Expr(expr)
                    &&& action is Continue
                },
                None => after.gave(before, action, Value::Null),
            },
            Stmt::Empty => after.gave(before, action, Value::Null),
            Stmt::Throw(arg) => {
                &&& after.pushed(before, Frame::ThrowArg)
                &&& after.next() == Control::Expr(arg)
                &&& action is Continue
            },
            Stmt::Try { block, .. } => {
                &&& crate::evaluator::begins(
                    program,
                    block,
                    before.frames().push(Frame::Try { stmt }).push(Frame::Scope),
                    after,
                    action,
                )
                &&& after.scopes()@ == before.scopes()@.push(Map::<Seq<char>, BindingId>::empty())
                &&& after.heap() == before.heap()
            },
            Stmt::While { test, .. } => {
                &&& after.pushed(before, Frame::WhileTest { stmt })
                &&& after.next() == Control::Expr(test)
                &&& action is Continue
            },
            Stmt::DoWhile { body, .. } => inner_turn_begins(
                program,
                body,
                Frame::DoWhileLoop { stmt },
                Frame::DoWhileBody { stmt },
                before,
                after,
                action,
            ),
            Stmt::For { init, .. } => match init {
                None => for_tests(program, stmt, before, after, action),
                Some(ForInit::Expr(expr)) => {
                    &&& after.pushed(before, Frame::ForInit { stmt })
                    &&& after.next() == Control::Expr(expr)
                    &&& action is Continue
                },
                Some(ForInit::VarDecl(_)) => {
                    &&& decl::declares(
                        program,
                        stmt,
                        0,
                        before.frames().push(Frame::ForInit { stmt }),
                        after,
                        action,
                    )
                    &&& after.scopes() == before.scopes()
                    &&& after.heap() == before.heap()
                },
            },
            Stmt::ForOf { right, .. } => {
                &&& after.pushed(before, Frame::ForOfRight { stmt })
                &&& after.next() == Control::Expr(right)
                &&& action is Continue
            },
            Stmt::ForIn { right, .. } => {
                &&& after.pushed(before, Frame::ForInRight { stmt })
                &&& after.next() == Control::Expr(right)
                &&& action is Continue
            },
            Stmt::Import { .. } => crate::evaluator::import_begins(
                program,
                stmt,
                before,
                after,
                action,
            ),
            Stmt::Break => after.raised(before, action, ErrorKind::Syntax),
            Stmt::Continue => after.raised(before, action, ErrorKind::Syntax),
            Stmt::Unsupported(_) => after.raised(before, action, ErrorKind::Syntax),
        },
    }
}

/// What the frame does with a delivery; see [`Interpreter::on_if_test`].
pub open spec fn if_test_takes(
    program: &Program,
    stmt: StmtId,
    delivery: Delivery,
    before: &Interpreter,
    after: &Interpreter,
    action: &Action,
) -> bool {
    match delivery {
        Delivery::Value(value) => match truthiness(value@) {
            Some(test) => match stmt_at(program, stmt) {
                Some(Stmt::If { cons, alt, .. }) => if test {
                    after.keeps(before) && after.next() == Control::Stmt(
                        cons,
                    )
                } else {
                    match alt {
                        Some(other) => after.keeps(before) && after.next()
                            == Control::Stmt(other),
                        None => after.gave(before, action, Value::Undefined),
                    }
                },
                _ => after.raised(before, action, ErrorKind::Protocol),
            },
            None => {
                &&& after.pushed(before, Frame::IfBranch { stmt })
                &&& after.next() is Waiting
                &&& action == Action::Request(HostRequest::Truthy(value))
            },
        },
        _ => after.raised(before, action, ErrorKind::Protocol),
    }
}

/// What the frame does with a delivery; see [`Interpreter::on_if_branch`].
pub open spec fn if_branch_takes(
    program: &Program,
    stmt: StmtId,
    delivery: Delivery,
    before: &Interpreter,
    after: &Interpreter,
    action: &Action,
) -> bool {
    match delivery {
        Delivery::Value(Value::Bool(test)) => match stmt_at(program, stmt) {
            Some(Stmt::If { cons, alt, .. }) => if test {
                after.keeps(before) && after.next() == Control::Stmt(cons)
            } else {
                match alt {
                    Some(other) => after.keeps(before) && after.next()
                        == Control::Stmt(other),
                    None => after.gave(before, action, Value::Undefined),
                }
            },
            _ => after.raised(before, action, ErrorKind::Protocol),
        },
        _ => after.raised(before, action, ErrorKind::Protocol),
    }
}

/// What the frame does with a delivery; see [`Interpreter::on_throw_arg`].
pub open spec fn throw_arg_takes(
    delivery: Delivery,
    before: &Interpreter,
    after: &Interpreter,
    action: &Action,
) -> bool {
    match delivery {
        Delivery::Value(Value::String(text)) => {
            &&& after.raised(before, action, ErrorKind::Thrown)
            &&& after.next()->Raise_0.message@ == text@
        },
        Delivery::Value(value) => {
            &&& after.pushed(before, Frame::ThrowText)
            &&& after.next() is Waiting
            &&& action == Action::Request(HostRequest::Display(value))
        },
        _ => after.raised(before, action, ErrorKind::Protocol),
    }
}

/// What the frame does with a delivery; see [`Interpreter::on_throw_text`].
pub open spec fn throw_text_takes(
    delivery: Delivery,
    before: &Interpreter,
    after: &Interpreter,
    action: &Action,
) -> bool {
    match delivery {
        Delivery::Value(Value::String(text)) => {
            &&& after.raised(before, action, ErrorKind::Thrown)
            &&& after.next()->Raise_0.message@ == text@
        },
        _ => after.raised(before, action, ErrorKind::Protocol),
    }
}

/// What the frame does with a delivery; see [`Interpreter::on_catch_bind`].
pub open spec fn catch_bind_takes(
    program: &Program,
    stmt: StmtId,
    delivery: Delivery,
    before: &Interpreter,
    after: &Interpreter,
    action: &Action,
) -> bool {
    match delivery {
        Delivery::Value(wrapped) => match stmt_at(program, stmt) {
            Some(Stmt::Try { handler: Some(clause), .. }) => match clause.param {
                Some(param) => match decl::pat_at(program, param) {
                    Some(Pat::Ident(name)) => {
                        &&& crate::evaluator::begins(
                            program,
                            clause.body,
                            before.frames(),
                            after,
                            action,
                        )
                        &&& if before.depth() > 0 {
                            after.declared(before, name@, wrapped@)
                        } else {
                            &&& after.scopes()@ == before.scopes()@
                            &&& after.heap()@ == before.heap()@
                            &&& after.heap().same_closures(&before.heap())
                        }
                    },
                    _ => after.raised(before, action, ErrorKind::Protocol),
                },
                None => after.raised(before, action, ErrorKind::Protocol),
            },
            _ => after.raised(before, action, ErrorKind::Protocol),
        },
        _ => after.raised(before, action, ErrorKind::Protocol),
    }
}

/// What the frame does with a delivery; see [`Interpreter::on_while_test`].
pub open spec fn while_test_takes(
    program: &Program,
    stmt: StmtId,
    delivery: Delivery,
    before: &Interpreter,
    after: &Interpreter,
    action: &Action,
) -> bool {
    match delivery {
        Delivery::Value(value) => match stmt_at(program, stmt) {
            Some(Stmt::While { body, .. }) => if value@ == ValueView::Bool(true) {
                turn_begins(
                    program,
                    body,
                    Frame::WhileLoop { stmt },
                    before,
                    after,
                    action,
                )
            } else {
                after.gave(before, action, Value::Undefined)
            },
            _ => after.raised(before, action, ErrorKind::Protocol),
        },
        _ => after.raised(before, action, ErrorKind::Protocol),
    }
}

/// What the frame does with a delivery; see [`Interpreter::on_while_loop`].
pub open spec fn while_loop_takes(
    program: &Program,
    stmt: StmtId,
    delivery: Delivery,
    before: &Interpreter,
    after: &Interpreter,
    action: &Action,
) -> bool {
    match loop_goes_on(&delivery) {
        Some(true) => match stmt_at(program, stmt) {
            Some(Stmt::While { test, .. }) => {
                &&& after.pushed(before, Frame::WhileTest { stmt })
                &&& after.next() == Control::Expr(test)
                &&& action is Continue
            },
            _ => after.raised(before, action, ErrorKind::Protocol),
        },
        Some(false) => after.gave(before, action, Value::Undefined),
        None => after.raised(before, action, ErrorKind::Protocol),
    }
}

/// What the frame does with a delivery; see [`Interpreter::on_do_while_loop`].
pub open spec fn do_while_loop_takes(
    program: &Program,
    stmt: StmtId,
    delivery: Delivery,
    before: &Interpreter,
    after: &Interpreter,
    action: &Action,
) -> bool {
    match delivery {
        Delivery::Continue => match stmt_at(program, stmt) {
            Some(Stmt::DoWhile { body, .. }) => inner_turn_begins(
                program,
                body,
                Frame::DoWhileLoop { stmt },
                Frame::DoWhileBody { stmt },
                before,
                after,
                action,
            ),
            _ => after.raised(before, action, ErrorKind::Protocol),
        },
        Delivery::Break => after.gave(before, action, Value::Undefined),
        _ => after.raised(before, action, ErrorKind::Protocol),
    }
}

/// What the frame does with a delivery; see [`Interpreter::on_do_while_body`].
pub open spec fn do_while_body_takes(
    program: &Program,
    stmt: StmtId,
    delivery: Delivery,
    before: &Interpreter,
    after: &Interpreter,
    action: &Action,
) -> bool {
    match delivery {
        Delivery::Value(_) => match stmt_at(program, stmt) {
            Some(Stmt::DoWhile { test, .. }) => {
                &&& after.pushed(before, Frame::DoWhileTest)
                &&& after.next() == Control::Expr(test)
                &&& action is Continue
            },
            _ => after.raised(before, action, ErrorKind::Protocol),
        },
        Delivery::Break => after.keeps(before) && after.next()
            == Control::Deliver(Delivery::Break),
        Delivery::Continue => after.keeps(before) && after.next()
            == Control::Deliver(Delivery::Continue),
        _ => after.raised(before, action, ErrorKind::Protocol),
    }
}

/// What the frame does with a delivery; see [`Interpreter::on_do_while_test`].
pub open spec fn do_while_test_takes(
    delivery: Delivery,
    before: &Interpreter,
    after: &Interpreter,
    action: &Action,
) -> bool {
    match delivery {
        Delivery::Value(value) => {
            &&& after.keeps(before)
            &&& after.next() == Control::Deliver(
                if value@ == ValueView::Bool(true) {
                    Delivery::Continue
                } else {
                    Delivery::Break
                },
            )
        },
        _ => after.raised(before, action, ErrorKind::Protocol),
    }
}

/// What the frame does with a delivery; see [`Interpreter::on_for_init`].
pub open spec fn for_init_takes(
    program: &Program,
    stmt: StmtId,
    delivery: Delivery,
    before: &Interpreter,
    after: &Interpreter,
    action: &Action,
) -> bool {
    match delivery {
        Delivery::Value(_) => match stmt_at(program, stmt) {
            Some(Stmt::For { test, body, .. }) => match test {
                Some(expr) => {
                    &&& after.pushed(before, Frame::ForTest { stmt })
                    &&& after.next() == Control::Expr(expr)
                    &&& action is Continue
                },
                None => inner_turn_begins(
                    program,
                    body,
                    Frame::ForLoop { stmt },
                    Frame::ForBody { stmt },
                    before,
                    after,
                    action,
                ),
            },
            _ => after.raised(before, action, ErrorKind::Protocol),
        },
        _ => after.raised(before, action, ErrorKind::Protocol),
    }
}

/// What the frame does with a delivery; see [`Interpreter::on_for_test`].
pub open spec fn for_test_takes(
    program: &Program,
    stmt: StmtId,
    delivery: Delivery,
    before: &Interpreter,
    after: &Interpreter,
    action: &Action,
) -> bool {
    match delivery {
        Delivery::Value(value) => match stmt_at(program, stmt) {
            Some(Stmt::For { body, .. }) => if value@ == ValueView::Bool(true) {
                inner_turn_begins(
                    program,
                    body,
                    Frame::ForLoop { stmt },
                    Frame::ForBody { stmt },
                    before,
                    after,
                    action,
                )
            } else {
                after.gave(before, action, Value::Undefined)
            },
            _ => after.raised(before, action, ErrorKind::Protocol),
        },
        _ => after.raised(before, action, ErrorKind::Protocol),
    }
}

/// What the frame does with a delivery; see [`Interpreter::on_for_loop`].
pub open spec fn for_loop_takes(
    program: &Program,
    stmt: StmtId,
    delivery: Delivery,
    before: &Interpreter,
    after: &Interpreter,
    action: &Action,
) -> bool {
    match delivery {
        Delivery::Continue => match stmt_at(program, stmt) {
            Some(Stmt::For { test, body, .. }) => match test {
                Some(expr) => {
                    &&& after.pushed(before, Frame::ForTest { stmt })
                    &&& after.next() == Control::Expr(expr)
                    &&& action is Continue
                },
                None => inner_turn_begins(
                    program,
                    body,
                    Frame::ForLoop { stmt },
                    Frame::ForBody { stmt },
                    before,
                    after,
                    action,
                ),
            },
            _ => after.raised(before, action, ErrorKind::Protocol),
        },
        Delivery::Break => after.gave(before, action, Value::Undefined),
        _ => after.raised(before, action, ErrorKind::Protocol),
    }
}

/// What the frame does with a delivery; see [`Interpreter::on_for_body`].
pub open spec fn for_body_takes(
    program: &Program,
    stmt: StmtId,
    delivery: Delivery,
    before: &Interpreter,
    after: &Interpreter,
    action: &Action,
) -> bool {
    match delivery {
        Delivery::Value(_) => match stmt_at(program, stmt) {
            Some(Stmt::For { update, .. }) => match update {
                Some(expr) => {
                    &&& after.pushed(before, Frame::ForUpdate)
                    &&& after.next() == Control::Expr(expr)
                    &&& action is Continue
                },
                None => after.keeps(before) && after.next()
                    == Control::Deliver(Delivery::Continue),
            },
            _ => after.raised(before, action, ErrorKind::Protocol),
        },
        Delivery::Break => after.keeps(before) && after.next()
            == Control::Deliver(Delivery::Break),
        Delivery::Continue => after.keeps(before) && after.next()
            == Control::Deliver(Delivery::Continue),
        _ => after.raised(before, action, ErrorKind::Protocol),
    }
}

/// What the frame does with a delivery; see [`Interpreter::on_for_update`].
pub open spec fn for_update_takes(
    delivery: Delivery,
    before: &Interpreter,
    after: &Interpreter,
    action: &Action,
) -> bool {
    match delivery {
        Delivery::Value(_) => after.keeps(before) && after.next()
            == Control::Deliver(Delivery::Continue),
        _ => after.raised(before, action, ErrorKind::Protocol),
    }
}

/// What the frame does with a delivery; see [`Interpreter::on_for_of_right`].
pub open spec fn for_of_right_takes(
    stmt: StmtId,
    delivery: Delivery,
    before: &Interpreter,
    after: &Interpreter,
    action: &Action,
) -> bool {
    match delivery {
        Delivery::Value(value) => {
            &&& after.pushed(before, Frame::ForOfIterator { stmt })
            &&& after.next() is Waiting
            &&& action == Action::Request(HostRequest::GetIterator(value))
        },
        _ => after.raised(before, action, ErrorKind::Protocol),
    }
}

/// What the frame does with a delivery; see [`Interpreter::on_for_of_iterator`].
pub open spec fn for_of_iterator_takes(
    stmt: StmtId,
    delivery: Delivery,
    before: &Interpreter,
    after: &Interpreter,
    action: &Action,
) -> bool {
    match delivery {
        Delivery::Value(iterator) => {
            &&& after.pushed(before, Frame::ForOfItem { stmt, iterator })
            &&& after.next() is Waiting
            &&& action == Action::Request(HostRequest::IteratorNext(iterator))
        },
        _ => after.raised(before, action, ErrorKind::Protocol),
    }
}

/// What the frame does with a delivery; see [`Interpreter::on_for_of_item`].
pub open spec fn for_of_item_takes(
    program: &Program,
    stmt: StmtId,
    iterator: Value,
    delivery: Delivery,
    before: &Interpreter,
    after: &Interpreter,
    action: &Action,
) -> bool {
    match delivery {
        Delivery::Value(value) => match stmt_at(program, stmt) {
            Some(Stmt::ForOf { left, body, .. }) => binds_turn(
                left,
                body,
                value,
                Frame::ForOfLoop { stmt, iterator },
                before,
                after,
                action,
            ),
            _ => after.raised(before, action, ErrorKind::Protocol),
        },
        Delivery::Nothing => after.gave(before, action, Value::Undefined),
        _ => after.raised(before, action, ErrorKind::Protocol),
    }
}

/// What the frame does with a delivery; see [`Interpreter::on_for_of_loop`].
pub open spec fn for_of_loop_takes(
    stmt: StmtId,
    iterator: Value,
    delivery: Delivery,
    before: &Interpreter,
    after: &Interpreter,
    action: &Action,
) -> bool {
    match loop_goes_on(&delivery) {
        Some(true) => {
            &&& after.pushed(before, Frame::ForOfItem { stmt, iterator })
            &&& after.next() is Waiting
            &&& action == Action::Request(HostRequest::IteratorNext(iterator))
        },
        Some(false) => after.gave(before, action, Value::Undefined),
        None => after.raised(before, action, ErrorKind::Protocol),
    }
}

/// What the frame does with a delivery; see [`Interpreter::on_for_in_right`].
pub open spec fn for_in_right_takes(
    stmt: StmtId,
    delivery: Delivery,
    before: &Interpreter,
    after: &Interpreter,
    action: &Action,
) -> bool {
    match delivery {
        Delivery::Value(value) => if value@ is Object {
            &&& after.pushed(before, Frame::ForInKeys { stmt })
            &&& after.next() is Waiting
            &&& action == Action::Request(HostRequest::Keys(value))
        } else {
            after.raised(before, action, ErrorKind::Type)
        },
        _ => after.raised(before, action, ErrorKind::Protocol),
    }
}

/// What the frame does with a delivery; see [`Interpreter::on_for_in_keys`].
pub open spec fn for_in_keys_takes(
    program: &Program,
    stmt: StmtId,
    delivery: Delivery,
    before: &Interpreter,
    after: &Interpreter,
    action: &Action,
) -> bool {
    match delivery {
        Delivery::Values(keys) => if keys@.len() == 0 {
            after.gave(before, action, Value::Undefined)
        } else {
            match stmt_at(program, stmt) {
                Some(Stmt::ForIn { left, body, .. }) => binds_turn(
                    left,
                    body,
                    keys@[0],
                    Frame::ForInLoop { stmt, keys, next: 1 },
                    before,
                    after,
                    action,
                ),
                _ => after.raised(before, action, ErrorKind::Protocol),
            }
        },
        _ => after.raised(before, action, ErrorKind::Protocol),
    }
}

/// What the frame does with a delivery; see [`Interpreter::on_for_in_loop`].
pub open spec fn for_in_loop_takes(
    program: &Program,
    stmt: StmtId,
    keys: Vec<Value>,
    next: usize,
    delivery: Delivery,
    before: &Interpreter,
    after: &Interpreter,
    action: &Action,
) -> bool {
    match loop_goes_on(&delivery) {
        Some(true) => if next >= keys@.len() {
            after.gave(before, action, Value::Undefined)
        } else {
            match stmt_at(program, stmt) {
                Some(Stmt::ForIn { left, body, .. }) => binds_turn(
                    left,
                    body,
                    keys@[next as int],
                    Frame::ForInLoop { stmt, keys, next: (next + 1) as usize },
                    before,
                    after,
                    action,
                ),
                _ => after.raised(before, action, ErrorKind::Protocol),
            }
        },
        Some(false) => after.gave(before, action, Value::Undefined),
        None => after.raised(before, action, ErrorKind::Protocol),
    }
}

/// What the frame does with a delivery; see [`Interpreter::on_loop_bind`].
pub open spec fn loop_bind_takes(
    program: &Program,
    body: StmtId,
    delivery: Delivery,
    before: &Interpreter,
    after: &Interpreter,
    action: &Action,
) -> bool {
    match delivery {
        Delivery::Value(_) => {
            &&& loop_begins(program, body, before.frames(), after, action)
            &&& after.scopes() == before.scopes()
            &&& after.heap() == before.heap()
        },
        _ => after.raised(before, action, ErrorKind::Protocol),
    }
}

/// What the frame does with a delivery; see [`Interpreter::eval_block`].
pub open spec fn loop_block_goes_on(
    program: &Program,
    block: BlockId,
    next: usize,
    delivery: Delivery,
    before: &Interpreter,
    after: &Interpreter,
    action: &Action,
) -> bool {
    match delivery {
        Delivery::Break => after.raised(before, action, ErrorKind::Protocol),
        Delivery::Continue => after.raised(before, action, ErrorKind::Protocol),
        Delivery::Values(_) => after.raised(before, action, ErrorKind::Protocol),
        Delivery::Entries(_) => after.raised(before, action, ErrorKind::Protocol),
        Delivery::Params { .. } => after.raised(
            before,
            action,
            ErrorKind::Protocol,
        ),
        _ => if block >= program.blocks@.len() {
            after.raised(before, action, ErrorKind::Protocol)
        } else if next >= program.blocks@[block as int]@.len() {
            after.gave(
                before,
                action,
                match delivery {
                    Delivery::Value(value) => value,
                    _ => Value::Undefined,
                },
            )
        } else {
            match stmt_at(program, program.blocks@[block as int]@[next as int]) {
                None => after.raised(before, action, ErrorKind::Protocol),
                Some(Stmt::Break) => {
                    &&& after.keeps(before)
                    &&& after.next() == Control::Deliver(Delivery::Break)
                },
                Some(Stmt::Continue) => {
                    &&& after.keeps(before)
                    &&& after.next() == Control::Deliver(Delivery::Continue)
                },
                Some(_) => {
                    &&& after.pushed(
                        before,
                        Frame::LoopBlock { block, next: (next + 1) as usize },
                    )
                    &&& after.next() == Control::Stmt(
                        program.blocks@[block as int]@[next as int],
                    )
                },
            }
        },
    }
}

impl Interpreter {
    /// Executes one statement.
    pub(crate) fn eval_stmt(&mut self, program: &Program, stmt: StmtId) -> (action: Action)
        requires
            old(self).inv(),
            !old(self).is_idle(),
        ensures
            final(self).stepped(old(self), &action),
            executes(program, stmt, old(self), final(self), &action),
    {
        let node = match program.stmt(stmt) {
            Some(node) => node,
            None => {
                return self.broken();
            },
        };
        match node {
            Stmt::Decl(_) => {
                self.push_frame(Frame::Replace { value: Value::Undefined });
                self.eval_decl(program, stmt)
            },
            Stmt::Expr(expr) => self.go_expr(*expr),
            Stmt::Block(block) => self.eval(program, *block),
            Stmt::If { test, .. } => {
                self.push_frame(Frame::IfTest { stmt });
                self.go_expr(*test)
            },
            Stmt::Return(arg) => match arg {
                Some(expr) => self.go_expr(*expr),
                None => self.give(Value::Null),
            },
            Stmt::Empty => self.give(Value::Null),
            Stmt::Throw(arg) => {
                self.push_frame(Frame::ThrowArg);
                self.go_expr(*arg)
            },
            Stmt::Try { block, .. } => {
                self.push_frame(Frame::Try { stmt });
                self.enter_scope();
                self.eval(program, *block)
            },
            Stmt::While { test, .. } => {
                self.push_frame(Frame::WhileTest { stmt });
                self.go_expr(*test)
            },
            Stmt::DoWhile { body, .. } => self.do_while_turn(program, stmt, *body),
            Stmt::For { init, .. } => match init {
                None => self.for_test(program, stmt),
                Some(ForInit::Expr(expr)) => {
                    self.push_frame(Frame::ForInit { stmt });
                    self.go_expr(*expr)
                },
                Some(ForInit::VarDecl(_)) => {
                    self.push_frame(Frame::ForInit { stmt });
                    self.var_decls(program, stmt, 0)
                },
            },
            Stmt::ForOf { right, .. } => {
                self.push_frame(Frame::ForOfRight { stmt });
                self.go_expr(*right)
            },
            Stmt::ForIn { right, .. } => {
                self.push_frame(Frame::ForInRight { stmt });
                self.go_expr(*right)
            },
            Stmt::Import { .. } => self.eval_module_decl(program, stmt),
            Stmt::Break => self.fail_with(
                ErrorKind::Syntax,
                "ERROR: Statement break is not supported here.",
            ),
            Stmt::Continue => self.fail_with(
                ErrorKind::Syntax,
                "ERROR: Statement continue is not supported here.",
            ),
            Stmt::Unsupported(what) => {
                let message = concat_text("ERROR: Statement is not supported: ", what.as_str());
                self.fail(EvalError::new(ErrorKind::Syntax, message))
            },
        }
    }

    /// Begins the body of a loop: a block runs statement by statement and
    /// watches for `break` and `continue`; a body that is itself one of the
    /// two gives that signal; any other statement is executed.
    pub(crate) fn loop_body(&mut self, program: &Program, body: StmtId) -> (action: Action)
        requires
            old(self).inv(),
            !old(self).is_idle(),
        ensures
            final(self).stepped(old(self), &action),
            loop_begins(program, body, old(self).frames(), final(self), &action),
            final(self).scopes() == old(self).scopes(),
            final(self).heap() == old(self).heap(),
    {
        match program.stmt(body) {
            Some(Stmt::Block(block)) => {
                self.push_frame(Frame::LoopBlock { block: *block, next: 0 });
                self.tick()
            },
            Some(Stmt::Continue) => self.deliver(Delivery::Continue),
            Some(Stmt::Break) => self.deliver(Delivery::Break),
            Some(_) => self.go_stmt(body),
            None => self.broken(),
        }
    }

    /// Goes on in the block of a loop: the next statement is executed, unless
    /// it is `break` or `continue`, which end the block with that signal. At
    /// its end the block gives the value of its last statement, and
    /// `undefined` where it has none.
    pub(crate) fn eval_block(
        &mut self,
        program: &Program,
        block: BlockId,
        next: usize,
        delivery: Delivery,
    ) -> (action: Action)
        requires
            old(self).inv(),
            !old(self).is_idle(),
        ensures
            final(self).stepped(old(self), &action),
            loop_block_goes_on(program, block, next, delivery, old(self), final(self), &action),
    {
        let last = match delivery {
            Delivery::Value(value) => value,
            Delivery::Nothing => Value::Undefined,
            _ => {
                return self.broken();
            },
        };
        let stmts = match program.block(block) {
            Some(stmts) => stmts,
            None => {
                return self.broken();
            },
        };
        if next >= stmts.len() {
            return self.give(last);
        }
        let stmt = stmts[next];
        match program.stmt(stmt) {
            Some(Stmt::Break) => self.deliver(Delivery::Break),
            Some(Stmt::Continue) => self.deliver(Delivery::Continue),
            Some(_) => {
                self.push_frame(Frame::LoopBlock { block, next: next + 1 });
                self.go_stmt(stmt)
            },
            None => self.broken(),
        }
    }

    /// Takes the branch of an `if` once its test is known to count as true or
    /// not.
    pub(crate) fn eval_if_stmt(&mut self, program: &Program, stmt: StmtId, test: bool) -> (action:
        Action)
        requires
            old(self).inv(),
            !old(self).is_idle(),
        ensures
            final(self).stepped(old(self), &action),
            match stmt_at(program, stmt) {
                Some(Stmt::If { cons, alt, .. }) => if test {
                    final(self).keeps(old(self)) && final(self).next() == Control::Stmt(cons)
                } else {
                    match alt {
                        Some(other) => final(self).keeps(old(self)) && final(self).next()
                            == Control::Stmt(other),
                        None => final(self).gave(old(self), &action, Value::Undefined),
                    }
                },
                _ => final(self).raised(old(self), &action, ErrorKind::Protocol),
            },
    {
        match program.stmt(stmt) {
            Some(Stmt::If { cons, alt, .. }) => {
                if test {
                    self.go_stmt(*cons)
                } else {
                    match alt {
                        Some(other) => self.go_stmt(*other),
                        None => self.give(Value::Undefined),
                    }
                }
            },
            _ => self.broken(),
        }
    }

    /// The test of an `if` is known: the branch is taken by whether it counts
    /// as true, which of a big integer the host says.
    pub(crate) fn on_if_test(
        &mut self,
        program: &Program,
        stmt: StmtId,
        delivery: Delivery,
    ) -> (action: Action)
        requires
            old(self).inv(),
            !old(self).is_idle(),
        ensures
            final(self).stepped(old(self), &action),
            if_test_takes(program, stmt, delivery, old(self), final(self), &action),
    {
        match delivery {
            Delivery::Value(value) => match value.is_truthy() {
                Some(test) => self.eval_if_stmt(program, stmt, test),
                None => {
                    self.push_frame(Frame::IfBranch { stmt });
                    self.ask(HostRequest::Truthy(value))
                },
            },
            _ => self.broken(),
        }
    }

    /// The host said whether the test of an `if` counts as true.
    pub(crate) fn on_if_branch(
        &mut self,
        program: &Program,
        stmt: StmtId,
        delivery: Delivery,
    ) -> (action: Action)
        requires
            old(self).inv(),
            !old(self).is_idle(),
        ensures
            final(self).stepped(old(self), &action),
            if_branch_takes(program, stmt, delivery, old(self), final(self), &action),
    {
        match delivery {
            Delivery::Value(Value::Bool(test)) => self.eval_if_stmt(program, stmt, test),
            _ => self.broken(),
        }
    }

    /// The operand of `throw` is known. Text is thrown as it is; of any other
    /// value the host gives the text. The text is the message of the failure.
    pub(crate) fn on_throw_arg(&mut self, delivery: Delivery) -> (action: Action)
        requires
            old(self).inv(),
            !old(self).is_idle(),
        ensures
            final(self).stepped(old(self), &action),
            throw_arg_takes(delivery, old(self), final(self), &action),
    {
        match delivery {
            Delivery::Value(Value::String(text)) => self.fail(thrown(text.as_str())),
            Delivery::Value(value) => {
                self.push_frame(Frame::ThrowText);
                self.ask(HostRequest::Display(value))
            },
            _ => self.broken(),
        }
    }

    pub(crate) fn on_throw_text(&mut self, delivery: Delivery) -> (action: Action)
        requires
            old(self).inv(),
            !old(self).is_idle(),
        ensures
            final(self).stepped(old(self), &action),
            throw_text_takes(delivery, old(self), final(self), &action),
    {
        match delivery {
            Delivery::Value(Value::String(text)) => self.fail(thrown(text.as_str())),
            _ => self.broken(),
        }
    }

    /// A failure reached a `try`. With a handler, the handler's block runs in
    /// a scope of its own, in which the handler's parameter names an error
    /// object made of the failure's message. A parameter that is no
    /// identifier is a syntax error. Without a handler the failure goes on.
    pub(crate) fn catch(&mut self, program: &Program, stmt: StmtId, error: EvalError) -> (action:
        Action)
        requires
            old(self).inv(),
            !old(self).is_idle(),
        ensures
            final(self).stepped(old(self), &action),
            catches(
                program,
                stmt,
                error,
                old(self).frames(),
                old(self).scopes()@,
                old(self).heap(),
                final(self),
                &action,
            ),
    {
        match program.stmt(stmt) {
            Some(Stmt::Try { handler, .. }) => match handler {
                Some(clause) => match clause.param {
                    Some(param) => match program.pat(param) {
                        Some(Pat::Ident(_)) => {
                            self.enter_scope();
                            self.push_frame(Frame::CatchBind { stmt });
                            self.ask(HostRequest::CreateError(error.message))
                        },
                        Some(_) => self.fail_with(
                            ErrorKind::Syntax,
                            "ERROR: The parameter of a catch clause must be an identifier.",
                        ),
                        None => self.broken(),
                    },
                    None => {
                        self.enter_scope();
                        self.eval(program, clause.body)
                    },
                },
                None => self.fail(error),
            },
            _ => self.fail(error),
        }
    }

    /// The host wrapped the failure: the parameter of the handler names the
    /// error object in the scope of the handler, and the handler's block
    /// begins.
    pub(crate) fn on_catch_bind(
        &mut self,
        program: &Program,
        stmt: StmtId,
        delivery: Delivery,
    ) -> (action: Action)
        requires
            old(self).inv(),
            !old(self).is_idle(),
        ensures
            final(self).stepped(old(self), &action),
            catch_bind_takes(program, stmt, delivery, old(self), final(self), &action),
    {
        let wrapped = match delivery.into_value() {
            Some(value) => value,
            None => {
                return self.broken();
            },
        };
        match program.stmt(stmt) {
            Some(Stmt::Try { handler: Some(clause), .. }) => match clause.param {
                Some(param) => match program.pat(param) {
                    Some(Pat::Ident(name)) => {
                        let _ = self.declare(name.as_str(), wrapped);
                        self.eval(program, clause.body)
                    },
                    _ => self.broken(),
                },
                None => self.broken(),
            },
            _ => self.broken(),
        }
    }

    /// The test of a `while` loop is known: only the boolean `true` begins
    /// another turn, in a scope of its own; anything else ends the loop.
    pub(crate) fn on_while_test(
        &mut self,
        program: &Program,
        stmt: StmtId,
        delivery: Delivery,
    ) -> (action: Action)
        requires
            old(self).inv(),
            !old(self).is_idle(),
        ensures
            final(self).stepped(old(self), &action),
            while_test_takes(program, stmt, delivery, old(self), final(self), &action),
    {
        let value = match delivery.into_value() {
            Some(value) => value,
            None => {
                return self.broken();
            },
        };
        match program.stmt(stmt) {
            Some(Stmt::While { body, .. }) => {
                if value.is_true() {
                    self.push_frame(Frame::WhileLoop { stmt });
                    self.enter_scope();
                    self.loop_body(program, *body)
                } else {
                    self.give(Value::Undefined)
                }
            },
            _ => self.broken(),
        }
    }

    /// A turn of a `while` loop ended, and its scope was left: after a normal
    /// end or `continue` the test is evaluated again, after `break` the loop
    /// ends.
    pub(crate) fn on_while_loop(
        &mut self,
        program: &Program,
        stmt: StmtId,
        delivery: Delivery,
    ) -> (action: Action)
        requires
            old(self).inv(),
            !old(self).is_idle(),
        ensures
            final(self).stepped(old(self), &action),
            while_loop_takes(program, stmt, delivery, old(self), final(self), &action),
    {
        match loop_signal(&delivery) {
            Some(true) => match program.stmt(stmt) {
                Some(Stmt::While { test, .. }) => {
                    self.push_frame(Frame::WhileTest { stmt });
                    self.go_expr(*test)
                },
                _ => self.broken(),
            },
            Some(false) => self.give(Value::Undefined),
            None => self.broken(),
        }
    }

    /// One turn of a `do ... while` loop: the body runs first.
    pub(crate) fn do_while_turn(
        &mut self,
        program: &Program,
        stmt: StmtId,
        body: StmtId,
    ) -> (action: Action)
        requires
            old(self).inv(),
            !old(self).is_idle(),
        ensures
            final(self).stepped(old(self), &action),
            inner_turn_begins(
                program,
                body,
                Frame::DoWhileLoop { stmt },
                Frame::DoWhileBody { stmt },
                old(self),
                final(self),
                &action,
            ),
    {
        self.push_frame(Frame::DoWhileLoop { stmt });
        self.enter_scope();
        self.push_frame(Frame::DoWhileBody { stmt });
        self.loop_body(program, body)
    }

    /// The body of a `do ... while` loop ended. After a normal end the test
    /// is evaluated, still in the scope of the turn; `break` and `continue`
    /// pass on to the loop, so that `continue` skips the test.
    pub(crate) fn on_do_while_body(
        &mut self,
        program: &Program,
        stmt: StmtId,
        delivery: Delivery,
    ) -> (action: Action)
        requires
            old(self).inv(),
            !old(self).is_idle(),
        ensures
            final(self).stepped(old(self), &action),
            do_while_body_takes(program, stmt, delivery, old(self), final(self), &action),
    {
        match delivery {
            Delivery::Value(_) => match program.stmt(stmt) {
                Some(Stmt::DoWhile { test, .. }) => {
                    self.push_frame(Frame::DoWhileTest);
                    self.go_expr(*test)
                },
                _ => self.broken(),
            },
            Delivery::Break => self.deliver(Delivery::Break),
            Delivery::Continue => self.deliver(Delivery::Continue),
            _ => self.broken(),
        }
    }

    /// The test of a `do ... while` loop is known: only the boolean `true`
    /// asks for another turn.
    pub(crate) fn on_do_while_test(&mut self, delivery: Delivery) -> (action: Action)
        requires
            old(self).inv(),
            !old(self).is_idle(),
        ensures
            final(self).stepped(old(self), &action),
            do_while_test_takes(delivery, old(self), final(self), &action),
    {
        match delivery {
            Delivery::Value(value) => {
                if value.is_true() {
                    self.deliver(Delivery::Continue)
                } else {
                    self.deliver(Delivery::Break)
                }
            },
            _ => self.broken(),
        }
    }

    pub(crate) fn on_do_while_loop(
        &mut self,
        program: &Program,
        stmt: StmtId,
        delivery: Delivery,
    ) -> (action: Action)
        requires
            old(self).inv(),
            !old(self).is_idle(),
        ensures
            final(self).stepped(old(self), &action),
            do_while_loop_takes(program, stmt, delivery, old(self), final(self), &action),
    {
        match delivery {
            Delivery::Continue => match program.stmt(stmt) {
                Some(Stmt::DoWhile { body, .. }) => self.do_while_turn(program, stmt, *body),
                _ => self.broken(),
            },
            Delivery::Break => self.give(Value::Undefined),
            _ => self.broken(),
        }
    }

    /// The test of a `for` loop; a loop without one goes straight on.
    pub(crate) fn for_test(&mut self, program: &Program, stmt: StmtId) -> (action: Action)
        requires
            old(self).inv(),
            !old(self).is_idle(),
        ensures
            final(self).stepped(old(self), &action),
            for_tests(program, stmt, old(self), final(self), &action),
    {
        match program.stmt(stmt) {
            Some(Stmt::For { test, body, .. }) => match test {
                Some(expr) => {
                    self.push_frame(Frame::ForTest { stmt });
                    self.go_expr(*expr)
                },
                None => self.for_turn(program, stmt, *body),
            },
            _ => self.broken(),
        }
    }

    /// One turn of a `for` loop.
    pub(crate) fn for_turn(&mut self, program: &Program, stmt: StmtId, body: StmtId) -> (action:
        Action)
        requires
            old(self).inv(),
            !old(self).is_idle(),
        ensures
            final(self).stepped(old(self), &action),
            inner_turn_begins(
                program,
                body,
                Frame::ForLoop { stmt },
                Frame::ForBody { stmt },
                old(self),
                final(self),
                &action,
            ),
    {
        self.push_frame(Frame::ForLoop { stmt });
        self.enter_scope();
        self.push_frame(Frame::ForBody { stmt });
        self.loop_body(program, body)
    }

    pub(crate) fn on_for_init(
        &mut self,
        program: &Program,
        stmt: StmtId,
        delivery: Delivery,
    ) -> (action: Action)
        requires
            old(self).inv(),
            !old(self).is_idle(),
        ensures
            final(self).stepped(old(self), &action),
            for_init_takes(program, stmt, delivery, old(self), final(self), &action),
    {
        match delivery {
            Delivery::Value(_) => self.for_test(program, stmt),
            _ => self.broken(),
        }
    }

    /// The test of a `for` loop is known: only the boolean `true` begins
    /// another turn.
    pub(crate) fn on_for_test(
        &mut self,
        program: &Program,
        stmt: StmtId,
        delivery: Delivery,
    ) -> (action: Action)
        requires
            old(self).inv(),
            !old(self).is_idle(),
        ensures
            final(self).stepped(old(self), &action),
            for_test_takes(program, stmt, delivery, old(self), final(self), &action),
    {
        let value = match delivery.into_value() {
            Some(value) => value,
            None => {
                return self.broken();
            },
        };
        match program.stmt(stmt) {
            Some(Stmt::For { body, .. }) => {
                if value.is_true() {
                    self.for_turn(program, stmt, *body)
                } else {
                    self.give(Value::Undefined)
                }
            },
            _ => self.broken(),
        }
    }

    /// The body of a `for` loop ended. After a normal end the update runs,
    /// still in the scope of the turn; `continue` skips it.
    pub(crate) fn on_for_body(
        &mut self,
        program: &Program,
        stmt: StmtId,
        delivery: Delivery,
    ) -> (action: Action)
        requires
            old(self).inv(),
            !old(self).is_idle(),
        ensures
            final(self).stepped(old(self), &action),
            for_body_takes(program, stmt, delivery, old(self), final(self), &action),
    {
        match delivery {
            Delivery::Value(_) => match program.stmt(stmt) {
                Some(Stmt::For { update, .. }) => match update {
                    Some(expr) => {
                        self.push_frame(Frame::ForUpdate);
                        self.go_expr(*expr)
                    },
                    None => self.deliver(Delivery::Continue),
                },
                _ => self.broken(),
            },
            Delivery::Break => self.deliver(Delivery::Break),
            Delivery::Continue => self.deliver(Delivery::Continue),
            _ => self.broken(),
        }
    }

    pub(crate) fn on_for_update(&mut self, delivery: Delivery) -> (action: Action)
        requires
            old(self).inv(),
            !old(self).is_idle(),
        ensures
            final(self).stepped(old(self), &action),
            for_update_takes(delivery, old(self), final(self), &action),
    {
        match delivery {
            Delivery::Value(_) => self.deliver(Delivery::Continue),
            _ => self.broken(),
        }
    }

    /// A turn of a `for` loop ended, and its scope was left: the test comes
    /// next, unless the turn ended with `break`.
    pub(crate) fn on_for_loop(
        &mut self,
        program: &Program,
        stmt: StmtId,
        delivery: Delivery,
    ) -> (action: Action)
        requires
            old(self).inv(),
            !old(self).is_idle(),
        ensures
            final(self).stepped(old(self), &action),
            for_loop_takes(program, stmt, delivery, old(self), final(self), &action),
    {
        match delivery {
            Delivery::Continue => self.for_test(program, stmt),
            Delivery::Break => self.give(Value::Undefined),
            _ => self.broken(),
        }
    }

    /// The target of a `for ... of` loop is known: the host is asked for its
    /// iterator.
    pub(crate) fn on_for_of_right(&mut self, stmt: StmtId, delivery: Delivery) -> (action: Action)
        requires
            old(self).inv(),
            !old(self).is_idle(),
        ensures
            final(self).stepped(old(self), &action),
            for_of_right_takes(stmt, delivery, old(self), final(self), &action),
    {
        match delivery {
            Delivery::Value(value) => {
                self.push_frame(Frame::ForOfIterator { stmt });
                self.ask(get_iterator(value))
            },
            _ => self.broken(),
        }
    }

    /// Asks the iterator of a `for ... of` loop for its next value.
    pub(crate) fn for_of_turn(&mut self, stmt: StmtId, iterator: Value) -> (action: Action)
        requires
            old(self).inv(),
            !old(self).is_idle(),
        ensures
            final(self).stepped(old(self), &action),
            final(self).pushed(old(self), Frame::ForOfItem { stmt, iterator }),
            final(self).next() is Waiting,
            action == Action::Request(HostRequest::IteratorNext(iterator)),
    {
        let request = HostRequest::IteratorNext(iterator.clone());
        self.push_frame(Frame::ForOfItem { stmt, iterator });
        self.ask(request)
    }

    pub(crate) fn on_for_of_iterator(&mut self, stmt: StmtId, delivery: Delivery) -> (action:
        Action)
        requires
            old(self).inv(),
            !old(self).is_idle(),
        ensures
            final(self).stepped(old(self), &action),
            for_of_iterator_takes(stmt, delivery, old(self), final(self), &action),
    {
        match delivery {
            Delivery::Value(iterator) => self.for_of_turn(stmt, iterator),
            _ => self.broken(),
        }
    }

    /// Binds the head of a `for ... of` or `for ... in` loop to the value of
    /// the turn, in the scope of the turn, and then runs the body.
    pub(crate) fn loop_bind(&mut self, left: ForHead, body: StmtId, value: Value) -> (action:
        Action)
        requires
            old(self).inv(),
            !old(self).is_idle(),
        ensures
            final(self).stepped(old(self), &action),
            final(self).scopes()@ == old(self).scopes()@.push(Map::<Seq<char>, BindingId>::empty()),
            final(self).heap() == old(self).heap(),
            action is Continue,
            match left {
                ForHead::UsingDecl => {
                    &&& final(self).frames() == old(self).frames().push(Frame::Scope)
                    &&& final(self).next() matches Control::Raise(error)
                    &&& error.kind == ErrorKind::Syntax
                },
                ForHead::Pat(pat) => {
                    &&& final(self).frames() == old(self).frames().push(Frame::Scope).push(
                        Frame::LoopBind { body },
                    )
                    &&& final(self).next() == (Control::Pattern {
                        pat,
                        value,
                        mode: DeclOrAssign::Decl,
                    })
                },
                ForHead::VarDecl(pat) => {
                    &&& final(self).frames() == old(self).frames().push(Frame::Scope).push(
                        Frame::LoopBind { body },
                    )
                    &&& final(self).next() == (Control::Pattern {
                        pat,
                        value,
                        mode: DeclOrAssign::Decl,
                    })
                },
            },
    {
        self.enter_scope();
        match left {
            ForHead::Pat(pat) => {
                self.push_frame(Frame::LoopBind { body });
                self.go_pattern(pat, value, DeclOrAssign::Decl)
            },
            ForHead::VarDecl(pat) => {
                self.push_frame(Frame::LoopBind { body });
                self.go_pattern(pat, value, DeclOrAssign::Decl)
            },
            ForHead::UsingDecl => self.fail_with(ErrorKind::Syntax, "Using decl not supported."),
        }
    }

    /// The iterator of a `for ... of` loop answered: with a value the next
    /// turn begins, at exhaustion the loop ends.
    pub(crate) fn on_for_of_item(
        &mut self,
        program: &Program,
        stmt: StmtId,
        iterator: Value,
        delivery: Delivery,
    ) -> (action: Action)
        requires
            old(self).inv(),
            !old(self).is_idle(),
        ensures
            final(self).stepped(old(self), &action),
            for_of_item_takes(program, stmt, iterator, delivery, old(self), final(self), &action),
    {
        match delivery {
            Delivery::Value(value) => match program.stmt(stmt) {
                Some(Stmt::ForOf { left, body, .. }) => {
                    self.push_frame(Frame::ForOfLoop { stmt, iterator });
                    self.loop_bind(*left, *body, value)
                },
                _ => self.broken(),
            },
            Delivery::Nothing => self.give(Value::Undefined),
            _ => self.broken(),
        }
    }

    pub(crate) fn on_loop_bind(
        &mut self,
        program: &Program,
        body: StmtId,
        delivery: Delivery,
    ) -> (action: Action)
        requires
            old(self).inv(),
            !old(self).is_idle(),
        ensures
            final(self).stepped(old(self), &action),
            loop_bind_takes(program, body, delivery, old(self), final(self), &action),
    {
        match delivery {
            Delivery::Value(_) => self.loop_body(program, body),
            _ => self.broken(),
        }
    }

    /// A turn of a `for ... of` loop ended, and its scope was left: after a
    /// normal end or `continue` the iterator is asked again, after `break`
    /// the loop ends.
    pub(crate) fn on_for_of_loop(
        &mut self,
        stmt: StmtId,
        iterator: Value,
        delivery: Delivery,
    ) -> (action: Action)
        requires
            old(self).inv(),
            !old(self).is_idle(),
        ensures
            final(self).stepped(old(self), &action),
            for_of_loop_takes(stmt, iterator, delivery, old(self), final(self), &action),
    {
        match loop_signal(&delivery) {
            Some(true) => self.for_of_turn(stmt, iterator),
            Some(false) => self.give(Value::Undefined),
            None => self.broken(),
        }
    }

    /// The target of a `for ... in` loop is known: it must be an object,
    /// whose own enumerable keys the host lists.
    pub(crate) fn on_for_in_right(&mut self, stmt: StmtId, delivery: Delivery) -> (action: Action)
        requires
            old(self).inv(),
            !old(self).is_idle(),
        ensures
            final(self).stepped(old(self), &action),
            for_in_right_takes(stmt, delivery, old(self), final(self), &action),
    {
        match delivery {
            Delivery::Value(value) => {
                if value.is_object() {
                    self.push_frame(Frame::ForInKeys { stmt });
                    self.ask(HostRequest::Keys(value))
                } else {
                    self.fail_with(
                        ErrorKind::Type,
                        "Error: Object in for .. in loop is not enumerable.",
                    )
                }
            },
            _ => self.broken(),
        }
    }

    /// One turn of a `for ... in` loop over the keys from `next` on.
    pub(crate) fn for_in_turn(
        &mut self,
        program: &Program,
        stmt: StmtId,
        keys: Vec<Value>,
        next: usize,
    ) -> (action: Action)
        requires
            old(self).inv(),
            !old(self).is_idle(),
        ensures
            final(self).stepped(old(self), &action),
            if next >= keys@.len() {
                final(self).gave(old(self), &action, Value::Undefined)
            } else {
                match stmt_at(program, stmt) {
                    Some(Stmt::ForIn { left, body, .. }) => binds_turn(
                        left,
                        body,
                        keys@[next as int],
                        Frame::ForInLoop { stmt, keys, next: (next + 1) as usize },
                        old(self),
                        final(self),
                        &action,
                    ),
                    _ => final(self).raised(old(self), &action, ErrorKind::Protocol),
                }
            },
    {
        if next >= keys.len() {
            return self.give(Value::Undefined);
        }
        let key = keys[next].clone();
        match program.stmt(stmt) {
            Some(Stmt::ForIn { left, body, .. }) => {
                self.push_frame(Frame::ForInLoop { stmt, keys, next: next + 1 });
                self.loop_bind(*left, *body, key)
            },
            _ => self.broken(),
        }
    }

    pub(crate) fn on_for_in_keys(
        &mut self,
        program: &Program,
        stmt: StmtId,
        delivery: Delivery,
    ) -> (action: Action)
        requires
            old(self).inv(),
            !old(self).is_idle(),
        ensures
            final(self).stepped(old(self), &action),
            for_in_keys_takes(program, stmt, delivery, old(self), final(self), &action),
    {
        match delivery {
            Delivery::Values(keys) => self.for_in_turn(program, stmt, keys, 0),
            _ => self.broken(),
        }
    }

    pub(crate) fn on_for_in_loop(
        &mut self,
        program: &Program,
        stmt: StmtId,
        keys: Vec<Value>,
        next: usize,
        delivery: Delivery,
    ) -> (action: Action)
        requires
            old(self).inv(),
            !old(self).is_idle(),
        ensures
            final(self).stepped(old(self), &action),
            for_in_loop_takes(program, stmt, keys, next, delivery, old(self), final(self), &action),
    {
        match loop_signal(&delivery) {
            Some(true) => self.for_in_turn(program, stmt, keys, next),
            Some(false) => self.give(Value::Undefined),
            None => self.broken(),
        }
    }
}

/// What the end of a turn means for a loop: `Some(true)` to go on after a
/// normal end or `continue`, `Some(false)` to stop after `break`.
pub open spec fn loop_goes_on(delivery: &Delivery) -> Option<bool> {
    match delivery {
        Delivery::Value(_) => Some(true),
        Delivery::Continue => Some(true),
        Delivery::Break => Some(false),
        _ => None,
    }
}

/// Decides [`loop_goes_on`].
pub fn loop_signal(delivery: &Delivery) -> (r: Option<bool>)
    ensures
        r == loop_goes_on(delivery),
{
    match delivery {
        Delivery::Value(_) => Some(true),
        Delivery::Continue => Some(true),
        Delivery::Break => Some(false),
        _ => None,
    }
}

/// The failure that `throw` raises: its message is the thrown value's text.
pub fn thrown(text: &str) -> (e: EvalError)
    ensures
        e.kind == ErrorKind::Thrown,
        e.message@ == text@,
{
    EvalError::with_text(ErrorKind::Thrown, text)
}

} // verus!
