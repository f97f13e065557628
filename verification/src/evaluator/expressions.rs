//! Expressions: the transitions that map one expression node to one value.

use vstd::prelude::*;
use crate::ast::{AssignOp, AssignTarget, BinaryOp, Element, Expr, ExprId, Lit, Pat, PatId, Program, UnaryOp, UpdateOp};
use crate::environment::Lookup;
use crate::error::{ErrorKind, EvalError};
use crate::host::HostRequest;
use crate::evaluator::objects::member_assignment_begins;
use crate::evaluator::statements::decl::{binds_name, expr_at, pat_at};
use crate::machine::{Action, Control, DeclOrAssign, Delivery, Frame, Interpreter};
use crate::number::ONE_BITS;
use crate::operation::{AfterParse, Outcome, OutcomeView};
use crate::text::concat_text;
use crate::value::Value;

pub mod binary;
pub mod unary;

verus! {

/// The binary operator that a compound assignment applies to the old value
/// and the right-hand side; plain assignment applies none.
pub open spec fn compound_operator(op: AssignOp) -> Option<BinaryOp> {
    match op {
        AssignOp::Assign => None,
        AssignOp::AddAssign => Some(BinaryOp::Add),
        AssignOp::SubAssign => Some(BinaryOp::Sub),
        AssignOp::MulAssign => Some(BinaryOp::Mul),
        AssignOp::DivAssign => Some(BinaryOp::Div),
        AssignOp::ModAssign => Some(BinaryOp::Mod),
        AssignOp::LShiftAssign => Some(BinaryOp::LShift),
        AssignOp::RShiftAssign => Some(BinaryOp::RShift),
        AssignOp::ZeroFillRShiftAssign => Some(BinaryOp::ZeroFillRShift),
        AssignOp::BitOrAssign => Some(BinaryOp::BitOr),
        AssignOp::BitXorAssign => Some(BinaryOp::BitXor),
        AssignOp::BitAndAssign => Some(BinaryOp::BitAnd),
        AssignOp::ExpAssign => Some(BinaryOp::Exp),
        AssignOp::AndAssign => Some(BinaryOp::LogicalAnd),
        AssignOp::OrAssign => Some(BinaryOp::LogicalOr),
        AssignOp::NullishAssign => Some(BinaryOp::NullishCoalescing),
    }
}

/// Decides [`compound_operator`].
pub fn assign_operator(op: AssignOp) -> (r: Option<BinaryOp>)
    ensures
        r == compound_operator(op),
{
    match op {
        AssignOp::Assign => None,
        AssignOp::AddAssign => Some(BinaryOp::Add),
        AssignOp::SubAssign => Some(BinaryOp::Sub),
        AssignOp::MulAssign => Some(BinaryOp::Mul),
        AssignOp::DivAssign => Some(BinaryOp::Div),
        AssignOp::ModAssign => Some(BinaryOp::Mod),
        AssignOp::LShiftAssign => Some(BinaryOp::LShift),
        AssignOp::RShiftAssign => Some(BinaryOp::RShift),
        AssignOp::ZeroFillRShiftAssign => Some(BinaryOp::ZeroFillRShift),
        AssignOp::BitOrAssign => Some(BinaryOp::BitOr),
        AssignOp::BitXorAssign => Some(BinaryOp::BitXor),
        AssignOp::BitAndAssign => Some(BinaryOp::BitAnd),
        AssignOp::ExpAssign => Some(BinaryOp::Exp),
        AssignOp::AndAssign => Some(BinaryOp::LogicalAnd),
        AssignOp::OrAssign => Some(BinaryOp::LogicalOr),
        AssignOp::NullishAssign => Some(BinaryOp::NullishCoalescing),
    }
}

/// The binary operator that an update applies to the old value and 1.
pub fn update_operator(op: UpdateOp) -> (r: BinaryOp)
    ensures
        r == (match op {
            UpdateOp::PlusPlus => BinaryOp::Add,
            UpdateOp::MinusMinus => BinaryOp::Sub,
        }),
{
    match op {
        UpdateOp::PlusPlus => BinaryOp::Add,
        UpdateOp::MinusMinus => BinaryOp::Sub,
    }
}

/// What it means to go on with the outcome of an operator, on a continuation
/// that is `from`: a result is handed to the continuation; a question goes
/// to the host, after a frame was put on the continuation where the answer
/// needs more work (a parsed number is worked on, the answer to `!=` is
/// negated).
pub open spec fn performs(
    before: &Interpreter,
    from: Seq<Frame>,
    after: &Interpreter,
    action: &Action,
    outcome: OutcomeView,
) -> bool {
    &&& after.scopes() == before.scopes()
    &&& after.heap() == before.heap()
    &&& match outcome {
        OutcomeView::Value(view) => {
            &&& after.frames() == from
            &&& action is Continue
            &&& after.next() matches Control::Deliver(Delivery::Value(value))
            &&& value@ == view
        },
        OutcomeView::Arith { op, left, right } => {
            &&& after.frames() == from
            &&& after.next() is Waiting
            &&& *action == Action::Request(HostRequest::Arith { op, left, right })
        },
        OutcomeView::Parse { text, then } => {
            &&& after.frames() == from.push(Frame::Parsed { then })
            &&& after.next() is Waiting
            &&& action matches Action::Request(HostRequest::ParseNumber(asked))
            &&& asked@ == text
        },
        OutcomeView::ToNumber(text) => {
            &&& after.frames() == from
            &&& after.next() is Waiting
            &&& action matches Action::Request(HostRequest::ToNumber(asked))
            &&& asked@ == crate::value::ValueView::String(text)
        },
        OutcomeView::SameObject { left, right, negate } => {
            &&& after.frames() == if negate {
                from.push(Frame::Negate)
            } else {
                from
            }
            &&& after.next() is Waiting
            &&& action matches Action::Request(HostRequest::SameObject { left: l, right: r })
            &&& l@ == left
            &&& r@ == right
        },
        OutcomeView::HasProperty { object, key } => {
            &&& after.frames() == from
            &&& after.next() is Waiting
            &&& action matches Action::Request(HostRequest::HasProperty { object: o, key: k })
            &&& o@ == object
            &&& k@ == key
        },
        OutcomeView::InstanceOf { value, class } => {
            &&& after.frames() == from
            &&& after.next() is Waiting
            &&& action matches Action::Request(HostRequest::InstanceOf { value: v, class: c })
            &&& v@ == value
            &&& c == class
        },
    }
}

/// An operator was applied, on a continuation that is `from`: where its rule
/// gives an outcome the evaluation goes on with it, and where it gives none
/// the operator fails with an error of the given kind.
pub open spec fn applies(
    before: &Interpreter,
    from: Seq<Frame>,
    after: &Interpreter,
    action: &Action,
    rule: Option<OutcomeView>,
    kind: ErrorKind,
) -> bool {
    match rule {
        Some(outcome) => performs(before, from, after, action, outcome),
        None => action is Continue && after.failed_on(before, from, kind),
    }
}

/// How a variable is read, on a continuation that is `from`: the value of
/// the cell that the name resolves to; for a global name that no scope
/// binds, the host is asked whether its global object has a property of that
/// name, and the answer is taken as [`global_takes`] says; a name error
/// otherwise.
pub open spec fn reads(
    before: &Interpreter,
    from: Seq<Frame>,
    after: &Interpreter,
    action: &Action,
    name: Seq<char>,
) -> bool {
    &&& after.scopes() == before.scopes()
    &&& after.heap() == before.heap()
    &&& match crate::environment::lookup(before.scopes()@, name) {
        Lookup::Bound(cell) => if cell < before.heap()@.len() {
            &&& after.frames() == from
            &&& action is Continue
            &&& after.next() matches Control::Deliver(Delivery::Value(value))
            &&& value@ == before.heap()@[cell as int]
        } else {
            after.frames() == from && action is Continue && after.fails(ErrorKind::Protocol)
        },
        Lookup::Global(cell) => if cell < before.heap()@.len() {
            &&& after.frames().len() == from.len() + 1
            &&& after.frames().drop_last() == from
            &&& after.frames().last() matches Frame::Global { object: held, name: kept }
            &&& held@ == before.heap()@[cell as int]
            &&& kept@ == name
            &&& after.next() is Waiting
            &&& action matches Action::Request(HostRequest::HasProperty { object, key })
            &&& object@ == before.heap()@[cell as int]
            &&& key@ == crate::value::ValueView::String(name)
        } else {
            after.frames() == from && action is Continue && after.fails(ErrorKind::Protocol)
        },
        Lookup::Absent => after.frames() == from && action is Continue && after.fails(
            ErrorKind::Name,
        ),
    }
}

/// What the frame does with a delivery; see [`Interpreter::on_global`]. The
/// host said whether its global object has a property of the name: if it
/// has, the host reads it and the property's value is the variable's value;
/// if it has not, the name is bound nowhere, which is a name error.
pub open spec fn global_takes(
    object: Value,
    name: String,
    delivery: Delivery,
    before: &Interpreter,
    after: &Interpreter,
    action: &Action,
) -> bool {
    match delivery {
        Delivery::Value(Value::Bool(found)) => if found {
            &&& after.keeps(before)
            &&& after.next() is Waiting
            &&& action matches Action::Request(HostRequest::GetProperty { object: o, key })
            &&& o == object
            &&& key@ == crate::value::ValueView::String(name@)
        } else {
            after.raised(before, action, ErrorKind::Name)
        },
        _ => after.raised(before, action, ErrorKind::Protocol),
    }
}

/// How an array literal goes on with the position at `next`: a hole counts
/// as `undefined`, an item is evaluated, the source of a spread is evaluated
/// to be expanded. When all positions are known the host creates the array
/// of the items, in order.
pub open spec fn array_goes(
    program: &Program,
    node: ExprId,
    next: usize,
    items: Seq<Value>,
    before: &Interpreter,
    after: &Interpreter,
    action: &Action,
) -> bool {
    match expr_at(program, node) {
        Some(Expr::Array(elems)) => if next >= elems@.len() {
            &&& after.keeps(before)
            &&& after.next() is Waiting
            &&& action matches Action::Request(HostRequest::CreateArray(all))
            &&& all@ == items
        } else {
            &&& after.frames().len() == before.frames().len() + 1
            &&& after.frames().drop_last() == before.frames()
            &&& after.scopes() == before.scopes()
            &&& after.heap() == before.heap()
            &&& action is Continue
            &&& match elems@[next as int] {
                Element::Hole => {
                    &&& after.frames().last() matches Frame::ArrayItems {
                        node: n,
                        next: k,
                        items: kept,
                    }
                    &&& n == node
                    &&& k == next + 1
                    &&& kept@ == items.push(Value::Undefined)
                    &&& after.next() == Control::Deliver(Delivery::Nothing)
                },
                Element::Item(expr) => {
                    &&& after.frames().last() matches Frame::ArrayItems {
                        node: n,
                        next: k,
                        items: kept,
                    }
                    &&& n == node
                    &&& k == next + 1
                    &&& kept@ == items
                    &&& after.next() == Control::Expr(expr)
                },
                Element::Spread(expr) => {
                    &&& after.frames().last() matches Frame::ArraySpread {
                        node: n,
                        next: k,
                        items: kept,
                    }
                    &&& n == node
                    &&& k == next + 1
                    &&& kept@ == items
                    &&& after.next() == Control::Expr(expr)
                },
            }
        },
        _ => after.raised(before, action, ErrorKind::Protocol),
    }
}

/// How a pattern is read where a value is asked for, on a continuation that
/// is `from`: an identifier is read as a variable, an expression is
/// evaluated; no other pattern can be read.
pub open spec fn pattern_read(
    program: &Program,
    pat: PatId,
    from: Seq<Frame>,
    before: &Interpreter,
    after: &Interpreter,
    action: &Action,
) -> bool {
    match pat_at(program, pat) {
        Some(Pat::Ident(name)) => reads(before, from, after, action, name@),
        Some(Pat::Expr(expr)) => {
            &&& after.frames() == from
            &&& after.scopes() == before.scopes()
            &&& after.heap() == before.heap()
            &&& after.next() == Control::Expr(expr)
            &&& action is Continue
        },
        Some(_) => action is Continue && after.failed_on(before, from, ErrorKind::Syntax),
        None => action is Continue && after.failed_on(before, from, ErrorKind::Protocol),
    }
}

/// How the target of a compound assignment is read.
pub open spec fn target_read(
    program: &Program,
    target: AssignTarget,
    from: Seq<Frame>,
    before: &Interpreter,
    after: &Interpreter,
    action: &Action,
) -> bool {
    match target {
        AssignTarget::Pat(pat) => pattern_read(program, pat, from, before, after, action),
        AssignTarget::Expr(expr) => {
            &&& after.frames() == from
            &&& after.scopes() == before.scopes()
            &&& after.heap() == before.heap()
            &&& after.next() == Control::Expr(expr)
            &&& action is Continue
        },
    }
}

/// How an assignment begins. A plain assignment evaluates the right side,
/// to store it in the target; a compound one reads the target first.
pub open spec fn assignment_begins(
    program: &Program,
    node: ExprId,
    before: &Interpreter,
    after: &Interpreter,
    action: &Action,
) -> bool {
    match expr_at(program, node) {
        Some(Expr::Assign { op, left, right }) => match compound_operator(op) {
            None => {
                &&& after.pushed(before, Frame::Store { target: left })
                &&& after.next() == Control::Expr(right)
                &&& action is Continue
            },
            Some(_) => target_read(
                program,
                left,
                before.frames().push(Frame::AssignLeft { node }),
                before,
                after,
                action,
            ),
        },
        _ => after.raised(before, action, ErrorKind::Protocol),
    }
}

/// How an update begins: the operand is evaluated; the prefix form then adds
/// or takes one and stores the result, which is its value; the postfix form
/// first keeps what it read.
pub open spec fn update_begins(
    program: &Program,
    node: ExprId,
    before: &Interpreter,
    after: &Interpreter,
    action: &Action,
) -> bool {
    match expr_at(program, node) {
        Some(Expr::Update { op, prefix, arg }) => {
            &&& after.frames() == if prefix {
                before.frames().push(Frame::Store { target: AssignTarget::Expr(arg) }).push(
                    Frame::UpdateOperand { op },
                )
            } else {
                before.frames().push(Frame::PostfixRead { node })
            }
            &&& after.scopes() == before.scopes()
            &&& after.heap() == before.heap()
            &&& after.next() == Control::Expr(arg)
            &&& action is Continue
        },
        _ => after.raised(before, action, ErrorKind::Protocol),
    }
}

/// How a template literal goes on at the expression `next`, with the text
/// built so far: the literal piece before the expression is appended, and
/// the expression evaluated; after the last expression the last piece
/// closes the string, if it is the tail.
pub open spec fn template_goes(
    program: &Program,
    node: ExprId,
    next: usize,
    text: Seq<char>,
    before: &Interpreter,
    after: &Interpreter,
    action: &Action,
) -> bool {
    match expr_at(program, node) {
        Some(Expr::Tpl { quasis, exprs }) => if quasis@.len() == 0 {
            after.raised(before, action, ErrorKind::Protocol)
        } else if next < exprs@.len() && next < quasis@.len() {
            &&& after.frames().len() == before.frames().len() + 1
            &&& after.frames().drop_last() == before.frames()
            &&& after.frames().last() matches Frame::TplExpr { node: n, next: k, text: built }
            &&& n == node
            &&& k == next + 1
            &&& built@ == text + quasis@[next as int].text@
            &&& after.scopes() == before.scopes()
            &&& after.heap() == before.heap()
            &&& after.next() == Control::Expr(exprs@[next as int])
            &&& action is Continue
        } else {
            after.gave_view(
                before,
                action,
                crate::value::ValueView::String(
                    if quasis@.last().tail {
                        text + quasis@.last().text@
                    } else {
                        text
                    },
                ),
            )
        },
        _ => after.raised(before, action, ErrorKind::Protocol),
    }
}

/// How an expression is evaluated.
///
/// A literal gives its value, a regular expression literal an object that
/// the host creates. `this` and identifiers are read as variables. An
/// operator first evaluates its operand, a binary one its left operand. An
/// expression of any other kind than those listed is not supported.
pub open spec fn evaluates(
    program: &Program,
    expr: ExprId,
    before: &Interpreter,
    after: &Interpreter,
    action: &Action,
) -> bool {
    match expr_at(program, expr) {
        None => after.raised(before, action, ErrorKind::Protocol),
        Some(node) => match node {
            Expr::This => reads(before, before.frames(), after, action, "this"@),
            Expr::Lit(lit) => match lit {
                Lit::Num(bits) => after.gave(before, action, Value::Number(bits)),
                Lit::Bool(b) => after.gave(before, action, Value::Bool(b)),
                Lit::Str(text) => after.gave_view(
                    before,
                    action,
                    crate::value::ValueView::String(text@),
                ),
                Lit::Null => after.gave(before, action, Value::Null),
                Lit::Regex { exp, flags } => {
                    &&& after.keeps(before)
                    &&& after.next() is Waiting
                    &&& action matches Action::Request(
                        HostRequest::CreateRegExp { exp: e, flags: f },
                    )
                    &&& e@ == exp@
                    &&& f@ == flags@
                },
                Lit::Unsupported(_) => after.raised(before, action, ErrorKind::Syntax),
            },
            Expr::Array(_) => {
                &&& after.frames().len() == before.frames().len() + 1
                &&& after.frames().drop_last() == before.frames()
                &&& after.frames().last() matches Frame::ArrayItems { node: n, next, items }
                &&& n == expr
                &&& next == 0
                &&& items@.len() == 0
                &&& after.scopes() == before.scopes()
                &&& after.heap() == before.heap()
                &&& after.next() == Control::Deliver(Delivery::Nothing)
                &&& action is Continue
            },
            Expr::Ident(name) => reads(before, before.frames(), after, action, name@),
            Expr::Unary { op, arg } => {
                &&& after.pushed(before, Frame::Unary { op })
                &&& after.next() == Control::Expr(arg)
                &&& action is Continue
            },
            Expr::Bin { op, left, right } => {
                &&& after.pushed(before, Frame::BinRight { op, right })
                &&& after.next() == Control::Expr(left)
                &&& action is Continue
            },
            Expr::Arrow(function) => crate::evaluator::functions::function_begins(
                program,
                function,
                None,
                before.frames(),
                before,
                after,
                action,
            ),
            Expr::Fn(function) => crate::evaluator::functions::function_begins(
                program,
                function,
                None,
                before.frames(),
                before,
                after,
                action,
            ),
            Expr::Call { .. } => crate::evaluator::functions::call_begins(
                program,
                expr,
                before,
                after,
                action,
            ),
            Expr::Object(_) => crate::evaluator::objects::object_begins(
                expr,
                before,
                after,
                action,
            ),
            Expr::Member { .. } => crate::evaluator::objects::member_begins(
                program,
                expr,
                before,
                after,
                action,
            ),
            Expr::New { .. } => crate::evaluator::objects::new_begins(
                program,
                expr,
                before,
                after,
                action,
            ),
            Expr::Paren(inner) => {
                &&& after.keeps(before)
                &&& after.next() == Control::Expr(inner)
                &&& action is Continue
            },
            Expr::Await(arg) => {
                &&& after.pushed(before, Frame::AwaitArg)
                &&& after.next() == Control::Expr(arg)
                &&& action is Continue
            },
            Expr::Assign { .. } => assignment_begins(program, expr, before, after, action),
            Expr::Update { .. } => update_begins(program, expr, before, after, action),
            Expr::Sequence(list) => if list@.len() == 0 {
                after.gave(before, action, Value::Undefined)
            } else {
                &&& after.pushed(before, Frame::SeqNext { node: expr, next: 1 })
                &&& after.next() == Control::Expr(list@[0])
                &&& action is Continue
            },
            Expr::Cond { test, .. } => {
                &&& after.pushed(before, Frame::CondTest { node: expr })
                &&& after.next() == Control::Expr(test)
                &&& action is Continue
            },
            Expr::Tpl { .. } => template_goes(
                program,
                expr,
                0,
                Seq::empty(),
                before,
                after,
                action,
            ),
            Expr::Class(class) => crate::evaluator::class::class_begins(
                program,
                class,
                before.frames(),
                before,
                after,
                action,
            ),
            Expr::Unsupported(_) => after.raised(before, action, ErrorKind::Syntax),
        },
    }
}

/// What the frame does with a delivery; see [`Interpreter::on_negate`].
pub open spec fn negate_takes(
    delivery: Delivery,
    before: &Interpreter,
    after: &Interpreter,
    action: &Action,
) -> bool {
    match delivery {
        Delivery::Value(Value::Bool(same)) => after.gave(
            before,
            action,
            Value::Bool(!same),
        ),
        _ => after.raised(before, action, ErrorKind::Protocol),
    }
}

/// What the frame does with a delivery; see [`Interpreter::on_parsed`].
pub open spec fn parsed_takes(
    then: AfterParse,
    delivery: Delivery,
    before: &Interpreter,
    after: &Interpreter,
    action: &Action,
) -> bool {
    match delivery {
        Delivery::Value(Value::Number(bits)) => applies(
            before,
            before.frames(),
            after,
            action,
            binary::after_parse_rule(then, Some(bits)),
            ErrorKind::Type,
        ),
        Delivery::Nothing => applies(
            before,
            before.frames(),
            after,
            action,
            binary::after_parse_rule(then, None),
            ErrorKind::Type,
        ),
        _ => after.raised(before, action, ErrorKind::Protocol),
    }
}

/// What the frame does with a delivery; see [`Interpreter::on_array_items`].
pub open spec fn array_items_takes(
    program: &Program,
    node: ExprId,
    next: usize,
    items: Vec<Value>,
    delivery: Delivery,
    before: &Interpreter,
    after: &Interpreter,
    action: &Action,
) -> bool {
    match delivery {
        Delivery::Value(value) => array_goes(
            program,
            node,
            next,
            items@.push(value),
            before,
            after,
            action,
        ),
        Delivery::Values(values) => array_goes(
            program,
            node,
            next,
            items@ + values@,
            before,
            after,
            action,
        ),
        Delivery::Nothing => array_goes(
            program,
            node,
            next,
            items@,
            before,
            after,
            action,
        ),
        _ => after.raised(before, action, ErrorKind::Protocol),
    }
}

/// What the frame does with a delivery; see [`Interpreter::on_array_spread`].
pub open spec fn array_spread_takes(
    node: ExprId,
    next: usize,
    items: Vec<Value>,
    delivery: Delivery,
    before: &Interpreter,
    after: &Interpreter,
    action: &Action,
) -> bool {
    match delivery {
        Delivery::Value(source) => {
            &&& after.pushed(before, Frame::ArrayItems { node, next, items })
            &&& after.next() is Waiting
            &&& action == Action::Request(HostRequest::Iterate(source))
        },
        _ => after.raised(before, action, ErrorKind::Protocol),
    }
}

/// What the frame does with a delivery; see [`Interpreter::on_unary`].
pub open spec fn unary_takes(
    op: UnaryOp,
    delivery: Delivery,
    before: &Interpreter,
    after: &Interpreter,
    action: &Action,
) -> bool {
    match delivery {
        Delivery::Value(value) => applies(
            before,
            before.frames(),
            after,
            action,
            unary::unary_rule(op, value@),
            if unary::is_supported(op) {
                ErrorKind::Type
            } else {
                ErrorKind::Syntax
            },
        ),
        _ => after.raised(before, action, ErrorKind::Protocol),
    }
}

/// What the frame does with a delivery; see [`Interpreter::on_bin_right`].
pub open spec fn bin_right_takes(
    op: BinaryOp,
    right: ExprId,
    delivery: Delivery,
    before: &Interpreter,
    after: &Interpreter,
    action: &Action,
) -> bool {
    match delivery {
        Delivery::Value(left) => {
            &&& after.pushed(before, Frame::BinApply { op, left })
            &&& after.next() == Control::Expr(right)
            &&& action is Continue
        },
        _ => after.raised(before, action, ErrorKind::Protocol),
    }
}

/// What the frame does with a delivery; see [`Interpreter::on_bin_apply`].
pub open spec fn bin_apply_takes(
    op: BinaryOp,
    left: Value,
    delivery: Delivery,
    before: &Interpreter,
    after: &Interpreter,
    action: &Action,
) -> bool {
    match delivery {
        Delivery::Value(right) => applies(
            before,
            before.frames(),
            after,
            action,
            binary::binary_rule(op, left@, right@),
            ErrorKind::Type,
        ),
        _ => after.raised(before, action, ErrorKind::Protocol),
    }
}

/// What the frame does with a delivery; see [`Interpreter::on_await_arg`].
pub open spec fn await_arg_takes(
    delivery: Delivery,
    before: &Interpreter,
    after: &Interpreter,
    action: &Action,
) -> bool {
    match delivery {
        Delivery::Value(value) => if value@ is Object {
            after.asked(before, action, HostRequest::Await(value))
        } else {
            after.gave(before, action, Value::Undefined)
        },
        _ => after.raised(before, action, ErrorKind::Protocol),
    }
}

/// What the frame does with a delivery; see [`Interpreter::on_assign_left`].
pub open spec fn assign_left_takes(
    program: &Program,
    node: ExprId,
    delivery: Delivery,
    before: &Interpreter,
    after: &Interpreter,
    action: &Action,
) -> bool {
    match delivery {
        Delivery::Value(left) => match expr_at(program, node) {
            Some(Expr::Assign { right, .. }) => {
                &&& after.pushed(before, Frame::AssignApply { node, left })
                &&& after.next() == Control::Expr(right)
                &&& action is Continue
            },
            _ => after.raised(before, action, ErrorKind::Protocol),
        },
        _ => after.raised(before, action, ErrorKind::Protocol),
    }
}

/// What the frame does with a delivery; see [`Interpreter::on_assign_apply`].
pub open spec fn assign_apply_takes(
    program: &Program,
    node: ExprId,
    left: Value,
    delivery: Delivery,
    before: &Interpreter,
    after: &Interpreter,
    action: &Action,
) -> bool {
    match delivery {
        Delivery::Value(right) => match expr_at(program, node) {
            Some(Expr::Assign { op, left: target, .. }) => match compound_operator(op) {
                Some(operator) => applies(
                    before,
                    before.frames().push(Frame::Store { target }),
                    after,
                    action,
                    binary::binary_rule(operator, left@, right@),
                    ErrorKind::Type,
                ),
                None => after.raised(before, action, ErrorKind::Protocol),
            },
            _ => after.raised(before, action, ErrorKind::Protocol),
        },
        _ => after.raised(before, action, ErrorKind::Protocol),
    }
}

/// What the frame does with a delivery; see [`Interpreter::on_store`].
pub open spec fn store_takes(
    program: &Program,
    target: AssignTarget,
    delivery: Delivery,
    before: &Interpreter,
    after: &Interpreter,
    action: &Action,
) -> bool {
    match delivery {
        Delivery::Value(value) => match target {
            AssignTarget::Pat(pat) => {
                &&& after.keeps(before)
                &&& after.next() == (Control::Pattern {
                    pat,
                    value,
                    mode: DeclOrAssign::Assign,
                })
                &&& action is Continue
            },
            AssignTarget::Expr(expr) => match expr_at(program, expr) {
                Some(Expr::Ident(name)) => binds_name(
                    before,
                    after,
                    action,
                    name@,
                    value@,
                    DeclOrAssign::Assign,
                ),
                Some(Expr::Member { .. }) => member_assignment_begins(
                    program,
                    expr,
                    value,
                    before,
                    after,
                    action,
                ),
                Some(_) => after.raised(before, action, ErrorKind::Syntax),
                None => after.raised(before, action, ErrorKind::Protocol),
            },
        },
        _ => after.raised(before, action, ErrorKind::Protocol),
    }
}

/// What the frame does with a delivery; see [`Interpreter::on_postfix_read`].
pub open spec fn postfix_read_takes(
    program: &Program,
    node: ExprId,
    delivery: Delivery,
    before: &Interpreter,
    after: &Interpreter,
    action: &Action,
) -> bool {
    match delivery {
        Delivery::Value(value) => match expr_at(program, node) {
            Some(Expr::Update { op, arg, .. }) => {
                &&& after.frames() == before.frames().push(
                    Frame::Replace { value },
                ).push(Frame::Store { target: AssignTarget::Expr(arg) }).push(
                    Frame::UpdateOperand { op },
                )
                &&& after.scopes() == before.scopes()
                &&& after.heap() == before.heap()
                &&& after.next() == Control::Expr(arg)
                &&& action is Continue
            },
            _ => after.raised(before, action, ErrorKind::Protocol),
        },
        _ => after.raised(before, action, ErrorKind::Protocol),
    }
}

/// What the frame does with a delivery; see [`Interpreter::on_update_operand`].
pub open spec fn update_operand_takes(
    op: UpdateOp,
    delivery: Delivery,
    before: &Interpreter,
    after: &Interpreter,
    action: &Action,
) -> bool {
    match delivery {
        Delivery::Value(operand) => applies(
            before,
            before.frames(),
            after,
            action,
            binary::binary_rule(
                match op {
                    UpdateOp::PlusPlus => BinaryOp::Add,
                    UpdateOp::MinusMinus => BinaryOp::Sub,
                },
                operand@,
                crate::value::ValueView::Number(ONE_BITS),
            ),
            ErrorKind::Type,
        ),
        _ => after.raised(before, action, ErrorKind::Protocol),
    }
}

/// What the frame does with a delivery; see [`Interpreter::on_seq_next`].
pub open spec fn seq_next_takes(
    program: &Program,
    node: ExprId,
    next: usize,
    delivery: Delivery,
    before: &Interpreter,
    after: &Interpreter,
    action: &Action,
) -> bool {
    match delivery {
        Delivery::Value(value) => match expr_at(program, node) {
            Some(Expr::Sequence(list)) => if next < list@.len() {
                &&& after.pushed(
                    before,
                    Frame::SeqNext { node, next: (next + 1) as usize },
                )
                &&& after.next() == Control::Expr(list@[next as int])
                &&& action is Continue
            } else {
                after.gave(before, action, value)
            },
            _ => after.raised(before, action, ErrorKind::Protocol),
        },
        _ => after.raised(before, action, ErrorKind::Protocol),
    }
}

/// What the frame does with a delivery; see [`Interpreter::on_cond_test`].
pub open spec fn cond_test_takes(
    program: &Program,
    node: ExprId,
    delivery: Delivery,
    before: &Interpreter,
    after: &Interpreter,
    action: &Action,
) -> bool {
    match delivery {
        Delivery::Value(value) => match crate::value::truthiness(value@) {
            Some(test) => match expr_at(program, node) {
                Some(Expr::Cond { cons, alt, .. }) => {
                    &&& after.keeps(before)
                    &&& after.next() == Control::Expr(if test { cons } else { alt })
                    &&& action is Continue
                },
                _ => after.raised(before, action, ErrorKind::Protocol),
            },
            None => {
                &&& after.pushed(before, Frame::CondBranch { node })
                &&& after.next() is Waiting
                &&& action == Action::Request(HostRequest::Truthy(value))
            },
        },
        _ => after.raised(before, action, ErrorKind::Protocol),
    }
}

/// What the frame does with a delivery; see [`Interpreter::on_cond_branch`].
pub open spec fn cond_branch_takes(
    program: &Program,
    node: ExprId,
    delivery: Delivery,
    before: &Interpreter,
    after: &Interpreter,
    action: &Action,
) -> bool {
    match delivery {
        Delivery::Value(Value::Bool(test)) => match expr_at(program, node) {
            Some(Expr::Cond { cons, alt, .. }) => {
                &&& after.keeps(before)
                &&& after.next() == Control::Expr(if test { cons } else { alt })
                &&& action is Continue
            },
            _ => after.raised(before, action, ErrorKind::Protocol),
        },
        _ => after.raised(before, action, ErrorKind::Protocol),
    }
}

/// What the frame does with a delivery; see [`Interpreter::on_tpl_expr`].
pub open spec fn tpl_expr_takes(
    program: &Program,
    node: ExprId,
    next: usize,
    text: String,
    delivery: Delivery,
    before: &Interpreter,
    after: &Interpreter,
    action: &Action,
) -> bool {
    match delivery {
        Delivery::Value(Value::String(piece)) => template_goes(
            program,
            node,
            next,
            text@ + piece@,
            before,
            after,
            action,
        ),
        Delivery::Value(value) => {
            &&& after.pushed(before, Frame::TplText { node, next, text })
            &&& after.next() is Waiting
            &&& action == Action::Request(HostRequest::ToText(value))
        },
        _ => after.raised(before, action, ErrorKind::Protocol),
    }
}

/// What the frame does with a delivery; see [`Interpreter::on_tpl_text`].
pub open spec fn tpl_text_takes(
    program: &Program,
    node: ExprId,
    next: usize,
    text: String,
    delivery: Delivery,
    before: &Interpreter,
    after: &Interpreter,
    action: &Action,
) -> bool {
    match delivery {
        Delivery::Value(Value::String(piece)) => template_goes(
            program,
            node,
            next,
            text@ + piece@,
            before,
            after,
            action,
        ),
        _ => after.raised(before, action, ErrorKind::Protocol),
    }
}

impl Interpreter {
    /// Evaluates one expression node.
    pub(crate) fn eval_expr(&mut self, program: &Program, expr: ExprId) -> (action: Action)
        requires
            old(self).inv(),
            !old(self).is_idle(),
        ensures
            final(self).stepped(old(self), &action),
            evaluates(program, expr, old(self), final(self), &action),
    {
        let node = match program.expr(expr) {
            Some(node) => node,
            None => {
                return self.broken();
            },
        };
        match node {
            Expr::This => self.read_variable("this"),
            Expr::Lit(lit) => match lit {
                Lit::Num(bits) => self.give(Value::Number(*bits)),
                Lit::Bool(b) => self.give(Value::Bool(*b)),
                Lit::Str(text) => self.give(Value::String(text.clone())),
                Lit::Null => self.give(Value::Null),
                Lit::Regex { exp, flags } => self.ask(
                    HostRequest::CreateRegExp { exp: exp.clone(), flags: flags.clone() },
                ),
                Lit::Unsupported(what) => {
                    let message = concat_text("ERROR: Literal is not supported: ", what.as_str());
                    self.fail(EvalError::new(ErrorKind::Syntax, message))
                },
            },
            Expr::Array(_) => {
                self.push_frame(Frame::ArrayItems { node: expr, next: 0, items: Vec::new() });
                self.tick()
            },
            Expr::Ident(name) => self.read_variable(name.as_str()),
            Expr::Unary { op, arg } => {
                self.push_frame(Frame::Unary { op: *op });
                self.go_expr(*arg)
            },
            Expr::Bin { op, left, right } => {
                self.push_frame(Frame::BinRight { op: *op, right: *right });
                self.go_expr(*left)
            },
            Expr::Arrow(function) => self.function_declaration(program, *function, None),
            Expr::Fn(function) => self.function_declaration(program, *function, None),
            Expr::Call { .. } => self.call_function(program, expr),
            Expr::Object(_) => self.eval_obj_lit_expr(program, expr),
            Expr::Member { .. } => self.eval_member_expr(program, expr),
            Expr::New { .. } => self.eval_new_expr(program, expr),
            Expr::Paren(inner) => self.go_expr(*inner),
            Expr::Await(arg) => {
                self.push_frame(Frame::AwaitArg);
                self.go_expr(*arg)
            },
            Expr::Assign { .. } => self.eval_assign_expr(program, expr),
            Expr::Update { .. } => self.eval_update_expression(program, expr),
            Expr::Sequence(list) => {
                if list.len() == 0 {
                    self.give(Value::Undefined)
                } else {
                    self.push_frame(Frame::SeqNext { node: expr, next: 1 });
                    self.go_expr(list[0])
                }
            },
            Expr::Cond { test, .. } => {
                self.push_frame(Frame::CondTest { node: expr });
                self.go_expr(*test)
            },
            Expr::Tpl { .. } => self.template(program, expr, 0, String::new()),
            Expr::Class(class) => self.eval_class(program, *class),
            Expr::Unsupported(what) => {
                let message = concat_text("ERROR: Expression is not supported: ", what.as_str());
                self.fail(EvalError::new(ErrorKind::Syntax, message))
            },
        }
    }

    /// Reads a variable: the value of the cell that the name resolves to; for
    /// a global name that no scope binds, the property of that name of the
    /// host's global object, if it has one; a name error otherwise.
    pub(crate) fn read_variable(&mut self, name: &str) -> (action: Action)
        requires
            old(self).inv(),
            !old(self).is_idle(),
        ensures
            final(self).stepped(old(self), &action),
            reads(old(self), old(self).frames(), final(self), &action, name@),
    {
        match self.envs().get(name) {
            Lookup::Bound(cell) => match self.store().read(cell) {
                Some(value) => {
                    let value = value.clone();
                    self.give(value)
                },
                None => self.broken(),
            },
            Lookup::Global(cell) => match self.store().read(cell) {
                Some(global) => {
                    let object = global.clone();
                    self.push_frame(Frame::Global { object: object.clone(), name: name.to_owned() });
                    self.ask(HostRequest::HasProperty { object, key: Value::text(name) })
                },
                None => self.broken(),
            },
            Lookup::Absent => {
                let message = concat_text("ERROR: Variable not found: ", name);
                self.fail(EvalError::new(ErrorKind::Name, message))
            },
        }
    }

    /// Goes on with the outcome of an operator: a result is handed on, a
    /// question is put to the host.
    pub(crate) fn perform(&mut self, outcome: Outcome) -> (action: Action)
        requires
            old(self).inv(),
            !old(self).is_idle(),
        ensures
            final(self).stepped(old(self), &action),
            performs(old(self), old(self).frames(), final(self), &action, outcome@),
    {
        match outcome {
            Outcome::Value(value) => self.give(value),
            Outcome::Arith { op, left, right } => self.ask(HostRequest::Arith { op, left, right }),
            Outcome::Parse { text, then } => {
                self.push_frame(Frame::Parsed { then });
                self.ask(HostRequest::ParseNumber(text))
            },
            Outcome::ToNumber(text) => self.ask(HostRequest::ToNumber(Value::String(text))),
            Outcome::SameObject { left, right, negate } => {
                if negate {
                    self.push_frame(Frame::Negate);
                }
                self.ask(HostRequest::SameObject { left, right })
            },
            Outcome::HasProperty { object, key } => self.ask(
                HostRequest::HasProperty { object, key },
            ),
            Outcome::InstanceOf { value, class } => self.ask(
                HostRequest::InstanceOf { value, class },
            ),
        }
    }

    /// Goes on with what an operator gave: its outcome, or its failure.
    pub(crate) fn conclude(&mut self, result: Result<Outcome, EvalError>) -> (action: Action)
        requires
            old(self).inv(),
            !old(self).is_idle(),
        ensures
            final(self).stepped(old(self), &action),
            match result {
                Ok(outcome) => performs(
                    old(self),
                    old(self).frames(),
                    final(self),
                    &action,
                    outcome@,
                ),
                Err(error) => final(self).raised(old(self), &action, error.kind),
            },
    {
        match result {
            Ok(outcome) => self.perform(outcome),
            Err(error) => self.fail(error),
        }
    }

    /// The operand of a unary operator is known: the operator is applied.
    pub(crate) fn on_unary(&mut self, op: UnaryOp, delivery: Delivery) -> (action: Action)
        requires
            old(self).inv(),
            !old(self).is_idle(),
        ensures
            final(self).stepped(old(self), &action),
            unary_takes(op, delivery, old(self), final(self), &action),
    {
        match delivery {
            Delivery::Value(value) => self.conclude(unary::eval_unary_expression(op, &value)),
            _ => self.broken(),
        }
    }

    /// The left operand of a binary operator is known: the right operand is
    /// evaluated next, whatever the operator.
    pub(crate) fn on_bin_right(
        &mut self,
        op: BinaryOp,
        right: ExprId,
        delivery: Delivery,
    ) -> (action: Action)
        requires
            old(self).inv(),
            !old(self).is_idle(),
        ensures
            final(self).stepped(old(self), &action),
            bin_right_takes(op, right, delivery, old(self), final(self), &action),
    {
        match delivery {
            Delivery::Value(left) => {
                self.push_frame(Frame::BinApply { op, left });
                self.go_expr(right)
            },
            _ => self.broken(),
        }
    }

    /// Both operands of a binary operator are known: the operator is applied.
    pub(crate) fn on_bin_apply(&mut self, op: BinaryOp, left: Value, delivery: Delivery) -> (action:
        Action)
        requires
            old(self).inv(),
            !old(self).is_idle(),
        ensures
            final(self).stepped(old(self), &action),
            bin_apply_takes(op, left, delivery, old(self), final(self), &action),
    {
        match delivery {
            Delivery::Value(right) => self.conclude(
                binary::eval_binary_expression(op, &left, &right),
            ),
            _ => self.broken(),
        }
    }

    /// The host parsed a text operand, or found that it is no number.
    pub(crate) fn on_parsed(&mut self, then: AfterParse, delivery: Delivery) -> (action: Action)
        requires
            old(self).inv(),
            !old(self).is_idle(),
        ensures
            final(self).stepped(old(self), &action),
            parsed_takes(then, delivery, old(self), final(self), &action),
    {
        match delivery {
            Delivery::Value(Value::Number(bits)) => self.conclude(
                binary::after_parse(then, Some(bits)),
            ),
            Delivery::Nothing => self.conclude(binary::after_parse(then, None)),
            _ => self.broken(),
        }
    }

    /// The host said whether its global object has a property of the name
    /// that no scope binds: the property is read if there is one, and the
    /// name is not found if there is none.
    pub(crate) fn on_global(&mut self, object: Value, name: String, delivery: Delivery) -> (action:
        Action)
        requires
            old(self).inv(),
            !old(self).is_idle(),
        ensures
            final(self).stepped(old(self), &action),
            global_takes(object, name, delivery, old(self), final(self), &action),
    {
        match delivery {
            Delivery::Value(Value::Bool(found)) => if found {
                self.ask(HostRequest::GetProperty { object, key: Value::text(name.as_str()) })
            } else {
                let message = concat_text("ERROR: Variable not found: ", name.as_str());
                self.fail(EvalError::new(ErrorKind::Name, message))
            },
            _ => self.broken(),
        }
    }

    /// The host said whether two references are the same object; `!=` and
    /// `!==` answer the opposite.
    pub(crate) fn on_negate(&mut self, delivery: Delivery) -> (action: Action)
        requires
            old(self).inv(),
            !old(self).is_idle(),
        ensures
            final(self).stepped(old(self), &action),
            negate_takes(delivery, old(self), final(self), &action),
    {
        match delivery {
            Delivery::Value(Value::Bool(same)) => self.give(Value::Bool(!same)),
            _ => self.broken(),
        }
    }

    /// Goes on with the next position of an array literal: a hole counts as
    /// `undefined`, a spread is expanded through the iteration protocol. When
    /// all are known the host creates the array.
    pub(crate) fn array_item(
        &mut self,
        program: &Program,
        node: ExprId,
        next: usize,
        items: Vec<Value>,
    ) -> (action: Action)
        requires
            old(self).inv(),
            !old(self).is_idle(),
        ensures
            final(self).stepped(old(self), &action),
            array_goes(program, node, next, items@, old(self), final(self), &action),
    {
        let elems = match program.expr(node) {
            Some(Expr::Array(elems)) => elems,
            _ => {
                return self.broken();
            },
        };
        if next >= elems.len() {
            return self.ask(HostRequest::CreateArray(items));
        }
        match elems[next] {
            Element::Hole => {
                let mut items = items;
                items.push(Value::Undefined);
                self.push_frame(Frame::ArrayItems { node, next: next + 1, items });
                self.tick()
            },
            Element::Item(expr) => {
                self.push_frame(Frame::ArrayItems { node, next: next + 1, items });
                self.go_expr(expr)
            },
            Element::Spread(expr) => {
                self.push_frame(Frame::ArraySpread { node, next: next + 1, items });
                self.go_expr(expr)
            },
        }
    }

    /// An element of an array literal is known, or the elements that a
    /// spread yields, or the literal takes its next turn.
    pub(crate) fn on_array_items(
        &mut self,
        program: &Program,
        node: ExprId,
        next: usize,
        items: Vec<Value>,
        delivery: Delivery,
    ) -> (action: Action)
        requires
            old(self).inv(),
            !old(self).is_idle(),
        ensures
            final(self).stepped(old(self), &action),
            array_items_takes(
                program,
                node,
                next,
                items,
                delivery,
                old(self),
                final(self),
                &action,
            ),
    {
        let mut items = items;
        match delivery {
            Delivery::Value(value) => {
                items.push(value);
            },
            Delivery::Values(values) => {
                let mut values = values;
                items.append(&mut values);
            },
            Delivery::Nothing => {},
            _ => {
                return self.broken();
            },
        }
        self.array_item(program, node, next, items)
    }

    /// The source of a spread in an array literal is known: the host lists
    /// what iterating it yields.
    pub(crate) fn on_array_spread(
        &mut self,
        node: ExprId,
        next: usize,
        items: Vec<Value>,
        delivery: Delivery,
    ) -> (action: Action)
        requires
            old(self).inv(),
            !old(self).is_idle(),
        ensures
            final(self).stepped(old(self), &action),
            array_spread_takes(node, next, items, delivery, old(self), final(self), &action),
    {
        match delivery {
            Delivery::Value(source) => {
                self.push_frame(Frame::ArrayItems { node, next, items });
                self.ask(HostRequest::Iterate(source))
            },
            _ => self.broken(),
        }
    }

    /// The operand of `await` is known: the host waits on an object, and
    /// anything else resolves to `undefined` at once.
    pub(crate) fn on_await_arg(&mut self, delivery: Delivery) -> (action: Action)
        requires
            old(self).inv(),
            !old(self).is_idle(),
        ensures
            final(self).stepped(old(self), &action),
            await_arg_takes(delivery, old(self), final(self), &action),
    {
        match delivery {
            Delivery::Value(value) => {
                if value.is_object() {
                    self.ask(HostRequest::Await(value))
                } else {
                    self.give(Value::Undefined)
                }
            },
            _ => self.broken(),
        }
    }

    /// Evaluates a pattern that stands where a value is read.
    pub(crate) fn eval_pat(&mut self, program: &Program, pat: PatId) -> (action: Action)
        requires
            old(self).inv(),
            !old(self).is_idle(),
        ensures
            final(self).stepped(old(self), &action),
            pattern_read(program, pat, old(self).frames(), old(self), final(self), &action),
    {
        match program.pat(pat) {
            Some(Pat::Ident(name)) => self.read_variable(name.as_str()),
            Some(Pat::Expr(expr)) => self.go_expr(*expr),
            Some(_) => self.fail_with(
                ErrorKind::Syntax,
                "ERROR: Assignment pattern not supported.",
            ),
            None => self.broken(),
        }
    }

    /// Evaluates the left side of a compound assignment.
    pub(crate) fn eval_pat_or_exp(&mut self, program: &Program, target: AssignTarget) -> (action:
        Action)
        requires
            old(self).inv(),
            !old(self).is_idle(),
        ensures
            final(self).stepped(old(self), &action),
            target_read(program, target, old(self).frames(), old(self), final(self), &action),
    {
        match target {
            AssignTarget::Pat(pat) => self.eval_pat(program, pat),
            AssignTarget::Expr(expr) => self.go_expr(expr),
        }
    }

    /// Begins an assignment. A plain assignment evaluates the right side and
    /// stores it; a compound one evaluates the left side, then the right
    /// side, applies its operator to the two and stores the result.
    pub(crate) fn eval_assign_expr(&mut self, program: &Program, node: ExprId) -> (action: Action)
        requires
            old(self).inv(),
            !old(self).is_idle(),
        ensures
            final(self).stepped(old(self), &action),
            assignment_begins(program, node, old(self), final(self), &action),
    {
        match program.expr(node) {
            Some(Expr::Assign { op, left, right }) => match assign_operator(*op) {
                None => {
                    self.push_frame(Frame::Store { target: *left });
                    self.go_expr(*right)
                },
                Some(_) => {
                    self.push_frame(Frame::AssignLeft { node });
                    self.eval_pat_or_exp(program, *left)
                },
            },
            _ => self.broken(),
        }
    }

    /// The old value of the target of a compound assignment is known: the
    /// right side is evaluated next.
    pub(crate) fn on_assign_left(
        &mut self,
        program: &Program,
        node: ExprId,
        delivery: Delivery,
    ) -> (action: Action)
        requires
            old(self).inv(),
            !old(self).is_idle(),
        ensures
            final(self).stepped(old(self), &action),
            assign_left_takes(program, node, delivery, old(self), final(self), &action),
    {
        match delivery {
            Delivery::Value(left) => match program.expr(node) {
                Some(Expr::Assign { right, .. }) => {
                    self.push_frame(Frame::AssignApply { node, left });
                    self.go_expr(*right)
                },
                _ => self.broken(),
            },
            _ => self.broken(),
        }
    }

    /// Both sides of a compound assignment are known: its operator is
    /// applied to them, and the result will be stored in the target.
    pub(crate) fn on_assign_apply(
        &mut self,
        program: &Program,
        node: ExprId,
        left: Value,
        delivery: Delivery,
    ) -> (action: Action)
        requires
            old(self).inv(),
            !old(self).is_idle(),
        ensures
            final(self).stepped(old(self), &action),
            assign_apply_takes(program, node, left, delivery, old(self), final(self), &action),
    {
        let right = match delivery.into_value() {
            Some(value) => value,
            None => {
                return self.broken();
            },
        };
        match program.expr(node) {
            Some(Expr::Assign { op, left: target, .. }) => match assign_operator(*op) {
                Some(operator) => {
                    self.push_frame(Frame::Store { target: *target });
                    self.conclude(binary::eval_binary_expression(operator, &left, &right))
                },
                None => self.broken(),
            },
            _ => self.broken(),
        }
    }

    /// Stores the new value of an assignment in its target: a pattern is
    /// bound in assignment mode, an identifier is assigned to, a member is
    /// written by the host. The assignment evaluates to the value.
    pub(crate) fn on_store(
        &mut self,
        program: &Program,
        target: AssignTarget,
        delivery: Delivery,
    ) -> (action: Action)
        requires
            old(self).inv(),
            !old(self).is_idle(),
        ensures
            final(self).stepped(old(self), &action),
            store_takes(program, target, delivery, old(self), final(self), &action),
    {
        let value = match delivery.into_value() {
            Some(value) => value,
            None => {
                return self.broken();
            },
        };
        match target {
            AssignTarget::Pat(pat) => self.go_pattern(pat, value, DeclOrAssign::Assign),
            AssignTarget::Expr(expr) => match program.expr(expr) {
                Some(Expr::Ident(name)) => {
                    let result = value.clone();
                    match self.assign(name.as_str(), value) {
                        Ok(_) => self.give(result),
                        Err(error) => self.fail(error),
                    }
                },
                Some(Expr::Member { .. }) => self.assign_member_expr(program, expr, value),
                Some(_) => self.fail_with(
                    ErrorKind::Syntax,
                    "ERROR: Expression not supported for assignment.",
                ),
                None => self.broken(),
            },
        }
    }

    /// Begins an update: the compound assignment of the operand plus or
    /// minus one. The prefix form evaluates to the new value; the postfix
    /// form reads the operand first and evaluates to what it read.
    pub(crate) fn eval_update_expression(&mut self, program: &Program, node: ExprId) -> (action:
        Action)
        requires
            old(self).inv(),
            !old(self).is_idle(),
        ensures
            final(self).stepped(old(self), &action),
            update_begins(program, node, old(self), final(self), &action),
    {
        match program.expr(node) {
            Some(Expr::Update { op, prefix, arg }) => {
                if *prefix {
                    self.push_frame(Frame::Store { target: AssignTarget::Expr(*arg) });
                    self.push_frame(Frame::UpdateOperand { op: *op });
                } else {
                    self.push_frame(Frame::PostfixRead { node });
                }
                self.go_expr(*arg)
            },
            _ => self.broken(),
        }
    }

    /// The operand of a postfix update was read: the update follows, and its
    /// result will be replaced by the value read.
    pub(crate) fn on_postfix_read(
        &mut self,
        program: &Program,
        node: ExprId,
        delivery: Delivery,
    ) -> (action: Action)
        requires
            old(self).inv(),
            !old(self).is_idle(),
        ensures
            final(self).stepped(old(self), &action),
            postfix_read_takes(program, node, delivery, old(self), final(self), &action),
    {
        match delivery {
            Delivery::Value(before) => match program.expr(node) {
                Some(Expr::Update { op, arg, .. }) => {
                    self.push_frame(Frame::Replace { value: before });
                    self.push_frame(Frame::Store { target: AssignTarget::Expr(*arg) });
                    self.push_frame(Frame::UpdateOperand { op: *op });
                    self.go_expr(*arg)
                },
                _ => self.broken(),
            },
            _ => self.broken(),
        }
    }

    /// The operand of an update is known: one is added to it, or taken from
    /// it.
    pub(crate) fn on_update_operand(&mut self, op: UpdateOp, delivery: Delivery) -> (action:
        Action)
        requires
            old(self).inv(),
            !old(self).is_idle(),
        ensures
            final(self).stepped(old(self), &action),
            update_operand_takes(op, delivery, old(self), final(self), &action),
    {
        match delivery {
            Delivery::Value(operand) => self.conclude(
                binary::eval_binary_expression(
                    update_operator(op),
                    &operand,
                    &Value::Number(ONE_BITS),
                ),
            ),
            _ => self.broken(),
        }
    }

    /// An expression of a sequence gave its value: the next one is
    /// evaluated, and the value of the last is that of the sequence.
    pub(crate) fn on_seq_next(
        &mut self,
        program: &Program,
        node: ExprId,
        next: usize,
        delivery: Delivery,
    ) -> (action: Action)
        requires
            old(self).inv(),
            !old(self).is_idle(),
        ensures
            final(self).stepped(old(self), &action),
            seq_next_takes(program, node, next, delivery, old(self), final(self), &action),
    {
        let value = match delivery.into_value() {
            Some(value) => value,
            None => {
                return self.broken();
            },
        };
        match program.expr(node) {
            Some(Expr::Sequence(list)) => {
                if next < list.len() {
                    self.push_frame(Frame::SeqNext { node, next: next + 1 });
                    self.go_expr(list[next])
                } else {
                    self.give(value)
                }
            },
            _ => self.broken(),
        }
    }

    /// Takes the branch of a conditional expression.
    pub(crate) fn conditional(&mut self, program: &Program, node: ExprId, test: bool) -> (action:
        Action)
        requires
            old(self).inv(),
            !old(self).is_idle(),
        ensures
            final(self).stepped(old(self), &action),
            match expr_at(program, node) {
                Some(Expr::Cond { cons, alt, .. }) => {
                    &&& final(self).keeps(old(self))
                    &&& final(self).next() == Control::Expr(if test { cons } else { alt })
                    &&& action is Continue
                },
                _ => final(self).raised(old(self), &action, ErrorKind::Protocol),
            },
    {
        match program.expr(node) {
            Some(Expr::Cond { cons, alt, .. }) => {
                if test {
                    self.go_expr(*cons)
                } else {
                    self.go_expr(*alt)
                }
            },
            _ => self.broken(),
        }
    }

    /// The test of a conditional expression is known: only the branch that
    /// it selects is evaluated.
    pub(crate) fn on_cond_test(
        &mut self,
        program: &Program,
        node: ExprId,
        delivery: Delivery,
    ) -> (action: Action)
        requires
            old(self).inv(),
            !old(self).is_idle(),
        ensures
            final(self).stepped(old(self), &action),
            cond_test_takes(program, node, delivery, old(self), final(self), &action),
    {
        match delivery {
            Delivery::Value(value) => match value.is_truthy() {
                Some(test) => self.conditional(program, node, test),
                None => {
                    self.push_frame(Frame::CondBranch { node });
                    self.ask(HostRequest::Truthy(value))
                },
            },
            _ => self.broken(),
        }
    }

    /// The host said whether the test of a conditional expression counts as
    /// true.
    pub(crate) fn on_cond_branch(
        &mut self,
        program: &Program,
        node: ExprId,
        delivery: Delivery,
    ) -> (action: Action)
        requires
            old(self).inv(),
            !old(self).is_idle(),
        ensures
            final(self).stepped(old(self), &action),
            cond_branch_takes(program, node, delivery, old(self), final(self), &action),
    {
        match delivery {
            Delivery::Value(Value::Bool(test)) => self.conditional(program, node, test),
            _ => self.broken(),
        }
    }

    /// Goes on with a template literal: each literal piece is followed by
    /// the text of the expression after it, and the last piece closes the
    /// string if it is the tail.
    pub(crate) fn template(
        &mut self,
        program: &Program,
        node: ExprId,
        next: usize,
        text: String,
    ) -> (action: Action)
        requires
            old(self).inv(),
            !old(self).is_idle(),
        ensures
            final(self).stepped(old(self), &action),
            template_goes(program, node, next, text@, old(self), final(self), &action),
    {
        let (quasis, exprs) = match program.expr(node) {
            Some(Expr::Tpl { quasis, exprs }) => (quasis, exprs),
            _ => {
                return self.broken();
            },
        };
        if quasis.len() == 0 {
            return self.broken();
        }
        let mut text = text;
        if next < exprs.len() && next < quasis.len() {
            text.append(quasis[next].text.as_str());
            self.push_frame(Frame::TplExpr { node, next: next + 1, text });
            self.go_expr(exprs[next])
        } else {
            let last = &quasis[quasis.len() - 1];
            if last.tail {
                text.append(last.text.as_str());
            }
            self.give(Value::String(text))
        }
    }

    /// An expression of a template is known: text is appended as it is, and
    /// of any other value the host gives the text.
    pub(crate) fn on_tpl_expr(
        &mut self,
        program: &Program,
        node: ExprId,
        next: usize,
        text: String,
        delivery: Delivery,
    ) -> (action: Action)
        requires
            old(self).inv(),
            !old(self).is_idle(),
        ensures
            final(self).stepped(old(self), &action),
            tpl_expr_takes(program, node, next, text, delivery, old(self), final(self), &action),
    {
        match delivery {
            Delivery::Value(Value::String(piece)) => {
                let mut text = text;
                text.append(piece.as_str());
                self.template(program, node, next, text)
            },
            Delivery::Value(value) => {
                self.push_frame(Frame::TplText { node, next, text });
                self.ask(HostRequest::ToText(value))
            },
            _ => self.broken(),
        }
    }

    pub(crate) fn on_tpl_text(
        &mut self,
        program: &Program,
        node: ExprId,
        next: usize,
        text: String,
        delivery: Delivery,
    ) -> (action: Action)
        requires
            old(self).inv(),
            !old(self).is_idle(),
        ensures
            final(self).stepped(old(self), &action),
            tpl_text_takes(program, node, next, text, delivery, old(self), final(self), &action),
    {
        match delivery {
            Delivery::Value(Value::String(piece)) => {
                let mut text = text;
                text.append(piece.as_str());
                self.template(program, node, next, text)
            },
            _ => self.broken(),
        }
    }
}

} // verus!
