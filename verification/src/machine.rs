//! The step machine. One step takes one decision; whatever only the host can
//! do leaves the machine as a request, and the answer enters it with the next
//! step. The embedder runs the loop.

use vstd::prelude::*;
use crate::ast::{
    AssignTarget, BinaryOp, BlockId, ClassId, ExprId, PatId, Program, StmtId, UnaryOp, UpdateOp,
};
use crate::environment::{ClosedEnvironment, Environments};
use crate::error::{ErrorKind, EvalError};
use crate::host::{ClassProperty, HostRequest, Property, Reply, Slot};
use crate::operation::AfterParse;
use crate::store::Store;
use crate::value::{BindingId, ClosureId, FunctionId, Handle, Value};

verus! {

/// Whether a pattern declares new bindings or assigns to existing ones.
#[derive(Clone, Copy, Debug, PartialEq, Eq, Structural)]
pub enum DeclOrAssign {
    Decl,
    Assign,
}

/// What is handed to the frame on top of the continuation.
pub enum Delivery {
    Value(Value),
    Values(Vec<Value>),
    Entries(Vec<(Value, Value)>),
    /// The parameter names of a function, with the snapshot that holds the
    /// values of their defaults.
    Params { names: Vec<String>, env: ClosedEnvironment },
    /// No value: the host found nothing, or a frame is asked to go on.
    Nothing,
    /// The loop body ran into `break`.
    Break,
    /// The loop body ran into `continue`.
    Continue,
}

/// What the machine does next.
pub enum Control {
    Block(BlockId),
    Expr(ExprId),
    Stmt(StmtId),
    Pattern { pat: PatId, value: Value, mode: DeclOrAssign },
    Deliver(Delivery),
    Raise(EvalError),
    /// A request is with the host.
    Waiting,
    /// Nothing is being evaluated.
    Idle,
}

/// What a step leaves for the embedder to do.
#[derive(Debug)]
pub enum Action {
    /// Step again.
    Continue,
    /// Perform the request and step with its answer.
    Request(HostRequest),
    /// The evaluation ended with this value.
    Done(Value),
    /// The evaluation failed.
    Failed(EvalError),
}

/// A parameter pattern still to be walked, or a default still to be evaluated.
#[derive(Clone, Copy, Debug, PartialEq, Eq, Structural)]
pub enum Pending {
    Pat(PatId),
    /// Evaluate `right` and store it under the name at position `mark`.
    Default { right: ExprId, mark: usize },
}

/// The evaluation of a call's arguments.
pub struct CallState {
    pub node: ExprId,
    pub next: usize,
    pub callee: Value,
    pub this: Value,
    pub args: Vec<Value>,
}

/// The evaluation of an object literal's members.
pub struct ObjectState {
    pub node: ExprId,
    pub next: usize,
    pub properties: Vec<Property>,
}

/// The evaluation of a class's members.
pub struct ClassState {
    pub class: ClassId,
    pub next: usize,
    pub constructor: Value,
    pub parent: Option<Value>,
    pub members: Vec<ClassProperty>,
}

/// The walk of a function's parameter patterns.
pub struct ParamState {
    pub pending: Vec<Pending>,
    pub names: Vec<String>,
    pub env: ClosedEnvironment,
}

/// The destructuring of an array.
pub struct ArrayPatState {
    pub pat: PatId,
    pub mode: DeclOrAssign,
    pub rhs: Value,
    pub values: Vec<Value>,
    pub next: usize,
}

/// The destructuring of an object.
pub struct ObjectPatState {
    pub pat: PatId,
    pub mode: DeclOrAssign,
    pub rhs: Value,
    pub copy: Value,
    pub next: usize,
}

/// One frame of the continuation: what to do with the next delivery.
pub enum Frame {
    /// A scope was entered; it is left when anything passes this frame.
    Scope,
    /// A call is running in an environment of its own; the caller's is kept
    /// here and comes back when anything passes this frame.
    Call { saved: Environments, is_async: bool },
    Sequence { block: BlockId, next: usize },
    /// Whatever arrives, pass on `value` instead.
    Replace { value: Value },
    Negate,
    /// The host is asked whether its global object has a property of the
    /// name.
    Global { object: Value, name: String },
    Parsed { then: AfterParse },
    ArrayItems { node: ExprId, next: usize, items: Vec<Value> },
    ArraySpread { node: ExprId, next: usize, items: Vec<Value> },
    Unary { op: UnaryOp },
    BinRight { op: BinaryOp, right: ExprId },
    BinApply { op: BinaryOp, left: Value },
    ObjectProps(ObjectState),
    ObjectValue(ObjectState),
    ObjectKey { state: ObjectState, slot: Slot },
    ObjectSpread(ObjectState),
    ObjectEntries(ObjectState),
    MemberObject { node: ExprId },
    MemberKey { object: Value },
    NewCallee { node: ExprId },
    NewArgs(CallState),
    NewThis { closure: ClosureId, args: Vec<Value> },
    AwaitArg,
    AssignLeft { node: ExprId },
    AssignApply { node: ExprId, left: Value },
    Store { target: AssignTarget },
    AssignMemberObject { node: ExprId, value: Value },
    AssignMemberKey { object: Value, value: Value },
    PostfixRead { node: ExprId },
    UpdateOperand { op: UpdateOp },
    SeqNext { node: ExprId, next: usize },
    CondTest { node: ExprId },
    CondBranch { node: ExprId },
    TplExpr { node: ExprId, next: usize, text: String },
    TplText { node: ExprId, next: usize, text: String },
    MakeClosure { function: FunctionId, prototype: Option<Handle> },
    Params(ParamState),
    ParamDefault { state: ParamState, mark: usize },
    Compiled { function: FunctionId, names: Vec<String>, env: ClosedEnvironment, prototype: Option<
        Handle,
    > },
    CallCallee { node: ExprId },
    CallReceiver { node: ExprId },
    CallMethodKey { node: ExprId, this: Value },
    CallMethod { node: ExprId, this: Value },
    CallArgs(CallState),
    CallSpread(CallState),
    CallSpreadItems(CallState),
    CallRest { closure: ClosureId, this: Value, args: Vec<Value> },
    ClassCtorParams { class: ClassId },
    ClassCtor { class: ClassId },
    ClassSuper { class: ClassId, constructor: Value },
    ClassMembers(ClassState),
    ClassMethodParams(ClassState),
    ClassMethodCompiled(ClassState),
    ClassPropValue(ClassState),
    ClassMemberKey { state: ClassState, value: Value },
    VarDecls { stmt: StmtId, next: usize },
    VarInit { stmt: StmtId, index: usize },
    DeclareName { stmt: StmtId },
    IfTest { stmt: StmtId },
    IfBranch { stmt: StmtId },
    ThrowArg,
    ThrowText,
    Try { stmt: StmtId },
    CatchBind { stmt: StmtId },
    WhileTest { stmt: StmtId },
    WhileLoop { stmt: StmtId },
    DoWhileLoop { stmt: StmtId },
    DoWhileBody { stmt: StmtId },
    DoWhileTest,
    ForInit { stmt: StmtId },
    ForTest { stmt: StmtId },
    ForLoop { stmt: StmtId },
    ForBody { stmt: StmtId },
    ForUpdate,
    ForOfRight { stmt: StmtId },
    ForOfIterator { stmt: StmtId },
    ForOfItem { stmt: StmtId, iterator: Value },
    ForOfLoop { stmt: StmtId, iterator: Value },
    ForInRight { stmt: StmtId },
    ForInKeys { stmt: StmtId },
    ForInLoop { stmt: StmtId, keys: Vec<Value>, next: usize },
    LoopBind { body: StmtId },
    LoopBlock { block: BlockId, next: usize },
    ImportModule { stmt: StmtId },
    ImportSpecifiers { stmt: StmtId, module: Value, next: usize },
    ImportBind { stmt: StmtId, module: Value, index: usize },
    PatDefault { left: PatId, mode: DeclOrAssign },
    PatArray { pat: PatId, mode: DeclOrAssign, rhs: Value },
    PatArrayNext(ArrayPatState),
    PatArrayRest { state: ArrayPatState, arg: PatId },
    PatObject { pat: PatId, mode: DeclOrAssign, rhs: Value },
    PatObjectNext(ObjectPatState),
    PatObjectDefault(ObjectPatState),
    PatObjectKey(ObjectPatState),
    PatObjectGot { state: ObjectPatState, key: Value },
    PatObjectDeleted { state: ObjectPatState, value: Value },
}

impl Frame {
    /// A frame that owns no scope and no environment.
    pub open spec fn is_plain(&self) -> bool {
        !(self is Scope) && !(self is Call)
    }
}

/// How many frames a call's own environment starts with: the captured
/// bindings, and the frame of the call.
pub const CALL_DEPTH: usize = 2;

/// How deep the environment is when the continuation is `frames`: each scope
/// frame stands for one environment frame, and a call starts anew.
pub open spec fn depth_after(frames: Seq<Frame>, base: nat) -> nat
    decreases frames.len(),
{
    if frames.len() == 0 {
        base
    } else {
        match frames.last() {
            Frame::Call { .. } => CALL_DEPTH as nat,
            Frame::Scope => depth_after(frames.drop_last(), base) + 1,
            _ => depth_after(frames.drop_last(), base),
        }
    }
}

/// Every environment kept by a call frame is as deep as the continuation
/// below that frame asks.
pub open spec fn saved_fit(frames: Seq<Frame>, base: nat) -> bool
    decreases frames.len(),
{
    if frames.len() == 0 {
        true
    } else {
        &&& saved_fit(frames.drop_last(), base)
        &&& match frames.last() {
            Frame::Call { saved, .. } => saved@.len() == depth_after(frames.drop_last(), base),
            _ => true,
        }
    }
}

/// The interpreter: the cells, the environment, and the continuation of the
/// evaluation in flight.
pub struct Interpreter {
    pub(crate) store: Store,
    pub(crate) envs: Environments,
    pub(crate) control: Control,
    pub(crate) frames: Vec<Frame>,
    pub(crate) base: usize,
}

/// What a transition is about.
#[derive(Clone, Copy, Debug, PartialEq, Eq, Structural)]
pub enum Phase {
    Block(BlockId),
    Expr(ExprId),
    Stmt(StmtId),
    Pattern,
    Deliver,
    Raise,
    Waiting,
    Idle,
}

/// The phase of a state of control.
pub open spec fn phase_of(control: Control) -> Phase {
    match control {
        Control::Block(block) => Phase::Block(block),
        Control::Expr(expr) => Phase::Expr(expr),
        Control::Stmt(stmt) => Phase::Stmt(stmt),
        Control::Pattern { .. } => Phase::Pattern,
        Control::Deliver(_) => Phase::Deliver,
        Control::Raise(_) => Phase::Raise,
        Control::Waiting => Phase::Waiting,
        Control::Idle => Phase::Idle,
    }
}

/// What a frame that was taken off the continuation does with a delivery.
pub open spec fn takes(
    program: &Program,
    frame: Frame,
    delivery: Delivery,
    before: &Interpreter,
    after: &Interpreter,
    action: &Action,
) -> bool {
    match frame {
        Frame::Scope => after.raised(before, action, ErrorKind::Protocol),
        Frame::Call { .. } => after.raised(before, action, ErrorKind::Protocol),
        Frame::Sequence { block, next } => crate::evaluator::sequence_goes_on(
            program,
            block,
            next,
            delivery,
            before,
            after,
            action,
        ),
        Frame::Replace { value } => after.gave(before, action, value),
        Frame::IfTest { stmt } => crate::evaluator::statements::if_test_takes(
            program,
            stmt,
            delivery,
            before,
            after,
            action,
        ),
        Frame::IfBranch { stmt } => crate::evaluator::statements::if_branch_takes(
            program,
            stmt,
            delivery,
            before,
            after,
            action,
        ),
        Frame::ThrowArg => crate::evaluator::statements::throw_arg_takes(
            delivery,
            before,
            after,
            action,
        ),
        Frame::ThrowText => crate::evaluator::statements::throw_text_takes(
            delivery,
            before,
            after,
            action,
        ),
        Frame::Try { .. } => after.keeps(before) && after.next() == Control::Deliver(delivery) && action is Continue,
        Frame::CatchBind { stmt } => crate::evaluator::statements::catch_bind_takes(
            program,
            stmt,
            delivery,
            before,
            after,
            action,
        ),
        Frame::WhileTest { stmt } => crate::evaluator::statements::while_test_takes(
            program,
            stmt,
            delivery,
            before,
            after,
            action,
        ),
        Frame::WhileLoop { stmt } => crate::evaluator::statements::while_loop_takes(
            program,
            stmt,
            delivery,
            before,
            after,
            action,
        ),
        Frame::DoWhileLoop { stmt } => crate::evaluator::statements::do_while_loop_takes(
            program,
            stmt,
            delivery,
            before,
            after,
            action,
        ),
        Frame::DoWhileBody { stmt } => crate::evaluator::statements::do_while_body_takes(
            program,
            stmt,
            delivery,
            before,
            after,
            action,
        ),
        Frame::DoWhileTest => crate::evaluator::statements::do_while_test_takes(
            delivery,
            before,
            after,
            action,
        ),
        Frame::ForInit { stmt } => crate::evaluator::statements::for_init_takes(
            program,
            stmt,
            delivery,
            before,
            after,
            action,
        ),
        Frame::ForTest { stmt } => crate::evaluator::statements::for_test_takes(
            program,
            stmt,
            delivery,
            before,
            after,
            action,
        ),
        Frame::ForLoop { stmt } => crate::evaluator::statements::for_loop_takes(
            program,
            stmt,
            delivery,
            before,
            after,
            action,
        ),
        Frame::ForBody { stmt } => crate::evaluator::statements::for_body_takes(
            program,
            stmt,
            delivery,
            before,
            after,
            action,
        ),
        Frame::ForUpdate => crate::evaluator::statements::for_update_takes(
            delivery,
            before,
            after,
            action,
        ),
        Frame::ForOfRight { stmt } => crate::evaluator::statements::for_of_right_takes(
            stmt,
            delivery,
            before,
            after,
            action,
        ),
        Frame::ForOfIterator { stmt } => crate::evaluator::statements::for_of_iterator_takes(
            stmt,
            delivery,
            before,
            after,
            action,
        ),
        Frame::ForOfItem { stmt, iterator } => crate::evaluator::statements::for_of_item_takes(
            program,
            stmt,
            iterator,
            delivery,
            before,
            after,
            action,
        ),
        Frame::ForOfLoop { stmt, iterator } => crate::evaluator::statements::for_of_loop_takes(
            stmt,
            iterator,
            delivery,
            before,
            after,
            action,
        ),
        Frame::ForInRight { stmt } => crate::evaluator::statements::for_in_right_takes(
            stmt,
            delivery,
            before,
            after,
            action,
        ),
        Frame::ForInKeys { stmt } => crate::evaluator::statements::for_in_keys_takes(
            program,
            stmt,
            delivery,
            before,
            after,
            action,
        ),
        Frame::ForInLoop { stmt, keys, next } => crate::evaluator::statements::for_in_loop_takes(
            program,
            stmt,
            keys,
            next,
            delivery,
            before,
            after,
            action,
        ),
        Frame::LoopBind { body } => crate::evaluator::statements::loop_bind_takes(
            program,
            body,
            delivery,
            before,
            after,
            action,
        ),
        Frame::LoopBlock { block, next } => crate::evaluator::statements::loop_block_goes_on(
            program,
            block,
            next,
            delivery,
            before,
            after,
            action,
        ),
        Frame::Negate => crate::evaluator::expressions::negate_takes(
            delivery,
            before,
            after,
            action,
        ),
        Frame::Global { object, name } => crate::evaluator::expressions::global_takes(
            object,
            name,
            delivery,
            before,
            after,
            action,
        ),
        Frame::Parsed { then } => crate::evaluator::expressions::parsed_takes(
            then,
            delivery,
            before,
            after,
            action,
        ),
        Frame::ArrayItems { node, next, items } => crate::evaluator::expressions::array_items_takes(
            program,
            node,
            next,
            items,
            delivery,
            before,
            after,
            action,
        ),
        Frame::ArraySpread { node, next, items } => crate::evaluator::expressions::array_spread_takes(
            node,
            next,
            items,
            delivery,
            before,
            after,
            action,
        ),
        Frame::Unary { op } => crate::evaluator::expressions::unary_takes(
            op,
            delivery,
            before,
            after,
            action,
        ),
        Frame::BinRight { op, right } => crate::evaluator::expressions::bin_right_takes(
            op,
            right,
            delivery,
            before,
            after,
            action,
        ),
        Frame::BinApply { op, left } => crate::evaluator::expressions::bin_apply_takes(
            op,
            left,
            delivery,
            before,
            after,
            action,
        ),
        Frame::AwaitArg => crate::evaluator::expressions::await_arg_takes(
            delivery,
            before,
            after,
            action,
        ),
        Frame::AssignLeft { node } => crate::evaluator::expressions::assign_left_takes(
            program,
            node,
            delivery,
            before,
            after,
            action,
        ),
        Frame::AssignApply { node, left } => crate::evaluator::expressions::assign_apply_takes(
            program,
            node,
            left,
            delivery,
            before,
            after,
            action,
        ),
        Frame::Store { target } => crate::evaluator::expressions::store_takes(
            program,
            target,
            delivery,
            before,
            after,
            action,
        ),
        Frame::PostfixRead { node } => crate::evaluator::expressions::postfix_read_takes(
            program,
            node,
            delivery,
            before,
            after,
            action,
        ),
        Frame::UpdateOperand { op } => crate::evaluator::expressions::update_operand_takes(
            op,
            delivery,
            before,
            after,
            action,
        ),
        Frame::SeqNext { node, next } => crate::evaluator::expressions::seq_next_takes(
            program,
            node,
            next,
            delivery,
            before,
            after,
            action,
        ),
        Frame::CondTest { node } => crate::evaluator::expressions::cond_test_takes(
            program,
            node,
            delivery,
            before,
            after,
            action,
        ),
        Frame::CondBranch { node } => crate::evaluator::expressions::cond_branch_takes(
            program,
            node,
            delivery,
            before,
            after,
            action,
        ),
        Frame::TplExpr { node, next, text } => crate::evaluator::expressions::tpl_expr_takes(
            program,
            node,
            next,
            text,
            delivery,
            before,
            after,
            action,
        ),
        Frame::TplText { node, next, text } => crate::evaluator::expressions::tpl_text_takes(
            program,
            node,
            next,
            text,
            delivery,
            before,
            after,
            action,
        ),
        Frame::ClassCtorParams { class } => crate::evaluator::class::class_ctor_params_takes(
            program,
            class,
            delivery,
            before,
            after,
            action,
        ),
        Frame::ClassCtor { class } => crate::evaluator::class::class_ctor_takes(
            program,
            class,
            delivery,
            before,
            after,
            action,
        ),
        Frame::ClassSuper { class, constructor } => crate::evaluator::class::class_super_takes(
            program,
            class,
            constructor,
            delivery,
            before,
            after,
            action,
        ),
        Frame::ClassMembers(
            state) => crate::evaluator::class::class_members_takes(program,
            state,
            delivery,
            before,
            after,
            action,
        ),
        Frame::ClassMethodParams(
            state) => crate::evaluator::class::class_method_params_takes(program,
            state,
            delivery,
            before,
            after,
            action,
        ),
        Frame::ClassMethodCompiled(
            state) => crate::evaluator::class::class_member_value_takes(program,
            state,
            delivery,
            before,
            after,
            action,
        ),
        Frame::ClassPropValue(
            state) => crate::evaluator::class::class_member_value_takes(program,
            state,
            delivery,
            before,
            after,
            action,
        ),
        Frame::ClassMemberKey { state, value } => crate::evaluator::class::class_member_key_takes(
            program,
            state,
            value,
            delivery,
            before,
            after,
            action,
        ),
        Frame::ObjectProps(
            state) => crate::evaluator::objects::object_props_takes(program,
            state,
            delivery,
            before,
            after,
            action,
        ),
        Frame::ObjectValue(
            state) => crate::evaluator::objects::object_value_takes(program,
            state,
            delivery,
            before,
            after,
            action,
        ),
        Frame::ObjectKey { state, slot } => crate::evaluator::objects::object_key_takes(
            state,
            slot,
            delivery,
            before,
            after,
            action,
        ),
        Frame::ObjectSpread(
            state) => crate::evaluator::objects::object_spread_takes(state,
            delivery,
            before,
            after,
            action,
        ),
        Frame::ObjectEntries(
            state) => crate::evaluator::objects::object_entries_takes(state,
            delivery,
            before,
            after,
            action,
        ),
        Frame::MemberObject { node } => crate::evaluator::objects::member_object_takes(
            program,
            node,
            delivery,
            before,
            after,
            action,
        ),
        Frame::MemberKey { object } => crate::evaluator::objects::member_key_takes(
            object,
            delivery,
            before,
            after,
            action,
        ),
        Frame::AssignMemberObject { node, value } => crate::evaluator::objects::assign_member_object_takes(
            program,
            node,
            value,
            delivery,
            before,
            after,
            action,
        ),
        Frame::AssignMemberKey { object, value } => crate::evaluator::objects::assign_member_key_takes(
            object,
            value,
            delivery,
            before,
            after,
            action,
        ),
        Frame::NewCallee { node } => crate::evaluator::objects::new_callee_takes(
            program,
            node,
            delivery,
            before,
            after,
            action,
        ),
        Frame::NewArgs(
            state) => crate::evaluator::objects::new_args_takes(program,
            state,
            delivery,
            before,
            after,
            action,
        ),
        Frame::NewThis { closure, args } => crate::evaluator::objects::new_this_takes(
            program,
            closure,
            args,
            delivery,
            before,
            after,
            action,
        ),
        Frame::MakeClosure { function, prototype } => crate::evaluator::functions::make_closure_takes(
            program,
            function,
            prototype,
            delivery,
            before,
            after,
            action,
        ),
        Frame::Params(
            state) => crate::evaluator::functions::params_takes(program,
            state,
            delivery,
            before,
            after,
            action,
        ),
        Frame::ParamDefault { state, mark } => crate::evaluator::functions::param_default_takes(
            state,
            mark,
            delivery,
            before,
            after,
            action,
        ),
        Frame::Compiled { function, names, env, prototype } => crate::evaluator::functions::compiled_takes(
            function,
            names,
            env,
            prototype,
            delivery,
            before,
            after,
            action,
        ),
        Frame::CallCallee { node } => crate::evaluator::functions::call_callee_takes(
            program,
            node,
            delivery,
            before,
            after,
            action,
        ),
        Frame::CallReceiver { node } => crate::evaluator::functions::call_receiver_takes(
            program,
            node,
            delivery,
            before,
            after,
            action,
        ),
        Frame::CallMethodKey { node, this } => crate::evaluator::functions::call_method_key_takes(
            node,
            this,
            delivery,
            before,
            after,
            action,
        ),
        Frame::CallMethod { node, this } => crate::evaluator::functions::call_method_takes(
            program,
            node,
            this,
            delivery,
            before,
            after,
            action,
        ),
        Frame::CallArgs(
            state) => crate::evaluator::functions::call_args_takes(program,
            state,
            delivery,
            before,
            after,
            action,
        ),
        Frame::CallSpread(
            state) => crate::evaluator::functions::call_spread_takes(state,
            delivery,
            before,
            after,
            action,
        ),
        Frame::CallSpreadItems(
            state) => crate::evaluator::functions::call_spread_items_takes(program,
            state,
            delivery,
            before,
            after,
            action,
        ),
        Frame::CallRest { closure, this, args } => crate::evaluator::functions::call_rest_takes(
            program,
            closure,
            this,
            args,
            delivery,
            before,
            after,
            action,
        ),
        Frame::ImportModule { stmt } => crate::evaluator::import_module_takes(
            program,
            stmt,
            delivery,
            before,
            after,
            action,
        ),
        Frame::ImportSpecifiers { stmt, module, next } => crate::evaluator::import_specifiers_takes(
            program,
            stmt,
            module,
            next,
            delivery,
            before,
            after,
            action,
        ),
        Frame::ImportBind { stmt, module, index } => crate::evaluator::import_bind_takes(
            program,
            stmt,
            module,
            index,
            delivery,
            before,
            after,
            action,
        ),
        Frame::VarDecls { stmt, next } => crate::evaluator::statements::decl::var_decls_takes(
            program,
            stmt,
            next,
            delivery,
            before,
            after,
            action,
        ),
        Frame::VarInit { stmt, index } => crate::evaluator::statements::decl::var_init_takes(
            program,
            stmt,
            index,
            delivery,
            before,
            after,
            action,
        ),
        Frame::DeclareName { stmt } => crate::evaluator::statements::decl::declare_name_takes(
            program,
            stmt,
            delivery,
            before,
            after,
            action,
        ),
        Frame::PatDefault { left, mode } => crate::evaluator::statements::decl::pat_default_takes(
            left,
            mode,
            delivery,
            before,
            after,
            action,
        ),
        Frame::PatArray { pat, mode, rhs } => crate::evaluator::statements::decl::pat_array_takes(
            program,
            pat,
            mode,
            rhs,
            delivery,
            before,
            after,
            action,
        ),
        Frame::PatArrayNext(
            state) => crate::evaluator::statements::decl::pat_array_next_takes(program,
            state,
            delivery,
            before,
            after,
            action,
        ),
        Frame::PatArrayRest { state, arg } => crate::evaluator::statements::decl::pat_array_rest_takes(
            state,
            arg,
            delivery,
            before,
            after,
            action,
        ),
        Frame::PatObject { pat, mode, rhs } => crate::evaluator::statements::decl::pat_object_takes(
            program,
            pat,
            mode,
            rhs,
            delivery,
            before,
            after,
            action,
        ),
        Frame::PatObjectNext(
            state) => crate::evaluator::statements::decl::pat_object_next_takes(program,
            state,
            delivery,
            before,
            after,
            action,
        ),
        Frame::PatObjectDefault(
            state) => crate::evaluator::statements::decl::pat_object_default_takes(program,
            state,
            delivery,
            before,
            after,
            action,
        ),
        Frame::PatObjectKey(
            state) => crate::evaluator::statements::decl::pat_object_key_takes(state,
            delivery,
            before,
            after,
            action,
        ),
        Frame::PatObjectGot { state, key } => crate::evaluator::statements::decl::pat_object_got_takes(
            state,
            key,
            delivery,
            before,
            after,
            action,
        ),
        Frame::PatObjectDeleted { state, value } => crate::evaluator::statements::decl::pat_object_deleted_takes(
            program,
            state,
            value,
            delivery,
            before,
            after,
            action,
        ),
    }
}

/// What a delivery does on the continuation `frames`. With no frame left
/// the evaluation ends with the value delivered (`undefined` where none
/// is). A scope frame is left: the environment loses its innermost frame,
/// and the delivery passes on. A call frame gives the caller's environment
/// back; the value of an async function is wrapped into a resolved promise
/// by the host, any other delivery passes on. Any other frame is taken off
/// and takes the delivery.
pub open spec fn passes(
    program: &Program,
    delivery: Delivery,
    frames: Seq<Frame>,
    scopes: Environments,
    heap: Store,
    after: &Interpreter,
    action: &Action,
) -> bool {
    if frames.len() == 0 {
        &&& after.next() is Idle
        &&& after.frames() == frames
        &&& after.scopes() == scopes
        &&& after.heap() == heap
        &&& *action == Action::Done(
            match delivery {
                Delivery::Value(value) => value,
                _ => Value::Undefined,
            },
        )
    } else {
        match frames.last() {
            Frame::Scope => {
                &&& after.frames() == frames.drop_last()
                &&& after.scopes()@ == scopes@.drop_last()
                &&& after.heap() == heap
                &&& after.next() == Control::Deliver(delivery)
                &&& action is Continue
            },
            Frame::Call { saved, is_async } => {
                &&& after.frames() == frames.drop_last()
                &&& after.scopes() == saved
                &&& after.heap() == heap
                &&& match delivery {
                    Delivery::Value(value) => if is_async {
                        &&& after.next() is Waiting
                        &&& *action == Action::Request(HostRequest::CreatePromise(value))
                    } else {
                        &&& after.next() == Control::Deliver(delivery)
                        &&& action is Continue
                    },
                    _ => {
                        &&& after.next() == Control::Deliver(delivery)
                        &&& action is Continue
                    },
                }
            },
            frame => exists|taken: Interpreter|
                {
                    &&& taken.frames() == frames.drop_last()
                    &&& taken.scopes() == scopes
                    &&& taken.heap() == heap
                    &&& #[trigger] takes(program, frame, delivery, &taken, after, action)
                },
        }
    }
}

/// What a failure does on the continuation `frames`. With no frame left the
/// evaluation has failed. A scope frame is left: the environment loses its
/// innermost frame. A call frame gives the caller's environment back. A
/// `try` catches, if it has a handler. Any other frame is dropped. Unless
/// it is caught, the failure goes on.
pub open spec fn unwinds(
    program: &Program,
    error: EvalError,
    frames: Seq<Frame>,
    scopes: Environments,
    heap: Store,
    after: &Interpreter,
    action: &Action,
) -> bool {
    if frames.len() == 0 {
        &&& after.next() is Idle
        &&& after.frames() == frames
        &&& after.scopes() == scopes
        &&& after.heap() == heap
        &&& *action == Action::Failed(error)
    } else {
        match frames.last() {
            Frame::Scope => {
                &&& after.frames() == frames.drop_last()
                &&& after.scopes()@ == scopes@.drop_last()
                &&& after.heap() == heap
                &&& after.next() == Control::Raise(error)
                &&& action is Continue
            },
            Frame::Call { saved, .. } => {
                &&& after.frames() == frames.drop_last()
                &&& after.scopes() == saved
                &&& after.heap() == heap
                &&& after.next() == Control::Raise(error)
                &&& action is Continue
            },
            Frame::Try { stmt } => crate::evaluator::statements::catches(
                program,
                stmt,
                error,
                frames.drop_last(),
                scopes@,
                heap,
                after,
                action,
            ),
            _ => {
                &&& after.frames() == frames.drop_last()
                &&& after.scopes() == scopes
                &&& after.heap() == heap
                &&& after.next() == Control::Raise(error)
                &&& action is Continue
            },
        }
    }
}

/// What one step does.
///
/// An idle interpreter has nothing to step. While a request is with the
/// host the step takes the answer: a failure of the host is raised, anything
/// else is handed to the continuation; to step without the answer is a
/// failure. At any other time an answer is a failure, and the step takes the
/// transition that is due.
pub open spec fn steps(
    program: &Program,
    reply: Option<Reply>,
    before: &Interpreter,
    after: &Interpreter,
    action: &Action,
) -> bool {
    match before.next() {
        Control::Idle => {
            &&& after.keeps(before)
            &&& after.next() is Idle
            &&& action matches Action::Failed(error)
            &&& error.kind == ErrorKind::Protocol
        },
        Control::Waiting => {
            &&& after.keeps(before)
            &&& action is Continue
            &&& match reply {
                Some(Reply::Value(value)) => after.next() == Control::Deliver(
                    Delivery::Value(value),
                ),
                Some(Reply::Values(values)) => after.next() == Control::Deliver(
                    Delivery::Values(values),
                ),
                Some(Reply::Entries(entries)) => after.next() == Control::Deliver(
                    Delivery::Entries(entries),
                ),
                Some(Reply::Nothing) => after.next() == Control::Deliver(Delivery::Nothing),
                Some(Reply::Error(message)) => {
                    &&& after.next() matches Control::Raise(error)
                    &&& error.kind == ErrorKind::Host
                    &&& error.message == message
                },
                None => after.fails(ErrorKind::Protocol),
            }
        },
        due => if reply is Some {
            after.raised(before, action, ErrorKind::Protocol)
        } else {
            match due {
                Control::Block(block) => {
                    &&& crate::evaluator::begins(program, block, before.frames(), after, action)
                    &&& after.scopes() == before.scopes()
                    &&& after.heap() == before.heap()
                },
                Control::Expr(expr) => crate::evaluator::expressions::evaluates(
                    program,
                    expr,
                    before,
                    after,
                    action,
                ),
                Control::Stmt(stmt) => crate::evaluator::statements::executes(
                    program,
                    stmt,
                    before,
                    after,
                    action,
                ),
                Control::Pattern { pat, value, mode } => {
                    crate::evaluator::statements::decl::binds_pattern(
                        program,
                        pat,
                        value,
                        mode,
                        before,
                        after,
                        action,
                    )
                },
                Control::Deliver(delivery) => passes(
                    program,
                    delivery,
                    before.frames(),
                    before.scopes(),
                    before.heap(),
                    after,
                    action,
                ),
                Control::Raise(error) => unwinds(
                    program,
                    error,
                    before.frames(),
                    before.scopes(),
                    before.heap(),
                    after,
                    action,
                ),
                _ => true,
            }
        },
    }
}

/// How a pattern is bound depends on the continuation, the environment and
/// the cells only, not on what the machine was about to do.
proof fn lemma_binds_pattern_from(
    program: &Program,
    pat: PatId,
    value: Value,
    mode: DeclOrAssign,
    before: &Interpreter,
    during: &Interpreter,
    after: &Interpreter,
    action: &Action,
)
    requires
        during.frames() == before.frames(),
        during.scopes() == before.scopes(),
        during.heap() == before.heap(),
    ensures
        crate::evaluator::statements::decl::binds_pattern(
            program,
            pat,
            value,
            mode,
            during,
            after,
            action,
        ) == crate::evaluator::statements::decl::binds_pattern(
            program,
            pat,
            value,
            mode,
            before,
            after,
            action,
        ),
{
}

impl Delivery {
    /// The value delivered, where it is one.
    pub fn into_value(self) -> (r: Option<Value>)
        ensures
            match self {
                Delivery::Value(v) => r == Some(v),
                _ => r is None,
            },
    {
        match self {
            Delivery::Value(v) => Some(v),
            _ => None,
        }
    }
}

impl Interpreter {
    /// The invariant of the interpreter: the environment is exactly as deep
    /// as the scopes that the evaluation in flight has entered and not left
    /// ask for, and nothing is left to do when it is idle.
    pub closed spec fn inv(&self) -> bool {
        &&& self.envs@.len() == depth_after(self.frames@, self.base as nat)
        &&& saved_fit(self.frames@, self.base as nat)
        &&& (self.control is Idle ==> self.frames@.len() == 0)
    }

    /// What the machine does next.
    pub closed spec fn next(&self) -> Control {
        self.control
    }

    /// The continuation, innermost frame last.
    pub closed spec fn frames(&self) -> Seq<Frame> {
        self.frames@
    }

    /// The environment.
    pub closed spec fn scopes(&self) -> Environments {
        self.envs
    }

    /// The cells and closures.
    pub closed spec fn heap(&self) -> Store {
        self.store
    }

    /// How many frames the environment had when the evaluation began.
    pub closed spec fn base_depth(&self) -> nat {
        self.base as nat
    }

    /// How many frames the environment has.
    pub open spec fn depth(&self) -> nat {
        self.scopes()@.len()
    }

    /// No evaluation is in flight.
    pub open spec fn is_idle(&self) -> bool {
        self.next() is Idle
    }

    /// A request is with the host.
    pub open spec fn is_waiting(&self) -> bool {
        self.next() is Waiting
    }

    /// What holds after one transition: the invariant, and the interpreter
    /// waits for the host exactly if a request was issued.
    pub open spec fn stepped(&self, before: &Interpreter, action: &Action) -> bool {
        &&& self.inv()
        &&& self.base_depth() == before.base_depth()
        &&& (action is Continue || action is Request)
        &&& (action is Request <==> self.is_waiting())
        &&& !self.is_idle()
    }

    /// The continuation, the environment and the cells are as before.
    pub open spec fn keeps(&self, before: &Interpreter) -> bool {
        &&& self.frames() == before.frames()
        &&& self.scopes() == before.scopes()
        &&& self.heap() == before.heap()
    }

    /// The transition handed `value` to the continuation and changed nothing
    /// else.
    pub open spec fn gave(&self, before: &Interpreter, action: &Action, value: Value) -> bool {
        &&& self.keeps(before)
        &&& action is Continue
        &&& self.next() == Control::Deliver(Delivery::Value(value))
    }

    /// The transition handed a value of the given content to the
    /// continuation and changed nothing else.
    pub open spec fn gave_view(
        &self,
        before: &Interpreter,
        action: &Action,
        view: crate::value::ValueView,
    ) -> bool {
        &&& self.keeps(before)
        &&& action is Continue
        &&& self.next() matches Control::Deliver(Delivery::Value(value))
        &&& value@ == view
    }

    /// The transition raised a failure of the given kind on a continuation
    /// that is `from`, and changed neither the environment nor the cells.
    pub open spec fn failed_on(
        &self,
        before: &Interpreter,
        from: Seq<Frame>,
        kind: ErrorKind,
    ) -> bool {
        &&& self.frames() == from
        &&& self.scopes() == before.scopes()
        &&& self.heap() == before.heap()
        &&& self.fails(kind)
    }

    /// A failure of the given kind is being raised.
    pub open spec fn fails(&self, kind: ErrorKind) -> bool {
        &&& self.next() matches Control::Raise(error)
        &&& error.kind == kind
    }

    /// The transition declared `key` in the innermost scope, in a new cell
    /// that holds `value`. The closures are as before.
    pub open spec fn declared(
        &self,
        before: &Interpreter,
        key: Seq<char>,
        value: crate::value::ValueView,
    ) -> bool {
        &&& before.depth() > 0
        &&& self.heap()@ == before.heap()@.push(value)
        &&& self.heap().same_closures(&before.heap())
        &&& self.scopes()@ == before.scopes()@.update(
            before.depth() - 1,
            before.scopes()@.last().insert(key, before.heap()@.len() as BindingId),
        )
    }

    /// The transition assigned `value` to `key`: written into the cell that
    /// `key` names, unless the value is a host object, for which the
    /// innermost scope that binds `key` binds it to a new cell; where no
    /// scope binds `key`, it is declared in the innermost one.
    pub open spec fn assigned(
        &self,
        before: &Interpreter,
        key: Seq<char>,
        value: crate::value::ValueView,
    ) -> bool {
        &&& self.scopes()@ == crate::environment::set_frames(
            before.scopes()@,
            before.heap()@.len(),
            key,
            value is Object,
        )
        &&& self.heap()@ == crate::environment::set_cells(
            before.scopes()@,
            before.heap()@,
            key,
            value,
        )
        &&& self.heap().same_closures(&before.heap())
    }

    /// Whether an assignment to `key` succeeds.
    pub open spec fn assignable(&self, key: Seq<char>, value: crate::value::ValueView) -> bool {
        crate::environment::set_outcome(
            self.scopes()@,
            self.heap()@.len(),
            key,
            value is Object,
        ) is Some
    }

    /// The transition put `frame` on the continuation and changed neither
    /// the environment nor the cells.
    pub open spec fn pushed(&self, before: &Interpreter, frame: Frame) -> bool {
        &&& self.frames() == before.frames().push(frame)
        &&& self.scopes() == before.scopes()
        &&& self.heap() == before.heap()
    }

    /// The transition raised a failure of the given kind and changed nothing
    /// else.
    pub open spec fn raised(&self, before: &Interpreter, action: &Action, kind: ErrorKind) -> bool {
        &&& self.keeps(before)
        &&& action is Continue
        &&& self.next() matches Control::Raise(error)
        &&& error.kind == kind
    }

    /// The transition issued a request and changed nothing else.
    pub open spec fn asked(&self, before: &Interpreter, action: &Action, request: HostRequest) -> bool {
        &&& self.keeps(before)
        &&& self.next() is Waiting
        &&& *action == Action::Request(request)
    }

    /// An interpreter that works on the given cells and environment.
    pub fn new(store: Store, envs: Environments) -> (i: Interpreter)
        ensures
            i.inv(),
            i.is_idle(),
            i.scopes() == envs,
            i.heap() == store,
            i.frames() == Seq::<Frame>::empty(),
            i.base_depth() == envs@.len(),
    {
        let base = envs.depth();
        Interpreter { store, envs, control: Control::Idle, frames: Vec::new(), base }
    }

    /// The environment.
    pub fn envs(&self) -> (e: &Environments)
        ensures
            *e == self.scopes(),
    {
        &self.envs
    }

    /// The cells and closures.
    pub fn store(&self) -> (s: &Store)
        ensures
            *s == self.heap(),
    {
        &self.store
    }

    /// Whether no evaluation is in flight.
    pub fn idle(&self) -> (r: bool)
        ensures
            r == self.is_idle(),
    {
        match self.control {
            Control::Idle => true,
            _ => false,
        }
    }

    /// Puts a frame on the continuation.
    pub(crate) fn push_frame(&mut self, frame: Frame)
        requires
            old(self).inv(),
            !old(self).is_idle(),
            frame.is_plain(),
        ensures
            final(self).inv(),
            final(self).base_depth() == old(self).base_depth(),
            final(self).next() == old(self).next(),
            final(self).scopes() == old(self).scopes(),
            final(self).heap() == old(self).heap(),
            final(self).frames() == old(self).frames().push(frame),
            final(self).frames().len() == old(self).frames().len() + 1,
            final(self).frames().drop_last() == old(self).frames(),
            final(self).frames().last() == frame,
    {
        self.frames.push(frame);
        proof {
            assert(self.frames@.drop_last() =~= old(self).frames@);
        }
    }

    /// Enters a scope: the environment gets a frame, and the continuation
    /// remembers to drop it.
    pub(crate) fn enter_scope(&mut self)
        requires
            old(self).inv(),
            !old(self).is_idle(),
        ensures
            final(self).inv(),
            final(self).base_depth() == old(self).base_depth(),
            final(self).next() == old(self).next(),
            final(self).heap() == old(self).heap(),
            final(self).frames() == old(self).frames().push(Frame::Scope),
            final(self).scopes()@ == old(self).scopes()@.push(Map::<Seq<char>, BindingId>::empty()),
    {
        self.envs.push_env();
        self.frames.push(Frame::Scope);
        proof {
            assert(self.frames@.drop_last() =~= old(self).frames@);
        }
    }

    /// Switches to the environment of a call; the caller's is kept on the
    /// continuation.
    pub(crate) fn enter_call(&mut self, env: Environments, is_async: bool)
        requires
            old(self).inv(),
            !old(self).is_idle(),
            env@.len() == CALL_DEPTH,
        ensures
            final(self).inv(),
            final(self).base_depth() == old(self).base_depth(),
            final(self).next() == old(self).next(),
            final(self).heap() == old(self).heap(),
            final(self).frames() == old(self).frames().push(
                Frame::Call { saved: old(self).scopes(), is_async },
            ),
            final(self).scopes() == env,
    {
        let mut saved = env;
        std::mem::swap(&mut saved, &mut self.envs);
        self.frames.push(Frame::Call { saved, is_async });
        proof {
            assert(self.frames@.drop_last() =~= old(self).frames@);
        }
    }

    /// Declares `key` in the innermost frame: a new cell holds `value`.
    pub(crate) fn declare(&mut self, key: &str, value: Value) -> (r: Result<BindingId, EvalError>)
        requires
            old(self).inv(),
        ensures
            final(self).inv(),
            final(self).base_depth() == old(self).base_depth(),
            final(self).next() == old(self).next(),
            final(self).frames() == old(self).frames(),
            final(self).heap().same_closures(&old(self).heap()),
            match r {
                Ok(id) => {
                    &&& old(self).depth() > 0
                    &&& id == old(self).heap()@.len()
                    &&& final(self).heap()@ == old(self).heap()@.push(value@)
                    &&& final(self).scopes()@ == old(self).scopes()@.update(
                        old(self).depth() - 1,
                        old(self).scopes()@.last().insert(key@, id),
                    )
                },
                Err(e) => {
                    &&& old(self).depth() == 0
                    &&& final(self).scopes()@ == old(self).scopes()@
                    &&& final(self).heap()@ == old(self).heap()@
                    &&& e.kind == ErrorKind::Name
                },
            },
    {
        self.envs.insert(&mut self.store, key, value)
    }

    /// Assigns to `key`, as [`Environments::set`] does.
    pub(crate) fn assign(&mut self, key: &str, value: Value) -> (r: Result<BindingId, EvalError>)
        requires
            old(self).inv(),
        ensures
            final(self).inv(),
            final(self).base_depth() == old(self).base_depth(),
            final(self).next() == old(self).next(),
            final(self).frames() == old(self).frames(),
            final(self).heap().same_closures(&old(self).heap()),
            final(self).scopes()@ == crate::environment::set_frames(
                old(self).scopes()@,
                old(self).heap()@.len(),
                key@,
                value@ is Object,
            ),
            final(self).heap()@ == crate::environment::set_cells(
                old(self).scopes()@,
                old(self).heap()@,
                key@,
                value@,
            ),
            r is Ok <==> crate::environment::set_outcome(
                old(self).scopes()@,
                old(self).heap()@.len(),
                key@,
                value@ is Object,
            ) is Some,
    {
        proof {
            crate::environment::lemma_set_keeps_depth(
                self.envs@,
                self.store@.len(),
                key@,
                value@ is Object,
            );
        }
        self.envs.set(&mut self.store, key, value)
    }

    /// Creates a cell.
    pub(crate) fn allocate(&mut self, value: Value) -> (id: BindingId)
        requires
            old(self).inv(),
        ensures
            final(self).inv(),
            final(self).base_depth() == old(self).base_depth(),
            final(self).next() == old(self).next(),
            final(self).frames() == old(self).frames(),
            final(self).scopes() == old(self).scopes(),
            id == old(self).heap()@.len(),
            final(self).heap()@ == old(self).heap()@.push(value@),
            final(self).heap().same_closures(&old(self).heap()),
    {
        self.store.allocate(value)
    }

    /// Stores a closure.
    pub(crate) fn add_closure(&mut self, function: crate::value::Function) -> (id: ClosureId)
        requires
            old(self).inv(),
        ensures
            final(self).inv(),
            final(self).base_depth() == old(self).base_depth(),
            final(self).next() == old(self).next(),
            final(self).frames() == old(self).frames(),
            final(self).scopes() == old(self).scopes(),
            final(self).heap()@ == old(self).heap()@,
            id == old(self).heap().closure_count(),
            final(self).heap().closure_count() == old(self).heap().closure_count() + 1,
            final(self).heap().spec_closure(id as int) == function,
            forall|i: int|
                0 <= i < old(self).heap().closure_count() ==> #[trigger] final(self).heap().spec_closure(i)
                    == old(self).heap().spec_closure(i),
    {
        self.store.add_closure(function)
    }

    /// Goes on with a request to the host.
    pub(crate) fn ask(&mut self, request: HostRequest) -> (action: Action)
        requires
            old(self).inv(),
        ensures
            final(self).stepped(old(self), &action),
            final(self).asked(old(self), &action, request),
    {
        self.control = Control::Waiting;
        Action::Request(request)
    }

    /// Goes on by handing `value` to the continuation.
    pub(crate) fn give(&mut self, value: Value) -> (action: Action)
        requires
            old(self).inv(),
        ensures
            final(self).stepped(old(self), &action),
            final(self).gave(old(self), &action, value),
    {
        self.control = Control::Deliver(Delivery::Value(value));
        Action::Continue
    }

    /// Goes on by handing `delivery` to the continuation.
    pub(crate) fn deliver(&mut self, delivery: Delivery) -> (action: Action)
        requires
            old(self).inv(),
        ensures
            final(self).stepped(old(self), &action),
            final(self).keeps(old(self)),
            action is Continue,
            final(self).next() == Control::Deliver(delivery),
    {
        self.control = Control::Deliver(delivery);
        Action::Continue
    }

    /// Goes on by asking the frame on top to take its next turn.
    pub(crate) fn tick(&mut self) -> (action: Action)
        requires
            old(self).inv(),
        ensures
            final(self).stepped(old(self), &action),
            final(self).keeps(old(self)),
            action is Continue,
            final(self).next() == Control::Deliver(Delivery::Nothing),
    {
        self.deliver(Delivery::Nothing)
    }

    /// Goes on by evaluating an expression.
    pub(crate) fn go_expr(&mut self, expr: ExprId) -> (action: Action)
        requires
            old(self).inv(),
        ensures
            final(self).stepped(old(self), &action),
            final(self).keeps(old(self)),
            action is Continue,
            final(self).next() == Control::Expr(expr),
    {
        self.control = Control::Expr(expr);
        Action::Continue
    }

    /// Goes on by executing a statement.
    pub(crate) fn go_stmt(&mut self, stmt: StmtId) -> (action: Action)
        requires
            old(self).inv(),
        ensures
            final(self).stepped(old(self), &action),
            final(self).keeps(old(self)),
            action is Continue,
            final(self).next() == Control::Stmt(stmt),
    {
        self.control = Control::Stmt(stmt);
        Action::Continue
    }

    /// Goes on by binding a pattern.
    pub(crate) fn go_pattern(&mut self, pat: PatId, value: Value, mode: DeclOrAssign) -> (action:
        Action)
        requires
            old(self).inv(),
        ensures
            final(self).stepped(old(self), &action),
            final(self).keeps(old(self)),
            action is Continue,
            final(self).next() == (Control::Pattern { pat, value, mode }),
    {
        self.control = Control::Pattern { pat, value, mode };
        Action::Continue
    }

    /// Goes on by raising a failure.
    pub(crate) fn fail(&mut self, error: EvalError) -> (action: Action)
        requires
            old(self).inv(),
        ensures
            final(self).stepped(old(self), &action),
            final(self).raised(old(self), &action, error.kind),
            final(self).next() == Control::Raise(error),
    {
        self.control = Control::Raise(error);
        Action::Continue
    }

    /// Raises a failure of the given kind and text.
    pub(crate) fn fail_with(&mut self, kind: ErrorKind, text: &str) -> (action: Action)
        requires
            old(self).inv(),
        ensures
            final(self).stepped(old(self), &action),
            final(self).raised(old(self), &action, kind),
            final(self).next()->Raise_0.message@ == text@,
    {
        self.fail(EvalError::with_text(kind, text))
    }

    /// Raises the failure of a program whose node references do not resolve,
    /// or of an answer that does not fit the request.
    pub(crate) fn broken(&mut self) -> (action: Action)
        requires
            old(self).inv(),
        ensures
            final(self).stepped(old(self), &action),
            final(self).raised(old(self), &action, ErrorKind::Protocol),
    {
        self.fail_with(ErrorKind::Protocol, "ERROR: The evaluation lost its way.")
    }

    /// Hands a delivery to the frame on top of the continuation. With no
    /// frame left the evaluation has ended.
    fn pass(&mut self, program: &Program, delivery: Delivery) -> (action: Action)
        requires
            old(self).inv(),
            !old(self).is_idle(),
        ensures
            final(self).inv(),
            final(self).base_depth() == old(self).base_depth(),
            action is Request <==> final(self).is_waiting(),
            (action is Done || action is Failed) <==> final(self).is_idle(),
            final(self).is_idle() ==> final(self).depth() == final(self).base_depth(),
            !(action is Failed),
            passes(
                program,
                delivery,
                old(self).frames(),
                old(self).scopes(),
                old(self).heap(),
                final(self),
                &action,
            ),
    {
        match self.frames.pop() {
            None => {
                self.control = Control::Idle;
                match delivery.into_value() {
                    Some(value) => Action::Done(value),
                    None => Action::Done(Value::Undefined),
                }
            },
            Some(Frame::Scope) => {
                self.envs.pop_env();
                self.deliver(delivery)
            },
            Some(Frame::Call { saved, is_async }) => {
                self.envs = saved;
                if is_async {
                    match delivery {
                        Delivery::Value(value) => self.ask(HostRequest::CreatePromise(value)),
                        other => self.deliver(other),
                    }
                } else {
                    self.deliver(delivery)
                }
            },
            Some(frame) => {
                let ghost taken = *self;
                let action = self.resume(program, frame, delivery);
                proof {
                    assert(takes(program, frame, delivery, &taken, self, &action));
                }
                action
            },
        }
    }

    /// Takes a failure one frame down the continuation: a scope is left, a
    /// call gives the caller's environment back, a `try` with a handler
    /// catches. With no frame left the evaluation has failed.
    fn unwind(&mut self, program: &Program, error: EvalError) -> (action: Action)
        requires
            old(self).inv(),
            !old(self).is_idle(),
        ensures
            final(self).inv(),
            final(self).base_depth() == old(self).base_depth(),
            action is Request <==> final(self).is_waiting(),
            (action is Done || action is Failed) <==> final(self).is_idle(),
            final(self).is_idle() ==> final(self).depth() == final(self).base_depth(),
            !(action is Done),
            unwinds(
                program,
                error,
                old(self).frames(),
                old(self).scopes(),
                old(self).heap(),
                final(self),
                &action,
            ),
    {
        match self.frames.pop() {
            None => {
                self.control = Control::Idle;
                Action::Failed(error)
            },
            Some(Frame::Scope) => {
                self.envs.pop_env();
                self.fail(error)
            },
            Some(Frame::Call { saved, is_async }) => {
                self.envs = saved;
                self.fail(error)
            },
            Some(Frame::Try { stmt }) => self.catch(program, stmt, error),
            Some(_) => self.fail(error),
        }
    }

    /// Replaces the environment of an idle interpreter by the one that a
    /// session starts with.
    pub(crate) fn renew(&mut self, global_this: Value, document: Value)
        requires
            old(self).inv(),
            old(self).is_idle(),
        ensures
            final(self).inv(),
            final(self).frames() == old(self).frames(),
            final(self).next() == old(self).next(),
            final(self).scopes()@ == seq![
                crate::environment::global_frame(old(self).heap()@.len() as usize),
            ],
            final(self).heap()@ == old(self).heap()@.push(global_this@).push(document@),
            final(self).heap().same_closures(&old(self).heap()),
            final(self).base_depth() == 1,
    {
        self.envs = Environments::new(&mut self.store, global_this, document);
        self.base = 1;
    }

    /// Begins the evaluation of a list of statements, such as the items of a
    /// module: the next step starts with its first statement. Fails, changing
    /// nothing, where an evaluation is in flight already.
    pub fn eval_module(&mut self, items: BlockId) -> (r: Result<(), EvalError>)
        requires
            old(self).inv(),
        ensures
            final(self).inv(),
            final(self).keeps(old(self)),
            match r {
                Ok(()) => {
                    &&& old(self).is_idle()
                    &&& final(self).next() == Control::Block(items)
                    &&& final(self).base_depth() == old(self).depth()
                },
                Err(e) => {
                    &&& !old(self).is_idle()
                    &&& final(self).next() == old(self).next()
                    &&& e.kind == ErrorKind::Protocol
                    &&& final(self).base_depth() == old(self).base_depth()
                },
            },
    {
        if !self.idle() {
            return Err(
                EvalError::with_text(ErrorKind::Protocol, "ERROR: An evaluation is in flight."),
            );
        }
        self.base = self.envs.depth();
        self.control = Control::Block(items);
        Ok(())
    }

    /// What the next transition is about, without its payload.
    fn phase(&self) -> (p: Phase)
        ensures
            p == phase_of(self.next()),
    {
        match &self.control {
            Control::Block(block) => Phase::Block(*block),
            Control::Expr(expr) => Phase::Expr(*expr),
            Control::Stmt(stmt) => Phase::Stmt(*stmt),
            Control::Pattern { .. } => Phase::Pattern,
            Control::Deliver(_) => Phase::Deliver,
            Control::Raise(_) => Phase::Raise,
            Control::Waiting => Phase::Waiting,
            Control::Idle => Phase::Idle,
        }
    }

    /// Takes one transition. `reply` is the host's answer to the request that
    /// the step before issued, and `None` after any other step.
    ///
    /// When the evaluation ends, with a value or with a failure, the
    /// environment has as many frames as it had when the evaluation began.
    pub fn step(&mut self, program: &Program, reply: Option<Reply>) -> (action: Action)
        requires
            old(self).inv(),
        ensures
            final(self).inv(),
            final(self).base_depth() == old(self).base_depth(),
            action is Request <==> final(self).is_waiting(),
            (action is Done || action is Failed) <==> final(self).is_idle(),
            final(self).is_idle() ==> final(self).depth() == final(self).base_depth(),
            steps(program, reply, old(self), final(self), &action),
    {
        let phase = self.phase();
        match phase {
            Phase::Idle => {
                return Action::Failed(
                    EvalError::with_text(ErrorKind::Protocol, "ERROR: Nothing is being evaluated."),
                );
            },
            Phase::Waiting => {
                return match reply {
                    Some(Reply::Value(value)) => self.deliver(Delivery::Value(value)),
                    Some(Reply::Values(values)) => self.deliver(Delivery::Values(values)),
                    Some(Reply::Entries(entries)) => self.deliver(Delivery::Entries(entries)),
                    Some(Reply::Nothing) => self.deliver(Delivery::Nothing),
                    Some(Reply::Error(message)) => self.fail(
                        EvalError::new(ErrorKind::Host, message),
                    ),
                    None => self.fail_with(ErrorKind::Protocol, "ERROR: The host owes an answer."),
                };
            },
            _ => {},
        }
        if reply.is_some() {
            return self.fail_with(ErrorKind::Protocol, "ERROR: No request was issued.");
        }
        match phase {
            Phase::Block(block) => self.eval(program, block),
            Phase::Expr(expr) => self.eval_expr(program, expr),
            Phase::Stmt(stmt) => self.eval_stmt(program, stmt),
            _ => {
                let mut control = Control::Waiting;
                std::mem::swap(&mut control, &mut self.control);
                match control {
                    Control::Pattern { pat, value, mode } => {
                        let ghost during = *self;
                        let action = self.set_pat(program, pat, value, mode);
                        proof {
                            lemma_binds_pattern_from(
                                program,
                                pat,
                                value,
                                mode,
                                old(self),
                                &during,
                                self,
                                &action,
                            );
                        }
                        action
                    },
                    Control::Deliver(delivery) => self.pass(program, delivery),
                    Control::Raise(error) => self.unwind(program, error),
                    _ => self.broken(),
                }
            },
        }
    }

    /// Hands a delivery to a frame that was taken off the continuation.
    fn resume(&mut self, program: &Program, frame: Frame, delivery: Delivery) -> (action: Action)
        requires
            old(self).inv(),
            !old(self).is_idle(),
        ensures
            final(self).stepped(old(self), &action),
            takes(program, frame, delivery, old(self), final(self), &action),
    {
        match frame {
            Frame::Scope => self.broken(),
            Frame::Call { .. } => self.broken(),
            Frame::Sequence { block, next } => self.eval_next(program, block, next, delivery),
            Frame::Replace { value } => self.give(value),
            Frame::IfTest { stmt } => self.on_if_test(program, stmt, delivery),
            Frame::IfBranch { stmt } => self.on_if_branch(program, stmt, delivery),
            Frame::ThrowArg => self.on_throw_arg(delivery),
            Frame::ThrowText => self.on_throw_text(delivery),
            Frame::Try { stmt } => self.deliver(delivery),
            Frame::CatchBind { stmt } => self.on_catch_bind(program, stmt, delivery),
            Frame::WhileTest { stmt } => self.on_while_test(program, stmt, delivery),
            Frame::WhileLoop { stmt } => self.on_while_loop(program, stmt, delivery),
            Frame::DoWhileLoop { stmt } => self.on_do_while_loop(program, stmt, delivery),
            Frame::DoWhileBody { stmt } => self.on_do_while_body(program, stmt, delivery),
            Frame::DoWhileTest => self.on_do_while_test(delivery),
            Frame::ForInit { stmt } => self.on_for_init(program, stmt, delivery),
            Frame::ForTest { stmt } => self.on_for_test(program, stmt, delivery),
            Frame::ForLoop { stmt } => self.on_for_loop(program, stmt, delivery),
            Frame::ForBody { stmt } => self.on_for_body(program, stmt, delivery),
            Frame::ForUpdate => self.on_for_update(delivery),
            Frame::ForOfRight { stmt } => self.on_for_of_right(stmt, delivery),
            Frame::ForOfIterator { stmt } => self.on_for_of_iterator(stmt, delivery),
            Frame::ForOfItem { stmt, iterator } => self.on_for_of_item(
                program,
                stmt,
                iterator,
                delivery,
            ),
            Frame::ForOfLoop { stmt, iterator } => self.on_for_of_loop(stmt, iterator, delivery),
            Frame::ForInRight { stmt } => self.on_for_in_right(stmt, delivery),
            Frame::ForInKeys { stmt } => self.on_for_in_keys(program, stmt, delivery),
            Frame::ForInLoop { stmt, keys, next } => self.on_for_in_loop(
                program,
                stmt,
                keys,
                next,
                delivery,
            ),
            Frame::LoopBind { body } => self.on_loop_bind(program, body, delivery),
            Frame::LoopBlock { block, next } => self.eval_block(program, block, next, delivery),
            Frame::Negate => self.on_negate(delivery),
            Frame::Global { object, name } => self.on_global(object, name, delivery),
            Frame::Parsed { then } => self.on_parsed(then, delivery),
            Frame::ArrayItems { node, next, items } => self.on_array_items(
                program,
                node,
                next,
                items,
                delivery,
            ),
            Frame::ArraySpread { node, next, items } => self.on_array_spread(
                node,
                next,
                items,
                delivery,
            ),
            Frame::Unary { op } => self.on_unary(op, delivery),
            Frame::BinRight { op, right } => self.on_bin_right(op, right, delivery),
            Frame::BinApply { op, left } => self.on_bin_apply(op, left, delivery),
            Frame::AwaitArg => self.on_await_arg(delivery),
            Frame::AssignLeft { node } => self.on_assign_left(program, node, delivery),
            Frame::AssignApply { node, left } => self.on_assign_apply(
                program,
                node,
                left,
                delivery,
            ),
            Frame::Store { target } => self.on_store(program, target, delivery),
            Frame::PostfixRead { node } => self.on_postfix_read(program, node, delivery),
            Frame::UpdateOperand { op } => self.on_update_operand(op, delivery),
            Frame::SeqNext { node, next } => self.on_seq_next(program, node, next, delivery),
            Frame::CondTest { node } => self.on_cond_test(program, node, delivery),
            Frame::CondBranch { node } => self.on_cond_branch(program, node, delivery),
            Frame::TplExpr { node, next, text } => self.on_tpl_expr(
                program,
                node,
                next,
                text,
                delivery,
            ),
            Frame::TplText { node, next, text } => self.on_tpl_text(
                program,
                node,
                next,
                text,
                delivery,
            ),
            Frame::ClassCtorParams { class } => self.on_class_ctor_params(
                program,
                class,
                delivery,
            ),
            Frame::ClassCtor { class } => self.on_class_ctor(program, class, delivery),
            Frame::ClassSuper { class, constructor } => self.on_class_super(
                program,
                class,
                constructor,
                delivery,
            ),
            Frame::ClassMembers(state) => self.on_class_members(program, state, delivery),
            Frame::ClassMethodParams(state) => self.on_class_method_params(
                program,
                state,
                delivery,
            ),
            Frame::ClassMethodCompiled(state) => self.on_class_member_value(
                program,
                state,
                delivery,
            ),
            Frame::ClassPropValue(state) => self.on_class_member_value(program, state, delivery),
            Frame::ClassMemberKey { state, value } => self.on_class_member_key(
                program,
                state,
                value,
                delivery,
            ),
            Frame::ObjectProps(state) => self.on_object_props(program, state, delivery),
            Frame::ObjectValue(state) => self.on_object_value(program, state, delivery),
            Frame::ObjectKey { state, slot } => self.on_object_key(state, slot, delivery),
            Frame::ObjectSpread(state) => self.on_object_spread(state, delivery),
            Frame::ObjectEntries(state) => self.on_object_entries(state, delivery),
            Frame::MemberObject { node } => self.on_member_object(program, node, delivery),
            Frame::MemberKey { object } => self.on_member_key(object, delivery),
            Frame::AssignMemberObject { node, value } => self.on_assign_member_object(
                program,
                node,
                value,
                delivery,
            ),
            Frame::AssignMemberKey { object, value } => self.on_assign_member_key(
                object,
                value,
                delivery,
            ),
            Frame::NewCallee { node } => self.on_new_callee(program, node, delivery),
            Frame::NewArgs(state) => self.on_new_args(program, state, delivery),
            Frame::NewThis { closure, args } => self.on_new_this(program, closure, args, delivery),
            Frame::MakeClosure { function, prototype } => self.on_make_closure(
                program,
                function,
                prototype,
                delivery,
            ),
            Frame::Params(state) => self.on_params(program, state, delivery),
            Frame::ParamDefault { state, mark } => self.on_param_default(state, mark, delivery),
            Frame::Compiled { function, names, env, prototype } => self.on_compiled(
                function,
                names,
                env,
                prototype,
                delivery,
            ),
            Frame::CallCallee { node } => self.on_call_callee(program, node, delivery),
            Frame::CallReceiver { node } => self.on_call_receiver(program, node, delivery),
            Frame::CallMethodKey { node, this } => self.on_call_method_key(node, this, delivery),
            Frame::CallMethod { node, this } => self.on_call_method(program, node, this, delivery),
            Frame::CallArgs(state) => self.on_call_args(program, state, delivery),
            Frame::CallSpread(state) => self.on_call_spread(state, delivery),
            Frame::CallSpreadItems(state) => self.on_call_spread_items(program, state, delivery),
            Frame::CallRest { closure, this, args } => self.on_call_rest(
                program,
                closure,
                this,
                args,
                delivery,
            ),
            Frame::ImportModule { stmt } => self.on_import_module(program, stmt, delivery),
            Frame::ImportSpecifiers { stmt, module, next } => self.on_import_specifiers(
                program,
                stmt,
                module,
                next,
                delivery,
            ),
            Frame::ImportBind { stmt, module, index } => self.on_import_bind(
                program,
                stmt,
                module,
                index,
                delivery,
            ),
            Frame::VarDecls { stmt, next } => self.on_var_decls(program, stmt, next, delivery),
            Frame::VarInit { stmt, index } => self.on_var_init(program, stmt, index, delivery),
            Frame::DeclareName { stmt } => self.on_declare_name(program, stmt, delivery),
            Frame::PatDefault { left, mode } => self.on_pat_default(left, mode, delivery),
            Frame::PatArray { pat, mode, rhs } => self.on_pat_array(
                program,
                pat,
                mode,
                rhs,
                delivery,
            ),
            Frame::PatArrayNext(state) => self.on_pat_array_next(program, state, delivery),
            Frame::PatArrayRest { state, arg } => self.on_pat_array_rest(state, arg, delivery),
            Frame::PatObject { pat, mode, rhs } => self.on_pat_object(
                program,
                pat,
                mode,
                rhs,
                delivery,
            ),
            Frame::PatObjectNext(state) => self.on_pat_object_next(program, state, delivery),
            Frame::PatObjectDefault(state) => self.on_pat_object_default(
                program,
                state,
                delivery,
            ),
            Frame::PatObjectKey(state) => self.on_pat_object_key(state, delivery),
            Frame::PatObjectGot { state, key } => self.on_pat_object_got(state, key, delivery),
            Frame::PatObjectDeleted { state, value } => self.on_pat_object_deleted(
                program,
                state,
                value,
                delivery,
            ),
        }
    }
}

} // verus!
