//! The program that the evaluator runs: a typed syntax tree, stored as tables
//! of nodes that refer to each other by index. A program only grows, so that
//! a closure made by one cell can still be called by a later one.

use vstd::prelude::*;
use crate::value::FunctionId;

verus! {

pub type ExprId = usize;

pub type StmtId = usize;

pub type PatId = usize;

pub type BlockId = usize;

pub type ClassId = usize;

#[derive(Clone, Copy, Debug, PartialEq, Eq, Structural)]
pub enum UnaryOp {
    Bang,
    Minus,
    Plus,
    TypeOf,
    Void,
    Tilde,
    Delete,
}

#[derive(Clone, Copy, Debug, PartialEq, Eq, Structural)]
pub enum BinaryOp {
    Add,
    Sub,
    Mul,
    Div,
    Mod,
    Exp,
    Gt,
    GtEq,
    Lt,
    LtEq,
    EqEq,
    EqEqEq,
    NotEq,
    NotEqEq,
    LogicalAnd,
    LogicalOr,
    LShift,
    RShift,
    ZeroFillRShift,
    BitAnd,
    BitOr,
    BitXor,
    In,
    InstanceOf,
    NullishCoalescing,
}

#[derive(Clone, Copy, Debug, PartialEq, Eq, Structural)]
pub enum AssignOp {
    Assign,
    AddAssign,
    SubAssign,
    MulAssign,
    DivAssign,
    ModAssign,
    LShiftAssign,
    RShiftAssign,
    ZeroFillRShiftAssign,
    BitOrAssign,
    BitXorAssign,
    BitAndAssign,
    ExpAssign,
    AndAssign,
    OrAssign,
    NullishAssign,
}

#[derive(Clone, Copy, Debug, PartialEq, Eq, Structural)]
pub enum UpdateOp {
    PlusPlus,
    MinusMinus,
}

pub enum Lit {
    /// A number, by its IEEE-754 binary64 bit pattern.
    Num(u64),
    Bool(bool),
    Str(String),
    Null,
    Regex { exp: String, flags: String },
    /// Any other literal, by a description for the failure message.
    Unsupported(String),
}

/// One position of an array literal.
#[derive(Clone, Copy, Debug, PartialEq, Eq, Structural)]
pub enum Element {
    Hole,
    Item(ExprId),
    Spread(ExprId),
}

/// One argument of a call.
#[derive(Clone, Copy, Debug, PartialEq, Eq, Structural)]
pub struct Argument {
    pub spread: bool,
    pub expr: ExprId,
}

#[derive(Clone, Copy, Debug, PartialEq, Eq, Structural)]
pub enum Callee {
    Expr(ExprId),
    Super,
    Import,
}

pub enum MemberProp {
    Ident(String),
    Computed(ExprId),
    Private,
}

pub enum PropName {
    Ident(String),
    Str(String),
    /// A numeric key, by its bit pattern.
    Num(u64),
    Computed(ExprId),
    BigInt,
}

/// One member of an object literal.
pub enum Prop {
    Shorthand(String),
    KeyValue { key: PropName, value: ExprId },
    Assign { key: String, value: ExprId },
    Method { key: PropName, function: FunctionId },
    Getter { key: PropName, function: FunctionId },
    Setter { key: PropName, function: FunctionId },
    Spread(ExprId),
}

#[derive(Clone, Copy, Debug, PartialEq, Eq, Structural)]
pub enum AssignTarget {
    Pat(PatId),
    Expr(ExprId),
}

/// One literal piece of a template.
pub struct Quasi {
    pub text: String,
    pub tail: bool,
}

pub enum Expr {
    This,
    Lit(Lit),
    Array(Vec<Element>),
    Ident(String),
    Unary { op: UnaryOp, arg: ExprId },
    Bin { op: BinaryOp, left: ExprId, right: ExprId },
    Arrow(FunctionId),
    Fn(FunctionId),
    Call { callee: Callee, args: Vec<Argument> },
    Object(Vec<Prop>),
    Member { obj: ExprId, prop: MemberProp },
    New { callee: ExprId, args: Option<Vec<Argument>> },
    Paren(ExprId),
    Await(ExprId),
    Assign { op: AssignOp, left: AssignTarget, right: ExprId },
    Update { op: UpdateOp, prefix: bool, arg: ExprId },
    Sequence(Vec<ExprId>),
    Cond { test: ExprId, cons: ExprId, alt: ExprId },
    Tpl { quasis: Vec<Quasi>, exprs: Vec<ExprId> },
    Class(ClassId),
    /// Any other expression, by a description for the failure message.
    Unsupported(String),
}

pub enum ObjectPatProp {
    Assign { key: String, value: Option<ExprId> },
    KeyValue { key: PropName, value: PatId },
    Rest(PatId),
}

pub enum Pat {
    Ident(String),
    Assign { left: PatId, right: ExprId },
    Array(Vec<Option<PatId>>),
    Object(Vec<ObjectPatProp>),
    Rest(PatId),
    Expr(ExprId),
    /// Any other pattern, by a description for the failure message.
    Unsupported(String),
}

#[derive(Clone, Copy, Debug, PartialEq, Eq, Structural)]
pub struct VarDeclarator {
    pub name: PatId,
    pub init: Option<ExprId>,
}

pub enum Decl {
    Var(Vec<VarDeclarator>),
    Fn { ident: String, function: FunctionId },
    Class { ident: String, class: ClassId },
    /// Any other declaration, by a description for the failure message.
    Unsupported(String),
}

pub enum ForInit {
    VarDecl(Vec<VarDeclarator>),
    Expr(ExprId),
}

/// What a `for ... of` or `for ... in` loop binds on each turn.
#[derive(Clone, Copy, Debug, PartialEq, Eq, Structural)]
pub enum ForHead {
    Pat(PatId),
    /// A declaration, by the pattern of its first declarator.
    VarDecl(PatId),
    UsingDecl,
}

#[derive(Clone, Copy, Debug, PartialEq, Eq, Structural)]
pub struct CatchClause {
    pub param: Option<PatId>,
    pub body: BlockId,
}

pub enum ImportSpecifier {
    Namespace(String),
    Named { local: String, imported: Option<String> },
    Default(String),
}

pub enum Stmt {
    Decl(Decl),
    Expr(ExprId),
    Block(BlockId),
    If { test: ExprId, cons: StmtId, alt: Option<StmtId> },
    Return(Option<ExprId>),
    Empty,
    Throw(ExprId),
    Try { block: BlockId, handler: Option<CatchClause> },
    While { test: ExprId, body: StmtId },
    DoWhile { test: ExprId, body: StmtId },
    For { init: Option<ForInit>, test: Option<ExprId>, update: Option<ExprId>, body: StmtId },
    ForOf { left: ForHead, right: ExprId, body: StmtId },
    ForIn { left: ForHead, right: ExprId, body: StmtId },
    Break,
    Continue,
    Import { source: String, specifiers: Vec<ImportSpecifier> },
    /// Any other statement, by a description for the failure message.
    Unsupported(String),
}

/// A function of the program: parameters, body, and the body as native source.
pub struct FunctionDef {
    pub params: Vec<PatId>,
    /// The statements of the body; `None` for a function declared without one.
    pub body: Option<BlockId>,
    pub is_async: bool,
    /// The body as host-native source text, in which every identifier carries
    /// the hygienic prefix and a trailing expression statement has become a
    /// `return`. It is what the natively invocable form is compiled from.
    pub source: String,
}

pub enum ClassMember {
    Constructor(FunctionId),
    Method { key: PropName, function: FunctionId, is_static: bool },
    ClassProp { key: PropName, value: Option<ExprId>, is_static: bool },
    /// A member of any other kind; a class that has one is refused.
    Other,
}

pub struct Class {
    pub super_class: Option<ExprId>,
    pub body: Vec<ClassMember>,
}

/// The body of an arrow function.
pub enum ArrowBody {
    Block(BlockId),
    Expr(ExprId),
}

/// All nodes of the program.
pub struct Program {
    pub exprs: Vec<Expr>,
    pub stmts: Vec<Stmt>,
    pub pats: Vec<Pat>,
    pub blocks: Vec<Vec<StmtId>>,
    pub functions: Vec<FunctionDef>,
    pub classes: Vec<Class>,
}

impl Program {
    /// A program without nodes.
    pub fn new() -> (p: Program)
        ensures
            p.exprs@.len() == 0,
            p.stmts@.len() == 0,
            p.pats@.len() == 0,
            p.blocks@.len() == 0,
            p.functions@.len() == 0,
            p.classes@.len() == 0,
    {
        Program {
            exprs: Vec::new(),
            stmts: Vec::new(),
            pats: Vec::new(),
            blocks: Vec::new(),
            functions: Vec::new(),
            classes: Vec::new(),
        }
    }

    /// Adds an expression and returns where it lives.
    pub fn add_expr(&mut self, expr: Expr) -> (id: ExprId)
        ensures
            id == old(self).exprs@.len(),
            final(self).exprs@ == old(self).exprs@.push(expr),
            final(self).stmts == old(self).stmts,
            final(self).pats == old(self).pats,
            final(self).blocks == old(self).blocks,
            final(self).functions == old(self).functions,
            final(self).classes == old(self).classes,
    {
        let id = self.exprs.len();
        self.exprs.push(expr);
        id
    }

    /// Adds a statement and returns where it lives.
    pub fn add_stmt(&mut self, stmt: Stmt) -> (id: StmtId)
        ensures
            id == old(self).stmts@.len(),
            final(self).stmts@ == old(self).stmts@.push(stmt),
            final(self).exprs == old(self).exprs,
            final(self).pats == old(self).pats,
            final(self).blocks == old(self).blocks,
            final(self).functions == old(self).functions,
            final(self).classes == old(self).classes,
    {
        let id = self.stmts.len();
        self.stmts.push(stmt);
        id
    }

    /// Adds a pattern and returns where it lives.
    pub fn add_pat(&mut self, pat: Pat) -> (id: PatId)
        ensures
            id == old(self).pats@.len(),
            final(self).pats@ == old(self).pats@.push(pat),
            final(self).exprs == old(self).exprs,
            final(self).stmts == old(self).stmts,
            final(self).blocks == old(self).blocks,
            final(self).functions == old(self).functions,
            final(self).classes == old(self).classes,
    {
        let id = self.pats.len();
        self.pats.push(pat);
        id
    }

    /// Adds a list of statements and returns where it lives.
    pub fn add_block(&mut self, stmts: Vec<StmtId>) -> (id: BlockId)
        ensures
            id == old(self).blocks@.len(),
            final(self).blocks@ == old(self).blocks@.push(stmts),
            final(self).exprs == old(self).exprs,
            final(self).stmts == old(self).stmts,
            final(self).pats == old(self).pats,
            final(self).functions == old(self).functions,
            final(self).classes == old(self).classes,
    {
        let id = self.blocks.len();
        self.blocks.push(stmts);
        id
    }

    /// Adds a function and returns where it lives.
    pub fn add_function(&mut self, function: FunctionDef) -> (id: FunctionId)
        ensures
            id == old(self).functions@.len(),
            final(self).functions@ == old(self).functions@.push(function),
            final(self).exprs == old(self).exprs,
            final(self).stmts == old(self).stmts,
            final(self).pats == old(self).pats,
            final(self).blocks == old(self).blocks,
            final(self).classes == old(self).classes,
    {
        let id = self.functions.len();
        self.functions.push(function);
        id
    }

    /// Adds a class and returns where it lives.
    pub fn add_class(&mut self, class: Class) -> (id: ClassId)
        ensures
            id == old(self).classes@.len(),
            final(self).classes@ == old(self).classes@.push(class),
            final(self).exprs == old(self).exprs,
            final(self).stmts == old(self).stmts,
            final(self).pats == old(self).pats,
            final(self).blocks == old(self).blocks,
            final(self).functions == old(self).functions,
    {
        let id = self.classes.len();
        self.classes.push(class);
        id
    }

    /// The expression at `id`, if there is one.
    pub fn expr(&self, id: ExprId) -> (r: Option<&Expr>)
        ensures
            match r {
                Some(e) => id < self.exprs@.len() && *e == self.exprs@[id as int],
                None => id >= self.exprs@.len(),
            },
    {
        if id < self.exprs.len() {
            Some(&self.exprs[id])
        } else {
            None
        }
    }

    /// The statement at `id`, if there is one.
    pub fn stmt(&self, id: StmtId) -> (r: Option<&Stmt>)
        ensures
            match r {
                Some(s) => id < self.stmts@.len() && *s == self.stmts@[id as int],
                None => id >= self.stmts@.len(),
            },
    {
        if id < self.stmts.len() {
            Some(&self.stmts[id])
        } else {
            None
        }
    }

    /// The pattern at `id`, if there is one.
    pub fn pat(&self, id: PatId) -> (r: Option<&Pat>)
        ensures
            match r {
                Some(p) => id < self.pats@.len() && *p == self.pats@[id as int],
                None => id >= self.pats@.len(),
            },
    {
        if id < self.pats.len() {
            Some(&self.pats[id])
        } else {
            None
        }
    }

    /// The statement list at `id`, if there is one.
    pub fn block(&self, id: BlockId) -> (r: Option<&Vec<StmtId>>)
        ensures
            match r {
                Some(b) => id < self.blocks@.len() && *b == self.blocks@[id as int],
                None => id >= self.blocks@.len(),
            },
    {
        if id < self.blocks.len() {
            Some(&self.blocks[id])
        } else {
            None
        }
    }

    /// The function at `id`, if there is one.
    pub fn function(&self, id: FunctionId) -> (r: Option<&FunctionDef>)
        ensures
            match r {
                Some(f) => id < self.functions@.len() && *f == self.functions@[id as int],
                None => id >= self.functions@.len(),
            },
    {
        if id < self.functions.len() {
            Some(&self.functions[id])
        } else {
            None
        }
    }

    /// The class at `id`, if there is one.
    pub fn class(&self, id: ClassId) -> (r: Option<&Class>)
        ensures
            match r {
                Some(c) => id < self.classes@.len() && *c == self.classes@[id as int],
                None => id >= self.classes@.len(),
            },
    {
        if id < self.classes.len() {
            Some(&self.classes[id])
        } else {
            None
        }
    }
}

/// The statements of the body of an arrow function: those of a block body,
/// and for an expression body the one statement that evaluates the
/// expression. The program gains that statement and its list.
pub fn arrow_func_body(program: &mut Program, arrow_body: ArrowBody) -> (block: BlockId)
    ensures
        final(program).exprs == old(program).exprs,
        final(program).pats == old(program).pats,
        final(program).functions == old(program).functions,
        final(program).classes == old(program).classes,
        match arrow_body {
            ArrowBody::Block(body) => block == body && final(program).stmts == old(program).stmts
                && final(program).blocks == old(program).blocks,
            ArrowBody::Expr(expr) => {
                &&& final(program).stmts@ == old(program).stmts@.push(Stmt::Expr(expr))
                &&& block == old(program).blocks@.len()
                &&& final(program).blocks@.len() == old(program).blocks@.len() + 1
                &&& final(program).blocks@.drop_last() == old(program).blocks@
                &&& final(program).blocks@.last()@ == seq![old(program).stmts@.len() as StmtId]
            },
        },
{
    match arrow_body {
        ArrowBody::Block(body) => body,
        ArrowBody::Expr(expr) => {
            let stmt = program.add_stmt(Stmt::Expr(expr));
            let mut stmts: Vec<StmtId> = Vec::new();
            stmts.push(stmt);
            let ghost before = program.blocks@;
            let block = program.add_block(stmts);
            assert(program.blocks@.drop_last() =~= before);
            block
        },
    }
}

/// The expression whose value a function body returns when it ends: that of
/// its last statement, if that is an expression statement. In the native
/// form of the function this statement is a `return`.
pub open spec fn trailing(program: &Program, block: BlockId) -> Option<ExprId> {
    if block < program.blocks@.len() && program.blocks@[block as int]@.len() > 0 {
        let last = program.blocks@[block as int]@.last();
        if last < program.stmts@.len() {
            match program.stmts@[last as int] {
                Stmt::Expr(expr) => Some(expr),
                _ => None,
            }
        } else {
            None
        }
    } else {
        None
    }
}

/// Finds [`trailing`].
pub fn trailing_expression(program: &Program, block: BlockId) -> (r: Option<ExprId>)
    ensures
        r == trailing(program, block),
{
    match program.block(block) {
        Some(stmts) => {
            if stmts.len() == 0 {
                return None;
            }
            match program.stmt(stmts[stmts.len() - 1]) {
                Some(Stmt::Expr(expr)) => Some(*expr),
                _ => None,
            }
        },
        None => None,
    }
}

} // verus!
