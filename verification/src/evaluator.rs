//! The evaluator: operators, and the transitions of the step machine for
//! expressions, statements, patterns, functions, objects and classes.

use vstd::prelude::*;
use crate::ast::{BlockId, ImportSpecifier, Program, Stmt, StmtId};
use crate::host::{Descriptor, Flags, HostRequest, Slot};
use crate::js::import;
use crate::error::ErrorKind;
use crate::machine::{Action, Control, Delivery, Frame, Interpreter};
use crate::value::Value;

pub mod class;
pub mod expressions;
pub mod functions;
pub mod objects;
pub mod statements;

verus! {

/// How a list of statements begins, on a continuation that was `from`: with
/// its first statement, after which the list goes on; a list without
/// statements gives `undefined` at once.
pub open spec fn begins(
    program: &Program,
    block: BlockId,
    from: Seq<Frame>,
    after: &Interpreter,
    action: &Action,
) -> bool {
    &&& action is Continue
    &&& if block >= program.blocks@.len() {
        &&& after.frames() == from
        &&& after.next() matches Control::Raise(error)
        &&& error.kind == ErrorKind::Protocol
    } else if program.blocks@[block as int]@.len() == 0 {
        &&& after.frames() == from
        &&& after.next() == Control::Deliver(Delivery::Value(Value::Undefined))
    } else {
        &&& after.frames() == from.push(Frame::Sequence { block, next: 1 })
        &&& after.next() == Control::Stmt(program.blocks@[block as int]@[0])
    }
}

/// What the frame does with a delivery; see [`Interpreter::eval_next`].
pub open spec fn sequence_goes_on(
    program: &Program,
    block: BlockId,
    next: usize,
    delivery: Delivery,
    before: &Interpreter,
    after: &Interpreter,
    action: &Action,
) -> bool {
    match delivery {
        Delivery::Value(value) => if block >= program.blocks@.len() {
            after.raised(before, action, ErrorKind::Protocol)
        } else if next < program.blocks@[block as int]@.len() {
            &&& after.pushed(
                before,
                Frame::Sequence { block, next: (next + 1) as usize },
            )
            &&& after.next() == Control::Stmt(
                program.blocks@[block as int]@[next as int],
            )
            &&& action is Continue
        } else {
            after.gave(before, action, value)
        },
        _ => after.raised(before, action, ErrorKind::Protocol),
    }
}

impl Interpreter {
    /// Begins a list of statements. Its value is that of its last statement,
    /// and `undefined` where it has none.
    pub(crate) fn eval(&mut self, program: &Program, block: BlockId) -> (action: Action)
        requires
            old(self).inv(),
            !old(self).is_idle(),
        ensures
            final(self).stepped(old(self), &action),
            begins(program, block, old(self).frames(), final(self), &action),
            final(self).scopes() == old(self).scopes(),
            final(self).heap() == old(self).heap(),
    {
        match program.block(block) {
            Some(stmts) => {
                if stmts.len() == 0 {
                    self.give(Value::Undefined)
                } else {
                    self.push_frame(Frame::Sequence { block, next: 1 });
                    self.go_stmt(stmts[0])
                }
            },
            None => self.broken(),
        }
    }

    /// Goes on in a list of statements after one of them gave its value: with
    /// the statement at `next`, or, after the last, with the value given.
    pub(crate) fn eval_next(
        &mut self,
        program: &Program,
        block: BlockId,
        next: usize,
        delivery: Delivery,
    ) -> (action: Action)
        requires
            old(self).inv(),
            !old(self).is_idle(),
        ensures
            final(self).stepped(old(self), &action),
            sequence_goes_on(program, block, next, delivery, old(self), final(self), &action),
    {
        let value = match delivery.into_value() {
            Some(value) => value,
            None => {
                return self.broken();
            },
        };
        match program.block(block) {
            Some(stmts) => {
                if next < stmts.len() {
                    self.push_frame(Frame::Sequence { block, next: next + 1 });
                    self.go_stmt(stmts[next])
                } else {
                    self.give(value)
                }
            },
            None => self.broken(),
        }
    }
}

/// The namespace specifier of an import, if it has one: the last of them.
pub open spec fn namespace_of(specifiers: Seq<ImportSpecifier>) -> Option<String>
    decreases specifiers.len(),
{
    if specifiers.len() == 0 {
        None
    } else {
        match specifiers.last() {
            ImportSpecifier::Namespace(name) => Some(name),
            _ => namespace_of(specifiers.drop_last()),
        }
    }
}

/// Finds [`namespace_of`] a list of specifiers.
pub fn find_namespace(specifiers: &Vec<ImportSpecifier>) -> (r: Option<&String>)
    ensures
        match r {
            Some(name) => namespace_of(specifiers@) == Some(*name),
            None => namespace_of(specifiers@) is None,
        },
{
    let mut i: usize = specifiers.len();
    assert(specifiers@.take(i as int) =~= specifiers@);
    while i > 0
        invariant
            i <= specifiers@.len(),
            namespace_of(specifiers@) == namespace_of(specifiers@.take(i as int)),
        decreases i,
    {
        i = i - 1;
        assert(specifiers@.take(i + 1).last() == specifiers@[i as int]);
        assert(specifiers@.take(i + 1).drop_last() =~= specifiers@.take(i as int));
        match &specifiers[i] {
            ImportSpecifier::Namespace(name) => {
                return Some(name);
            },
            _ => {},
        }
    }
    None
}

/// How an import begins: the host loads the module from the address that
/// the specifier stands for.
pub open spec fn import_begins(
    program: &Program,
    stmt: StmtId,
    before: &Interpreter,
    after: &Interpreter,
    action: &Action,
) -> bool {
    match crate::evaluator::statements::stmt_at(program, stmt) {
        Some(Stmt::Import { source, .. }) => {
            &&& after.pushed(before, Frame::ImportModule { stmt })
            &&& after.next() is Waiting
            &&& action matches Action::Request(HostRequest::Import(address))
            &&& address@ == (if crate::js::is_address(source@) {
                source@
            } else {
                "https://cdn.skypack.dev/"@ + source@
            })
        },
        _ => after.raised(before, action, ErrorKind::Protocol),
    }
}

/// The specifiers of an import.
pub open spec fn specifiers_at(program: &Program, stmt: StmtId) -> Option<Vec<ImportSpecifier>> {
    match crate::evaluator::statements::stmt_at(program, stmt) {
        Some(Stmt::Import { specifiers, .. }) => Some(specifiers),
        _ => None,
    }
}

/// A specifier imported a value: its local name is declared with it, and the
/// import goes on with the next specifier.
pub open spec fn imported(
    stmt: StmtId,
    module: Value,
    index: usize,
    local: Seq<char>,
    value: Value,
    before: &Interpreter,
    after: &Interpreter,
    action: &Action,
) -> bool {
    &&& action is Continue
    &&& if before.depth() > 0 {
        &&& after.declared(before, local, value@)
        &&& after.frames() == before.frames().push(
            Frame::ImportSpecifiers { stmt, module, next: (index + 1) as usize },
        )
        &&& after.next() == Control::Deliver(Delivery::Nothing)
    } else {
        &&& after.frames() == before.frames()
        &&& after.scopes()@ == before.scopes()@
        &&& after.heap()@ == before.heap()@
        &&& after.fails(ErrorKind::Name)
    }
}

/// How an import goes on with the specifier at `next`. A named specifier
/// asks the host for the module's property of the imported name, a default
/// specifier for the property of its own name; a namespace specifier waits
/// for the end. At the end an import with a namespace specifier declares
/// its name with the module, which the host also makes a global of that
/// name: configurable and enumerable, but not writable. The import evaluates
/// to `undefined`.
pub open spec fn import_goes(
    program: &Program,
    stmt: StmtId,
    module: Value,
    next: usize,
    before: &Interpreter,
    after: &Interpreter,
    action: &Action,
) -> bool {
    match specifiers_at(program, stmt) {
        None => after.raised(before, action, ErrorKind::Protocol),
        Some(specifiers) => if next >= specifiers@.len() {
            match namespace_of(specifiers@) {
                Some(name) => if before.depth() > 0 {
                    &&& after.declared(before, name@, module@)
                    &&& after.frames() == before.frames().push(
                        Frame::Replace { value: Value::Undefined },
                    )
                    &&& after.next() is Waiting
                    &&& action matches Action::Request(
                        HostRequest::DefineGlobal { name: global, descriptor },
                    )
                    &&& global@ == name@
                    &&& descriptor.flags == Flags::module()
                    &&& descriptor.slot == Slot::Value(module)
                } else {
                    &&& after.frames() == before.frames()
                    &&& after.scopes()@ == before.scopes()@
                    &&& after.heap()@ == before.heap()@
                    &&& after.fails(ErrorKind::Name)
                    &&& action is Continue
                },
                None => after.gave(before, action, Value::Undefined),
            }
        } else {
            match specifiers@[next as int] {
                ImportSpecifier::Namespace(_) => {
                    &&& after.pushed(
                        before,
                        Frame::ImportSpecifiers { stmt, module, next: (next + 1) as usize },
                    )
                    &&& after.next() == Control::Deliver(Delivery::Nothing)
                    &&& action is Continue
                },
                ImportSpecifier::Named { local, imported } => {
                    &&& after.pushed(before, Frame::ImportBind { stmt, module, index: next })
                    &&& after.next() is Waiting
                    &&& action matches Action::Request(HostRequest::GetProperty { object, key })
                    &&& object == module
                    &&& key@ == crate::value::ValueView::String(
                        match imported {
                            Some(name) => name@,
                            None => local@,
                        },
                    )
                },
                ImportSpecifier::Default(local) => {
                    &&& after.pushed(before, Frame::ImportBind { stmt, module, index: next })
                    &&& after.next() is Waiting
                    &&& action matches Action::Request(HostRequest::GetProperty { object, key })
                    &&& object == module
                    &&& key@ == crate::value::ValueView::String(local@)
                },
            }
        },
    }
}

/// What the frame does with a delivery; see [`Interpreter::on_import_module`].
pub open spec fn import_module_takes(
    program: &Program,
    stmt: StmtId,
    delivery: Delivery,
    before: &Interpreter,
    after: &Interpreter,
    action: &Action,
) -> bool {
    match delivery {
        Delivery::Value(module) => import_goes(
            program,
            stmt,
            module,
            0,
            before,
            after,
            action,
        ),
        _ => after.raised(before, action, ErrorKind::Protocol),
    }
}

/// What the frame does with a delivery; see [`Interpreter::on_import_specifiers`].
pub open spec fn import_specifiers_takes(
    program: &Program,
    stmt: StmtId,
    module: Value,
    next: usize,
    delivery: Delivery,
    before: &Interpreter,
    after: &Interpreter,
    action: &Action,
) -> bool {
    match delivery {
        Delivery::Nothing => import_goes(
            program,
            stmt,
            module,
            next,
            before,
            after,
            action,
        ),
        _ => after.raised(before, action, ErrorKind::Protocol),
    }
}

/// What the frame does with a delivery; see [`Interpreter::on_import_bind`].
pub open spec fn import_bind_takes(
    program: &Program,
    stmt: StmtId,
    module: Value,
    index: usize,
    delivery: Delivery,
    before: &Interpreter,
    after: &Interpreter,
    action: &Action,
) -> bool {
    match delivery {
        Delivery::Value(value) => match specifiers_at(program, stmt) {
            Some(specifiers) => if index >= specifiers@.len() {
                after.raised(before, action, ErrorKind::Protocol)
            } else {
                match specifiers@[index as int] {
                    ImportSpecifier::Named { local, .. } => imported(
                        stmt,
                        module,
                        index,
                        local@,
                        value,
                        before,
                        after,
                        action,
                    ),
                    ImportSpecifier::Default(local) => imported(
                        stmt,
                        module,
                        index,
                        local@,
                        value,
                        before,
                        after,
                        action,
                    ),
                    ImportSpecifier::Namespace(_) => after.raised(
                        before,
                        action,
                        ErrorKind::Protocol,
                    ),
                }
            },
            None => after.raised(before, action, ErrorKind::Protocol),
        },
        _ => after.raised(before, action, ErrorKind::Protocol),
    }
}

impl Interpreter {
    /// Begins an import: the host loads the module from the address that the
    /// specifier stands for.
    pub(crate) fn eval_module_decl(&mut self, program: &Program, stmt: StmtId) -> (action: Action)
        requires
            old(self).inv(),
            !old(self).is_idle(),
        ensures
            final(self).stepped(old(self), &action),
            import_begins(program, stmt, old(self), final(self), &action),
    {
        match program.stmt(stmt) {
            Some(Stmt::Import { source, .. }) => {
                self.push_frame(Frame::ImportModule { stmt });
                self.ask(HostRequest::Import(import(source.as_str())))
            },
            _ => self.broken(),
        }
    }

    /// Goes on with the specifier at `next` of an import. A named specifier
    /// binds its local name to the module's property of the imported name, a
    /// default specifier to the property of its own name. At the end a
    /// namespace specifier binds its name to the module, which also becomes a
    /// global of that name in the host.
    pub(crate) fn import_specifier(
        &mut self,
        program: &Program,
        stmt: StmtId,
        module: Value,
        next: usize,
    ) -> (action: Action)
        requires
            old(self).inv(),
            !old(self).is_idle(),
        ensures
            final(self).stepped(old(self), &action),
            import_goes(program, stmt, module, next, old(self), final(self), &action),
    {
        let specifiers = match program.stmt(stmt) {
            Some(Stmt::Import { specifiers, .. }) => specifiers,
            _ => {
                return self.broken();
            },
        };
        if next >= specifiers.len() {
            return match find_namespace(specifiers) {
                Some(name) => {
                    match self.declare(name.as_str(), module.clone()) {
                        Ok(_) => {},
                        Err(error) => {
                            return self.fail(error);
                        },
                    }
                    self.push_frame(Frame::Replace { value: Value::Undefined });
                    self.ask(
                        HostRequest::DefineGlobal {
                            name: name.clone(),
                            descriptor: Descriptor {
                                flags: Flags::module(),
                                slot: Slot::Value(module),
                            },
                        },
                    )
                },
                None => self.give(Value::Undefined),
            };
        }
        match &specifiers[next] {
            ImportSpecifier::Namespace(_) => {
                self.push_frame(Frame::ImportSpecifiers { stmt, module, next: next + 1 });
                self.tick()
            },
            ImportSpecifier::Named { local, imported } => {
                let key = match imported {
                    Some(name) => Value::String(name.clone()),
                    None => Value::String(local.clone()),
                };
                let object = module.clone();
                self.push_frame(Frame::ImportBind { stmt, module, index: next });
                self.ask(HostRequest::GetProperty { object, key })
            },
            ImportSpecifier::Default(local) => {
                let key = Value::String(local.clone());
                let object = module.clone();
                self.push_frame(Frame::ImportBind { stmt, module, index: next });
                self.ask(HostRequest::GetProperty { object, key })
            },
        }
    }

    /// The host loaded the module: its specifiers are next.
    pub(crate) fn on_import_module(
        &mut self,
        program: &Program,
        stmt: StmtId,
        delivery: Delivery,
    ) -> (action: Action)
        requires
            old(self).inv(),
            !old(self).is_idle(),
        ensures
            final(self).stepped(old(self), &action),
            import_module_takes(program, stmt, delivery, old(self), final(self), &action),
    {
        match delivery {
            Delivery::Value(module) => self.import_specifier(program, stmt, module, 0),
            _ => self.broken(),
        }
    }

    /// An import takes its next turn.
    pub(crate) fn on_import_specifiers(
        &mut self,
        program: &Program,
        stmt: StmtId,
        module: Value,
        next: usize,
        delivery: Delivery,
    ) -> (action: Action)
        requires
            old(self).inv(),
            !old(self).is_idle(),
        ensures
            final(self).stepped(old(self), &action),
            import_specifiers_takes(
                program,
                stmt,
                module,
                next,
                delivery,
                old(self),
                final(self),
                &action,
            ),
    {
        match delivery {
            Delivery::Nothing => self.import_specifier(program, stmt, module, next),
            _ => self.broken(),
        }
    }

    /// The host read what a specifier imports: the specifier's local name is
    /// declared with it.
    pub(crate) fn on_import_bind(
        &mut self,
        program: &Program,
        stmt: StmtId,
        module: Value,
        index: usize,
        delivery: Delivery,
    ) -> (action: Action)
        requires
            old(self).inv(),
            !old(self).is_idle(),
        ensures
            final(self).stepped(old(self), &action),
            import_bind_takes(
                program,
                stmt,
                module,
                index,
                delivery,
                old(self),
                final(self),
                &action,
            ),
    {
        let value = match delivery.into_value() {
            Some(value) => value,
            None => {
                return self.broken();
            },
        };
        let specifiers = match program.stmt(stmt) {
            Some(Stmt::Import { specifiers, .. }) => specifiers,
            _ => {
                return self.broken();
            },
        };
        if index >= specifiers.len() {
            return self.broken();
        }
        let local = match &specifiers[index] {
            ImportSpecifier::Named { local, .. } => local,
            ImportSpecifier::Default(local) => local,
            ImportSpecifier::Namespace(_) => {
                return self.broken();
            },
        };
        match self.declare(local.as_str(), value) {
            Ok(_) => {
                self.push_frame(Frame::ImportSpecifiers { stmt, module, next: index + 1 });
                self.tick()
            },
            Err(error) => self.fail(error),
        }
    }
}

} // verus!
