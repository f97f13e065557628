//! The arena of binding cells and closures. Environments and closures refer
//! to cells by index, so that two names can share one cell.

use vstd::prelude::*;
use crate::error::{ErrorKind, EvalError};
use crate::value::{BindingId, ClosureId, Function, Value, ValueView};

verus! {

/// All binding cells and all closures created so far. Nothing is ever
/// removed, so an index stays valid once it was handed out.
#[derive(Debug)]
pub struct Store {
    cells: Vec<Value>,
    closures: Vec<Function>,
}

impl View for Store {
    type V = Seq<ValueView>;

    /// What each cell holds.
    closed spec fn view(&self) -> Seq<ValueView> {
        self.cells@.map_values(|v: Value| v@)
    }
}

impl Store {
    /// How many closures the store holds.
    pub closed spec fn closure_count(&self) -> nat {
        self.closures@.len()
    }

    /// The closure at `id`.
    pub closed spec fn spec_closure(&self, id: int) -> Function {
        self.closures@[id]
    }

    /// Every closure of `before` is still there, and no other.
    pub open spec fn same_closures(&self, before: &Store) -> bool {
        &&& self.closure_count() == before.closure_count()
        &&& forall|i: int|
            0 <= i < before.closure_count() ==> #[trigger] self.spec_closure(i)
                == before.spec_closure(i)
    }

    /// An empty store.
    pub fn new() -> (s: Store)
        ensures
            s@.len() == 0,
            s.closure_count() == 0,
    {
        Store { cells: Vec::new(), closures: Vec::new() }
    }

    /// How many cells the store holds.
    pub fn len(&self) -> (n: usize)
        ensures
            n == self@.len(),
    {
        self.cells.len()
    }

    /// Creates a cell holding `value`.
    pub fn allocate(&mut self, value: Value) -> (id: BindingId)
        ensures
            id == old(self)@.len(),
            final(self)@ == old(self)@.push(value@),
            final(self).same_closures(old(self)),
    {
        let id = self.cells.len();
        self.cells.push(value);
        assert(self@ =~= old(self)@.push(value@));
        id
    }

    /// What the cell `id` holds; `None` where no such cell exists.
    pub fn read(&self, id: BindingId) -> (r: Option<&Value>)
        ensures
            match r {
                Some(v) => id < self@.len() && v@ == self@[id as int],
                None => id >= self@.len(),
            },
    {
        if id < self.cells.len() {
            Some(&self.cells[id])
        } else {
            None
        }
    }

    /// Replaces what the cell `id` holds. Fails, changing nothing, where no
    /// such cell exists.
    pub fn write(&mut self, id: BindingId, value: Value) -> (r: Result<(), EvalError>)
        ensures
            final(self).same_closures(old(self)),
            match r {
                Ok(()) => id < old(self)@.len() && final(self)@ == old(self)@.update(
                    id as int,
                    value@,
                ),
                Err(e) => id >= old(self)@.len() && final(self)@ == old(self)@ && e.kind
                    == ErrorKind::Protocol,
            },
    {
        if id < self.cells.len() {
            self.cells.set(id, value);
            assert(self@ =~= old(self)@.update(id as int, value@));
            Ok(())
        } else {
            Err(EvalError::with_text(ErrorKind::Protocol, "ERROR: No such binding."))
        }
    }

    /// Stores a closure and returns where it lives.
    pub fn add_closure(&mut self, function: Function) -> (id: ClosureId)
        ensures
            id == old(self).closure_count(),
            final(self).closure_count() == old(self).closure_count() + 1,
            final(self).spec_closure(id as int) == function,
            forall|i: int| 0 <= i < old(self).closure_count() ==> final(self).spec_closure(i) == old(
                self,
            ).spec_closure(i),
            final(self)@ == old(self)@,
    {
        let id = self.closures.len();
        self.closures.push(function);
        id
    }

    /// The closure at `id`; `None` where no such closure exists.
    pub fn closure(&self, id: ClosureId) -> (r: Option<&Function>)
        ensures
            match r {
                Some(f) => id < self.closure_count() && *f == self.spec_closure(id as int),
                None => id >= self.closure_count(),
            },
    {
        if id < self.closures.len() {
            Some(&self.closures[id])
        } else {
            None
        }
    }
}

} // verus!
