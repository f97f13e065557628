//! What a session shows of its global scope.

use vstd::prelude::*;
use crate::environment::Environments;
use crate::error::{ErrorKind, EvalError};
use crate::evaluator::expressions::unary::{eval_typeof_operator, kind_name};
use crate::machine::Interpreter;
use crate::scope::Scope;
use crate::store::Store;
use crate::value::{Value, ValueView};

verus! {

/// What a listing of properties shows.
#[derive(Debug)]
pub enum Listing {
    /// The names with the names of their kinds.
    Names(Vec<(String, String)>),
    /// The entries of this object, which the host lists.
    Object(Value),
    /// Nothing.
    Nothing,
}

/// The name of the kind of the value in a cell; `None` for a cell that does
/// not exist.
pub open spec fn kind_in(cells: Seq<ValueView>, id: int) -> Option<Seq<char>> {
    if 0 <= id < cells.len() {
        Some(kind_name(cells[id]))
    } else {
        None
    }
}

/// The content of a list of names with kinds.
pub open spec fn listed(names: Seq<(String, String)>) -> Seq<(Seq<char>, Seq<char>)> {
    names.map_values(|p: (String, String)| (p.0@, p.1@))
}

/// The first `n` entries of a scope, each with the name of the kind of the
/// value in its cell; an entry whose cell does not exist is left out.
pub open spec fn kinds(scope: &Scope, cells: Seq<ValueView>, n: nat) -> Seq<
    (Seq<char>, Seq<char>),
>
    decreases n,
{
    if n == 0 {
        Seq::empty()
    } else {
        let entry = scope.spec_entry(n - 1);
        match kind_in(cells, entry.1 as int) {
            Some(kind) => kinds(scope, cells, (n - 1) as nat).push((entry.0, kind)),
            None => kinds(scope, cells, (n - 1) as nat),
        }
    }
}

/// The names of the kinds of what a scope binds, entry by entry.
pub fn kinds_of(scope: &Scope, store: &Store) -> (r: Vec<(String, String)>)
    ensures
        listed(r@) == kinds(scope, store@, scope.spec_len()),
{
    let mut r: Vec<(String, String)> = Vec::new();
    let mut i: usize = 0;
    assert(listed(r@) =~= kinds(scope, store@, 0));
    while i < scope.len()
        invariant
            i <= scope.spec_len(),
            listed(r@) == kinds(scope, store@, i as nat),
        decreases scope.spec_len() - i,
    {
        let ghost before = listed(r@);
        match scope.entry(i) {
            Some((name, id)) => match store.read(id) {
                Some(value) => match eval_typeof_operator(value) {
                    Ok(Value::String(kind)) => {
                        r.push((name.clone(), kind));
                        assert(listed(r@) =~= before.push((name@, kind@)));
                    },
                    _ => {
                        assert(false);
                    },
                },
                None => {},
            },
            None => {},
        }
        i = i + 1;
    }
    r
}

/// What is listed for the name `object` in the global scope: for `window`
/// the names that the global scope binds, each with the name of the kind of
/// its value; for a name bound to an object, that object; nothing otherwise.
pub fn list_properties(envs: &Environments, store: &Store, object: &str) -> (r: Listing)
    ensures
        if envs@.len() == 0 {
            r is Nothing
        } else if object@ == "window"@ {
            &&& r matches Listing::Names(names)
            &&& listed(names@) == kinds(&envs.stack@[0], store@, envs.stack@[0].spec_len())
        } else {
            match envs@[0].get(object@) {
                Some(id) => if id < store@.len() && store@[id as int] is Object {
                    &&& r matches Listing::Object(v)
                    &&& v@ == store@[id as int]
                } else {
                    r is Nothing
                },
                None => r is Nothing,
            }
        },
{
    if envs.stack.len() == 0 {
        return Listing::Nothing;
    }
    assert(envs@[0] == envs.stack@[0]@);
    let global = &envs.stack[0];
    if crate::text::same_text(object, "window") {
        Listing::Names(kinds_of(global, store))
    } else {
        match global.get(object) {
            Some(id) => match store.read(id) {
                Some(value) => {
                    if value.is_object() {
                        Listing::Object(value.clone())
                    } else {
                        Listing::Nothing
                    }
                },
                None => Listing::Nothing,
            },
            None => Listing::Nothing,
        }
    }
}

/// The name of the kind of what the global scope binds `object` to, and
/// `undefined` where it binds nothing of that name.
pub fn get_type(envs: &Environments, store: &Store, object: &str) -> (r: String)
    ensures
        r@ == (if envs@.len() == 0 {
            "undefined"@
        } else {
            match envs@[0].get(object@) {
                Some(id) => match kind_in(store@, id as int) {
                    Some(kind) => kind,
                    None => "undefined"@,
                },
                None => "undefined"@,
            }
        }),
{
    if envs.stack.len() == 0 {
        return "undefined".to_owned();
    }
    assert(envs@[0] == envs.stack@[0]@);
    match envs.stack[0].get(object) {
        Some(id) => match store.read(id) {
            Some(value) => match eval_typeof_operator(value) {
                Ok(Value::String(kind)) => kind,
                _ => "undefined".to_owned(),
            },
            None => "undefined".to_owned(),
        },
        None => "undefined".to_owned(),
    }
}

impl Interpreter {
    /// Starts the session anew: the environment is the one that a session
    /// starts with. Fails, changing nothing, while an evaluation is in
    /// flight.
    pub fn reset_envs(&mut self, global_this: Value, document: Value) -> (r: Result<(), EvalError>)
        requires
            old(self).inv(),
        ensures
            final(self).inv(),
            final(self).frames() == old(self).frames(),
            final(self).next() == old(self).next(),
            match r {
                Ok(()) => {
                    &&& old(self).is_idle()
                    &&& final(self).scopes()@ == seq![
                        crate::environment::global_frame(old(self).heap()@.len() as usize),
                    ]
                    &&& final(self).heap()@ == old(self).heap()@.push(global_this@).push(
                        document@,
                    )
                    &&& final(self).heap().same_closures(&old(self).heap())
                    &&& final(self).base_depth() == 1
                },
                Err(e) => {
                    &&& !old(self).is_idle()
                    &&& e.kind == ErrorKind::Protocol
                    &&& final(self).scopes() == old(self).scopes()
                    &&& final(self).heap() == old(self).heap()
                    &&& final(self).base_depth() == old(self).base_depth()
                },
            },
    {
        if !self.idle() {
            return Err(
                EvalError::with_text(ErrorKind::Protocol, "ERROR: An evaluation is in flight."),
            );
        }
        self.renew(global_this, document);
        Ok(())
    }
}

} // verus!
