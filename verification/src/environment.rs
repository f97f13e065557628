//! The stack of lexical scopes, and the flattened snapshot of it that a
//! closure captures.

use vstd::prelude::*;
use crate::error::{ErrorKind, EvalError};
use crate::globals::{in_global_this, is_global_name};
use crate::scope::Scope;
use crate::store::Store;
use crate::value::{BindingId, Value};

verus! {

/// How a name resolves.
#[derive(Clone, Copy, Debug, PartialEq, Eq, Structural)]
pub enum Lookup {
    /// A scope binds the name to this cell.
    Bound(BindingId),
    /// No scope binds the name, but it is one of the global names: it is
    /// looked up as a property of the host's global object, which the given
    /// cell holds, and is bound nowhere if that object has no such property.
    Global(BindingId),
    /// The name is bound nowhere.
    Absent,
}

/// The innermost frame that binds `key`.
pub open spec fn binding_frame(frames: Seq<Map<Seq<char>, BindingId>>, key: Seq<char>) -> Option<
    int,
>
    decreases frames.len(),
{
    if frames.len() == 0 {
        None
    } else if frames.last().contains_key(key) {
        Some(frames.len() - 1)
    } else {
        binding_frame(frames.drop_last(), key)
    }
}

/// The cell that `key` names: that of the innermost frame that binds it.
pub open spec fn resolve(frames: Seq<Map<Seq<char>, BindingId>>, key: Seq<char>) -> Option<
    BindingId,
> {
    match binding_frame(frames, key) {
        Some(i) => Some(frames[i][key]),
        None => None,
    }
}

/// All frames folded into one, outermost first, so that an inner binding
/// shadows an outer one of the same name.
pub open spec fn flatten(frames: Seq<Map<Seq<char>, BindingId>>) -> Map<Seq<char>, BindingId>
    decreases frames.len(),
{
    if frames.len() == 0 {
        Map::empty()
    } else {
        flatten(frames.drop_last()).union_prefer_right(frames.last())
    }
}

/// How `key` resolves in a single mapping, with the fall-back to the host's
/// global object.
pub open spec fn lookup_in(bindings: Map<Seq<char>, BindingId>, key: Seq<char>) -> Lookup {
    if bindings.contains_key(key) {
        Lookup::Bound(bindings[key])
    } else if bindings.contains_key("globalThis"@) && is_global_name(key) {
        Lookup::Global(bindings["globalThis"@])
    } else {
        Lookup::Absent
    }
}

/// How `key` resolves in a stack of frames, with the fall-back to the host's
/// global object.
pub open spec fn lookup(frames: Seq<Map<Seq<char>, BindingId>>, key: Seq<char>) -> Lookup {
    match resolve(frames, key) {
        Some(id) => Lookup::Bound(id),
        None => match resolve(frames, "globalThis"@) {
            Some(global) => if is_global_name(key) {
                Lookup::Global(global)
            } else {
                Lookup::Absent
            },
            None => Lookup::Absent,
        },
    }
}

/// A flattened snapshot of all bindings visible at one point of the program.
#[derive(Debug)]
pub struct ClosedEnvironment {
    bindings: Scope,
}

impl View for ClosedEnvironment {
    type V = Map<Seq<char>, BindingId>;

    closed spec fn view(&self) -> Map<Seq<char>, BindingId> {
        self.bindings@
    }
}

impl Clone for ClosedEnvironment {
    fn clone(&self) -> (c: ClosedEnvironment)
        ensures
            c@ == self@,
    {
        ClosedEnvironment { bindings: self.bindings.clone() }
    }
}

impl ClosedEnvironment {
    pub fn new() -> (env: ClosedEnvironment)
        ensures
            env@ == Map::<Seq<char>, BindingId>::empty(),
    {
        ClosedEnvironment { bindings: Scope::new() }
    }

    /// Binds `key` to the cell `obj`, which the snapshot then shares with
    /// every other holder of that cell.
    pub fn insert(&mut self, key: &str, obj: BindingId)
        ensures
            final(self)@ == old(self)@.insert(key@, obj),
    {
        self.bindings.insert(key, obj);
    }

    /// Resolves `key` in the snapshot.
    pub fn get(&self, key: &str) -> (r: Lookup)
        ensures
            r == lookup_in(self@, key@),
    {
        match self.bindings.get(key) {
            Some(id) => Lookup::Bound(id),
            None => match self.bindings.get("globalThis") {
                Some(global) => if in_global_this(key) {
                    Lookup::Global(global)
                } else {
                    Lookup::Absent
                },
                None => Lookup::Absent,
            },
        }
    }

    pub fn bindings(&self) -> (b: &Scope)
        ensures
            b@ == self@,
    {
        &self.bindings
    }
}

/// The stack of scope frames, innermost last.
#[derive(Debug)]
pub struct Environments {
    pub stack: Vec<Scope>,
}

impl View for Environments {
    type V = Seq<Map<Seq<char>, BindingId>>;

    open spec fn view(&self) -> Seq<Map<Seq<char>, BindingId>> {
        self.stack@.map_values(|s: Scope| s@)
    }
}

/// The global frame of a fresh environment: the four names of the global
/// object share the cell `global`, and `document` names the cell after it.
pub open spec fn global_frame(global: BindingId) -> Map<Seq<char>, BindingId> {
    Map::<Seq<char>, BindingId>::empty().insert("globalThis"@, global).insert(
        "self"@,
        global,
    ).insert("window"@, global).insert("this"@, global).insert(
        "document"@,
        (global + 1) as BindingId,
    )
}

proof fn lemma_binding_frame_prefix(
    frames: Seq<Map<Seq<char>, BindingId>>,
    key: Seq<char>,
    i: int,
)
    requires
        0 <= i <= frames.len(),
        forall|j: int| i <= j < frames.len() ==> !frames[j].contains_key(key),
    ensures
        binding_frame(frames, key) == binding_frame(frames.take(i), key),
    decreases frames.len() - i,
{
    if i == frames.len() {
        assert(frames.take(i) =~= frames);
    } else {
        lemma_binding_frame_prefix(frames, key, i + 1);
        assert(frames.take(i + 1).drop_last() =~= frames.take(i));
    }
}

/// A name resolves in the flattened snapshot to the cell that it resolves to
/// in the stack of frames.
pub proof fn lemma_flatten_resolves(frames: Seq<Map<Seq<char>, BindingId>>, key: Seq<char>)
    ensures
        flatten(frames).get(key) == resolve(frames, key),
        lookup_in(flatten(frames), key) == lookup(frames, key),
    decreases frames.len(),
{
    if frames.len() > 0 {
        lemma_flatten_resolves(frames.drop_last(), key);
        lemma_flatten_resolves(frames.drop_last(), "globalThis"@);
        lemma_flatten_with(frames, key);
        lemma_flatten_with(frames, "globalThis"@);
    }
}

proof fn lemma_flatten_with(frames: Seq<Map<Seq<char>, BindingId>>, key: Seq<char>)
    requires
        frames.len() > 0,
        flatten(frames.drop_last()).get(key) == resolve(frames.drop_last(), key),
    ensures
        flatten(frames).get(key) == resolve(frames, key),
{
    let inner = frames.last();
    let outer = frames.drop_last();
    if inner.contains_key(key) {
    } else {
        match binding_frame(outer, key) {
            Some(i) => {
                lemma_binding_frame_in_range(outer, key);
                assert(outer[i] == frames[i]);
            },
            None => {},
        }
    }
}

proof fn lemma_binding_frame_in_range(frames: Seq<Map<Seq<char>, BindingId>>, key: Seq<char>)
    ensures
        match binding_frame(frames, key) {
            Some(i) => 0 <= i < frames.len() && frames[i].contains_key(key) && forall|j: int|
                i < j < frames.len() ==> !frames[j].contains_key(key),
            None => forall|j: int| 0 <= j < frames.len() ==> !frames[j].contains_key(key),
        },
    decreases frames.len(),
{
    if frames.len() > 0 && !frames.last().contains_key(key) {
        let rest = frames.drop_last();
        lemma_binding_frame_in_range(rest, key);
        match binding_frame(rest, key) {
            Some(i) => {
                assert forall|j: int| i < j < frames.len() implies !frames[j].contains_key(
                    key,
                ) by {
                    if j < rest.len() {
                        assert(rest[j] == frames[j]);
                    }
                }
            },
            None => {
                assert forall|j: int| 0 <= j < frames.len() implies !frames[j].contains_key(
                    key,
                ) by {
                    if j < rest.len() {
                        assert(rest[j] == frames[j]);
                    }
                }
            },
        }
    }
}

impl Environments {
    /// The environment that a session starts with: one global frame, in which
    /// `globalThis`, `self`, `window` and `this` name one new cell holding
    /// `global_this`, and `document` names a second new cell holding `document`.
    pub fn new(store: &mut Store, global_this: Value, document: Value) -> (envs: Environments)
        ensures
            envs@ == seq![global_frame(old(store)@.len() as BindingId)],
            final(store)@ == old(store)@.push(global_this@).push(document@),
            final(store).same_closures(old(store)),
    {
        let global = store.allocate(global_this);
        let doc = store.allocate(document);
        let mut frame = Scope::new();
        frame.insert("globalThis", global);
        frame.insert("self", global);
        frame.insert("window", global);
        frame.insert("this", global);
        frame.insert("document", doc);
        let mut stack: Vec<Scope> = Vec::new();
        stack.push(frame);
        let envs = Environments { stack };
        assert(envs@ =~= seq![global_frame(old(store)@.len() as BindingId)]);
        envs
    }

    /// An environment without any frame.
    pub fn empty() -> (envs: Environments)
        ensures
            envs@.len() == 0,
    {
        Environments { stack: Vec::new() }
    }

    /// How many frames are on the stack.
    pub fn depth(&self) -> (n: usize)
        ensures
            n == self@.len(),
    {
        self.stack.len()
    }

    fn find(&self, key: &str) -> (r: Option<(usize, BindingId)>)
        ensures
            match r {
                Some((frame, id)) => binding_frame(self@, key@) == Some(frame as int) && frame
                    < self@.len() && self@[frame as int].contains_key(key@)
                    && self@[frame as int][key@] == id,
                None => binding_frame(self@, key@) is None,
            },
    {
        let mut i: usize = self.stack.len();
        proof {
            lemma_binding_frame_prefix(self@, key@, i as int);
        }
        while i > 0
            invariant
                i <= self.stack.len(),
                binding_frame(self@, key@) == binding_frame(self@.take(i as int), key@),
            decreases i,
        {
            i = i - 1;
            let found = self.stack[i].get(key);
            proof {
                assert(self@.take(i + 1).last() == self@[i as int]);
                assert(self@.take(i + 1).drop_last() =~= self@.take(i as int));
            }
            match found {
                Some(id) => {
                    return Some((i, id));
                },
                None => {},
            }
        }
        assert(self@.take(0) =~= Seq::<Map<Seq<char>, BindingId>>::empty());
        None
    }

    /// Resolves `key`: the innermost frame that binds it decides; a name that
    /// no frame binds falls back to the host's global object if it is one of
    /// the global names, and is absent otherwise.
    pub fn get(&self, key: &str) -> (r: Lookup)
        ensures
            r == lookup(self@, key@),
    {
        match self.find(key) {
            Some((_, id)) => Lookup::Bound(id),
            None => match self.find("globalThis") {
                Some((_, global)) => if in_global_this(key) {
                    Lookup::Global(global)
                } else {
                    Lookup::Absent
                },
                None => Lookup::Absent,
            },
        }
    }

    /// Binds `key` in the innermost frame to the cell `id`, shadowing any
    /// outer binding of the same name. Fails where there is no frame.
    pub fn bind(&mut self, key: &str, id: BindingId) -> (r: Result<BindingId, EvalError>)
        ensures
            match r {
                Ok(bound) => {
                    &&& old(self)@.len() > 0
                    &&& bound == id
                    &&& final(self)@ == old(self)@.update(
                        old(self)@.len() - 1,
                        old(self)@.last().insert(key@, id),
                    )
                },
                Err(e) => old(self)@.len() == 0 && final(self)@ == old(self)@ && e.kind
                    == ErrorKind::Name,
            },
    {
        let n = self.stack.len();
        if n == 0 {
            return Err(EvalError::with_text(ErrorKind::Name, "ERROR: No Environment available."));
        }
        self.bind_in(n - 1, key, id);
        Ok(id)
    }

    fn bind_in(&mut self, frame: usize, key: &str, id: BindingId)
        requires
            frame < old(self)@.len(),
        ensures
            final(self)@ == old(self)@.update(
                frame as int,
                old(self)@[frame as int].insert(key@, id),
            ),
    {
        let mut scope = Scope::new();
        std::mem::swap(&mut scope, &mut self.stack[frame]);
        scope.insert(key, id);
        self.stack.set(frame, scope);
        assert(self@ =~= old(self)@.update(
            frame as int,
            old(self)@[frame as int].insert(key@, id),
        ));
    }

    /// Declares `key` in the innermost frame: a new cell holding `value` is
    /// created and `key` bound to it, shadowing any outer binding of the same
    /// name. Fails, changing nothing, where there is no frame.
    pub fn insert(&mut self, store: &mut Store, key: &str, value: Value) -> (r: Result<
        BindingId,
        EvalError,
    >)
        ensures
            final(store).same_closures(old(store)),
            match r {
                Ok(id) => {
                    &&& old(self)@.len() > 0
                    &&& id == old(store)@.len()
                    &&& final(store)@ == old(store)@.push(value@)
                    &&& final(self)@ == old(self)@.update(
                        old(self)@.len() - 1,
                        old(self)@.last().insert(key@, id),
                    )
                },
                Err(e) => {
                    &&& old(self)@.len() == 0
                    &&& final(self)@ == old(self)@
                    &&& final(store)@ == old(store)@
                    &&& e.kind == ErrorKind::Name
                },
            },
    {
        let n = self.stack.len();
        if n == 0 {
            return Err(EvalError::with_text(ErrorKind::Name, "ERROR: No Environment available."));
        }
        let id = store.allocate(value);
        self.bind_in(n - 1, key, id);
        Ok(id)
    }

    /// Assigns to `key`. The innermost frame that binds `key` decides: if the
    /// new value is a host object, `key` is bound there to a new cell, so that
    /// whoever shares the old cell keeps seeing the old value; any other value
    /// is written into the existing cell, so that whoever shares it sees the
    /// new value. Where no frame binds `key`, it is declared in the innermost
    /// frame. Returns the cell that `key` names afterwards.
    pub fn set(&mut self, store: &mut Store, key: &str, value: Value) -> (r: Result<
        BindingId,
        EvalError,
    >)
        ensures
            final(store).same_closures(old(store)),
            final(self)@ == set_frames(old(self)@, old(store)@.len(), key@, value@ is Object),
            final(store)@ == set_cells(old(self)@, old(store)@, key@, value@),
            match r {
                Ok(id) => set_outcome(old(self)@, old(store)@.len(), key@, value@ is Object)
                    == Some(id),
                Err(e) => {
                    &&& set_outcome(old(self)@, old(store)@.len(), key@, value@ is Object) is None
                    &&& e.kind == if old(self)@.len() == 0 {
                        ErrorKind::Name
                    } else {
                        ErrorKind::Protocol
                    }
                },
            },
    {
        match self.find(key) {
            Some((frame, id)) => {
                if value.is_object() {
                    let fresh = store.allocate(value);
                    self.bind_in(frame, key, fresh);
                    Ok(fresh)
                } else {
                    match store.write(id, value) {
                        Ok(()) => Ok(id),
                        Err(e) => Err(e),
                    }
                }
            },
            None => self.insert(store, key, value),
        }
    }

    /// The flattened snapshot of all frames: inner bindings shadow outer ones.
    pub fn closure(&self) -> (env: ClosedEnvironment)
        ensures
            env@ == flatten(self@),
    {
        let mut bindings = Scope::new();
        let mut i: usize = 0;
        assert(self@.take(0) =~= Seq::<Map<Seq<char>, BindingId>>::empty());
        while i < self.stack.len()
            invariant
                i <= self.stack.len(),
                bindings@ == flatten(self@.take(i as int)),
            decreases self.stack.len() - i,
        {
            bindings.extend(&self.stack[i]);
            proof {
                assert(self@.take(i + 1).drop_last() =~= self@.take(i as int));
                assert(self@.take(i + 1).last() == self@[i as int]);
            }
            i = i + 1;
        }
        assert(self@.take(self.stack.len() as int) =~= self@);
        ClosedEnvironment { bindings }
    }

    /// The environment that a call of a closure starts in: one frame holding
    /// the captured bindings.
    pub fn from_closed_env(env: ClosedEnvironment) -> (envs: Environments)
        ensures
            envs@ == seq![env@],
    {
        let mut stack: Vec<Scope> = Vec::new();
        stack.push(env.bindings);
        let envs = Environments { stack };
        assert(envs@ =~= seq![env@]);
        envs
    }

    /// Enters a scope: pushes an empty frame.
    pub fn push_env(&mut self)
        ensures
            final(self)@ == old(self)@.push(Map::<Seq<char>, BindingId>::empty()),
    {
        self.stack.push(Scope::new());
        assert(self@ =~= old(self)@.push(Map::<Seq<char>, BindingId>::empty()));
    }

    /// Leaves a scope: drops the innermost frame, if there is one.
    pub fn pop_env(&mut self)
        ensures
            old(self)@.len() > 0 ==> final(self)@ == old(self)@.drop_last(),
            old(self)@.len() == 0 ==> final(self)@ == old(self)@,
    {
        self.stack.pop();
        assert(old(self)@.len() > 0 ==> self@ =~= old(self)@.drop_last());
        assert(old(self)@.len() == 0 ==> self@ =~= old(self)@);
    }
}

/// The frames after `set`.
pub open spec fn set_frames(
    frames: Seq<Map<Seq<char>, BindingId>>,
    fresh: nat,
    key: Seq<char>,
    object: bool,
) -> Seq<Map<Seq<char>, BindingId>> {
    match binding_frame(frames, key) {
        Some(f) => if object {
            frames.update(f, frames[f].insert(key, fresh as BindingId))
        } else {
            frames
        },
        None => if frames.len() > 0 {
            frames.update(frames.len() - 1, frames.last().insert(key, fresh as BindingId))
        } else {
            frames
        },
    }
}

/// The cells after `set`.
pub open spec fn set_cells(
    frames: Seq<Map<Seq<char>, BindingId>>,
    cells: Seq<crate::value::ValueView>,
    key: Seq<char>,
    value: crate::value::ValueView,
) -> Seq<crate::value::ValueView> {
    match binding_frame(frames, key) {
        Some(f) => if value is Object {
            cells.push(value)
        } else if frames[f][key] < cells.len() {
            cells.update(frames[f][key] as int, value)
        } else {
            cells
        },
        None => if frames.len() > 0 {
            cells.push(value)
        } else {
            cells
        },
    }
}

/// Whether `set` succeeds, and the cell it returns.
pub open spec fn set_outcome(
    frames: Seq<Map<Seq<char>, BindingId>>,
    cells: nat,
    key: Seq<char>,
    object: bool,
) -> Option<BindingId> {
    match binding_frame(frames, key) {
        Some(f) => if object {
            Some(cells as BindingId)
        } else if frames[f][key] < cells {
            Some(frames[f][key])
        } else {
            None
        },
        None => if frames.len() > 0 {
            Some(cells as BindingId)
        } else {
            None
        },
    }
}

/// `set` leaves the number of frames as it is.
pub proof fn lemma_set_keeps_depth(
    frames: Seq<Map<Seq<char>, BindingId>>,
    fresh: nat,
    key: Seq<char>,
    object: bool,
)
    ensures
        set_frames(frames, fresh, key, object).len() == frames.len(),
{
    lemma_binding_frame_in_range(frames, key);
}

/// A declaration shadows: after `key` was declared in the innermost frame it
/// resolves to the new cell, whatever an outer frame binds it to, and every
/// other name resolves as before.
pub proof fn lemma_declaration_shadows(
    frames: Seq<Map<Seq<char>, BindingId>>,
    key: Seq<char>,
    id: BindingId,
    other: Seq<char>,
)
    requires
        frames.len() > 0,
        other != key,
    ensures
        resolve(frames.update(frames.len() - 1, frames.last().insert(key, id)), key) == Some(id),
        resolve(frames.update(frames.len() - 1, frames.last().insert(key, id)), other) == resolve(
            frames,
            other,
        ),
{
    let declared = frames.update(frames.len() - 1, frames.last().insert(key, id));
    assert(declared.drop_last() =~= frames.drop_last());
    if !frames.last().contains_key(other) {
        match binding_frame(frames.drop_last(), other) {
            Some(i) => {
                lemma_binding_frame_in_range(frames.drop_last(), other);
            },
            None => {},
        }
    }
}

/// A scope that was entered and left again leaves every name as it was, and
/// an empty scope hides nothing.
pub proof fn lemma_scope_discipline(frames: Seq<Map<Seq<char>, BindingId>>, key: Seq<char>)
    ensures
        frames.push(Map::empty()).drop_last() == frames,
        resolve(frames.push(Map::empty()), key) == resolve(frames, key),
{
    let entered = frames.push(Map::<Seq<char>, BindingId>::empty());
    assert(entered.drop_last() =~= frames);
    match binding_frame(frames, key) {
        Some(i) => {
            lemma_binding_frame_in_range(frames, key);
        },
        None => {},
    }
}

proof fn lemma_rebinding_keeps_frame(
    frames: Seq<Map<Seq<char>, BindingId>>,
    key: Seq<char>,
    id: BindingId,
)
    requires
        binding_frame(frames, key) is Some,
    ensures
        binding_frame(
            frames.update(
                binding_frame(frames, key)->Some_0,
                frames[binding_frame(frames, key)->Some_0].insert(key, id),
            ),
            key,
        ) == binding_frame(frames, key),
        0 <= binding_frame(frames, key)->Some_0 < frames.len(),
    decreases frames.len(),
{
    lemma_binding_frame_in_range(frames, key);
    let f = binding_frame(frames, key)->Some_0;
    let rebound = frames.update(f, frames[f].insert(key, id));
    if frames.last().contains_key(key) {
    } else {
        lemma_rebinding_keeps_frame(frames.drop_last(), key, id);
        assert(rebound.drop_last() =~= frames.drop_last().update(
            f,
            frames.drop_last()[f].insert(key, id),
        ));
    }
}

/// The asymmetry of assignment. Let a name resolve to a cell, and let a
/// snapshot of the environment be taken, as a closure takes one. The
/// snapshot binds the name to that cell. After an assignment of anything but
/// a host object the name still resolves to the cell, and the cell holds the
/// new value: whoever holds the snapshot sees the assignment. After an
/// assignment of a host object the name resolves to a new cell that holds
/// the object, and the old cell holds what it held: whoever holds the
/// snapshot keeps the old value.
pub proof fn lemma_update_asymmetry(
    frames: Seq<Map<Seq<char>, BindingId>>,
    cells: Seq<crate::value::ValueView>,
    key: Seq<char>,
    value: crate::value::ValueView,
)
    requires
        resolve(frames, key) is Some,
        resolve(frames, key)->Some_0 < cells.len(),
    ensures
        ({
            let cell = resolve(frames, key)->Some_0;
            let after = set_frames(frames, cells.len(), key, value is Object);
            let held = set_cells(frames, cells, key, value);
            &&& flatten(frames).get(key) == Some(cell)
            &&& if value is Object {
                &&& resolve(after, key) == Some(cells.len() as BindingId)
                &&& held.len() == cells.len() + 1
                &&& held[cells.len() as int] == value
                &&& held[cell as int] == cells[cell as int]
            } else {
                &&& after == frames
                &&& held.len() == cells.len()
                &&& held[cell as int] == value
            }
        }),
{
    lemma_flatten_resolves(frames, key);
    lemma_binding_frame_in_range(frames, key);
    if value is Object {
        lemma_rebinding_keeps_frame(frames, key, cells.len() as BindingId);
    }
}

/// An assignment to a name that no frame binds declares the name in the
/// innermost frame.
pub proof fn lemma_assignment_declares(
    frames: Seq<Map<Seq<char>, BindingId>>,
    cells: Seq<crate::value::ValueView>,
    key: Seq<char>,
    value: crate::value::ValueView,
)
    requires
        frames.len() > 0,
        resolve(frames, key) is None,
    ensures
        set_frames(frames, cells.len(), key, value is Object) == frames.update(
            frames.len() - 1,
            frames.last().insert(key, cells.len() as BindingId),
        ),
        set_cells(frames, cells, key, value) == cells.push(value),
        set_outcome(frames, cells.len(), key, value is Object) == Some(cells.len() as BindingId),
{
}

} // verus!
