//! One level of lexical scope: a finite mapping from identifiers to binding
//! cells.

use vstd::prelude::*;
use crate::text::same_text;
use crate::value::BindingId;

verus! {

/// One identifier with the cell it names.
#[derive(Debug)]
pub struct Entry {
    pub name: String,
    pub id: BindingId,
}

/// A mapping from identifiers to binding cells. A later entry for a name
/// replaces an earlier one.
#[derive(Debug)]
pub struct Scope {
    entries: Vec<Entry>,
}

/// The mapping that a list of entries stands for: each entry overrides the
/// entries before it.
pub open spec fn entries_map(entries: Seq<Entry>) -> Map<Seq<char>, BindingId>
    decreases entries.len(),
{
    if entries.len() == 0 {
        Map::empty()
    } else {
        entries_map(entries.drop_last()).insert(entries.last().name@, entries.last().id)
    }
}

proof fn lemma_rightmost_entry(s: Seq<Entry>, i: int, key: Seq<char>)
    requires
        0 <= i < s.len(),
        s[i].name@ == key,
        forall|j: int| i < j < s.len() ==> s[j].name@ != key,
    ensures
        entries_map(s).contains_key(key),
        entries_map(s)[key] == s[i].id,
    decreases s.len(),
{
    if i < s.len() - 1 {
        lemma_rightmost_entry(s.drop_last(), i, key);
    }
}

proof fn lemma_no_entry(s: Seq<Entry>, key: Seq<char>)
    requires
        forall|j: int| 0 <= j < s.len() ==> s[j].name@ != key,
    ensures
        !entries_map(s).contains_key(key),
    decreases s.len(),
{
    if s.len() > 0 {
        lemma_no_entry(s.drop_last(), key);
    }
}

proof fn lemma_replace_rightmost(s: Seq<Entry>, i: int, e: Entry)
    requires
        0 <= i < s.len(),
        s[i].name@ == e.name@,
        forall|j: int| i < j < s.len() ==> s[j].name@ != e.name@,
    ensures
        entries_map(s.update(i, e)) == entries_map(s).insert(e.name@, e.id),
    decreases s.len(),
{
    if i == s.len() - 1 {
        assert(s.update(i, e).drop_last() =~= s.drop_last());
        assert(entries_map(s.update(i, e)) =~= entries_map(s).insert(e.name@, e.id));
    } else {
        lemma_replace_rightmost(s.drop_last(), i, e);
        assert(s.update(i, e).drop_last() =~= s.drop_last().update(i, e));
        assert(entries_map(s.update(i, e)) =~= entries_map(s).insert(e.name@, e.id));
    }
}

proof fn lemma_append_entry(s: Seq<Entry>, e: Entry)
    ensures
        entries_map(s.push(e)) == entries_map(s).insert(e.name@, e.id),
{
    assert(s.push(e).drop_last() =~= s);
}

impl View for Scope {
    type V = Map<Seq<char>, BindingId>;

    closed spec fn view(&self) -> Map<Seq<char>, BindingId> {
        entries_map(self.entries@)
    }
}

impl Scope {
    /// A scope that binds nothing.
    pub fn new() -> (s: Scope)
        ensures
            s@ == Map::<Seq<char>, BindingId>::empty(),
    {
        Scope { entries: Vec::new() }
    }

    fn position(&self, key: &str) -> (r: Option<usize>)
        ensures
            match r {
                Some(i) => {
                    &&& i < self.entries.len()
                    &&& self.entries[i as int].name@ == key@
                    &&& forall|j: int| i < j < self.entries.len() ==> self.entries[j].name@ != key@
                },
                None => forall|j: int| 0 <= j < self.entries.len() ==> self.entries[j].name@ != key@,
            },
    {
        let mut i: usize = self.entries.len();
        while i > 0
            invariant
                i <= self.entries.len(),
                forall|j: int| i <= j < self.entries.len() ==> self.entries[j].name@ != key@,
            decreases i,
        {
            i = i - 1;
            if same_text(self.entries[i].name.as_str(), key) {
                return Some(i);
            }
        }
        None
    }

    /// The cell that `key` names here, if any.
    pub fn get(&self, key: &str) -> (r: Option<BindingId>)
        ensures
            r == self@.get(key@),
    {
        match self.position(key) {
            Some(i) => {
                proof {
                    lemma_rightmost_entry(self.entries@, i as int, key@);
                }
                Some(self.entries[i].id)
            },
            None => {
                proof {
                    lemma_no_entry(self.entries@, key@);
                }
                None
            },
        }
    }

    /// Whether `key` is bound here.
    pub fn contains_key(&self, key: &str) -> (r: bool)
        ensures
            r == self@.contains_key(key@),
    {
        self.get(key).is_some()
    }

    /// Binds `key` to `id`, replacing what it was bound to. Returns the cell
    /// that `key` named before.
    pub fn insert(&mut self, key: &str, id: BindingId) -> (previous: Option<BindingId>)
        ensures
            final(self)@ == old(self)@.insert(key@, id),
            previous == old(self)@.get(key@),
    {
        let entry = Entry { name: key.to_owned(), id };
        match self.position(key) {
            Some(i) => {
                proof {
                    lemma_rightmost_entry(self.entries@, i as int, key@);
                    lemma_replace_rightmost(self.entries@, i as int, entry);
                }
                let previous = self.entries[i].id;
                self.entries.set(i, entry);
                Some(previous)
            },
            None => {
                proof {
                    lemma_no_entry(self.entries@, key@);
                    lemma_append_entry(self.entries@, entry);
                }
                self.entries.push(entry);
                None
            },
        }
    }

    /// Adds every binding of `other`, each replacing one of the same name.
    pub fn extend(&mut self, other: &Scope)
        ensures
            final(self)@ == old(self)@.union_prefer_right(other@),
    {
        let mut i: usize = 0;
        assert(other.entries@.take(0) =~= Seq::<Entry>::empty());
        assert(old(self)@.union_prefer_right(Map::empty()) =~= old(self)@);
        while i < other.entries.len()
            invariant
                i <= other.entries.len(),
                self@ == old(self)@.union_prefer_right(entries_map(other.entries@.take(i as int))),
            decreases other.entries.len() - i,
        {
            let ghost before = entries_map(other.entries@.take(i as int));
            let entry = &other.entries[i];
            self.insert(entry.name.as_str(), entry.id);
            proof {
                let next = other.entries@.take(i + 1);
                assert(next.drop_last() =~= other.entries@.take(i as int));
                assert(next.last() == other.entries@[i as int]);
                assert(old(self)@.union_prefer_right(before).insert(entry.name@, entry.id)
                    =~= old(self)@.union_prefer_right(before.insert(entry.name@, entry.id)));
            }
            i = i + 1;
        }
        assert(other.entries@.take(other.entries.len() as int) =~= other.entries@);
    }

    /// The names bound here, each once, with their cells.
    pub fn len(&self) -> (n: usize)
        ensures
            n == self.spec_len(),
    {
        self.entries.len()
    }

    /// How many entries the scope stores.
    pub closed spec fn spec_len(&self) -> nat {
        self.entries@.len()
    }

    /// The name and cell stored at position `i`.
    pub closed spec fn spec_entry(&self, i: int) -> (Seq<char>, BindingId) {
        (self.entries@[i].name@, self.entries@[i].id)
    }

    /// The entry stored at position `i`. Every entry is a binding of the scope.
    pub fn entry(&self, i: usize) -> (r: Option<(&String, BindingId)>)
        ensures
            match r {
                Some((name, id)) => i < self.spec_len() && (name@, id) == self.spec_entry(i as int)
                    && self@.contains_key(name@),
                None => i >= self.spec_len(),
            },
    {
        if i < self.entries.len() {
            proof {
                self.lemma_entry_bound(i as int);
            }
            Some((&self.entries[i].name, self.entries[i].id))
        } else {
            None
        }
    }

    proof fn lemma_entry_bound(&self, i: int)
        requires
            0 <= i < self.spec_len(),
        ensures
            self@.contains_key(self.spec_entry(i).0),
    {
        lemma_entry_key_bound(self.entries@, i);
    }
}

proof fn lemma_entry_key_bound(s: Seq<Entry>, i: int)
    requires
        0 <= i < s.len(),
    ensures
        entries_map(s).contains_key(s[i].name@),
    decreases s.len(),
{
    if i < s.len() - 1 {
        lemma_entry_key_bound(s.drop_last(), i);
    }
}

impl Clone for Scope {
    fn clone(&self) -> (s: Scope)
        ensures
            s@ == self@,
    {
        let mut s = Scope::new();
        s.extend(self);
        assert(Map::<Seq<char>, BindingId>::empty().union_prefer_right(self@) =~= self@);
        s
    }
}

} // verus!
