//! Hygienic names. In the native form of a function every identifier carries
//! a prefix, so that none of them can collide with a name of the host. The
//! prefixed identifiers of a body are found again by scanning its text.

use vstd::prelude::*;
use crate::text::{concat_text, has_prefix};

verus! {

/// How one text stands to another in the order of their characters.
#[derive(Clone, Copy, Debug, PartialEq, Eq, Structural)]
pub enum Order {
    Before,
    Same,
    After,
}

/// The texts of a list of strings.
pub open spec fn texts(names: Seq<String>) -> Seq<Seq<char>> {
    names.map_values(|s: String| s@)
}

/// The lexicographic order of two texts by the code points of their
/// characters; a proper prefix stands before the longer text.
pub open spec fn text_order(a: Seq<char>, b: Seq<char>) -> Order
    decreases a.len(),
{
    if a.len() == 0 {
        if b.len() == 0 {
            Order::Same
        } else {
            Order::Before
        }
    } else if b.len() == 0 {
        Order::After
    } else if (a[0] as int) < (b[0] as int) {
        Order::Before
    } else if (a[0] as int) > (b[0] as int) {
        Order::After
    } else {
        text_order(a.drop_first(), b.drop_first())
    }
}

/// Strictly ascending: every text stands before all that follow it. Such a
/// list holds no text twice.
pub open spec fn ascending(names: Seq<Seq<char>>) -> bool {
    forall|i: int, j: int|
        0 <= i < j < names.len() ==> text_order(#[trigger] names[i], #[trigger] names[j])
            == Order::Before
}

/// Two texts that stand in the same place are the same text.
pub proof fn lemma_order_same(a: Seq<char>, b: Seq<char>)
    requires
        text_order(a, b) == Order::Same,
    ensures
        a == b,
    decreases a.len(),
{
    if a.len() > 0 && b.len() > 0 {
        let x = a[0] as int;
        let y = b[0] as int;
        assert(x == y);
        lemma_order_same(a.drop_first(), b.drop_first());
        assert(a =~= seq![a[0]] + a.drop_first());
        assert(b =~= seq![b[0]] + b.drop_first());
    } else {
        assert(a =~= b);
    }
}

/// If one text stands after another, the other stands before it.
pub proof fn lemma_order_flip(a: Seq<char>, b: Seq<char>)
    requires
        text_order(a, b) == Order::After,
    ensures
        text_order(b, a) == Order::Before,
    decreases a.len(),
{
    if a.len() > 0 && b.len() > 0 {
        let x = a[0] as int;
        let y = b[0] as int;
        if x == y {
            lemma_order_flip(a.drop_first(), b.drop_first());
        }
    }
}

/// The order is transitive.
pub proof fn lemma_order_transitive(a: Seq<char>, b: Seq<char>, c: Seq<char>)
    requires
        text_order(a, b) == Order::Before,
        text_order(b, c) == Order::Before,
    ensures
        text_order(a, c) == Order::Before,
    decreases a.len(),
{
    if a.len() > 0 {
        assert(b.len() > 0 && c.len() > 0);
        let x = a[0] as int;
        let y = b[0] as int;
        let z = c[0] as int;
        if x == y && y == z {
            lemma_order_transitive(a.drop_first(), b.drop_first(), c.drop_first());
        } else {
            assert(x < z);
        }
    }
}

/// Decides [`text_order`].
pub fn order_of(a: &str, b: &str) -> (r: Order)
    ensures
        r == text_order(a@, b@),
{
    let n = a.unicode_len();
    let m = b.unicode_len();
    let mut i: usize = 0;
    assert(a@.skip(0) =~= a@);
    assert(b@.skip(0) =~= b@);
    while i < n && i < m
        invariant
            i <= n,
            i <= m,
            n == a@.len(),
            m == b@.len(),
            text_order(a@, b@) == text_order(a@.skip(i as int), b@.skip(i as int)),
        decreases n - i,
    {
        let x = a.get_char(i);
        let y = b.get_char(i);
        proof {
            assert(a@.skip(i as int)[0] == a@[i as int]);
            assert(b@.skip(i as int)[0] == b@[i as int]);
            assert(a@.skip(i as int).drop_first() =~= a@.skip(i + 1));
            assert(b@.skip(i as int).drop_first() =~= b@.skip(i + 1));
        }
        if (x as u32) < (y as u32) {
            return Order::Before;
        }
        if (x as u32) > (y as u32) {
            return Order::After;
        }
        i = i + 1;
    }
    if i == n {
        if i == m {
            Order::Same
        } else {
            Order::Before
        }
    } else {
        Order::After
    }
}

/// Where `name` belongs in an ascending list: the position of the first text
/// that does not stand before it, and whether that text is `name` itself.
fn position_of(list: &Vec<String>, name: &str) -> (r: (usize, bool))
    requires
        ascending(texts(list@)),
    ensures
        r.0 <= list@.len(),
        forall|j: int| 0 <= j < r.0 ==> text_order(#[trigger] texts(list@)[j], name@) == Order::Before,
        r.1 ==> r.0 < list@.len() && texts(list@)[r.0 as int] == name@,
        !r.1 ==> forall|j: int|
            r.0 <= j < list@.len() ==> text_order(name@, #[trigger] texts(list@)[j])
                == Order::Before,
{
    let mut p: usize = 0;
    while p < list.len()
        invariant
            p <= list@.len(),
            ascending(texts(list@)),
            forall|j: int|
                0 <= j < p ==> text_order(#[trigger] texts(list@)[j], name@) == Order::Before,
        decreases list@.len() - p,
    {
        match order_of(list[p].as_str(), name) {
            Order::Before => {
                p = p + 1;
            },
            Order::Same => {
                proof {
                    lemma_order_same(list@[p as int]@, name@);
                }
                return (p, true);
            },
            Order::After => {
                proof {
                    lemma_order_flip(list@[p as int]@, name@);
                    assert forall|j: int| p <= j < list@.len() implies text_order(
                        name@,
                        #[trigger] texts(list@)[j],
                    ) == Order::Before by {
                        if j > p {
                            assert(text_order(texts(list@)[p as int], texts(list@)[j])
                                == Order::Before);
                            lemma_order_transitive(name@, texts(list@)[p as int], texts(list@)[j]);
                        }
                    }
                }
                return (p, false);
            },
        }
    }
    (p, false)
}

/// Puts `name` into an ascending list at its place, unless the list holds it.
fn insert_sorted(list: &mut Vec<String>, name: String)
    requires
        ascending(texts(old(list)@)),
    ensures
        ascending(texts(final(list)@)),
        forall|x: Seq<char>|
            texts(final(list)@).contains(x) <==> (texts(old(list)@).contains(x) || x == name@),
{
    let (p, found) = position_of(list, name.as_str());
    if found {
        proof {
            assert forall|x: Seq<char>| texts(list@).contains(x) <==> (texts(list@).contains(x)
                || x == name@) by {
                if x == name@ {
                    assert(texts(list@)[p as int] == x);
                }
            }
        }
        return;
    }
    let ghost before = texts(list@);
    let ghost text = name@;
    list.insert(p, name);
    proof {
        let after = texts(list@);
        assert(after =~= before.insert(p as int, text));
        assert forall|i: int, j: int| 0 <= i < j < after.len() implies text_order(
            #[trigger] after[i],
            #[trigger] after[j],
        ) == Order::Before by {
            if j < p {
                assert(after[i] == before[i] && after[j] == before[j]);
            } else if j == p {
                assert(after[i] == before[i]);
            } else if i < p {
                assert(after[i] == before[i] && after[j] == before[j - 1]);
                if j - 1 == i {
                } else {
                    assert(text_order(before[i], before[j - 1]) == Order::Before);
                }
            } else if i == p {
                assert(after[j] == before[j - 1]);
            } else {
                assert(after[i] == before[i - 1] && after[j] == before[j - 1]);
            }
        }
        assert forall|x: Seq<char>| after.contains(x) <==> (before.contains(x) || x == text) by {
            if after.contains(x) {
                let k = choose|k: int| 0 <= k < after.len() && after[k] == x;
                if k < p {
                    assert(before[k] == x);
                } else if k > p {
                    assert(before[k - 1] == x);
                }
            }
            if before.contains(x) {
                let k = choose|k: int| 0 <= k < before.len() && before[k] == x;
                if k < p {
                    assert(after[k] == x);
                } else {
                    assert(after[k + 1] == x);
                }
            }
            if x == text {
                assert(after[p as int] == x);
            }
        }
    }
}

/// The names in ascending order, each once.
pub fn sort_dedup(names: &Vec<String>) -> (sorted: Vec<String>)
    ensures
        ascending(texts(sorted@)),
        forall|x: Seq<char>| texts(sorted@).contains(x) <==> texts(names@).contains(x),
        texts(sorted@) == sorted_texts(texts(names@)),
{
    let mut sorted: Vec<String> = Vec::new();
    let mut i: usize = 0;
    while i < names.len()
        invariant
            i <= names@.len(),
            ascending(texts(sorted@)),
            forall|x: Seq<char>|
                texts(sorted@).contains(x) <==> texts(names@).take(i as int).contains(x),
        decreases names@.len() - i,
    {
        let ghost before = texts(sorted@);
        insert_sorted(&mut sorted, names[i].clone());
        proof {
            let all = texts(names@);
            let fewer = all.take(i as int);
            let more = all.take(i + 1);
            assert forall|x: Seq<char>| texts(sorted@).contains(x) <==> more.contains(x) by {
                if fewer.contains(x) {
                    let k = choose|k: int| 0 <= k < fewer.len() && fewer[k] == x;
                    assert(more[k] == x);
                }
                if x == all[i as int] {
                    assert(more[i as int] == x);
                }
                if more.contains(x) {
                    let k = choose|k: int| 0 <= k < more.len() && more[k] == x;
                    if k < i {
                        assert(fewer[k] == x);
                    }
                }
            }
        }
        i = i + 1;
    }
    assert(texts(names@).take(names@.len() as int) =~= texts(names@));
    proof {
        assert(same_texts(texts(sorted@), texts(names@)));
        lemma_ascending_unique(texts(sorted@), sorted_texts(texts(names@)));
    }
    sorted
}

/// The name of an identifier in native source: the identifier behind the
/// prefix `weblab_`.
pub fn hygienic_name(name: &str) -> (r: String)
    ensures
        r@ == "weblab_"@ + name@,
{
    concat_text("weblab_", name)
}

/// The hygienic names of a list of identifiers, in order.
pub fn hygienic_names(names: &Vec<String>) -> (r: Vec<String>)
    ensures
        r@.len() == names@.len(),
        forall|i: int| 0 <= i < names@.len() ==> (#[trigger] r@[i])@ == "weblab_"@ + names@[i]@,
{
    let mut r: Vec<String> = Vec::new();
    let mut i: usize = 0;
    while i < names.len()
        invariant
            i <= names@.len(),
            r@.len() == i,
            forall|j: int| 0 <= j < i ==> (#[trigger] r@[j])@ == "weblab_"@ + names@[j]@,
        decreases names@.len() - i,
    {
        r.push(hygienic_name(names[i].as_str()));
        i = i + 1;
    }
    r
}

/// The identifier that a hygienic name stands for; `None` for a text that
/// does not begin with the prefix.
pub open spec fn plain_name(name: Seq<char>) -> Option<Seq<char>> {
    if "weblab_"@.is_prefix_of(name) {
        Some(name.skip(7))
    } else {
        None
    }
}

/// Takes the prefix off a hygienic name.
pub fn strip_hygiene(name: &str) -> (r: Option<String>)
    ensures
        match r {
            Some(plain) => plain_name(name@) == Some(plain@),
            None => plain_name(name@) is None,
        },
{
    proof {
        reveal_strlit("weblab_");
    }
    if has_prefix(name, "weblab_") {
        let n = name.unicode_len();
        let plain = name.substring_char(7, n);
        assert(name@.subrange(7, n as int) =~= name@.skip(7));
        Some(plain.to_owned())
    } else {
        None
    }
}

/// The parameter list of a native function: the names, separated by commas.
pub open spec fn joined(names: Seq<Seq<char>>) -> Seq<char>
    decreases names.len(),
{
    if names.len() == 0 {
        Seq::empty()
    } else if names.len() == 1 {
        names[0]
    } else {
        joined(names.drop_last()) + ","@ + names.last()
    }
}

/// Joins names into a parameter list.
pub fn parameter_list(names: &Vec<String>) -> (r: String)
    ensures
        r@ == joined(texts(names@)),
{
    let mut r = String::new();
    let mut i: usize = 0;
    assert(texts(names@).take(0) =~= Seq::<Seq<char>>::empty());
    while i < names.len()
        invariant
            i <= names@.len(),
            r@ == joined(texts(names@).take(i as int)),
        decreases names@.len() - i,
    {
        proof {
            let next = texts(names@).take(i + 1);
            assert(next.drop_last() =~= texts(names@).take(i as int));
            assert(next.last() == names@[i as int]@);
            assert(next.len() == 1 ==> next[0] == names@[i as int]@);
        }
        if i > 0 {
            r.append(",");
        }
        r.append(names[i].as_str());
        proof {
            assert(r@ =~= joined(texts(names@).take(i + 1)));
        }
        i = i + 1;
    }
    assert(texts(names@).take(names@.len() as int) =~= texts(names@));
    r
}

/// What the scan of a text for a pattern finds: the matches, from left to
/// right and without overlap; `None` for a text that is no pattern.
pub uninterp spec fn pattern_matches(pattern: Seq<char>, input: Seq<char>) -> Option<
    Seq<Seq<char>>,
>;

/// Finds the matches of a pattern in a text with `regex::Regex::new` and
/// `Regex::captures_iter`, taking the whole match of each step. The result
/// is what the regular expression engine finds for these two texts; nothing
/// more is claimed of it. A pattern that does not compile gives `None`.
#[verifier::external_body]
fn scan(pattern: &str, input: &str) -> (r: Option<Vec<String>>)
    ensures
        match r {
            Some(found) => pattern_matches(pattern@, input@) == Some(texts(found@)),
            None => pattern_matches(pattern@, input@) is None,
        },
{
    let re = regex::Regex::new(pattern).ok()?;
    re.captures_iter(input).map(|x| x.get(0).map(|y| String::from(y.as_str()))).collect()
}

/// No text stands before or after itself.
pub proof fn lemma_order_reflexive(a: Seq<char>)
    ensures
        text_order(a, a) == Order::Same,
    decreases a.len(),
{
    if a.len() > 0 {
        lemma_order_reflexive(a.drop_first());
    }
}

/// Whether two lists hold the same texts.
pub open spec fn same_texts(a: Seq<Seq<char>>, b: Seq<Seq<char>>) -> bool {
    forall|x: Seq<char>| a.contains(x) <==> b.contains(x)
}

/// There is only one ascending list of given texts.
pub proof fn lemma_ascending_unique(a: Seq<Seq<char>>, b: Seq<Seq<char>>)
    requires
        ascending(a),
        ascending(b),
        same_texts(a, b),
    ensures
        a == b,
    decreases a.len(),
{
    if a.len() == 0 {
        if b.len() > 0 {
            assert(b.contains(b[0]));
            assert(a.contains(b[0]));
        }
        assert(a =~= b);
    } else {
        let top = a.last();
        assert(a.contains(top));
        assert(b.contains(top));
        let k = choose|k: int| 0 <= k < b.len() && b[k] == top;
        let other = b.last();
        assert(b.contains(other));
        assert(a.contains(other));
        let l = choose|l: int| 0 <= l < a.len() && a[l] == other;
        if k < b.len() - 1 && l < a.len() - 1 {
            assert(text_order(b[k], b[b.len() - 1]) == Order::Before);
            assert(text_order(a[l], a[a.len() - 1]) == Order::Before);
            lemma_order_transitive(top, other, top);
            lemma_order_reflexive(top);
        }
        assert(top == other);
        let shorter = a.drop_last();
        let rest = b.drop_last();
        assert forall|i: int, j: int| 0 <= i < j < shorter.len() implies text_order(
            #[trigger] shorter[i],
            #[trigger] shorter[j],
        ) == Order::Before by {
            assert(shorter[i] == a[i] && shorter[j] == a[j]);
        }
        assert forall|i: int, j: int| 0 <= i < j < rest.len() implies text_order(
            #[trigger] rest[i],
            #[trigger] rest[j],
        ) == Order::Before by {
            assert(rest[i] == b[i] && rest[j] == b[j]);
        }
        assert forall|x: Seq<char>| shorter.contains(x) <==> rest.contains(x) by {
            lemma_order_reflexive(x);
            if shorter.contains(x) {
                let i = choose|i: int| 0 <= i < shorter.len() && shorter[i] == x;
                assert(a[i] == x);
                assert(text_order(a[i], a[a.len() - 1]) == Order::Before);
                assert(a.contains(x));
                assert(b.contains(x));
                let j = choose|j: int| 0 <= j < b.len() && b[j] == x;
                assert(j < b.len() - 1);
                assert(rest[j] == x);
            }
            if rest.contains(x) {
                let j = choose|j: int| 0 <= j < rest.len() && rest[j] == x;
                assert(b[j] == x);
                assert(text_order(b[j], b[b.len() - 1]) == Order::Before);
                assert(b.contains(x));
                assert(a.contains(x));
                let i = choose|i: int| 0 <= i < a.len() && a[i] == x;
                assert(i < a.len() - 1);
                assert(shorter[i] == x);
            }
        }
        lemma_ascending_unique(shorter, rest);
        assert(a =~= shorter.push(top));
        assert(b =~= rest.push(other));
    }
}

/// The texts of `found` in ascending order, each once.
pub open spec fn sorted_texts(found: Seq<Seq<char>>) -> Seq<Seq<char>> {
    choose|names: Seq<Seq<char>>| ascending(names) && same_texts(names, found)
}

/// The hygienic identifiers that occur in a text, in ascending order and
/// each once; `None` where the scan fails.
pub open spec fn identifiers_in(input: Seq<char>) -> Option<Seq<Seq<char>>> {
    match pattern_matches("weblab_[a-zA-Z_$][0-9a-zA-Z_$]*"@, input) {
        Some(found) => Some(sorted_texts(found)),
        None => None,
    }
}

/// Finds the hygienic identifiers that occur in a text: the prefix, then a
/// letter, `_` or `$`, then letters, digits, `_` and `$`.
pub fn get_variable_names(input: &str) -> (r: Option<Vec<String>>)
    ensures
        match identifiers_in(input@) {
            Some(names) => r is Some && texts(r->Some_0@) == names,
            None => r is None,
        },
{
    match scan("weblab_[a-zA-Z_$][0-9a-zA-Z_$]*", input) {
        Some(found) => {
            let sorted = sort_dedup(&found);
            proof {
                assert(same_texts(texts(sorted@), texts(found@)));
                lemma_ascending_unique(texts(sorted@), sorted_texts(texts(found@)));
            }
            Some(sorted)
        },
        None => None,
    }
}

/// Whether a list holds a text.
pub fn contains_name(list: &Vec<String>, name: &str) -> (r: bool)
    ensures
        r == texts(list@).contains(name@),
{
    let mut i: usize = 0;
    while i < list.len()
        invariant
            i <= list@.len(),
            forall|j: int| 0 <= j < i ==> texts(list@)[j] != name@,
        decreases list@.len() - i,
    {
        if crate::text::same_text(list[i].as_str(), name) {
            assert(texts(list@)[i as int] == name@);
            return true;
        }
        i = i + 1;
    }
    false
}

} // verus!
