//! A table of values under text keys, kept in the order of its keys.

use crate::text::{
    before, lemma_order_is_total, lemma_order_is_transitive, precedes, same,
};
use vstd::prelude::*;

verus! {

/// Values under distinct keys, in ascending order of the keys.
#[derive(Debug)]
pub struct Table<V> {
    entries: Vec<(String, V)>,
}

/// The keys of `rows` ascend.
pub open spec fn ascending<V>(rows: Seq<(Seq<char>, V)>) -> bool {
    forall|i: int, j: int|
        0 <= i < j < rows.len() ==> precedes(#[trigger] rows[i].0, #[trigger] rows[j].0)
}

/// `rows` has an entry for `key`, at position `i`.
pub open spec fn keyed_at<V>(rows: Seq<(Seq<char>, V)>, key: Seq<char>, i: int) -> bool {
    0 <= i < rows.len() && rows[i].0 == key
}

/// The value that each key of `rows` stands for.
pub open spec fn mapping<V>(rows: Seq<(Seq<char>, V)>) -> Map<Seq<char>, V> {
    Map::new(
        |key: Seq<char>| exists|i: int| keyed_at(rows, key, i),
        |key: Seq<char>| rows[choose|i: int| keyed_at(rows, key, i)].1,
    )
}

/// In ascending rows a key stands once.
pub proof fn lemma_keyed_once<V>(rows: Seq<(Seq<char>, V)>, i: int)
    requires
        ascending(rows),
        0 <= i < rows.len(),
    ensures
        mapping(rows).contains_key(rows[i].0),
        mapping(rows)[rows[i].0] == rows[i].1,
        forall|j: int| keyed_at(rows, rows[i].0, j) ==> j == i,
{
    let key = rows[i].0;
    assert(keyed_at(rows, key, i));
    assert forall|j: int| keyed_at(rows, key, j) implies j == i by {
        if j < i {
            lemma_order_is_total(rows[j].0, rows[i].0);
        } else if i < j {
            lemma_order_is_total(rows[i].0, rows[j].0);
        }
    }
}

/// Rows with ascending keys are told by the mapping alone: the order of the
/// keys leaves no choice.
pub proof fn lemma_rows_are_told_by_mapping<V>(a: Seq<(Seq<char>, V)>, b: Seq<(Seq<char>, V)>)
    requires
        ascending(a),
        ascending(b),
        mapping(a) == mapping(b),
    ensures
        a == b,
    decreases a.len(),
{
    if a.len() == 0 {
        if b.len() > 0 {
            lemma_keyed_once(b, 0);
            assert(mapping(a).contains_key(b[0].0));
        }
        assert(a =~= b);
    } else if b.len() == 0 {
        lemma_keyed_once(a, 0);
        assert(mapping(b).contains_key(a[0].0));
    } else {
        let m = a.len() - 1;
        let n = b.len() - 1;
        lemma_keyed_once(a, m);
        lemma_keyed_once(b, n);
        let i = choose|i: int| keyed_at(b, a[m].0, i);
        let j = choose|j: int| keyed_at(a, b[n].0, j);
        assert(keyed_at(b, a[m].0, i)) by {
            assert(mapping(b).contains_key(a[m].0));
        }
        assert(keyed_at(a, b[n].0, j)) by {
            assert(mapping(a).contains_key(b[n].0));
        }
        lemma_order_is_total(a[m].0, b[n].0);
        lemma_order_is_total(b[n].0, a[m].0);
        assert(a[m].0 == b[n].0);
        assert(a[m].1 == b[n].1);
        let x = a.drop_last();
        let y = b.drop_last();
        lemma_drop_last(a);
        lemma_drop_last(b);
        lemma_rows_are_told_by_mapping(x, y);
        assert(a =~= x.push(a[m]));
        assert(b =~= y.push(b[n]));
    }
}

/// Without its last row, `rows` stands for all but that row's key.
proof fn lemma_drop_last<V>(rows: Seq<(Seq<char>, V)>)
    requires
        ascending(rows),
        rows.len() > 0,
    ensures
        ascending(rows.drop_last()),
        mapping(rows.drop_last()) == mapping(rows).remove(rows.last().0),
{
    let less = rows.drop_last();
    let last = rows.last().0;
    assert(ascending(less));
    lemma_keyed_once(rows, rows.len() - 1);
    assert forall|key: Seq<char>|
        mapping(less).contains_key(key) <==> mapping(rows).remove(last).contains_key(key) by {
        if mapping(less).contains_key(key) {
            let i = choose|i: int| keyed_at(less, key, i);
            assert(keyed_at(rows, key, i));
        }
        if mapping(rows).remove(last).contains_key(key) {
            let i = choose|i: int| keyed_at(rows, key, i);
            assert(keyed_at(less, key, i));
        }
    }
    assert forall|key: Seq<char>| mapping(less).contains_key(key) implies mapping(less)[key]
        == mapping(rows)[key] by {
        let i = choose|i: int| keyed_at(less, key, i);
        assert(keyed_at(less, key, i));
        lemma_keyed_once(less, i);
        lemma_keyed_once(rows, i);
    }
    assert(mapping(less) =~= mapping(rows).remove(last));
}

impl<V> Table<V> {
    /// The entries, in the order of their keys.
    pub closed spec fn rows(&self) -> Seq<(Seq<char>, V)> {
        Seq::new(self.entries@.len(), |i: int| (self.entries@[i].0@, self.entries@[i].1))
    }

    /// The keys ascend.
    #[verifier::type_invariant]
    pub open spec fn valid(self) -> bool {
        ascending(self.rows())
    }

    /// The table without entries.
    pub fn new() -> (t: Table<V>)
        ensures
            t.rows() == Seq::<(Seq<char>, V)>::empty(),
            t@ == Map::<Seq<char>, V>::empty(),
    {
        let t = Table { entries: Vec::new() };
        assert(t.rows() =~= Seq::empty());
        assert(t@ =~= Map::empty());
        t
    }

    /// How many entries there are.
    pub fn len(&self) -> (n: usize)
        ensures
            n == self.rows().len(),
            self.valid(),
    {
        proof {
            use_type_invariant(self);
        }
        self.entries.len()
    }

    /// Whether there is no entry.
    pub fn is_empty(&self) -> (r: bool)
        ensures
            r == (self.rows().len() == 0),
    {
        self.entries.len() == 0
    }

    /// The key of the entry at position `i`.
    pub fn key(&self, i: usize) -> (k: &String)
        requires
            i < self.rows().len(),
        ensures
            k@ == self.rows()[i as int].0,
            self@.contains_key(k@),
    {
        proof {
            use_type_invariant(self);
            lemma_keyed_once(self.rows(), i as int);
        }
        &self.entries[i].0
    }

    /// The value of the entry at position `i`.
    pub fn value(&self, i: usize) -> (v: &V)
        requires
            i < self.rows().len(),
        ensures
            *v == self.rows()[i as int].1,
            *v == self@[self.rows()[i as int].0],
    {
        proof {
            use_type_invariant(self);
            lemma_keyed_once(self.rows(), i as int);
        }
        &self.entries[i].1
    }

    /// Where `key` stands, or else where it would have to stand.
    fn place(&self, key: &str) -> (r: (usize, bool))
        ensures
            r.0 <= self.rows().len(),
            r.1 ==> r.0 < self.rows().len() && self.rows()[r.0 as int].0 == key@,
            forall|j: int| 0 <= j < r.0 ==> precedes(#[trigger] self.rows()[j].0, key@),
            !r.1 ==> forall|j: int|
                r.0 <= j < self.rows().len() ==> precedes(key@, #[trigger] self.rows()[j].0),
            r.1 == self@.contains_key(key@),
    {
        proof {
            use_type_invariant(self);
        }
        let ghost rows = self.rows();
        let mut i: usize = 0;
        while i < self.entries.len()
            invariant
                rows == self.rows(),
                ascending(rows),
                i <= self.entries@.len(),
                rows.len() == self.entries@.len(),
                forall|j: int| 0 <= j < i ==> precedes(#[trigger] rows[j].0, key@),
            decreases self.entries.len() - i,
        {
            assert(rows[i as int].0 == self.entries@[i as int].0@);
            if !before(self.entries[i].0.as_str(), key) {
                let found: bool = same(self.entries[i].0.as_str(), key);
                proof {
                    if found {
                        assert(keyed_at(rows, key@, i as int));
                    } else {
                        lemma_order_is_total(rows[i as int].0, key@);
                        assert forall|j: int| i <= j < rows.len() implies precedes(
                            key@,
                            #[trigger] rows[j].0,
                        ) by {
                            if j > i {
                                lemma_order_is_transitive(key@, rows[i as int].0, rows[j].0);
                            }
                        }
                        assert forall|j: int| !keyed_at(rows, key@, j) by {
                            if 0 <= j < rows.len() {
                                lemma_order_is_total(rows[j].0, key@);
                                lemma_order_is_total(key@, rows[j].0);
                            }
                        }
                    }
                }
                return (i, found);
            }
            i = i + 1;
        }
        assert forall|j: int| !keyed_at(rows, key@, j) by {
            if 0 <= j < rows.len() {
                lemma_order_is_total(rows[j].0, key@);
            }
        }
        (i, false)
    }

    /// Whether there is an entry for `key`.
    pub fn contains_key(&self, key: &str) -> (r: bool)
        ensures
            r == self@.contains_key(key@),
    {
        self.place(key).1
    }

    /// The value under `key`.
    pub fn get(&self, key: &str) -> (r: Option<&V>)
        ensures
            r is Some <==> self@.contains_key(key@),
            r matches Some(v) ==> *v == self@[key@],
    {
        let (i, found) = self.place(key);
        if found {
            proof {
                use_type_invariant(self);
                lemma_keyed_once(self.rows(), i as int);
            }
            Some(&self.entries[i].1)
        } else {
            None
        }
    }

    /// Puts `value` under `key`, in place of what stood there.
    pub fn insert(&mut self, key: String, value: V)
        ensures
            final(self)@ == old(self)@.insert(key@, value),
    {
        let (i, found) = self.place(key.as_str());
        proof {
            use_type_invariant(&*self);
        }
        let ghost rows = self.rows();
        let ghost k = key@;
        let mut entries: Vec<(String, V)> = Vec::new();
        std::mem::swap(&mut entries, &mut self.entries);
        let ghost held = entries@;
        if found {
            entries.remove(i);
        }
        entries.insert(i, (key, value));
        let ghost after = Seq::new(entries@.len(), |j: int| (entries@[j].0@, entries@[j].1));
        proof {
            assert(rows =~= Seq::new(held.len(), |j: int| (held[j].0@, held[j].1)));
            if found {
                assert(after =~= rows.update(i as int, (k, value)));
                lemma_replaced(rows, i as int, value);
            } else {
                assert(after =~= rows.insert(i as int, (k, value)));
                lemma_inserted(rows, i as int, k, value);
            }
        }
        self.entries = entries;
        assert(self.rows() =~= after);
    }

    /// Takes out the entry for `key` and hands back its value.
    pub fn remove(&mut self, key: &str) -> (r: Option<V>)
        ensures
            final(self)@ == old(self)@.remove(key@),
            r is Some <==> old(self)@.contains_key(key@),
            r matches Some(v) ==> v == old(self)@[key@],
    {
        let (i, found) = self.place(key);
        proof {
            use_type_invariant(&*self);
        }
        let ghost rows = self.rows();
        if !found {
            assert(self@ =~= self@.remove(key@));
            return None;
        }
        let mut entries: Vec<(String, V)> = Vec::new();
        std::mem::swap(&mut entries, &mut self.entries);
        let ghost held = entries@;
        let out: (String, V) = entries.remove(i);
        let ghost after = Seq::new(entries@.len(), |j: int| (entries@[j].0@, entries@[j].1));
        proof {
            assert(rows =~= Seq::new(held.len(), |j: int| (held[j].0@, held[j].1)));
            assert(after =~= rows.remove(i as int));
            lemma_keyed_once(rows, i as int);
            lemma_removed(rows, i as int);
        }
        self.entries = entries;
        assert(self.rows() =~= after);
        Some(out.1)
    }
}

impl<V> View for Table<V> {
    type V = Map<Seq<char>, V>;

    open spec fn view(&self) -> Map<Seq<char>, V> {
        mapping(self.rows())
    }
}

proof fn lemma_replaced<V>(rows: Seq<(Seq<char>, V)>, i: int, value: V)
    requires
        ascending(rows),
        0 <= i < rows.len(),
    ensures
        ascending(rows.update(i, (rows[i].0, value))),
        mapping(rows.update(i, (rows[i].0, value))) == mapping(rows).insert(rows[i].0, value),
{
    let key = rows[i].0;
    let after = rows.update(i, (key, value));
    assert(ascending(after)) by {
        assert forall|a: int, b: int| 0 <= a < b < after.len() implies precedes(
            #[trigger] after[a].0,
            #[trigger] after[b].0,
        ) by {
            assert(precedes(rows[a].0, rows[b].0));
        }
    }
    assert forall|k: Seq<char>|
        mapping(after).contains_key(k) <==> mapping(rows).insert(key, value).contains_key(k) by {
        if mapping(after).contains_key(k) {
            let j = choose|j: int| keyed_at(after, k, j);
            assert(keyed_at(rows, k, j));
        }
        if mapping(rows).contains_key(k) {
            let j = choose|j: int| keyed_at(rows, k, j);
            assert(keyed_at(after, k, j));
        }
        if k == key {
            assert(keyed_at(after, k, i));
        }
    }
    assert forall|k: Seq<char>| mapping(after).contains_key(k) implies mapping(after)[k]
        == mapping(rows).insert(key, value)[k] by {
        let j = choose|j: int| keyed_at(after, k, j);
        assert(keyed_at(after, k, j));
        lemma_keyed_once(after, j);
        lemma_keyed_once(rows, j);
        lemma_keyed_once(rows, i);
    }
    assert(mapping(after) =~= mapping(rows).insert(key, value));
}

proof fn lemma_inserted<V>(rows: Seq<(Seq<char>, V)>, i: int, key: Seq<char>, value: V)
    requires
        ascending(rows),
        0 <= i <= rows.len(),
        forall|j: int| 0 <= j < i ==> precedes(#[trigger] rows[j].0, key),
        forall|j: int| i <= j < rows.len() ==> precedes(key, #[trigger] rows[j].0),
    ensures
        ascending(rows.insert(i, (key, value))),
        mapping(rows.insert(i, (key, value))) == mapping(rows).insert(key, value),
{
    let after = rows.insert(i, (key, value));
    assert(ascending(after)) by {
        assert forall|a: int, b: int| 0 <= a < b < after.len() implies precedes(
            #[trigger] after[a].0,
            #[trigger] after[b].0,
        ) by {
            let x = if a < i {
                a
            } else {
                a - 1
            };
            let y = if b < i {
                b
            } else {
                b - 1
            };
            if a != i && b != i {
                assert(precedes(rows[x].0, rows[y].0));
            } else if a == i {
                assert(precedes(key, rows[y].0));
            } else {
                assert(precedes(rows[x].0, key));
            }
        }
    }
    assert forall|k: Seq<char>|
        mapping(after).contains_key(k) <==> mapping(rows).insert(key, value).contains_key(k) by {
        if mapping(after).contains_key(k) {
            let j = choose|j: int| keyed_at(after, k, j);
            if j < i {
                assert(keyed_at(rows, k, j));
            } else if j > i {
                assert(keyed_at(rows, k, j - 1));
            }
        }
        if mapping(rows).contains_key(k) {
            let j = choose|j: int| keyed_at(rows, k, j);
            if j < i {
                assert(keyed_at(after, k, j));
            } else {
                assert(keyed_at(after, k, j + 1));
            }
        }
        if k == key {
            assert(keyed_at(after, k, i));
        }
    }
    assert forall|k: Seq<char>| mapping(after).contains_key(k) implies mapping(after)[k]
        == mapping(rows).insert(key, value)[k] by {
        let j = choose|j: int| keyed_at(after, k, j);
        assert(keyed_at(after, k, j));
        lemma_keyed_once(after, j);
        lemma_keyed_once(after, i);
        if j < i {
            lemma_keyed_once(rows, j);
        } else if j > i {
            lemma_keyed_once(rows, j - 1);
        }
    }
    assert(mapping(after) =~= mapping(rows).insert(key, value));
}

proof fn lemma_removed<V>(rows: Seq<(Seq<char>, V)>, i: int)
    requires
        ascending(rows),
        0 <= i < rows.len(),
    ensures
        ascending(rows.remove(i)),
        mapping(rows.remove(i)) == mapping(rows).remove(rows[i].0),
{
    let key = rows[i].0;
    let after = rows.remove(i);
    assert(ascending(after)) by {
        assert forall|a: int, b: int| 0 <= a < b < after.len() implies precedes(
            #[trigger] after[a].0,
            #[trigger] after[b].0,
        ) by {
            let x = if a < i {
                a
            } else {
                a + 1
            };
            let y = if b < i {
                b
            } else {
                b + 1
            };
            assert(precedes(rows[x].0, rows[y].0));
        }
    }
    lemma_keyed_once(rows, i);
    assert forall|k: Seq<char>|
        mapping(after).contains_key(k) <==> mapping(rows).remove(key).contains_key(k) by {
        if mapping(after).contains_key(k) {
            let j = choose|j: int| keyed_at(after, k, j);
            if j < i {
                assert(keyed_at(rows, k, j));
            } else {
                assert(keyed_at(rows, k, j + 1));
            }
        }
        if mapping(rows).remove(key).contains_key(k) {
            let j = choose|j: int| keyed_at(rows, k, j);
            if j < i {
                assert(keyed_at(after, k, j));
            } else {
                assert(keyed_at(after, k, j - 1));
            }
        }
    }
    assert forall|k: Seq<char>| mapping(after).contains_key(k) implies mapping(after)[k]
        == mapping(rows)[k] by {
        let j = choose|j: int| keyed_at(after, k, j);
        assert(keyed_at(after, k, j));
        lemma_keyed_once(after, j);
        if j < i {
            lemma_keyed_once(rows, j);
        } else {
            lemma_keyed_once(rows, j + 1);
        }
    }
    assert(mapping(after) =~= mapping(rows).remove(key));
}

} // verus!
