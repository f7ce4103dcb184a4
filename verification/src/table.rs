//! A table that maps each key to one value.
//!
//! Keys are compared by their view, so a table of `String` keys is a map from
//! character sequences.

use vstd::prelude::*;

verus! {

/// A key of a [`Table`]: two keys are the same exactly when their views are equal.
pub trait TableKey: View {
    fn same(&self, other: &Self) -> (r: bool)
        ensures
            r == (self@ == other@),
    ;
}

impl TableKey for String {
    fn same(&self, other: &String) -> (r: bool) {
        *self == *other
    }
}

/// A finite map, kept as a list of entries in which no key occurs twice.
pub struct Table<K: TableKey, V> {
    entries: Vec<(K, V)>,
}

impl<K: TableKey, V> View for Table<K, V> {
    type V = Map<<K as View>::V, V>;

    closed spec fn view(&self) -> Map<<K as View>::V, V> {
        contents(self.entries@)
    }
}

/// The keys of a list of entries, in the order of the list.
pub open spec fn keys_of<K: TableKey, V>(entries: Seq<(K, V)>) -> Seq<<K as View>::V> {
    entries.map_values(|e: (K, V)| e.0@)
}

/// The map that a list of entries stands for.
pub open spec fn contents<K: TableKey, V>(entries: Seq<(K, V)>) -> Map<<K as View>::V, V> {
    Map::new(
        |k: <K as View>::V| keys_of(entries).contains(k),
        |k: <K as View>::V| entries[keys_of(entries).index_of(k)].1,
    )
}

proof fn lemma_entry<K: TableKey, V>(entries: Seq<(K, V)>, i: int)
    requires
        keys_of(entries).no_duplicates(),
        0 <= i < entries.len(),
    ensures
        contents(entries).dom().contains(entries[i].0@),
        contents(entries)[entries[i].0@] == entries[i].1,
{
    let k = entries[i].0@;
    assert(keys_of(entries)[i] == k);
    assert(keys_of(entries).contains(k));
    let j = keys_of(entries).index_of(k);
    assert(keys_of(entries)[j] == k && 0 <= j < keys_of(entries).len());
    assert(i == j);
}

proof fn lemma_push<K: TableKey, V>(entries: Seq<(K, V)>, e: (K, V))
    requires
        keys_of(entries).no_duplicates(),
        !keys_of(entries).contains(e.0@),
    ensures
        keys_of(entries.push(e)).no_duplicates(),
        contents(entries.push(e)) == contents(entries).insert(e.0@, e.1),
{
    let after = entries.push(e);
    assert(keys_of(after) =~= keys_of(entries).push(e.0@));
    assert forall|k: <K as View>::V| contents(after).dom().contains(k) implies contents(
        entries,
    ).insert(e.0@, e.1).dom().contains(k) && contents(after)[k] == contents(entries).insert(
        e.0@,
        e.1,
    )[k] by {
        let i = keys_of(after).index_of(k);
        assert(keys_of(after)[i] == k && 0 <= i < after.len());
        lemma_entry(after, i);
        if i < entries.len() {
            assert(keys_of(entries)[i] == k);
            lemma_entry(entries, i);
            assert(keys_of(entries).contains(k));
        }
    }
    assert forall|k: <K as View>::V|
        contents(entries).insert(e.0@, e.1).dom().contains(k) implies contents(
        after,
    ).dom().contains(k) by {
        if k == e.0@ {
            assert(keys_of(after)[entries.len() as int] == k);
        } else {
            let i = keys_of(entries).index_of(k);
            assert(keys_of(after)[i] == k);
        }
    }
    assert(contents(after) =~= contents(entries).insert(e.0@, e.1));
}

proof fn lemma_swap_remove<K: TableKey, V>(entries: Seq<(K, V)>, i: int)
    requires
        keys_of(entries).no_duplicates(),
        0 <= i < entries.len(),
    ensures
        ({
            let after = entries.update(i, entries.last()).drop_last();
            &&& keys_of(after).no_duplicates()
            &&& !keys_of(after).contains(entries[i].0@)
            &&& contents(after) == contents(entries).remove(entries[i].0@)
        }),
{
    let after = entries.update(i, entries.last()).drop_last();
    let gone = entries[i].0@;
    let keys = keys_of(entries);
    let rest = keys_of(after);
    assert forall|a: int, b: int| 0 <= a < rest.len() && 0 <= b < rest.len() && a != b implies rest[a]
        != rest[b] by {
        let a0 = if a == i { keys.len() - 1 } else { a };
        let b0 = if b == i { keys.len() - 1 } else { b };
        assert(rest[a] == keys[a0] && rest[b] == keys[b0]);
    }
    assert(!rest.contains(gone)) by {
        if rest.contains(gone) {
            let j = rest.index_of(gone);
            let j0 = if j == i { keys.len() - 1 } else { j };
            assert(rest[j] == keys[j0] && keys[i] == gone);
        }
    }
    let less = contents(entries).remove(gone);
    assert forall|k: <K as View>::V| #[trigger] contents(after).dom().contains(k) implies less.dom().contains(
        k,
    ) && contents(after)[k] == less[k] by {
        let j = rest.index_of(k);
        let j0 = if j == i { keys.len() - 1 } else { j };
        assert(rest[j] == k && keys[j0] == k);
        lemma_entry(after, j);
        lemma_entry(entries, j0);
        assert(after[j] == entries[j0]);
        assert(rest.contains(k));
        assert(k != gone);
    }
    assert forall|k: <K as View>::V| #[trigger] less.dom().contains(k) implies contents(
        after,
    ).dom().contains(k) by {
        let j = keys.index_of(k);
        assert(keys[j] == k && j != i);
        if j == keys.len() - 1 {
            assert(rest[i] == k);
        } else {
            assert(rest[j] == k);
        }
    }
    assert(contents(after) =~= less);
}

impl<K: TableKey, V> Table<K, V> {
    #[verifier::type_invariant]
    spec fn well_formed(self) -> bool {
        keys_of(self.entries@).no_duplicates()
    }

    /// The entries in the order in which they are stored.
    pub closed spec fn listing(self) -> Seq<(K, V)> {
        self.entries@
    }

    /// A table is the map that its listing gives.
    pub proof fn lemma_listing(self)
        ensures
            self@ == contents(self.listing()),
    {
    }

    pub fn new() -> (r: Self)
        ensures
            r@ == Map::<<K as View>::V, V>::empty(),
            r.listing().len() == 0,
    {
        let r = Table { entries: Vec::new() };
        assert(r@ =~= Map::<<K as View>::V, V>::empty());
        r
    }

    /// The number of entries. The listing holds each key of the map once.
    pub fn len(&self) -> (r: usize)
        ensures
            r == self.listing().len(),
            keys_of(self.listing()).no_duplicates(),
    {
        proof {
            use_type_invariant(self);
        }
        self.entries.len()
    }

    /// The entry at a position of the listing.
    pub fn at(&self, i: usize) -> (r: (&K, &V))
        requires
            i < self.listing().len(),
        ensures
            *r.0 == self.listing()[i as int].0,
            *r.1 == self.listing()[i as int].1,
            self@.dom().contains(r.0@),
            self@[r.0@] == *r.1,
    {
        proof {
            use_type_invariant(self);
            lemma_entry(self.entries@, i as int);
        }
        let e = &self.entries[i];
        (&e.0, &e.1)
    }

    fn find(&self, key: &K) -> (r: Option<usize>)
        ensures
            match r {
                Some(i) => i < self.entries@.len() && self.entries@[i as int].0@ == key@,
                None => !keys_of(self.entries@).contains(key@),
            },
    {
        let mut i: usize = 0;
        while i < self.entries.len()
            invariant
                i <= self.entries@.len(),
                forall|j: int| 0 <= j < i ==> #[trigger] keys_of(self.entries@)[j] != key@,
            decreases self.entries@.len() - i,
        {
            if self.entries[i].0.same(key) {
                return Some(i);
            }
            i += 1;
        }
        None
    }

    pub fn contains_key(&self, key: &K) -> (r: bool)
        ensures
            r == self@.dom().contains(key@),
    {
        proof {
            use_type_invariant(self);
        }
        match self.find(key) {
            Some(i) => {
                proof {
                    lemma_entry(self.entries@, i as int);
                }
                true
            },
            None => false,
        }
    }

    pub fn get(&self, key: &K) -> (r: Option<&V>)
        ensures
            match r {
                Some(v) => self@.dom().contains(key@) && self@[key@] == *v,
                None => !self@.dom().contains(key@),
            },
    {
        proof {
            use_type_invariant(self);
        }
        match self.find(key) {
            Some(i) => {
                proof {
                    lemma_entry(self.entries@, i as int);
                }
                Some(&self.entries[i].1)
            },
            None => None,
        }
    }

    /// Takes the entry of `key` out of the table and returns its value.
    pub fn remove(&mut self, key: &K) -> (r: Option<V>)
        ensures
            final(self)@ == old(self)@.remove(key@),
            match r {
                Some(v) => old(self)@.dom().contains(key@) && old(self)@[key@] == v,
                None => !old(self)@.dom().contains(key@),
            },
    {
        proof {
            use_type_invariant(&*self);
        }
        match self.find(key) {
            Some(i) => {
                let ghost before = self.entries@;
                let mut entries: Vec<(K, V)> = Vec::new();
                std::mem::swap(&mut entries, &mut self.entries);
                proof {
                    lemma_entry(before, i as int);
                    lemma_swap_remove(before, i as int);
                }
                let (_, value) = entries.swap_remove(i);
                self.entries = entries;
                Some(value)
            },
            None => {
                assert(self@.remove(key@) =~= self@);
                None
            },
        }
    }

    /// Maps `key` to `value` and returns the value that `key` had before.
    pub fn insert(&mut self, key: K, value: V) -> (r: Option<V>)
        ensures
            final(self)@ == old(self)@.insert(key@, value),
            match r {
                Some(v) => old(self)@.dom().contains(key@) && old(self)@[key@] == v,
                None => !old(self)@.dom().contains(key@),
            },
    {
        let ghost before = self@;
        let displaced = self.remove(&key);
        proof {
            use_type_invariant(&*self);
            assert(!self@.dom().contains(key@));
        }
        let ghost rest = self.entries@;
        let mut entries: Vec<(K, V)> = Vec::new();
        std::mem::swap(&mut entries, &mut self.entries);
        proof {
            lemma_push(rest, (key, value));
        }
        entries.push((key, value));
        self.entries = entries;
        assert(before.remove(key@).insert(key@, value) =~= before.insert(key@, value));
        displaced
    }

    /// Empties the table and returns what it held, each entry once.
    pub fn drain(&mut self) -> (r: Vec<(K, V)>)
        ensures
            final(self)@ == Map::<<K as View>::V, V>::empty(),
            final(self).listing().len() == 0,
            keys_of(r@).no_duplicates(),
            contents(r@) == old(self)@,
    {
        proof {
            use_type_invariant(&*self);
        }
        let mut entries: Vec<(K, V)> = Vec::new();
        std::mem::swap(&mut entries, &mut self.entries);
        assert(self@ =~= Map::<<K as View>::V, V>::empty());
        entries
    }
}

} // verus!
