//! Laws of tables.

use vstd::prelude::*;

use crate::table::{Table, TableKey};

verus! {

/// A new table has no entry.
pub proof fn new_table_is_empty<K: TableKey, V>(table: Table<K, V>, key: K, r: Option<&V>)
    requires
        call_ensures(Table::<K, V>::new, (), table),
        call_ensures(Table::<K, V>::get, (&table, &key), r),
    ensures
        r is None,
        table.listing().len() == 0,
{
}

/// What is inserted under a key is what the key then has, whatever it had before;
/// that is handed back. Every other key has what it had.
pub proof fn insert_is_seen<K: TableKey, V>(
    table: &mut Table<K, V>,
    key: K,
    value: V,
    displaced: Option<V>,
    other: K,
    before: Option<&V>,
    after: Option<&V>,
)
    requires
        call_ensures(Table::<K, V>::get, (old(table), &other), before),
        call_ensures(Table::<K, V>::insert, (table, key, value), displaced),
        call_ensures(Table::<K, V>::get, (final(table), &other), after),
    ensures
        other@ == key@ ==> after == Some(&value),
        other@ == key@ ==> (displaced is Some <==> before is Some),
        other@ == key@ && displaced is Some ==> *before->0 == displaced->0,
        other@ != key@ ==> after == before,
{
}

/// A removed key has nothing; what it had is handed back. Every other key has what
/// it had.
pub proof fn remove_is_seen<K: TableKey, V>(
    table: &mut Table<K, V>,
    key: K,
    removed: Option<V>,
    other: K,
    before: Option<&V>,
    after: Option<&V>,
)
    requires
        call_ensures(Table::<K, V>::get, (old(table), &other), before),
        call_ensures(Table::<K, V>::remove, (table, &key), removed),
        call_ensures(Table::<K, V>::get, (final(table), &other), after),
    ensures
        other@ == key@ ==> after is None,
        other@ == key@ ==> (removed is Some <==> before is Some),
        other@ == key@ && removed is Some ==> *before->0 == removed->0,
        other@ != key@ ==> after == before,
{
}

/// A key is in a table exactly when it has something there.
pub proof fn contained_keys_have_values<K: TableKey, V>(
    table: Table<K, V>,
    key: K,
    contained: bool,
    value: Option<&V>,
)
    requires
        call_ensures(Table::<K, V>::contains_key, (&table, &key), contained),
        call_ensures(Table::<K, V>::get, (&table, &key), value),
    ensures
        contained <==> value is Some,
{
}

/// A table lists as many entries as it says, no key twice, and each with what the
/// key has.
pub proof fn listing_shows_each_entry_once<K: TableKey, V>(
    table: Table<K, V>,
    len: usize,
    i: usize,
    entry: (&K, &V),
    j: int,
    value: Option<&V>,
)
    requires
        call_ensures(Table::<K, V>::len, (&table,), len),
        i < len,
        call_ensures(Table::<K, V>::at, (&table, i), entry),
        call_ensures(Table::<K, V>::get, (&table, entry.0), value),
        0 <= j < table.listing().len(),
    ensures
        table.listing().len() == len,
        *entry.0 == table.listing()[i as int].0,
        *entry.1 == table.listing()[i as int].1,
        value == Some(entry.1),
        i != j ==> table.listing()[j].0@ != entry.0@,
{
    let keys = crate::table::keys_of(table.listing());
    assert(keys[i as int] == entry.0@);
    assert(keys[j] == table.listing()[j].0@);
}

/// Every key that has something is listed.
pub proof fn every_entry_is_listed<K: TableKey, V>(table: Table<K, V>, key: K, value: Option<&V>)
    requires
        call_ensures(Table::<K, V>::get, (&table, &key), value),
        value is Some,
    ensures
        exists|i: int|
            0 <= i < table.listing().len() && (#[trigger] table.listing()[i]).0@ == key@
                && table.listing()[i].1 == *value->0,
{
    table.lemma_listing();
    let keys = crate::table::keys_of(table.listing());
    let i = keys.index_of(key@);
    assert(keys[i] == key@ && 0 <= i < keys.len());
    assert(table.listing()[i].0@ == key@);
}

/// A drained table has nothing left, and every key that it had is handed out once,
/// with what it had.
pub proof fn drain_hands_everything_out<K: TableKey, V>(
    table: &mut Table<K, V>,
    all: Vec<(K, V)>,
    key: K,
    before: Option<&V>,
    after: Option<&V>,
)
    requires
        call_ensures(Table::<K, V>::get, (old(table), &key), before),
        call_ensures(Table::<K, V>::drain, (table,), all),
        call_ensures(Table::<K, V>::get, (final(table), &key), after),
    ensures
        after is None,
        final(table).listing().len() == 0,
        before matches Some(value) ==> exists|i: int|
            0 <= i < all@.len() && (#[trigger] all@[i]).0@ == key@ && all@[i].1 == *value,
        forall|i: int, j: int|
            0 <= i < j < all@.len() ==> (#[trigger] all@[i]).0@ != (#[trigger] all@[j]).0@,
        before is None ==> forall|i: int| 0 <= i < all@.len() ==> (#[trigger] all@[i]).0@ != key@,
{
    let keys = crate::table::keys_of(all@);
    if before is Some {
        let i = keys.index_of(key@);
        assert(keys[i] == key@ && 0 <= i < keys.len());
        assert(all@[i].0@ == key@);
    }
    assert forall|i: int, j: int| 0 <= i < j < all@.len() implies (#[trigger] all@[i]).0@ != (
    #[trigger] all@[j]).0@ by {
        assert(keys[i] == all@[i].0@ && keys[j] == all@[j].0@);
    }
    assert forall|i: int| before is None && 0 <= i < all@.len() implies (#[trigger] all@[i]).0@
        != key@ by {
        assert(keys[i] == all@[i].0@);
        assert(keys.contains(keys[i]));
    }
}

} // verus!
