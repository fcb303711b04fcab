//! A list of items that are found by name: the items in the order in which
//! they came, and an index from each name to its position.

use vstd::prelude::*;
use fnv::FnvHashMap;
use crate::name_index::{name_index_entries, name_index_get, name_index_insert, name_index_new};

verus! {

/// An item that is kept under a name.
pub(crate) trait Keyed {
    /// The name under which the item is kept.
    spec fn key_spec(&self) -> Seq<char>;

    /// The name under which the item is kept.
    fn key_text(&self) -> (r: &str)
        ensures
            r@ == self.key_spec(),
    ;
}

/// The names of a list of items, in order.
pub(crate) open spec fn keys_of<T: Keyed>(items: Seq<T>) -> Seq<Seq<char>> {
    items.map_values(|t: T| t.key_spec())
}

/// Whether no name occurs twice.
pub(crate) open spec fn distinct(keys: Seq<Seq<char>>) -> bool {
    forall|i: int, j: int|
        0 <= i < keys.len() && 0 <= j < keys.len() && i != j ==> keys[i] != keys[j]
}

/// Whether `entries` maps each of `keys` to its position, and holds nothing
/// else.
pub(crate) open spec fn indexes(entries: Map<Seq<char>, usize>, keys: Seq<Seq<char>>) -> bool {
    &&& forall|i: int|
        0 <= i < keys.len() ==> entries.contains_key(#[trigger] keys[i]) && entries[keys[i]] == i
    &&& forall|n: Seq<char>| #[trigger]
        entries.contains_key(n) ==> entries[n] < keys.len() && keys[entries[n] as int] == n
}

/// Items in the order in which they came, each found by its name.
#[derive(Debug)]
pub(crate) struct Table<T: Keyed> {
    items: Vec<T>,
    index: FnvHashMap<String, usize>,
}

impl<T: Keyed> Table<T> {
    #[verifier::type_invariant]
    closed spec fn inv(self) -> bool {
        indexes(name_index_entries(self.index), keys_of(self.items@))
    }

    /// The items, in the order in which they came.
    pub(crate) closed spec fn items(&self) -> Seq<T> {
        self.items@
    }

    /// An empty table.
    pub(crate) fn new() -> (r: Table<T>)
        ensures
            r.items() == Seq::<T>::empty(),
    {
        Table { items: Vec::new(), index: name_index_new() }
    }

    /// The number of items.
    pub(crate) fn len(&self) -> (r: usize)
        ensures
            r == self.items().len(),
    {
        self.items.len()
    }

    /// Shows that no two items have one name: nothing is done.
    pub(crate) fn names_are_distinct(&self)
        ensures
            distinct(keys_of(self.items())),
    {
        proof {
            use_type_invariant(&*self);
        }
    }

    /// The position of the item called `name`.
    pub(crate) fn find(&self, name: &str) -> (r: Option<usize>)
        ensures
            distinct(keys_of(self.items())),
            match r {
                Some(at) => at < self.items().len() && self.items()[at as int].key_spec() == name@,
                None => !keys_of(self.items()).contains(name@),
            },
    {
        proof {
            use_type_invariant(&*self);
        }
        match name_index_get(&self.index, name) {
            Some(at) => Some(*at),
            None => None,
        }
    }

    /// The item at `at`.
    pub(crate) fn get(&self, at: usize) -> (r: &T)
        requires
            at < self.items().len(),
        ensures
            *r == self.items()[at as int],
    {
        &self.items[at]
    }

    /// Adds `item` after the others.
    pub(crate) fn push(&mut self, item: T)
        requires
            !keys_of(old(self).items()).contains(item.key_spec()),
        ensures
            final(self).items() == old(self).items().push(item),
    {
        proof {
            use_type_invariant(&*self);
        }
        let mut taken = Table::new();
        std::mem::swap(self, &mut taken);
        let Table { items, index } = taken;
        let mut items = items;
        let mut index = index;
        let ghost before = items@;
        let at: usize = items.len();
        let key = item.key_text().to_owned();
        items.push(item);
        name_index_insert(&mut index, key, at);
        proof {
            assert forall|i: int| 0 <= i < items@.len() implies name_index_entries(
                index,
            ).contains_key(#[trigger] keys_of(items@)[i]) && name_index_entries(index)[keys_of(
                items@,
            )[i]] == i by {
                if i < before.len() {
                    assert(keys_of(before).contains(keys_of(before)[i]));
                }
            }
        }
        *self = Table { items, index };
    }

    /// Puts `item` in the place of the item of its name at `at`, and returns
    /// that one.
    pub(crate) fn replace(&mut self, at: usize, item: T) -> (r: T)
        requires
            at < old(self).items().len(),
            old(self).items()[at as int].key_spec() == item.key_spec(),
        ensures
            final(self).items() == old(self).items().update(at as int, item),
            r == old(self).items()[at as int],
    {
        proof {
            use_type_invariant(&*self);
        }
        let mut taken = Table::new();
        std::mem::swap(self, &mut taken);
        let Table { items, index } = taken;
        let mut items = items;
        let ghost before = items@;
        items.push(item);
        let previous = items.swap_remove(at);
        assert(keys_of(items@) =~= keys_of(before));
        *self = Table { items, index };
        previous
    }
}

} // verus!
