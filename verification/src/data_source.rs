//! A table of entries under text keys, filled by importing and read by key.

use crate::entities::{Hotel, Room};
use vstd::hash_map::StringHashMap;
use vstd::prelude::*;

verus! {

/// The entries of an import as the table sees them: each key by its characters.
pub open spec fn entry_views<I>(entries: Seq<(String, I)>) -> Seq<(Seq<char>, I)> {
    entries.map_values(|entry: (String, I)| (entry.0@, entry.1))
}

/// The table that holds `entries` on top of `table`: they are put in one after the
/// other, so that of two entries under one key the later one stays.
pub open spec fn insert_all<I>(table: Map<Seq<char>, I>, entries: Seq<(Seq<char>, I)>) -> Map<
    Seq<char>,
    I,
>
    decreases entries.len(),
{
    if entries.len() == 0 {
        table
    } else {
        insert_all(table, entries.drop_last()).insert(entries.last().0, entries.last().1)
    }
}

/// Of the entries under one key the last one stays: an entry after which no entry of
/// the import has its key is what the table holds under that key.
pub proof fn lemma_last_entry_stays<I>(
    table: Map<Seq<char>, I>,
    entries: Seq<(Seq<char>, I)>,
    last: int,
)
    requires
        0 <= last < entries.len(),
        forall|later: int| last < later < entries.len() ==> entries[later].0 != entries[last].0,
    ensures
        insert_all(table, entries).contains_key(entries[last].0),
        insert_all(table, entries)[entries[last].0] == entries[last].1,
    decreases entries.len(),
{
    if last < entries.len() - 1 {
        let before = entries.drop_last();
        assert forall|later: int| last < later < before.len() implies before[later].0
            != before[last].0 by {
            assert(before[later] == entries[later]);
        }
        lemma_last_entry_stays(table, before, last);
    }
}

/// An import leaves alone what it does not name: under a key that none of the entries
/// has, the table holds what it held.
pub proof fn lemma_other_keys_stay<I>(
    table: Map<Seq<char>, I>,
    entries: Seq<(Seq<char>, I)>,
    key: Seq<char>,
)
    requires
        forall|i: int| 0 <= i < entries.len() ==> entries[i].0 != key,
    ensures
        insert_all(table, entries).contains_key(key) == table.contains_key(key),
        table.contains_key(key) ==> insert_all(table, entries)[key] == table[key],
    decreases entries.len(),
{
    if entries.len() > 0 {
        let before = entries.drop_last();
        assert forall|i: int| 0 <= i < before.len() implies before[i].0 != key by {
            assert(before[i] == entries[i]);
        }
        lemma_other_keys_stay(table, before, key);
    }
}

/// An import adds no key but those of its entries, and every key of an entry.
pub proof fn lemma_keys_after_import<I>(
    table: Map<Seq<char>, I>,
    entries: Seq<(Seq<char>, I)>,
    key: Seq<char>,
)
    ensures
        insert_all(table, entries).contains_key(key) <==> table.contains_key(key) || exists|
            i: int,
        |
            0 <= i < entries.len() && (#[trigger] entries[i]).0 == key,
    decreases entries.len(),
{
    if entries.len() > 0 {
        let before = entries.drop_last();
        lemma_keys_after_import(table, before, key);
        if exists|i: int| 0 <= i < before.len() && (#[trigger] before[i]).0 == key {
            let i = choose|i: int| 0 <= i < before.len() && (#[trigger] before[i]).0 == key;
            assert(entries[i] == before[i]);
        }
        if exists|i: int| 0 <= i < entries.len() && (#[trigger] entries[i]).0 == key {
            let i = choose|i: int| 0 <= i < entries.len() && (#[trigger] entries[i]).0 == key;
            if i < before.len() {
                assert(entries[i] == before[i]);
            } else {
                assert(entries.last().0 == key);
            }
        }
    }
}

/// An in-memory table of entries, each under a key that is a text. The entries come from
/// imports, and a reader handed to the import decides where they are read and how.
#[verifier::reject_recursive_types(I)]
pub struct DataSource<I> {
    items: StringHashMap<I>,
}

impl<I> View for DataSource<I> {
    type V = Map<Seq<char>, I>;

    closed spec fn view(&self) -> Map<Seq<char>, I> {
        self.items@
    }
}

/// The table of rooms, each under its room key.
pub type RoomDataSource = DataSource<Room>;

/// The table of hotels, each under its id.
pub type HotelDataSource<C> = DataSource<Hotel<C>>;

impl<I> DataSource<I> {
    /// A table without entries.
    pub fn new() -> (source: Self)
        ensures
            source@ == Map::<Seq<char>, I>::empty(),
    {
        DataSource { items: StringHashMap::new() }
    }

    /// The number of entries.
    pub fn len(&self) -> (count: usize)
        ensures
            count == self@.len(),
    {
        self.items.len()
    }

    /// Puts the entries into the table in their order. An entry replaces the one that
    /// the table held under its key.
    pub fn extend(&mut self, entries: Vec<(String, I)>)
        ensures
            final(self)@ == insert_all(old(self)@, entry_views(entries@)),
    {
        let ghost all = entry_views(entries@);
        for entry in it: entries
            invariant
                all == entry_views(it.seq()),
                self@ == insert_all(old(self)@, all.take(it.index() as int)),
        {
            proof {
                let done = it.index() as int;
                assert(all.take(done + 1).drop_last() == all.take(done));
                assert(all.take(done + 1).last() == (entry.0@, entry.1));
            }
            let (key, item) = entry;
            self.items.insert(key, item);
        }
        assert(all.take(all.len() as int) == all);
    }

    /// Reads entries from `origin` with `reader` and puts them into the table. Where the
    /// reader fails, its error is handed on and the table stays as it was.
    pub fn import_from<S, R, E>(&mut self, origin: S, reader: R) -> (done: Result<(), E>) where
        R: Fn(S) -> Result<Vec<(String, I)>, E>,

        requires
            call_requires(reader, (origin,)),
        ensures
            match done {
                Ok(()) => exists|entries: Vec<(String, I)>|
                    call_ensures(reader, (origin,), Ok(entries)) && final(self)@ == insert_all(
                        old(self)@,
                        entry_views(entries@),
                    ),
                Err(error) => call_ensures(reader, (origin,), Err(error)) && final(self)@ == old(
                    self,
                )@,
            },
    {
        match reader(origin) {
            Ok(entries) => {
                self.extend(entries);
                Ok(())
            },
            Err(error) => Err(error),
        }
    }

    /// The entry under `key`, if the table holds one.
    pub fn find(&self, key: &String) -> (found: Option<&I>)
        ensures
            match found {
                Some(item) => self@.contains_key(key@) && *item == self@[key@],
                None => !self@.contains_key(key@),
            },
    {
        self.items.get(key.as_str())
    }
}

} // verus!
