//! A keyed store of records: at most one record under each key.

use vstd::prelude::*;

verus! {

/// A record that carries its own key.
pub trait Record: Sized {
    /// What the record is found by.
    type Key;

    /// The key of this record.
    spec fn key(&self) -> Self::Key;

    /// The key of this record, computed.
    fn key_of(&self) -> (key: Self::Key)
        ensures
            key == self.key(),
    ;

    /// Whether this record is the one stored under `key`.
    fn has_key(&self, key: &Self::Key) -> (yes: bool)
        ensures
            yes == (self.key() == *key),
    ;
}

/// The map from keys to records that a sequence of records stands for. Where
/// two records share a key, the later one counts.
pub open spec fn rows_map<E: Record>(rows: Seq<E>) -> Map<E::Key, E>
    decreases rows.len(),
{
    if rows.len() == 0 {
        Map::empty()
    } else {
        rows_map(rows.drop_last()).insert(rows.last().key(), rows.last())
    }
}

/// Whether no two records of the sequence share a key.
pub open spec fn distinct_keys<E: Record>(rows: Seq<E>) -> bool {
    forall|i: int, j: int| 0 <= i < j < rows.len() ==> rows[i].key() != rows[j].key()
}

/// A key is in the map exactly when some record of the sequence has it, and
/// the record found under a key has that key.
pub proof fn lemma_rows_map_keys<E: Record>(rows: Seq<E>, key: E::Key)
    ensures
        rows_map(rows).contains_key(key) <==> exists|i: int|
            0 <= i < rows.len() && #[trigger] rows[i].key() == key,
        rows_map(rows).contains_key(key) ==> rows_map(rows)[key].key() == key,
    decreases rows.len(),
{
    if rows.len() > 0 {
        let front = rows.drop_last();
        lemma_rows_map_keys(front, key);
        if rows.last().key() == key {
            assert(rows[rows.len() - 1].key() == key);
        } else if rows_map(front).contains_key(key) {
            let i = choose|i: int| 0 <= i < front.len() && #[trigger] front[i].key() == key;
            assert(rows[i].key() == key);
        } else {
            assert forall|i: int| 0 <= i < rows.len() implies #[trigger] rows[i].key() != key by {
                if i < front.len() {
                    assert(front[i].key() != key);
                }
            }
        }
    }
}

/// With distinct keys, each record is the one the map holds under its key.
pub proof fn lemma_rows_map_at<E: Record>(rows: Seq<E>, i: int)
    requires
        distinct_keys(rows),
        0 <= i < rows.len(),
    ensures
        rows_map(rows).contains_key(rows[i].key()),
        rows_map(rows)[rows[i].key()] == rows[i],
    decreases rows.len(),
{
    let front = rows.drop_last();
    if i < rows.len() - 1 {
        assert(distinct_keys(front)) by {
            assert forall|a: int, b: int| 0 <= a < b < front.len() implies front[a].key()
                != front[b].key() by {
                assert(rows[a].key() != rows[b].key());
            }
        }
        lemma_rows_map_at(front, i);
        assert(rows[i].key() != rows[rows.len() - 1].key());
    }
}

/// With distinct keys, replacing a record by one of the same key replaces it
/// in the map and leaves the keys distinct.
pub proof fn lemma_rows_map_update<E: Record>(rows: Seq<E>, i: int, row: E)
    requires
        distinct_keys(rows),
        0 <= i < rows.len(),
        rows[i].key() == row.key(),
    ensures
        distinct_keys(rows.update(i, row)),
        rows_map(rows.update(i, row)) == rows_map(rows).insert(row.key(), row),
    decreases rows.len(),
{
    let after = rows.update(i, row);
    assert(distinct_keys(after)) by {
        assert forall|a: int, b: int| 0 <= a < b < after.len() implies after[a].key()
            != after[b].key() by {
            assert(rows[a].key() != rows[b].key());
        }
    }
    let front = rows.drop_last();
    if i == rows.len() - 1 {
        assert(after.drop_last() =~= front);
        assert(rows_map(after) =~= rows_map(rows).insert(row.key(), row));
    } else {
        assert(distinct_keys(front)) by {
            assert forall|a: int, b: int| 0 <= a < b < front.len() implies front[a].key()
                != front[b].key() by {
                assert(rows[a].key() != rows[b].key());
            }
        }
        lemma_rows_map_update(front, i, row);
        assert(after.drop_last() =~= front.update(i, row));
        assert(rows[i].key() != rows[rows.len() - 1].key());
        assert(rows_map(after) =~= rows_map(rows).insert(row.key(), row));
    }
}

/// Adding a record under a key that no record has adds it to the map and
/// leaves the keys distinct.
pub proof fn lemma_rows_map_push<E: Record>(rows: Seq<E>, row: E)
    requires
        distinct_keys(rows),
        !rows_map(rows).contains_key(row.key()),
    ensures
        distinct_keys(rows.push(row)),
        rows_map(rows.push(row)) == rows_map(rows).insert(row.key(), row),
{
    let after = rows.push(row);
    assert(after.drop_last() =~= rows);
    assert forall|a: int, b: int| 0 <= a < b < after.len() implies after[a].key()
        != after[b].key() by {
        if b == rows.len() {
            lemma_rows_map_keys(rows, row.key());
            assert(rows[a].key() != row.key());
        } else {
            assert(rows[a].key() != rows[b].key());
        }
    }
}

/// A store that holds at most one record under each key.
pub struct Table<E: Record> {
    rows: Vec<E>,
}

impl<E: Record> View for Table<E> {
    type V = Map<E::Key, E>;

    closed spec fn view(&self) -> Map<E::Key, E> {
        rows_map(self.rows@)
    }
}

impl<E: Record> Table<E> {
    /// The store's own invariant: no key occurs twice.
    pub closed spec fn wf(&self) -> bool {
        distinct_keys(self.rows@)
    }

    /// A store with no record.
    pub fn new() -> (table: Table<E>)
        ensures
            table.wf(),
            table@ == Map::<E::Key, E>::empty(),
    {
        Table { rows: Vec::new() }
    }

    /// Where the record under `key` is kept, if there is one.
    fn position(&self, key: &E::Key) -> (at: Option<usize>)
        requires
            self.wf(),
        ensures
            match at {
                Some(i) => i < self.rows@.len() && self.rows@[i as int].key() == *key
                    && self@.contains_key(*key) && self@[*key] == self.rows@[i as int],
                None => !self@.contains_key(*key),
            },
    {
        let mut i: usize = 0;
        while i < self.rows.len()
            invariant
                self.wf(),
                i <= self.rows@.len(),
                forall|j: int| 0 <= j < i ==> self.rows@[j].key() != *key,
            decreases self.rows@.len() - i,
        {
            if self.rows[i].has_key(key) {
                proof {
                    lemma_rows_map_at(self.rows@, i as int);
                }
                return Some(i);
            }
            i += 1;
        }
        proof {
            lemma_rows_map_keys(self.rows@, *key);
        }
        None
    }

    /// The record under `key`, if there is one.
    pub fn get(&self, key: &E::Key) -> (row: Option<&E>)
        requires
            self.wf(),
        ensures
            match row {
                Some(found) => self@.contains_key(*key) && self@[*key] == *found,
                None => !self@.contains_key(*key),
            },
    {
        match self.position(key) {
            Some(i) => Some(&self.rows[i]),
            None => None,
        }
    }

    /// The record under a key that the store is known to hold.
    pub fn fetch(&self, key: &E::Key) -> (row: &E)
        requires
            self.wf(),
            self@.contains_key(*key),
        ensures
            *row == self@[*key],
    {
        let ghost at: int;
        proof {
            lemma_rows_map_keys(self.rows@, *key);
            at = choose|i: int| 0 <= i < self.rows@.len() && #[trigger] self.rows@[i].key() == *key;
        }
        let count: usize = self.rows.len();
        let mut i: usize = 0;
        while !self.rows[i].has_key(key)
            invariant
                self.wf(),
                i <= at < count == self.rows@.len(),
                self.rows@[at].key() == *key,
            decreases at - i,
        {
            i += 1;
        }
        proof {
            lemma_rows_map_at(self.rows@, i as int);
        }
        &self.rows[i]
    }

    /// Stores `row` under its key, in place of the record that was there, if
    /// any. Records under other keys stay as they are.
    pub fn put(&mut self, row: E)
        requires
            old(self).wf(),
        ensures
            final(self).wf(),
            final(self)@ == old(self)@.insert(row.key(), row),
    {
        match self.position(&row.key_of()) {
            Some(i) => {
                proof {
                    lemma_rows_map_update(self.rows@, i as int, row);
                }
                self.rows.set(i, row);
            },
            None => {
                proof {
                    lemma_rows_map_push(self.rows@, row);
                }
                self.rows.push(row);
            },
        }
    }
}

} // verus!
