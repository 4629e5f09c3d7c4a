//! The rows of one resource, kept in memory in the order in which they
//! came, each under an id of its own.

use vstd::prelude::*;

use crate::pagination::{is_listing, list, PageRequest};
use crate::record::{has_key, lemma_position_unique, position_of, unique_keys, Record};
use crate::text::opt_string;

verus! {

/// A table of rows. Ids are handed out in rising order and never twice, so
/// a row that is gone leaves its id unused.
pub struct Table<T> {
    items: Vec<T>,
    next_id: i32,
}

/// The count of the calls made on a gateway. The number that can be
/// read stops at the largest `u64`; the count itself does not.
pub struct CallCount {
    shown: u64,
    made: Ghost<nat>,
}

impl CallCount {
    /// The number of calls made.
    pub closed spec fn total(&self) -> nat {
        self.made@
    }

    pub closed spec fn inv(&self) -> bool {
        self.shown == Self::spec_shown(self.made@)
    }

    /// The number that `count` shows for a total of `total` calls.
    pub open spec fn spec_shown(total: nat) -> u64 {
        if total <= u64::MAX {
            total as u64
        } else {
            u64::MAX
        }
    }

    pub fn new() -> (calls_made: Self)
        ensures
            calls_made.inv(),
            calls_made.total() == 0,
    {
        CallCount { shown: 0, made: Ghost(0) }
    }

    /// Counts one more call.
    pub fn bump(&mut self)
        requires
            old(self).inv(),
        ensures
            final(self).inv(),
            final(self).total() == old(self).total() + 1,
    {
        if self.shown < u64::MAX {
            self.shown = self.shown + 1;
        }
        self.made = Ghost((self.made@ + 1) as nat);
    }

    /// The number of calls made, as far as a `u64` can tell.
    pub fn count(&self) -> (n: u64)
        requires
            self.inv(),
        ensures
            n == Self::spec_shown(self.total()),
    {
        self.shown
    }
}

impl<T: Record> Table<T> {
    /// The rows, in the order in which they came.
    pub closed spec fn rows(&self) -> Seq<T> {
        self.items@
    }

    /// The id that the next row gets.
    pub closed spec fn next_key(&self) -> int {
        self.next_id as int
    }

    /// Whether an id is left for one more row.
    pub open spec fn has_room(&self) -> bool {
        self.next_key() < i32::MAX
    }

    pub closed spec fn inv(&self) -> bool {
        &&& unique_keys(self.items@)
        &&& forall|i: int| 0 <= i < self.items@.len() ==> 1 <= #[trigger] self.items@[i].key() < self.next_id
        &&& self.items@.len() < self.next_id
    }

    /// In a table in order no two rows share an id, every id lies below the
    /// next one, and the rows can be counted in an `i32`.
    pub proof fn lemma_inv(&self)
        requires
            self.inv(),
        ensures
            unique_keys(self.rows()),
            !has_key(self.rows(), self.next_key()),
            self.rows().len() < self.next_key() <= i32::MAX,
            1 <= self.next_key(),
    {
    }

    pub fn new() -> (table: Self)
        ensures
            table.inv(),
            table.rows() == Seq::<T>::empty(),
            table.next_key() == 1,
    {
        Table { items: Vec::new(), next_id: 1 }
    }

    /// All rows, in order.
    pub fn all(&self) -> (items: &Vec<T>)
        ensures
            items@ == self.rows(),
    {
        &self.items
    }

    /// The number of rows.
    pub fn len(&self) -> (n: usize)
        ensures
            n == self.rows().len(),
    {
        self.items.len()
    }

    /// The id for the next row, while one is left.
    pub fn fresh_id(&self) -> (id: Option<i32>)
        ensures
            id is Some <==> self.has_room(),
            id matches Some(k) ==> k == self.next_key(),
    {
        if self.next_id < i32::MAX {
            Some(self.next_id)
        } else {
            None
        }
    }

    /// Where the row with the id `id` stands.
    pub fn index_of(&self, id: i32) -> (at: Option<usize>)
        requires
            self.inv(),
        ensures
            at is Some <==> has_key(self.rows(), id as int),
            at matches Some(i) ==> i == position_of(self.rows(), id as int) && i < self.rows().len(),
    {
        let mut i: usize = 0;
        while i < self.items.len()
            invariant
                self.inv(),
                i <= self.items.len(),
                forall|k: int| 0 <= k < i ==> self.items@[k].key() != id,
            decreases self.items.len() - i,
        {
            if self.items[i].id() == id {
                proof {
                    lemma_position_unique(self.items@, i as int);
                }
                return Some(i);
            }
            i = i + 1;
        }
        None
    }

    /// The row with the id `id`, copied.
    pub fn get(&self, id: i32) -> (row: Option<T>)
        requires
            self.inv(),
        ensures
            row is Some <==> has_key(self.rows(), id as int),
            row matches Some(r) ==> r == self.rows()[position_of(self.rows(), id as int)],
    {
        match self.index_of(id) {
            Some(at) => Some(self.items[at].duplicate()),
            None => None,
        }
    }

    /// The row at index `at`, copied.
    pub fn row_at(&self, at: usize) -> (row: T)
        requires
            at < self.rows().len(),
        ensures
            row == self.rows()[at as int],
    {
        self.items[at].duplicate()
    }

    /// One page of the rows that a search keeps, and the number of all rows
    /// that it keeps.
    pub fn list(&self, page: i32, page_size: i32, search: Option<String>) -> (listing: (
        Vec<T>,
        i64,
    ))
        requires
            self.inv(),
            page >= 1,
            page_size >= 1,
        ensures
            is_listing(
                self.rows(),
                opt_string(search),
                page as int,
                page_size as int,
                listing.0@,
                listing.1 as int,
            ),
    {
        let request = PageRequest { page, page_size, search };
        let result = list(&self.items, &request);
        (result.items, result.total_count)
    }

    /// Adds `row`, which carries the id that `fresh_id` gave, at the end.
    pub fn insert(&mut self, row: T)
        requires
            old(self).inv(),
            old(self).has_room(),
            row.key() == old(self).next_key(),
        ensures
            final(self).inv(),
            final(self).rows() == old(self).rows().push(row),
            final(self).next_key() == old(self).next_key() + 1,
    {
        self.items.push(row);
        self.next_id = self.next_id + 1;
    }

    /// Puts `row` in the place of the row at index `at`, whose id it
    /// carries.
    pub fn replace(&mut self, at: usize, row: T)
        requires
            old(self).inv(),
            at < old(self).rows().len(),
            row.key() == old(self).rows()[at as int].key(),
        ensures
            final(self).inv(),
            final(self).rows() == old(self).rows().update(at as int, row),
            final(self).next_key() == old(self).next_key(),
    {
        self.items.set(at, row);
    }

    /// Takes out the row at index `at`; the rows behind it move up.
    pub fn remove(&mut self, at: usize)
        requires
            old(self).inv(),
            at < old(self).rows().len(),
        ensures
            final(self).inv(),
            final(self).rows() == old(self).rows().remove(at as int),
            final(self).next_key() == old(self).next_key(),
    {
        let _ = self.items.remove(at);
    }
}

} // verus!
