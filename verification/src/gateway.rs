//! What a persistence gateway owes its callers, said once for the rows of
//! any resource: what a listing, a lookup and a removal may answer, given
//! the rows that the store held.

use vstd::prelude::*;

use crate::error::GatewayError;
use crate::pagination::is_listing;
use crate::record::{
    has_key, lemma_position_unique, position_of, row_with_key, unique_keys, Record,
};

verus! {

/// What a listing may answer over `rows`: the page and the count of the
/// rows that the search keeps, or a failure of the store; and a reliable
/// store does not fail.
pub open spec fn is_listed<T: Record>(
    rows: Seq<T>,
    term: Option<Seq<char>>,
    page: int,
    page_size: int,
    listed: Result<(Seq<T>, int), GatewayError>,
    reliable: bool,
) -> bool {
    match listed {
        Ok(listing) => is_listing(rows, term, page, page_size, listing.0, listing.1),
        Err(e) => e is Backend && !reliable,
    }
}

/// What a lookup of `id` may answer over `rows`: the row with that id, or
/// that there is none, or a failure of the store; and a reliable store does
/// not fail.
pub open spec fn is_found<T: Record>(
    rows: Seq<T>,
    id: int,
    found: Result<Option<T>, GatewayError>,
    reliable: bool,
) -> bool {
    match found {
        Ok(row) => row == row_with_key(rows, id),
        Err(e) => e is Backend && !reliable,
    }
}

/// What the removal of `id` may answer, and what it leaves of the rows
/// `before`: on success the row with that id is gone and the others stay in
/// order; otherwise nothing changes, `RecordNotFound` says that no row has
/// that id, and a reliable store fails in no other way.
pub open spec fn is_removed<T: Record>(
    before: Seq<T>,
    after: Seq<T>,
    id: int,
    removed: Result<(), GatewayError>,
    reliable: bool,
) -> bool {
    match removed {
        Ok(_) => has_key(before, id) && after == before.remove(position_of(before, id)),
        Err(e) => after == before && match e {
            GatewayError::RecordNotFound => !has_key(before, id),
            GatewayError::IdRequired => false,
            GatewayError::Backend(_) => !reliable,
        },
    }
}

/// What an insertion may answer, and what it leaves of the rows `before`:
/// on success the new row, under an id that no row had, at the end of the
/// rows; otherwise a failure of the store, and nothing changes.
pub open spec fn is_inserted<T: Record>(
    before: Seq<T>,
    after: Seq<T>,
    made: Result<T, GatewayError>,
) -> bool {
    match made {
        Ok(row) => !has_key(before, row.key()) && after == before.push(row),
        Err(e) => e is Backend && after == before,
    }
}

/// What a change may answer, and what it leaves of the rows `before`. A
/// change without an id is refused with `IdRequired`. On success the row
/// with that id is replaced, in its place, by `changed(row)`; otherwise
/// nothing changes, and no row is ever added. `RecordNotFound` says that no
/// row has that id, and a reliable store fails in no other way.
pub open spec fn is_replaced<T: Record>(
    before: Seq<T>,
    after: Seq<T>,
    id: Option<i32>,
    changed: spec_fn(T) -> T,
    replaced: Result<T, GatewayError>,
    reliable: bool,
) -> bool {
    match id {
        None => replaced == Err::<T, GatewayError>(GatewayError::IdRequired) && after == before,
        Some(id) => match replaced {
            Ok(row) => {
                &&& has_key(before, id as int)
                &&& row == changed(before[position_of(before, id as int)])
                &&& after == before.update(position_of(before, id as int), row)
            },
            Err(e) => after == before && match e {
                GatewayError::RecordNotFound => !has_key(before, id as int),
                GatewayError::IdRequired => false,
                GatewayError::Backend(_) => !reliable,
            },
        },
    }
}

/// A row that was inserted is found under its id from then on, every row
/// that was there is still found under its own, and ids stay unique.
pub proof fn lemma_inserted_is_found<T: Record>(before: Seq<T>, after: Seq<T>, row: T, id: int)
    requires
        unique_keys(before),
        is_inserted(before, after, Ok(row)),
    ensures
        unique_keys(after),
        row_with_key(after, row.key()) == Some(row),
        id != row.key() ==> row_with_key(after, id) == row_with_key(before, id),
{
    let at = before.len() as int;
    assert(after[at] == row);
    assert forall|i: int, j: int| 0 <= i < j < after.len() implies after[i].key() != after[j].key() by {
        if j == at {
            assert(before[i].key() != row.key());
        } else {
            assert(before[i].key() != before[j].key());
        }
    }
    lemma_position_unique(after, at);
    if id != row.key() {
        if has_key(before, id) {
            let p = position_of(before, id);
            assert(after[p] == before[p]);
            lemma_position_unique(after, p);
        } else {
            assert forall|i: int| 0 <= i < after.len() implies #[trigger] after[i].key() != id by {
                if i < at {
                    assert(before[i].key() != id);
                }
            }
        }
    }
}

/// After a change that keeps the id, the changed row is found under that
/// id, every other row is found as before, no row was added, and ids stay
/// unique.
pub proof fn lemma_replaced_is_found<T: Record>(
    before: Seq<T>,
    after: Seq<T>,
    id: i32,
    changed: spec_fn(T) -> T,
    row: T,
    reliable: bool,
    other: int,
)
    requires
        unique_keys(before),
        is_replaced(before, after, Some(id), changed, Ok(row), reliable),
        row.key() == id,
    ensures
        unique_keys(after),
        after.len() == before.len(),
        row_with_key(after, id as int) == Some(row),
        other != id ==> row_with_key(after, other) == row_with_key(before, other),
{
    let at = position_of(before, id as int);
    assert(0 <= at < before.len() && before[at].key() == id);
    assert forall|i: int| 0 <= i < after.len() implies #[trigger] after[i].key()
        == before[i].key() by {
        if i != at {
            assert(after[i] == before[i]);
        }
    }
    assert forall|i: int, j: int| 0 <= i < j < after.len() implies after[i].key() != after[j].key() by {
        assert(before[i].key() != before[j].key());
    }
    lemma_position_unique(after, at);
    if other != id {
        if has_key(before, other) {
            let p = position_of(before, other);
            assert(after[p] == before[p]);
            lemma_position_unique(after, p);
        } else {
            assert forall|i: int| 0 <= i < after.len() implies #[trigger] after[i].key()
                != other by {
                assert(before[i].key() != other);
            }
        }
    }
}

/// After a removal no row has the id any more, every other row is found as
/// before, and ids stay unique.
pub proof fn lemma_removed_is_gone<T: Record>(
    before: Seq<T>,
    after: Seq<T>,
    id: int,
    reliable: bool,
    other: int,
)
    requires
        unique_keys(before),
        is_removed(before, after, id, Ok(()), reliable),
    ensures
        unique_keys(after),
        after.len() + 1 == before.len(),
        !has_key(after, id),
        other != id ==> row_with_key(after, other) == row_with_key(before, other),
{
    let at = position_of(before, id);
    assert(0 <= at < before.len() && before[at].key() == id);
    assert forall|i: int| 0 <= i < after.len() implies #[trigger] after[i] == before[if i < at {
        i
    } else {
        i + 1
    }] by {}
    assert forall|i: int, j: int| 0 <= i < j < after.len() implies after[i].key() != after[j].key() by {
        let bi = if i < at { i } else { i + 1 };
        let bj = if j < at { j } else { j + 1 };
        assert(before[bi].key() != before[bj].key());
    }
    assert forall|i: int| 0 <= i < after.len() implies #[trigger] after[i].key() != id by {
        let bi = if i < at { i } else { i + 1 };
        if bi < at {
            assert(before[bi].key() != before[at].key());
        } else {
            assert(before[at].key() != before[bi].key());
        }
    }
    if other != id {
        if has_key(before, other) {
            let p = position_of(before, other);
            assert(p != at);
            let q = if p < at { p } else { p - 1 };
            assert(after[q] == before[p]);
            lemma_position_unique(after, q);
        } else {
            assert forall|i: int| 0 <= i < after.len() implies #[trigger] after[i].key()
                != other by {
                let bi = if i < at { i } else { i + 1 };
                assert(before[bi].key() != other);
            }
        }
    }
}

} // verus!
