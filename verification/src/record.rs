//! What the rows of every resource have in common: an id that tells them
//! apart, and a text that a search looks in.

use vstd::prelude::*;

use crate::entities::{Category, Comment, Post, User};
use crate::text::{contains, is_substring};

verus! {

/// A row of a resource.
pub trait Record: Sized {
    /// The id of this row.
    spec fn key(&self) -> int;

    /// The text that a search term is looked for in.
    spec fn search_text(&self) -> Seq<char>;

    /// The id of this row.
    fn id(&self) -> (id: i32)
        ensures
            id == self.key(),
    ;

    /// Whether `term` stands in the searched text of this row.
    fn matches(&self, term: &str) -> (found: bool)
        ensures
            found == is_substring(term@, self.search_text()),
    ;

    /// A copy of this row.
    fn duplicate(&self) -> (copy: Self)
        ensures
            copy == *self,
    ;
}

/// No two rows have the same id.
pub open spec fn unique_keys<T: Record>(rows: Seq<T>) -> bool {
    forall|i: int, j: int| 0 <= i < j < rows.len() ==> rows[i].key() != rows[j].key()
}

/// Some row has the id `id`.
pub open spec fn has_key<T: Record>(rows: Seq<T>, id: int) -> bool {
    exists|i: int| 0 <= i < rows.len() && #[trigger] rows[i].key() == id
}

/// The index of a row with the id `id`, where there is one.
pub open spec fn position_of<T: Record>(rows: Seq<T>, id: int) -> int {
    choose|i: int| 0 <= i < rows.len() && #[trigger] rows[i].key() == id
}

/// The row with the id `id`, if there is one.
pub open spec fn row_with_key<T: Record>(rows: Seq<T>, id: int) -> Option<T> {
    if has_key(rows, id) {
        Some(rows[position_of(rows, id)])
    } else {
        None
    }
}

/// Where ids are unique, the row with a given id stands at one index only.
pub proof fn lemma_position_unique<T: Record>(rows: Seq<T>, at: int)
    requires
        unique_keys(rows),
        0 <= at < rows.len(),
    ensures
        has_key(rows, rows[at].key()),
        position_of(rows, rows[at].key()) == at,
{
    let id = rows[at].key();
    assert(rows[at].key() == id);
    let p = position_of(rows, id);
    assert(0 <= p < rows.len() && rows[p].key() == id);
    if p < at {
        assert(rows[p].key() != rows[at].key());
    } else if at < p {
        assert(rows[at].key() != rows[p].key());
    }
}

/// Categories are searched by name, character for character.
impl Record for Category {
    open spec fn key(&self) -> int {
        self.id as int
    }

    open spec fn search_text(&self) -> Seq<char> {
        self.name@
    }

    fn id(&self) -> (id: i32) {
        self.id
    }

    fn matches(&self, term: &str) -> (found: bool) {
        contains(self.name.as_str(), term)
    }

    fn duplicate(&self) -> (copy: Self) {
        self.clone()
    }
}

/// Posts are searched by title, character for character.
impl Record for Post {
    open spec fn key(&self) -> int {
        self.id as int
    }

    open spec fn search_text(&self) -> Seq<char> {
        self.title@
    }

    fn id(&self) -> (id: i32) {
        self.id
    }

    fn matches(&self, term: &str) -> (found: bool) {
        contains(self.title.as_str(), term)
    }

    fn duplicate(&self) -> (copy: Self) {
        self.clone()
    }
}

/// Comments are searched by their text, character for character.
impl Record for Comment {
    open spec fn key(&self) -> int {
        self.id as int
    }

    open spec fn search_text(&self) -> Seq<char> {
        self.comment@
    }

    fn id(&self) -> (id: i32) {
        self.id
    }

    fn matches(&self, term: &str) -> (found: bool) {
        contains(self.comment.as_str(), term)
    }

    fn duplicate(&self) -> (copy: Self) {
        self.clone()
    }
}

/// Users are searched by email address, character for character.
impl Record for User {
    open spec fn key(&self) -> int {
        self.id as int
    }

    open spec fn search_text(&self) -> Seq<char> {
        self.email@
    }

    fn id(&self) -> (id: i32) {
        self.id
    }

    fn matches(&self, term: &str) -> (found: bool) {
        contains(self.email.as_str(), term)
    }

    fn duplicate(&self) -> (copy: Self) {
        self.clone()
    }
}

} // verus!
