use vstd::prelude::*;
use vstd::string::*;

use crate::abstract_trait::category::CategoryRepositoryTrait;
use crate::domain::request::{CreateCategoryRequest, UpdateCategoryRequest};
use crate::entities::Category;
use crate::error::GatewayError;
use crate::memory::table::{CallCount, Table};

verus! {

/// The categories, kept in memory.
pub struct InMemoryCategoryRepository {
    table: Table<Category>,
    calls_made: CallCount,
}

impl InMemoryCategoryRepository {
    /// The id that the next category gets.
    pub closed spec fn next_id(&self) -> int {
        self.table.next_key()
    }

    /// A gateway without categories that no call was made on.
    pub fn new() -> (repository: Self)
        ensures
            repository.inv(),
            repository.rows() == Seq::<Category>::empty(),
            repository.calls() == 0,
            repository.next_id() == 1,
    {
        InMemoryCategoryRepository { table: Table::new(), calls_made: CallCount::new() }
    }

    /// The number of calls made, as far as a `u64` can tell.
    pub fn call_count(&self) -> (n: u64)
        requires
            self.inv(),
        ensures
            n == CallCount::spec_shown(self.calls()),
    {
        self.calls_made.count()
    }

    /// The number of categories kept.
    pub fn len(&self) -> (n: usize)
        ensures
            n == self.rows().len(),
    {
        self.table.len()
    }
}

impl CategoryRepositoryTrait for InMemoryCategoryRepository {
    closed spec fn rows(&self) -> Seq<Category> {
        self.table.rows()
    }

    closed spec fn calls(&self) -> nat {
        self.calls_made.total()
    }

    /// Memory does not fail.
    open spec fn reliable(&self) -> bool {
        true
    }

    /// There is room while an id is left for one more category.
    open spec fn has_room(&self) -> bool {
        self.next_id() < i32::MAX
    }

    closed spec fn inv(&self) -> bool {
        self.table.inv() && self.calls_made.inv()
    }

    proof fn lemma_unique(&self) {
        self.table.lemma_inv();
    }

    fn find_all(&mut self, page: i32, page_size: i32, search: Option<String>) -> (listed: Result<
        (Vec<Category>, i64),
        GatewayError,
    >)
        ensures
            listed is Ok,
            final(self).next_id() == old(self).next_id(),
    {
        self.calls_made.bump();
        Ok(self.table.list(page, page_size, search))
    }

    fn find_by_id(&mut self, id: i32) -> (found: Result<Option<Category>, GatewayError>)
        ensures
            found is Ok,
            final(self).next_id() == old(self).next_id(),
    {
        self.calls_made.bump();
        Ok(self.table.get(id))
    }

    /// Keeps a new category under the next id. Fails only where no id is
    /// left.
    fn create(&mut self, input: &CreateCategoryRequest) -> (made: Result<Category, GatewayError>)
        ensures
            made is Ok <==> old(self).has_room(),
            made matches Ok(row) ==> row.id == old(self).next_id() && final(self).next_id()
                == old(self).next_id() + 1,
            made is Err ==> final(self).next_id() == old(self).next_id(),
    {
        self.calls_made.bump();
        proof {
            self.table.lemma_inv();
        }
        match self.table.fresh_id() {
            Some(id) => {
                let row = Category::named(id, input);
                let made = row.clone();
                self.table.insert(row);
                Ok(made)
            },
            None => Err(GatewayError::Backend(String::from_str("no id is left for a category"))),
        }
    }

    fn update(&mut self, input: &UpdateCategoryRequest) -> (replaced: Result<
        Category,
        GatewayError,
    >)
        ensures
            final(self).next_id() == old(self).next_id(),
    {
        self.calls_made.bump();
        let id = match input.id {
            Some(id) => id,
            None => {
                return Err(GatewayError::IdRequired);
            },
        };
        match self.table.index_of(id) {
            Some(at) => {
                let row = self.table.row_at(at).renamed(input);
                let replaced = row.clone();
                self.table.replace(at, row);
                Ok(replaced)
            },
            None => Err(GatewayError::RecordNotFound),
        }
    }

    fn delete(&mut self, id: i32) -> (removed: Result<(), GatewayError>)
        ensures
            final(self).next_id() == old(self).next_id(),
    {
        self.calls_made.bump();
        match self.table.index_of(id) {
            Some(at) => {
                self.table.remove(at);
                Ok(())
            },
            None => Err(GatewayError::RecordNotFound),
        }
    }
}

} // verus!
