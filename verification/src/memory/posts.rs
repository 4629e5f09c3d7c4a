use vstd::prelude::*;
use vstd::string::*;

use crate::abstract_trait::post::PostsRepositoryTrait;
use crate::domain::request::{CreateCommentRequest, CreatePostRequest, UpdatePostRequest};
use crate::domain::response::PostRelationResponse;
use crate::entities::{spec_remarked, Comment, Post};
use crate::error::GatewayError;
use crate::memory::table::{CallCount, Table};
use crate::record::has_key;
use crate::relation::{flatten, join};

verus! {

/// The posts and the comments on them, kept in memory.
pub struct InMemoryPostRepository {
    posts: Table<Post>,
    remarks: Table<Comment>,
    calls_made: CallCount,
}

impl InMemoryPostRepository {
    /// The id that the next comment gets.
    pub closed spec fn next_comment_id(&self) -> int {
        self.remarks.next_key()
    }

    /// Whether an id is left for one more comment.
    pub open spec fn has_room_for_comment(&self) -> bool {
        self.next_comment_id() < i32::MAX
    }

    /// The id that the next post gets.
    pub closed spec fn next_id(&self) -> int {
        self.posts.next_key()
    }

    /// A gateway without posts and comments that no call was made on.
    pub fn new() -> (repository: Self)
        ensures
            repository.inv(),
            repository.rows() == Seq::<Post>::empty(),
            repository.comments() == Seq::<Comment>::empty(),
            repository.calls() == 0,
            repository.next_id() == 1,
            repository.next_comment_id() == 1,
    {
        InMemoryPostRepository {
            posts: Table::new(),
            remarks: Table::new(),
            calls_made: CallCount::new(),
        }
    }

    /// The number of calls made, as far as a `u64` can tell.
    pub fn call_count(&self) -> (n: u64)
        requires
            self.inv(),
        ensures
            n == CallCount::spec_shown(self.calls()),
    {
        self.calls_made.count()
    }

    /// The number of posts kept.
    pub fn len(&self) -> (n: usize)
        ensures
            n == self.rows().len(),
    {
        self.posts.len()
    }

    /// Keeps a new comment under the next id, at the end of the comments.
    /// The post that it names need not be there. No call is counted:
    /// comments come in by a gateway of their own. Answers `None`, and
    /// keeps nothing, only where no id is left.
    pub fn add_comment(&mut self, input: &CreateCommentRequest) -> (made: Option<Comment>)
        requires
            old(self).inv(),
        ensures
            final(self).inv(),
            final(self).rows() == old(self).rows(),
            final(self).calls() == old(self).calls(),
            final(self).next_id() == old(self).next_id(),
            made is Some <==> old(self).has_room_for_comment(),
            made matches Some(row) ==> row.id == old(self).next_comment_id(),
            made is Some ==> final(self).next_comment_id() == old(self).next_comment_id() + 1,
            made is None ==> final(self).comments() == old(self).comments(),
            made matches Some(row) ==> {
                &&& final(self).comments() == old(self).comments().push(row)
                &&& !has_key(old(self).comments(), row.id as int)
                &&& row == spec_remarked(row.id, *input)
            },
    {
        proof {
            self.remarks.lemma_inv();
        }
        match self.remarks.fresh_id() {
            Some(id) => {
                let row = Comment::remarked(id, input);
                let made = row.clone();
                self.remarks.insert(row);
                Some(made)
            },
            None => None,
        }
    }
}

impl PostsRepositoryTrait for InMemoryPostRepository {
    closed spec fn rows(&self) -> Seq<Post> {
        self.posts.rows()
    }

    closed spec fn comments(&self) -> Seq<Comment> {
        self.remarks.rows()
    }

    closed spec fn calls(&self) -> nat {
        self.calls_made.total()
    }

    /// Memory does not fail.
    open spec fn reliable(&self) -> bool {
        true
    }

    /// There is room while an id is left for one more post.
    open spec fn has_room(&self) -> bool {
        self.next_id() < i32::MAX
    }

    closed spec fn inv(&self) -> bool {
        self.posts.inv() && self.remarks.inv() && self.calls_made.inv()
    }

    proof fn lemma_unique(&self) {
        self.posts.lemma_inv();
    }

    fn get_all_posts(&mut self, page: i32, page_size: i32, search: Option<String>) -> (listed:
        Result<(Vec<Post>, i64), GatewayError>)
        ensures
            listed is Ok,
            final(self).next_id() == old(self).next_id(),
    {
        self.calls_made.bump();
        Ok(self.posts.list(page, page_size, search))
    }

    fn get_post(&mut self, post_id: i32) -> (found: Result<Option<Post>, GatewayError>)
        ensures
            found is Ok,
            final(self).next_id() == old(self).next_id(),
    {
        self.calls_made.bump();
        Ok(self.posts.get(post_id))
    }

    fn get_post_relation(&mut self, post_id: i32) -> (related: Result<
        Vec<PostRelationResponse>,
        GatewayError,
    >)
        ensures
            related is Ok,
            final(self).next_id() == old(self).next_id(),
    {
        self.calls_made.bump();
        let groups = join(self.posts.all(), self.remarks.all(), post_id);
        Ok(flatten(&groups))
    }

    /// Keeps a new post under the next id. Fails only where no id is left.
    fn create_post(&mut self, input: &CreatePostRequest) -> (made: Result<Post, GatewayError>)
        ensures
            made is Ok <==> old(self).has_room(),
            made matches Ok(row) ==> row.id == old(self).next_id() && final(self).next_id()
                == old(self).next_id() + 1,
            made is Err ==> final(self).next_id() == old(self).next_id(),
    {
        self.calls_made.bump();
        proof {
            self.posts.lemma_inv();
        }
        match self.posts.fresh_id() {
            Some(id) => {
                let row = Post::posted(id, input);
                let made = row.clone();
                self.posts.insert(row);
                Ok(made)
            },
            None => Err(GatewayError::Backend(String::from_str("no id is left for a post"))),
        }
    }

    fn update_post(&mut self, input: &UpdatePostRequest) -> (replaced: Result<Post, GatewayError>)
        ensures
            final(self).next_id() == old(self).next_id(),
    {
        self.calls_made.bump();
        let id = match input.post_id {
            Some(id) => id,
            None => {
                return Err(GatewayError::IdRequired);
            },
        };
        match self.posts.index_of(id) {
            Some(at) => {
                let row = self.posts.row_at(at).edited(input);
                let replaced = row.clone();
                self.posts.replace(at, row);
                Ok(replaced)
            },
            None => Err(GatewayError::RecordNotFound),
        }
    }

    fn delete_post(&mut self, post_id: i32) -> (removed: Result<(), GatewayError>)
        ensures
            final(self).next_id() == old(self).next_id(),
    {
        self.calls_made.bump();
        match self.posts.index_of(post_id) {
            Some(at) => {
                self.posts.remove(at);
                Ok(())
            },
            None => Err(GatewayError::RecordNotFound),
        }
    }
}

} // verus!
