//! The join of posts with their comments, and its flattening into one row
//! per comment.

use vstd::prelude::*;

use crate::domain::response::PostRelationResponse;
use crate::entities::{Comment, Post};
use crate::record::{has_key, unique_keys, Record};

verus! {

/// The comments that belong to the post `post_id`, in the order of the
/// store.
pub open spec fn comments_of(comments: Seq<Comment>, post_id: int) -> Seq<Comment> {
    comments.filter(|c: Comment| c.id_post_comment == post_id)
}

/// The rows that one post gives: one per comment, in the order of the
/// comments, each pairing the post with that comment.
pub open spec fn rows_of(post: Post, comments: Seq<Comment>) -> Seq<PostRelationResponse> {
    Seq::new(
        comments.len(),
        |i: int| PostRelationResponse::spec_from_post_and_comment(post, comments[i]),
    )
}

/// The posts with the id `post_id`, each with its comments.
pub open spec fn spec_join(posts: Seq<Post>, comments: Seq<Comment>, post_id: int) -> Seq<
    (Post, Seq<Comment>),
> {
    posts.filter(|p: Post| p.id == post_id).map_values(
        |p: Post| (p, comments_of(comments, post_id)),
    )
}

/// The rows of all groups, group after group.
pub open spec fn spec_flatten(groups: Seq<(Post, Seq<Comment>)>) -> Seq<PostRelationResponse>
    decreases groups.len(),
{
    if groups.len() == 0 {
        Seq::empty()
    } else {
        spec_flatten(groups.drop_last()) + rows_of(groups.last().0, groups.last().1)
    }
}

/// The rows that the post `post_id` gives among `posts` and `comments`.
pub open spec fn spec_relation(posts: Seq<Post>, comments: Seq<Comment>, post_id: int) -> Seq<
    PostRelationResponse,
> {
    spec_flatten(spec_join(posts, comments, post_id))
}

/// The groups of a joined result as values: each post with the sequence of
/// its comments.
pub open spec fn groups_view(groups: Seq<(Post, Vec<Comment>)>) -> Seq<(Post, Seq<Comment>)> {
    groups.map_values(|g: (Post, Vec<Comment>)| (g.0, g.1@))
}

/// The comments of `comments` that belong to the post `post_id`, copied in
/// order.
pub fn select_comments(comments: &Vec<Comment>, post_id: i32) -> (own: Vec<Comment>)
    ensures
        own@ == comments_of(comments@, post_id as int),
{
    let mut own: Vec<Comment> = Vec::new();
    let mut i: usize = 0;
    let ghost keep = |c: Comment| c.id_post_comment == post_id as int;
    while i < comments.len()
        invariant
            i <= comments.len(),
            keep == |c: Comment| c.id_post_comment == post_id as int,
            own@ == comments@.subrange(0, i as int).filter(keep),
        decreases comments.len() - i,
    {
        proof {
            let upto = comments@.subrange(0, i + 1);
            assert(upto.drop_last() =~= comments@.subrange(0, i as int));
            assert(upto.last() == comments@[i as int]);
            reveal_with_fuel(Seq::filter, 2);
        }
        if comments[i].id_post_comment == post_id {
            own.push(comments[i].clone());
        }
        i = i + 1;
    }
    assert(comments@.subrange(0, i as int) =~= comments@);
    own
}

/// Joins the posts that have the id `post_id` with their comments.
pub fn join(posts: &Vec<Post>, comments: &Vec<Comment>, post_id: i32) -> (groups: Vec<
    (Post, Vec<Comment>),
>)
    ensures
        groups_view(groups@) == spec_join(posts@, comments@, post_id as int),
{
    let mut groups: Vec<(Post, Vec<Comment>)> = Vec::new();
    let mut i: usize = 0;
    let ghost keep = |p: Post| p.id == post_id as int;
    let ghost pair = |p: Post| (p, comments_of(comments@, post_id as int));
    while i < posts.len()
        invariant
            i <= posts.len(),
            keep == |p: Post| p.id == post_id as int,
            pair == |p: Post| (p, comments_of(comments@, post_id as int)),
            groups_view(groups@) == posts@.subrange(0, i as int).filter(keep).map_values(pair),
        decreases posts.len() - i,
    {
        proof {
            let upto = posts@.subrange(0, i + 1);
            assert(upto.drop_last() =~= posts@.subrange(0, i as int));
            assert(upto.last() == posts@[i as int]);
            reveal_with_fuel(Seq::filter, 2);
        }
        if posts[i].id == post_id {
            let ghost before = groups@;
            let own = select_comments(comments, post_id);
            groups.push((posts[i].clone(), own));
            assert(groups_view(groups@) =~= groups_view(before).push(pair(posts@[i as int])));
            assert(posts@.subrange(0, i + 1).filter(keep).map_values(pair) =~= posts@.subrange(
                0,
                i as int,
            ).filter(keep).map_values(pair).push(pair(posts@[i as int])));
        }
        i = i + 1;
    }
    assert(posts@.subrange(0, i as int) =~= posts@);
    groups
}

/// Flattens joined posts into one row per comment: the rows of the first
/// post in the order of its comments, then those of the next. A post
/// without comments gives no row.
pub fn flatten(groups: &Vec<(Post, Vec<Comment>)>) -> (rows: Vec<PostRelationResponse>)
    ensures
        rows@ == spec_flatten(groups_view(groups@)),
{
    let mut rows: Vec<PostRelationResponse> = Vec::new();
    let mut g: usize = 0;
    while g < groups.len()
        invariant
            g <= groups.len(),
            rows@ == spec_flatten(groups_view(groups@).subrange(0, g as int)),
        decreases groups.len() - g,
    {
        let group = &groups[g];
        let ghost before = rows@;
        let mut c: usize = 0;
        while c < group.1.len()
            invariant
                c <= group.1.len(),
                rows@ == before + rows_of(group.0, group.1@.subrange(0, c as int)),
            decreases group.1.len() - c,
        {
            rows.push(PostRelationResponse::from_post_and_comment(&group.0, &group.1[c]));
            assert(rows@ =~= before + rows_of(group.0, group.1@.subrange(0, c + 1)));
            c = c + 1;
        }
        proof {
            assert(group.1@.subrange(0, c as int) =~= group.1@);
            let upto = groups_view(groups@).subrange(0, g + 1);
            assert(upto.drop_last() =~= groups_view(groups@).subrange(0, g as int));
            assert(upto.last() == (group.0, group.1@));
        }
        g = g + 1;
    }
    assert(groups_view(groups@).subrange(0, g as int) =~= groups_view(groups@));
    rows
}

/// One group gives the rows of its post.
pub proof fn lemma_flatten_one(post: Post, comments: Seq<Comment>)
    ensures
        spec_flatten(seq![(post, comments)]) == rows_of(post, comments),
{
    let groups = seq![(post, comments)];
    assert(groups.drop_last() =~= Seq::<(Post, Seq<Comment>)>::empty());
    assert(spec_flatten(groups.drop_last()) == Seq::<PostRelationResponse>::empty());
    assert(spec_flatten(groups) =~= rows_of(post, comments));
}

/// Where no post has the id, the join finds nothing.
pub proof fn lemma_join_of_missing_post(posts: Seq<Post>, comments: Seq<Comment>, post_id: int)
    requires
        !has_key(posts, post_id),
    ensures
        spec_join(posts, comments, post_id) == Seq::<(Post, Seq<Comment>)>::empty(),
{
    let keep = |p: Post| p.id == post_id;
    let found = posts.filter(keep);
    if found.len() > 0 {
        let first = found[0];
        posts.lemma_filter_pred(keep, 0);
        assert(found.contains(first));
        posts.lemma_filter_contains_rev(keep, first);
        let at = choose|i: int| 0 <= i < posts.len() && posts[i] == first;
        assert(posts[at].key() == post_id);
    }
    assert(spec_join(posts, comments, post_id) =~= Seq::<(Post, Seq<Comment>)>::empty());
}

/// Where ids are unique, the join finds the post with the id, once, with
/// its comments.
pub proof fn lemma_join_of_post(posts: Seq<Post>, comments: Seq<Comment>, at: int)
    requires
        unique_keys(posts),
        0 <= at < posts.len(),
    ensures
        spec_join(posts, comments, posts[at].id as int) == seq![
            (posts[at], comments_of(comments, posts[at].id as int)),
        ],
    decreases posts.len(),
{
    let post_id = posts[at].id as int;
    let keep = |p: Post| p.id == post_id;
    let rest = posts.drop_last();
    reveal_with_fuel(Seq::filter, 2);
    if at == posts.len() - 1 {
        assert forall|i: int| 0 <= i < rest.len() implies #[trigger] rest[i].key() != post_id by {
            assert(posts[i].key() != posts[at].key());
        }
        lemma_join_of_missing_post(rest, comments, post_id);
        assert(rest.filter(keep).len() == 0) by {
            assert(spec_join(rest, comments, post_id).len() == rest.filter(keep).len());
        }
        assert(posts.filter(keep) =~= seq![posts[at]]);
    } else {
        assert(rest[at] == posts[at]);
        assert(unique_keys(rest)) by {
            assert forall|i: int, j: int| 0 <= i < j < rest.len() implies rest[i].key()
                != rest[j].key() by {
                assert(posts[i].key() != posts[j].key());
            }
        }
        lemma_join_of_post(rest, comments, at);
        assert(posts[at].key() != posts.last().key());
        assert(posts.filter(keep) == rest.filter(keep));
        assert(rest.filter(keep).len() == 1) by {
            assert(spec_join(rest, comments, post_id).len() == rest.filter(keep).len());
        }
        assert(rest.filter(keep)[0] == posts[at]) by {
            assert(spec_join(rest, comments, post_id)[0].0 == rest.filter(keep)[0]);
        }
        assert(posts.filter(keep) =~= seq![posts[at]]);
    }
    assert(spec_join(posts, comments, post_id) =~= seq![
        (posts[at], comments_of(comments, post_id)),
    ]);
}

/// A post with N comments gives exactly N rows: the row at each index pairs
/// the post with its comment at that index, in the order of the store. So
/// no comment of the post is left out, none appears twice, and no comment
/// of another post appears.
pub proof fn lemma_relation_of_post(posts: Seq<Post>, comments: Seq<Comment>, at: int)
    requires
        unique_keys(posts),
        0 <= at < posts.len(),
    ensures
        spec_relation(posts, comments, posts[at].id as int) == rows_of(
            posts[at],
            comments_of(comments, posts[at].id as int),
        ),
        spec_relation(posts, comments, posts[at].id as int).len() == comments_of(
            comments,
            posts[at].id as int,
        ).len(),
        forall|i: int|
            0 <= i < comments_of(comments, posts[at].id as int).len() ==> #[trigger] spec_relation(
                posts,
                comments,
                posts[at].id as int,
            )[i] == PostRelationResponse::spec_from_post_and_comment(
                posts[at],
                comments_of(comments, posts[at].id as int)[i],
            ),
{
    lemma_join_of_post(posts, comments, at);
    lemma_flatten_one(posts[at], comments_of(comments, posts[at].id as int));
}

/// The comments of a post are those of the store that name it: each is in
/// the store and names the post, and every comment of the store that names
/// the post is among them.
pub proof fn lemma_comments_of(comments: Seq<Comment>, post_id: int)
    ensures
        forall|i: int|
            0 <= i < comments_of(comments, post_id).len() ==> {
                &&& (#[trigger] comments_of(comments, post_id)[i]).id_post_comment == post_id
                &&& comments.contains(comments_of(comments, post_id)[i])
            },
        forall|k: int|
            0 <= k < comments.len() && (#[trigger] comments[k]).id_post_comment == post_id
                ==> comments_of(comments, post_id).contains(comments[k]),
{
    let keep = |c: Comment| c.id_post_comment == post_id;
    let own = comments_of(comments, post_id);
    assert forall|i: int| 0 <= i < own.len() implies (#[trigger] own[i]).id_post_comment
        == post_id && comments.contains(own[i]) by {
        comments.lemma_filter_pred(keep, i);
        assert(own.contains(own[i]));
        comments.lemma_filter_contains_rev(keep, own[i]);
    }
    assert forall|k: int|
        0 <= k < comments.len() && (#[trigger] comments[k]).id_post_comment
            == post_id implies own.contains(comments[k]) by {
        comments.lemma_filter_contains(keep, k);
    }
}

/// A post that is not there gives no rows.
pub proof fn lemma_relation_of_missing_post(posts: Seq<Post>, comments: Seq<Comment>, post_id: int)
    requires
        !has_key(posts, post_id),
    ensures
        spec_relation(posts, comments, post_id) == Seq::<PostRelationResponse>::empty(),
{
    lemma_join_of_missing_post(posts, comments, post_id);
}

/// A post without comments gives no rows, as a post that is not there
/// does: the rows alone do not tell the two apart.
pub proof fn lemma_relation_without_comments(
    posts: Seq<Post>,
    comments: Seq<Comment>,
    post_id: int,
)
    requires
        unique_keys(posts),
        comments_of(comments, post_id).len() == 0,
    ensures
        spec_relation(posts, comments, post_id) == Seq::<PostRelationResponse>::empty(),
{
    if has_key(posts, post_id) {
        let at = choose|i: int| 0 <= i < posts.len() && #[trigger] posts[i].key() == post_id;
        lemma_relation_of_post(posts, comments, at);
        assert(spec_relation(posts, comments, post_id) =~= Seq::<PostRelationResponse>::empty());
    } else {
        lemma_relation_of_missing_post(posts, comments, post_id);
    }
}

} // verus!
