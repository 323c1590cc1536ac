use vstd::prelude::*;

use crate::collection::{find_first, has_id, is_first_match, lemma_find_first};
use crate::handlers::show_outcome;
use crate::ident::{id_value, is_digit, unsigned_digits};
use crate::post::Post;
use crate::reply::{failure_reply_view, outcome_reply_view, Failure};

verus! {

/// The collection after each post of `order` has been appended to `start`, one
/// append at a time, in that order.
pub open spec fn after_appends(start: Seq<Post>, order: Seq<Post>) -> Seq<Post>
    decreases order.len(),
{
    if order.len() == 0 {
        start
    } else {
        after_appends(start, order.drop_last()).push(order.last())
    }
}

/// A collection loaded from `initial` and then copied out holds exactly the
/// posts of `initial`, field for field and in the same order.
pub proof fn lemma_load_exposes(initial: Seq<Post>, loaded: Seq<Post>, copied: Seq<Post>)
    requires
        loaded == initial,
        copied == loaded,
    ensures
        copied.len() == initial.len(),
        forall|i: int|
            0 <= i < initial.len() ==> {
                &&& (#[trigger] copied[i]).id == initial[i].id
                &&& copied[i].title@ == initial[i].title@
                &&& copied[i].content@ == initial[i].content@
            },
{
}

/// A page request whose segment names an identifier that some post carries is
/// answered with the first such post, and a rendered page for it is served with
/// status 200 and the page as body.
pub proof fn lemma_show_present(posts: Seq<Post>, segment: Seq<char>, id: usize, page: String)
    requires
        id_value(segment) == Some(id),
        has_id(posts, id),
    ensures
        show_outcome(posts, segment) matches Ok(p) && p.id == id && posts.contains(p)
            && exists|i: int| is_first_match(posts, id, i) && #[trigger] posts[i] == p,
        outcome_reply_view(Ok(page)).status == 200,
        outcome_reply_view(Ok(page)).body == page@,
{
    lemma_find_first(posts, id);
    if let Some(p) = find_first(posts, id) {
        let i = choose|i: int| is_first_match(posts, id, i) && #[trigger] posts[i] == p;
        assert(posts[i] == p);
    }
}

/// A page request whose segment names an identifier that no post carries is
/// answered with status 404 and the plain text `Post not found`.
pub proof fn lemma_show_absent(posts: Seq<Post>, segment: Seq<char>, id: usize)
    requires
        id_value(segment) == Some(id),
        !has_id(posts, id),
    ensures
        show_outcome(posts, segment) == Err::<Post, Failure>(Failure::NotFound),
        failure_reply_view(Failure::NotFound).status == 404,
        failure_reply_view(Failure::NotFound).body == "Post not found"@,
{
    lemma_find_first(posts, id);
}

/// After a post is appended, a listing holds one post more than before, keeps
/// the earlier posts in place, and shows the new post last.
pub proof fn lemma_read_after_write(before: Seq<Post>, post: Post, after: Seq<Post>)
    requires
        after == before.push(post),
    ensures
        after.len() == before.len() + 1,
        after.contains(post),
        after.last() == post,
        after.subrange(0, before.len() as int) == before,
{
    assert(after[before.len() as int] == post);
    assert(after.subrange(0, before.len() as int) =~= before);
}

proof fn lemma_after_appends_concat(start: Seq<Post>, order: Seq<Post>)
    ensures
        after_appends(start, order) == start + order,
    decreases order.len(),
{
    if order.len() > 0 {
        lemma_after_appends_concat(start, order.drop_last());
        assert(start + order =~= (start + order.drop_last()).push(order.last()));
    }
}

/// Appending a batch of posts to an empty collection, one at a time and in any
/// order, leaves exactly the batch: as many posts as it has, none lost, none
/// repeated.
pub proof fn lemma_no_lost_update(batch: Seq<Post>, order: Seq<Post>)
    requires
        order.to_multiset() == batch.to_multiset(),
    ensures
        after_appends(Seq::empty(), order).len() == batch.len(),
        after_appends(Seq::empty(), order).to_multiset() == batch.to_multiset(),
        forall|p: Post| batch.contains(p) ==> #[trigger] after_appends(Seq::empty(), order).contains(p),
{
    lemma_after_appends_concat(Seq::empty(), order);
    assert(Seq::<Post>::empty() + order =~= order);
    order.to_multiset_ensures();
    batch.to_multiset_ensures();
    assert forall|p: Post| batch.contains(p) implies #[trigger] after_appends(
        Seq::empty(),
        order,
    ).contains(p) by {
        assert(batch.to_multiset().count(p) > 0);
        assert(order.to_multiset().count(p) > 0);
    }
}

/// A page request whose segment holds a character that is not a decimal digit
/// (other than one leading plus sign), or no digit at all, is rejected as a
/// client error with status 400.
pub proof fn lemma_show_non_numeric(posts: Seq<Post>, segment: Seq<char>)
    requires
        unsigned_digits(segment).len() == 0 || exists|i: int|
            0 <= i < segment.len() && !is_digit(#[trigger] segment[i]) && !(i == 0
                && segment[i] == '+'),
    ensures
        show_outcome(posts, segment) == Err::<Post, Failure>(Failure::BadRequest),
        failure_reply_view(Failure::BadRequest).status == 400,
{
    let d = unsigned_digits(segment);
    if d.len() > 0 {
        let i = choose|i: int|
            0 <= i < segment.len() && !is_digit(#[trigger] segment[i]) && !(i == 0
                && segment[i] == '+');
        if segment[0] == '+' {
            assert(!is_digit(d[i - 1]));
        } else {
            assert(!is_digit(d[i]));
        }
    }
}

} // verus!
