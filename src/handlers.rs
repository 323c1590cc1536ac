use vstd::prelude::*;

use crate::collection::{find_first, Collection};
use crate::ident::{id_value, parse_id};
use crate::post::Post;
use crate::reply::{created_reply, created_reply_view, Failure, Reply};

verus! {

/// What a request for the post page named by `segment` comes to: the post to
/// show, a rejected segment, or an identifier that no post carries.
pub open spec fn show_outcome(posts: Seq<Post>, segment: Seq<char>) -> Result<Post, Failure> {
    match id_value(segment) {
        None => Err(Failure::BadRequest),
        Some(id) => match find_first(posts, id) {
            Some(p) => Ok(p),
            None => Err(Failure::NotFound),
        },
    }
}

impl Collection {
    /// Picks the post that a page request names by its path segment.
    pub fn locate(&self, segment: &str) -> (r: Result<Post, Failure>)
        ensures
            r == show_outcome(self@, segment@),
    {
        match parse_id(segment) {
            None => Err(Failure::BadRequest),
            Some(id) => match self.find_by_id(id) {
                Some(p) => Ok(p),
                None => Err(Failure::NotFound),
            },
        }
    }

    /// Accepts a submitted post: it goes after every post already held, and the
    /// reply announces the addition.
    pub fn create(&mut self, post: Post) -> (r: Reply)
        ensures
            final(self)@ == old(self)@.push(post),
            r@ == created_reply_view(),
    {
        self.append(post);
        created_reply()
    }
}

} // verus!
