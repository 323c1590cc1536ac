use vstd::prelude::*;

use crate::post::Post;

verus! {

/// The first post in `s` whose identifier is `id`, scanning from the front.
pub open spec fn find_first(s: Seq<Post>, id: usize) -> Option<Post>
    decreases s.len(),
{
    if s.len() == 0 {
        None
    } else if s[0].id == id {
        Some(s[0])
    } else {
        find_first(s.drop_first(), id)
    }
}

/// Whether some post of `s` carries the identifier `id`.
pub open spec fn has_id(s: Seq<Post>, id: usize) -> bool {
    exists|i: int| 0 <= i < s.len() && #[trigger] s[i].id == id
}

/// `i` is the position of the first post of `s` that carries `id`.
pub open spec fn is_first_match(s: Seq<Post>, id: usize, i: int) -> bool {
    &&& 0 <= i < s.len()
    &&& s[i].id == id
    &&& forall|j: int| 0 <= j < i ==> #[trigger] s[j].id != id
}

/// The front-to-back scan finds nothing exactly when no post carries `id`, and
/// otherwise finds the post at the first position that does.
pub proof fn lemma_find_first(s: Seq<Post>, id: usize)
    ensures
        find_first(s, id) is None <==> !has_id(s, id),
        find_first(s, id) matches Some(p) ==> exists|i: int|
            is_first_match(s, id, i) && #[trigger] s[i] == p,
    decreases s.len(),
{
    if s.len() > 0 && s[0].id != id {
        let t = s.drop_first();
        lemma_find_first(t, id);
        if has_id(s, id) {
            let i = choose|i: int| 0 <= i < s.len() && #[trigger] s[i].id == id;
            assert(t[i - 1].id == id);
        }
        if has_id(t, id) {
            let k = choose|k: int| 0 <= k < t.len() && #[trigger] t[k].id == id;
            assert(s[k + 1].id == id);
        }
        if let Some(p) = find_first(t, id) {
            let k = choose|k: int| is_first_match(t, id, k) && #[trigger] t[k] == p;
            assert forall|j: int| 0 <= j < k + 1 implies #[trigger] s[j].id != id by {
                if j > 0 {
                    assert(s[j] == t[j - 1]);
                }
            }
            assert(is_first_match(s, id, k + 1) && s[k + 1] == p);
        }
    } else if s.len() > 0 {
        assert(is_first_match(s, id, 0) && s[0] == s[0]);
    }
}

/// The ordered collection of posts held by a server process, in insertion order.
/// Identifiers are not required to be unique.
pub struct Collection {
    posts: Vec<Post>,
}

impl View for Collection {
    type V = Seq<Post>;

    closed spec fn view(&self) -> Seq<Post> {
        self.posts@
    }
}

impl Collection {
    /// A collection seeded with `initial`, kept in the given order.
    pub fn load(initial: Vec<Post>) -> (r: Collection)
        ensures
            r@ == initial@,
    {
        Collection { posts: initial }
    }

    /// The number of posts held.
    pub fn len(&self) -> (r: usize)
        ensures
            r == self@.len(),
    {
        self.posts.len()
    }

    /// A copy of every post, in order.
    pub fn snapshot(&self) -> (r: Vec<Post>)
        ensures
            r@ == self@,
    {
        let mut out: Vec<Post> = Vec::with_capacity(self.posts.len());
        let mut i: usize = 0;
        while i < self.posts.len()
            invariant
                i <= self.posts@.len(),
                out@ == self.posts@.subrange(0, i as int),
            decreases self.posts@.len() - i,
        {
            out.push(self.posts[i].duplicate());
            i = i + 1;
            assert(out@ =~= self.posts@.subrange(0, i as int));
        }
        assert(self.posts@.subrange(0, i as int) =~= self.posts@);
        out
    }

    /// Adds `post` after every post already held; no identifier check is made.
    pub fn append(&mut self, post: Post)
        ensures
            final(self)@ == old(self)@.push(post),
    {
        self.posts.push(post);
    }

    /// A copy of the first post whose identifier is `id`, if there is one.
    pub fn find_by_id(&self, id: usize) -> (r: Option<Post>)
        ensures
            r == find_first(self@, id),
    {
        let mut i: usize = 0;
        assert(self.posts@.subrange(0, self.posts@.len() as int) =~= self.posts@);
        while i < self.posts.len()
            invariant
                i <= self.posts@.len(),
                find_first(self.posts@, id) == find_first(self.posts@.subrange(i as int, self.posts@.len() as int), id),
            decreases self.posts@.len() - i,
        {
            let ghost rest = self.posts@.subrange(i as int, self.posts@.len() as int);
            if self.posts[i].id == id {
                return Some(self.posts[i].duplicate());
            }
            assert(rest.drop_first() =~= self.posts@.subrange(i + 1, self.posts@.len() as int));
            i = i + 1;
        }
        None
    }
}

} // verus!
