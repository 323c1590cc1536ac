use vstd::prelude::*;

verus! {

/// A short text post: a caller-supplied identifier, a title and a body text.
#[derive(Debug, Clone, PartialEq, Eq)]
pub struct Post {
    pub id: usize,
    pub title: String,
    pub content: String,
}

impl Post {
    pub fn new(id: usize, title: String, content: String) -> (r: Post)
        ensures
            r.id == id,
            r.title == title,
            r.content == content,
    {
        Post { id, title, content }
    }

    /// A field-by-field copy of this post.
    pub fn duplicate(&self) -> (r: Post)
        ensures
            r == *self,
    {
        Post { id: self.id, title: self.title.clone(), content: self.content.clone() }
    }
}

} // verus!
