use vstd::prelude::*;

verus! {

/// What the body of a reply holds, which decides its media type.
#[derive(Debug, Clone, Copy, PartialEq, Eq, Structural)]
pub enum BodyKind {
    Html,
    PlainText,
    Empty,
}

/// Why a request could not be served as asked.
#[derive(Debug, Clone, PartialEq, Eq)]
pub enum Failure {
    /// An unparsable path parameter or a malformed form submission.
    BadRequest,
    /// The requested identifier is held by no post.
    NotFound,
    /// The collection's guard was left corrupted by an earlier failure.
    LockPoisoned(String),
    /// The template engine could not produce the page.
    Render(String),
}

/// An HTTP reply: status code, body kind, body text and extra headers.
#[derive(Debug)]
pub struct Reply {
    pub status: u16,
    pub kind: BodyKind,
    pub body: String,
    pub headers: Vec<(String, String)>,
}

/// A reply seen as plain values: header names and values as character sequences.
pub struct ReplyView {
    pub status: u16,
    pub kind: BodyKind,
    pub body: Seq<char>,
    pub headers: Seq<(Seq<char>, Seq<char>)>,
}

impl View for Reply {
    type V = ReplyView;

    open spec fn view(&self) -> ReplyView {
        ReplyView {
            status: self.status,
            kind: self.kind,
            body: self.body@,
            headers: self.headers@.map_values(|h: (String, String)| (h.0@, h.1@)),
        }
    }
}

pub open spec fn failure_status(f: Failure) -> u16 {
    match f {
        Failure::BadRequest => 400,
        Failure::NotFound => 404,
        Failure::LockPoisoned(_) => 500,
        Failure::Render(_) => 500,
    }
}

pub open spec fn failure_text(f: Failure) -> Seq<char> {
    match f {
        Failure::BadRequest => "Bad Request"@,
        Failure::NotFound => "Post not found"@,
        Failure::LockPoisoned(m) => m@,
        Failure::Render(m) => m@,
    }
}

/// The reply that reports `f`: its status and a plain-text explanation.
pub open spec fn failure_reply_view(f: Failure) -> ReplyView {
    ReplyView {
        status: failure_status(f),
        kind: BodyKind::PlainText,
        body: failure_text(f),
        headers: Seq::empty(),
    }
}

/// A rendered page, served as HTML with status 200.
pub open spec fn page_reply_view(page: Seq<char>) -> ReplyView {
    ReplyView { status: 200, kind: BodyKind::Html, body: page, headers: Seq::empty() }
}

/// The reply to an accepted submission: 201, no body, and a header that asks
/// progressive front ends to refresh their listing.
pub open spec fn created_reply_view() -> ReplyView {
    ReplyView {
        status: 201,
        kind: BodyKind::Empty,
        body: Seq::empty(),
        headers: seq![("HX-Trigger"@, "newPost"@)],
    }
}

/// The reply for the outcome of producing a page.
pub open spec fn outcome_reply_view(outcome: Result<String, Failure>) -> ReplyView {
    match outcome {
        Ok(page) => page_reply_view(page@),
        Err(f) => failure_reply_view(f),
    }
}

impl Failure {
    /// The HTTP status code that reports this failure.
    pub fn status(&self) -> (r: u16)
        ensures
            r == failure_status(*self),
    {
        match self {
            Failure::BadRequest => 400,
            Failure::NotFound => 404,
            Failure::LockPoisoned(_) => 500,
            Failure::Render(_) => 500,
        }
    }
}

/// The plain-text reply that reports `f`.
pub fn failure_reply(f: &Failure) -> (r: Reply)
    ensures
        r@ == failure_reply_view(*f),
{
    let body = match f {
        Failure::BadRequest => String::from_str("Bad Request"),
        Failure::NotFound => String::from_str("Post not found"),
        Failure::LockPoisoned(m) => m.clone(),
        Failure::Render(m) => m.clone(),
    };
    let r = Reply { status: f.status(), kind: BodyKind::PlainText, body, headers: Vec::new() };
    assert(r@.headers =~= Seq::empty());
    r
}

/// Serves a rendered page as HTML.
pub fn page_reply(page: String) -> (r: Reply)
    ensures
        r@ == page_reply_view(page@),
{
    let r = Reply { status: 200, kind: BodyKind::Html, body: page, headers: Vec::new() };
    assert(r@.headers =~= Seq::empty());
    r
}

/// The reply for the outcome of producing a page: the page itself, or the
/// failure that stopped it.
pub fn outcome_reply(outcome: Result<String, Failure>) -> (r: Reply)
    ensures
        r@ == outcome_reply_view(outcome),
{
    match outcome {
        Ok(page) => page_reply(page),
        Err(f) => failure_reply(&f),
    }
}

/// The reply to an accepted submission.
pub fn created_reply() -> (r: Reply)
    ensures
        r@ == created_reply_view(),
{
    let mut headers: Vec<(String, String)> = Vec::new();
    headers.push((String::from_str("HX-Trigger"), String::from_str("newPost")));
    let r = Reply { status: 201, kind: BodyKind::Empty, body: String::new(), headers };
    assert(r@.headers =~= seq![("HX-Trigger"@, "newPost"@)]);
    r
}

} // verus!
