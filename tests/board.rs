use postboard::collection::Collection;
use postboard::ident::parse_id;
use postboard::post::Post;
use postboard::reply::{created_reply, failure_reply, outcome_reply, page_reply, BodyKind, Failure};

fn post(id: usize, title: &str, content: &str) -> Post {
    Post::new(id, title.to_string(), content.to_string())
}

fn sample() -> Collection {
    Collection::load(vec![post(1, "Hello", "World"), post(2, "Second", "Body"), post(1, "Again", "Dup")])
}

#[test]
fn load_keeps_fields_and_order() {
    let initial = vec![post(3, "c", "z"), post(1, "a", "x"), post(2, "b", "y")];
    let c = Collection::load(initial.clone());
    assert_eq!(c.len(), 3);
    assert_eq!(c.snapshot(), initial);
}

#[test]
fn load_empty() {
    let c = Collection::load(Vec::new());
    assert_eq!(c.len(), 0);
    assert!(c.snapshot().is_empty());
    assert_eq!(c.find_by_id(1), None);
}

#[test]
fn find_by_id_returns_first_match() {
    let c = sample();
    assert_eq!(c.find_by_id(1), Some(post(1, "Hello", "World")));
    assert_eq!(c.find_by_id(2), Some(post(2, "Second", "Body")));
    assert_eq!(c.find_by_id(7), None);
}

#[test]
fn append_keeps_duplicates_at_end() {
    let mut c = sample();
    c.append(post(2, "Other", "Text"));
    let all = c.snapshot();
    assert_eq!(all.len(), 4);
    assert_eq!(all[3], post(2, "Other", "Text"));
    assert_eq!(c.find_by_id(2), Some(post(2, "Second", "Body")));
}

#[test]
fn parse_id_accepts_decimal() {
    assert_eq!(parse_id("1"), Some(1));
    assert_eq!(parse_id("0"), Some(0));
    assert_eq!(parse_id("042"), Some(42));
    assert_eq!(parse_id("+7"), Some(7));
    assert_eq!(parse_id(&usize::MAX.to_string()), Some(usize::MAX));
}

#[test]
fn parse_id_rejects_non_numeric() {
    assert_eq!(parse_id(""), None);
    assert_eq!(parse_id("+"), None);
    assert_eq!(parse_id("abc"), None);
    assert_eq!(parse_id("1a"), None);
    assert_eq!(parse_id("-1"), None);
    assert_eq!(parse_id(" 1"), None);
    assert_eq!(parse_id("++1"), None);
    assert_eq!(parse_id("١"), None);
}

#[test]
fn parse_id_rejects_overflow() {
    let too_big = format!("{}0", usize::MAX);
    assert_eq!(parse_id(&too_big), None);
    assert_eq!(parse_id("99999999999999999999999999x"), None);
}

#[test]
fn parse_id_agrees_with_std() {
    for s in ["12", "+12", "-12", "", "+", "1 ", "007", "18446744073709551616", "x"] {
        assert_eq!(parse_id(s), s.parse::<usize>().ok(), "segment {:?}", s);
    }
}

#[test]
fn locate_present_absent_and_bad() {
    let c = sample();
    assert_eq!(c.locate("2"), Ok(post(2, "Second", "Body")));
    assert_eq!(c.locate("1"), Ok(post(1, "Hello", "World")));
    assert_eq!(c.locate("9"), Err(Failure::NotFound));
    assert_eq!(c.locate("abc"), Err(Failure::BadRequest));
    assert_eq!(c.locate(""), Err(Failure::BadRequest));
}

#[test]
fn not_found_reply_is_plain_text() {
    let r = failure_reply(&Failure::NotFound);
    assert_eq!(r.status, 404);
    assert_eq!(r.kind, BodyKind::PlainText);
    assert_eq!(r.body, "Post not found");
    assert!(r.headers.is_empty());
}

#[test]
fn failure_statuses() {
    assert_eq!(Failure::BadRequest.status(), 400);
    assert_eq!(Failure::NotFound.status(), 404);
    assert_eq!(Failure::LockPoisoned("poisoned".to_string()).status(), 500);
    assert_eq!(Failure::Render("missing template".to_string()).status(), 500);
    let r = failure_reply(&Failure::BadRequest);
    assert_eq!((r.status, r.body.as_str()), (400, "Bad Request"));
    let r = failure_reply(&Failure::LockPoisoned("poisoned lock".to_string()));
    assert_eq!((r.status, r.body.as_str()), (500, "poisoned lock"));
}

#[test]
fn page_and_outcome_replies() {
    let r = page_reply("<p>hi</p>".to_string());
    assert_eq!((r.status, r.kind, r.body.as_str()), (200, BodyKind::Html, "<p>hi</p>"));
    let r = outcome_reply(Ok("<ul></ul>".to_string()));
    assert_eq!((r.status, r.kind, r.body.as_str()), (200, BodyKind::Html, "<ul></ul>"));
    let r = outcome_reply(Err(Failure::Render("no template".to_string())));
    assert_eq!((r.status, r.kind, r.body.as_str()), (500, BodyKind::PlainText, "no template"));
}

#[test]
fn created_reply_has_trigger_header() {
    let r = created_reply();
    assert_eq!(r.status, 201);
    assert_eq!(r.kind, BodyKind::Empty);
    assert_eq!(r.body, "");
    assert_eq!(r.headers, vec![("HX-Trigger".to_string(), "newPost".to_string())]);
}

#[test]
fn create_is_visible_in_next_listing() {
    let mut c = sample();
    let before = c.len();
    let r = c.create(post(5, "New", "Text"));
    assert_eq!(r.status, 201);
    assert_eq!(c.len(), before + 1);
    assert!(c.snapshot().contains(&post(5, "New", "Text")));
    assert_eq!(c.locate("5"), Ok(post(5, "New", "Text")));
}

#[test]
fn many_creates_lose_nothing() {
    let mut c = Collection::load(Vec::new());
    let k: usize = 50;
    for i in 0..k {
        c.create(post(k - i, &format!("t{}", i), &format!("c{}", i)));
    }
    assert_eq!(c.len(), k);
    let all = c.snapshot();
    for i in 0..k {
        assert!(all.contains(&post(k - i, &format!("t{}", i), &format!("c{}", i))));
    }
}

#[test]
fn example_session() {
    let mut c = Collection::load(vec![post(1, "Hello", "World")]);
    let found = c.locate("1").unwrap();
    assert_eq!((found.title.as_str(), found.content.as_str()), ("Hello", "World"));
    let r = failure_reply(&c.locate("2").unwrap_err());
    assert_eq!((r.status, r.body.as_str()), (404, "Post not found"));
    let r = c.create(post(2, "Second", "Body"));
    assert_eq!(r.status, 201);
    assert_eq!(r.headers, vec![("HX-Trigger".to_string(), "newPost".to_string())]);
    let listed = c.snapshot();
    assert_eq!(listed, vec![post(1, "Hello", "World"), post(2, "Second", "Body")]);
}
