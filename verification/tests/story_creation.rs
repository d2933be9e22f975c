use story_catalog::document::{Condition, Document, Field};
use story_catalog::models::authors::AuthorStory;
use story_catalog::models::response::Response;
use story_catalog::models::stories::Stories;
use story_catalog::repositories::story_creation::{CreateAction, CreateEvent, StoryCreation};

fn story() -> Stories {
    Stories {
        story_id: "x".to_string(),
        increment_id: 0,
        title: "Hello World".to_string(),
        url_key: "x".to_string(),
        is_active: true,
        path_image: "/p.png".to_string(),
        author: AuthorStory { author_id: String::new(), author_title: "Anh".to_string(), url_key: String::new() },
        description: "d".to_string(),
        publish_date: "p".to_string(),
        updated_date: "u".to_string(),
        status: "full".to_string(),
        is_full: false,
        is_hot: true,
        total_chapters: 3,
        source: "src".to_string(),
        translator: "tr".to_string(),
        categories: vec![],
    }
}

fn author_record(id: &str) -> Document {
    let mut d = Document::new();
    d.push("author_id", Field::Str(id.to_string()));
    d.push("title", Field::Str("Anh".to_string()));
    d
}

fn only_clause(f: story_catalog::document::Filter) -> (String, String) {
    let mut c = f.into_clauses();
    assert_eq!(c.len(), 1);
    let (k, v) = c.remove(0);
    match v {
        Condition::Str(s) => (k, s),
        _ => panic!("unexpected condition"),
    }
}

#[test]
fn creation_with_existing_author_stores_the_story() {
    let (st, a) = StoryCreation::start(story());
    assert!(matches!(a, CreateAction::NextIncrementId));
    let (st, a) = st.step(CreateEvent::IncrementId(12));
    match a {
        CreateAction::FindStory(f) => assert_eq!(only_clause(f), ("url_key".to_string(), "hello-world".to_string())),
        _ => panic!("expected a URL key lookup"),
    }
    let (st, a) = st.step(CreateEvent::Found(None));
    match a {
        CreateAction::FindAuthor(f) => assert_eq!(only_clause(f), ("title".to_string(), "Anh".to_string())),
        _ => panic!("expected an author lookup"),
    }
    let (st, a) = st.step(CreateEvent::Found(Some(author_record("a7"))));
    let d = match a {
        CreateAction::InsertStory(d) => d,
        _ => panic!("expected an insert"),
    };
    assert_eq!(d.get_str("url_key"), Some("hello-world".to_string()));
    assert_eq!(d.get_i64("increment_id"), Some(12));
    assert_eq!(d.get_str("author_id"), Some("a7".to_string()));
    assert_eq!(d.get_str("story_id").unwrap().len(), 36);
    assert_eq!(d.entries.len(), 16);
    let (_, a) = st.step(CreateEvent::Inserted(true));
    match a {
        CreateAction::Reply(r) => assert_eq!(r, Response { message: "Create document successful.".to_string(), error: false }),
        _ => panic!("expected a reply"),
    }
}

#[test]
fn creation_stops_on_a_taken_url_key() {
    let (st, _) = StoryCreation::start(story());
    let (st, _) = st.step(CreateEvent::IncrementId(1));
    let (st, a) = st.step(CreateEvent::Found(Some(Document::new())));
    match a {
        CreateAction::Reply(r) => assert_eq!(r, Response { message: "URL key already exists.".to_string(), error: true }),
        _ => panic!("expected a reply"),
    }
    let (_, a) = st.step(CreateEvent::Inserted(true));
    assert!(matches!(a, CreateAction::Fail));
}

#[test]
fn creation_creates_a_missing_author() {
    let (st, _) = StoryCreation::start(story());
    let (st, _) = st.step(CreateEvent::IncrementId(1));
    let (st, _) = st.step(CreateEvent::Found(None));
    let (st, a) = st.step(CreateEvent::Found(None));
    match a {
        CreateAction::CreateAuthor(au) => {
            assert_eq!(au.author_id, "auto");
            assert_eq!(au.title, "Anh");
            assert_eq!(au.url_key, "");
            assert_eq!(au.created_date, "p");
            assert_eq!(au.updated_date, "u");
        },
        _ => panic!("expected an author creation"),
    }
    let (st, a) = st.step(CreateEvent::AuthorCreated(Response { message: "ok".to_string(), error: false }));
    assert!(matches!(a, CreateAction::FindAuthor(_)));
    let (st, a) = st.step(CreateEvent::Found(Some(author_record("new"))));
    match a {
        CreateAction::InsertStory(d) => assert_eq!(d.get_str("author_id"), Some("new".to_string())),
        _ => panic!("expected an insert"),
    }
    let (_, a) = st.step(CreateEvent::Inserted(false));
    match a {
        CreateAction::Reply(r) => assert_eq!(r, Response { message: "Something wrong.".to_string(), error: false }),
        _ => panic!("expected a reply"),
    }
}

#[test]
fn creation_reports_a_failed_author() {
    let (st, _) = StoryCreation::start(story());
    let (st, _) = st.step(CreateEvent::IncrementId(1));
    let (st, _) = st.step(CreateEvent::Found(None));
    let (st, _) = st.step(CreateEvent::Found(None));
    let (_, a) = st.step(CreateEvent::AuthorCreated(Response { message: "Something went wrong.".to_string(), error: true }));
    match a {
        CreateAction::Reply(r) => assert_eq!(
            r,
            Response { message: "Failed to create new author: Something went wrong.".to_string(), error: true }
        ),
        _ => panic!("expected a reply"),
    }
}

#[test]
fn creation_fails_where_the_author_record_has_no_id() {
    let (st, _) = StoryCreation::start(story());
    let (st, _) = st.step(CreateEvent::IncrementId(1));
    let (st, _) = st.step(CreateEvent::Found(None));
    let (_, a) = st.step(CreateEvent::Found(Some(Document::new())));
    assert!(matches!(a, CreateAction::Fail));
}

#[test]
fn creation_fails_where_the_created_author_is_not_found() {
    let (st, _) = StoryCreation::start(story());
    let (st, _) = st.step(CreateEvent::IncrementId(1));
    let (st, _) = st.step(CreateEvent::Found(None));
    let (st, _) = st.step(CreateEvent::Found(None));
    let (st, _) = st.step(CreateEvent::AuthorCreated(Response { message: "ok".to_string(), error: false }));
    let (_, a) = st.step(CreateEvent::Found(None));
    assert!(matches!(a, CreateAction::Fail));
}

#[test]
fn creation_with_a_fixed_identifier() {
    let (st, _) = StoryCreation::start(story());
    let (st, _) = st.step_with(CreateEvent::IncrementId(2), "unused");
    let (st, _) = st.step_with(CreateEvent::Found(None), "unused");
    let (_, a) = st.step_with(CreateEvent::Found(Some(author_record("a1"))), "story-1");
    match a {
        CreateAction::InsertStory(d) => assert_eq!(d.get_str("story_id"), Some("story-1".to_string())),
        _ => panic!("expected an insert"),
    }
}
