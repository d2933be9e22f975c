//! The decisions taken while a story is created: the store is asked for a
//! counter value, whether the URL key is taken, and who the author is (the
//! author is created where none has the title), before the story is stored.
//! Each step takes what the store answered and says what to ask next.

use vstd::prelude::*;
use crate::document::{
    doc_bool, doc_i64, doc_str, filter_of, lemma_entry_of_at, Clauses, Condition, ConditionView,
    Document, Entries, Field, FieldView, Filter,
};
use crate::helpers::{generate_url_key, url_key_of};
use crate::models::authors::{Authors, AuthorsView};
use crate::models::response::{response, Response, ResponseView};
use crate::models::authors::AuthorStoryView;
use crate::models::categories::CategoryStoryView;
use crate::models::stories::{Stories, StoriesView};
use crate::repositories::stories::story_of;
use crate::outside::{is_uuid_v4_text, new_uuid_v4};

verus! {

/// Where the creation of a story stands.
pub enum CreateStep {
    /// Waiting for the collection's next counter value.
    AwaitIncrementId,
    /// Waiting to learn whether a story has the URL key.
    AwaitUrlKeyCheck { increment_id: i64, url_key: String },
    /// Waiting for the author with the story's author title.
    AwaitAuthor { increment_id: i64, url_key: String },
    /// Waiting for the new author to be created.
    AwaitAuthorCreated { increment_id: i64, url_key: String },
    /// Waiting for the newly created author to be read back.
    AwaitCreatedAuthor { increment_id: i64, url_key: String },
    /// Waiting for the story to be stored.
    AwaitInsert,
    /// Finished.
    Done,
}

/// The mathematical value of a [`CreateStep`].
pub ghost enum CreateStepView {
    AwaitIncrementId,
    AwaitUrlKeyCheck { increment_id: i64, url_key: Seq<char> },
    AwaitAuthor { increment_id: i64, url_key: Seq<char> },
    AwaitAuthorCreated { increment_id: i64, url_key: Seq<char> },
    AwaitCreatedAuthor { increment_id: i64, url_key: Seq<char> },
    AwaitInsert,
    Done,
}

impl View for CreateStep {
    type V = CreateStepView;

    open spec fn view(&self) -> CreateStepView {
        match self {
            CreateStep::AwaitIncrementId => CreateStepView::AwaitIncrementId,
            CreateStep::AwaitUrlKeyCheck { increment_id, url_key } =>
                CreateStepView::AwaitUrlKeyCheck { increment_id: *increment_id, url_key: url_key@ },
            CreateStep::AwaitAuthor { increment_id, url_key } => CreateStepView::AwaitAuthor {
                increment_id: *increment_id,
                url_key: url_key@,
            },
            CreateStep::AwaitAuthorCreated { increment_id, url_key } =>
                CreateStepView::AwaitAuthorCreated { increment_id: *increment_id, url_key: url_key@ },
            CreateStep::AwaitCreatedAuthor { increment_id, url_key } =>
                CreateStepView::AwaitCreatedAuthor { increment_id: *increment_id, url_key: url_key@ },
            CreateStep::AwaitInsert => CreateStepView::AwaitInsert,
            CreateStep::Done => CreateStepView::Done,
        }
    }
}

/// A story being created, and where its creation stands.
pub struct StoryCreation {
    pub story: Stories,
    pub step: CreateStep,
}

/// The mathematical value of a [`StoryCreation`].
pub ghost struct StoryCreationView {
    pub story: StoriesView,
    pub step: CreateStepView,
}

impl View for StoryCreation {
    type V = StoryCreationView;

    open spec fn view(&self) -> StoryCreationView {
        StoryCreationView { story: self.story@, step: self.step@ }
    }
}

/// What to do next.
pub enum CreateAction {
    /// Take the stories collection's next counter value.
    NextIncrementId,
    /// Look for a story matching the filter.
    FindStory(Filter),
    /// Look for an author matching the filter.
    FindAuthor(Filter),
    /// Create this author.
    CreateAuthor(Authors),
    /// Store this story document.
    InsertStory(Document),
    /// Answer the request with this response.
    Reply(Response),
    /// Give up: a value the creation relies on is missing.
    Fail,
}

/// The mathematical value of a [`CreateAction`].
pub ghost enum CreateActionView {
    NextIncrementId,
    FindStory(Clauses),
    FindAuthor(Clauses),
    CreateAuthor(AuthorsView),
    InsertStory(Entries),
    Reply(ResponseView),
    Fail,
}

impl View for CreateAction {
    type V = CreateActionView;

    open spec fn view(&self) -> CreateActionView {
        match self {
            CreateAction::NextIncrementId => CreateActionView::NextIncrementId,
            CreateAction::FindStory(f) => CreateActionView::FindStory(f@),
            CreateAction::FindAuthor(f) => CreateActionView::FindAuthor(f@),
            CreateAction::CreateAuthor(a) => CreateActionView::CreateAuthor(a@),
            CreateAction::InsertStory(d) => CreateActionView::InsertStory(d@),
            CreateAction::Reply(r) => CreateActionView::Reply(r@),
            CreateAction::Fail => CreateActionView::Fail,
        }
    }
}

/// What the store answered to the last action.
pub enum CreateEvent {
    /// The next counter value.
    IncrementId(i64),
    /// The record found, if any.
    Found(Option<Document>),
    /// The answer to creating the author.
    AuthorCreated(Response),
    /// Whether the story was stored.
    Inserted(bool),
}

/// The mathematical value of a [`CreateEvent`].
pub ghost enum CreateEventView {
    IncrementId(i64),
    Found(Option<Entries>),
    AuthorCreated(ResponseView),
    Inserted(bool),
}

impl View for CreateEvent {
    type V = CreateEventView;

    open spec fn view(&self) -> CreateEventView {
        match self {
            CreateEvent::IncrementId(n) => CreateEventView::IncrementId(*n),
            CreateEvent::Found(Some(d)) => CreateEventView::Found(Some(d@)),
            CreateEvent::Found(None) => CreateEventView::Found(None),
            CreateEvent::AuthorCreated(r) => CreateEventView::AuthorCreated(r@),
            CreateEvent::Inserted(b) => CreateEventView::Inserted(*b),
        }
    }
}

/// The document stored for a new story.
pub open spec fn story_entries(
    s: StoriesView,
    story_id: Seq<char>,
    increment_id: i64,
    url_key: Seq<char>,
    author_id: Seq<char>,
) -> Entries {
    seq![
        ("story_id"@, FieldView::Str(story_id)),
        ("increment_id"@, FieldView::Int64(increment_id)),
        ("title"@, FieldView::Str(s.title)),
        ("url_key"@, FieldView::Str(url_key)),
        ("is_active"@, FieldView::Bool(s.is_active)),
        ("path_image"@, FieldView::Str(s.path_image)),
        ("author_id"@, FieldView::Str(author_id)),
        ("description"@, FieldView::Str(s.description)),
        ("publish_date"@, FieldView::Str(s.publish_date)),
        ("updated_date"@, FieldView::Str(s.updated_date)),
        ("status"@, FieldView::Str(s.status)),
        ("is_full"@, FieldView::Bool(s.is_full)),
        ("is_hot"@, FieldView::Bool(s.is_hot)),
        ("total_chapters"@, FieldView::Int64(s.total_chapters)),
        ("source"@, FieldView::Str(s.source)),
        ("translator"@, FieldView::Str(s.translator)),
    ]
}

/// The document stored for a new story holds, under each field of the
/// story, that field of the submitted story, and under `story_id`,
/// `increment_id`, `url_key` and `author_id` the identifier, counter value,
/// URL key and author identifier it was stored with.
pub proof fn law_story_document_keeps_story_fields(
    s: StoriesView,
    story_id: Seq<char>,
    increment_id: i64,
    url_key: Seq<char>,
    author_id: Seq<char>,
)
    ensures
        ({
            let d = story_entries(s, story_id, increment_id, url_key, author_id);
            &&& doc_str(d, "story_id"@) == Some(story_id)
            &&& doc_i64(d, "increment_id"@) == Some(increment_id)
            &&& doc_str(d, "title"@) == Some(s.title)
            &&& doc_str(d, "url_key"@) == Some(url_key)
            &&& doc_bool(d, "is_active"@) == Some(s.is_active)
            &&& doc_str(d, "path_image"@) == Some(s.path_image)
            &&& doc_str(d, "author_id"@) == Some(author_id)
            &&& doc_str(d, "description"@) == Some(s.description)
            &&& doc_str(d, "publish_date"@) == Some(s.publish_date)
            &&& doc_str(d, "updated_date"@) == Some(s.updated_date)
            &&& doc_str(d, "status"@) == Some(s.status)
            &&& doc_bool(d, "is_full"@) == Some(s.is_full)
            &&& doc_bool(d, "is_hot"@) == Some(s.is_hot)
            &&& doc_i64(d, "total_chapters"@) == Some(s.total_chapters)
            &&& doc_str(d, "source"@) == Some(s.source)
            &&& doc_str(d, "translator"@) == Some(s.translator)
        }),
{
    let d = story_entries(s, story_id, increment_id, url_key, author_id);
    reveal_strlit("story_id");
    reveal_strlit("increment_id");
    reveal_strlit("title");
    reveal_strlit("url_key");
    reveal_strlit("is_active");
    reveal_strlit("path_image");
    reveal_strlit("author_id");
    reveal_strlit("description");
    reveal_strlit("publish_date");
    reveal_strlit("updated_date");
    reveal_strlit("status");
    reveal_strlit("is_full");
    reveal_strlit("is_hot");
    reveal_strlit("total_chapters");
    reveal_strlit("source");
    reveal_strlit("translator");
    assert("story_id"@.len() == 8 && "increment_id"@.len() == 12 && "title"@.len() == 5);
    assert("url_key"@.len() == 7 && "is_active"@.len() == 9 && "path_image"@.len() == 10);
    assert("author_id"@.len() == 9 && "description"@.len() == 11 && "publish_date"@.len() == 12);
    assert("updated_date"@.len() == 12 && "status"@.len() == 6 && "is_full"@.len() == 7);
    assert("is_hot"@.len() == 6 && "total_chapters"@.len() == 14 && "source"@.len() == 6);
    assert("translator"@.len() == 10);
    assert("increment_id"@[0] == 'i' && "publish_date"@[0] == 'p' && "updated_date"@[0] == 'u');
    assert("is_active"@[0] == 'i' && "author_id"@[0] == 'a');
    assert("path_image"@[0] == 'p' && "translator"@[0] == 't');
    assert("url_key"@[0] == 'u' && "is_full"@[0] == 'i');
    assert("status"@[0] == 's' && "is_hot"@[0] == 'i' && "source"@[0] == 's');
    assert("status"@[1] == 't' && "source"@[1] == 'o');
    lemma_entry_of_at(d, "story_id"@, 0);
    lemma_entry_of_at(d, "increment_id"@, 1);
    lemma_entry_of_at(d, "title"@, 2);
    lemma_entry_of_at(d, "url_key"@, 3);
    lemma_entry_of_at(d, "is_active"@, 4);
    lemma_entry_of_at(d, "path_image"@, 5);
    lemma_entry_of_at(d, "author_id"@, 6);
    lemma_entry_of_at(d, "description"@, 7);
    lemma_entry_of_at(d, "publish_date"@, 8);
    lemma_entry_of_at(d, "updated_date"@, 9);
    lemma_entry_of_at(d, "status"@, 10);
    lemma_entry_of_at(d, "is_full"@, 11);
    lemma_entry_of_at(d, "is_hot"@, 12);
    lemma_entry_of_at(d, "total_chapters"@, 13);
    lemma_entry_of_at(d, "source"@, 14);
    lemma_entry_of_at(d, "translator"@, 15);
}

/// Reading back the document stored for a new story gives the submitted
/// story's fields, with the identifier, counter value and URL key it was
/// stored with, its image path behind the address the images are served
/// from, and the author and categories the lookups found.
pub proof fn law_stored_story_reads_back(
    s: StoriesView,
    story_id: Seq<char>,
    increment_id: i64,
    url_key: Seq<char>,
    author_id: Seq<char>,
    cdn_path: Seq<char>,
    author: AuthorStoryView,
    categories: Seq<CategoryStoryView>,
)
    ensures
        story_of(story_entries(s, story_id, increment_id, url_key, author_id), cdn_path, author, categories)
            == Some(
            StoriesView {
                story_id,
                increment_id,
                url_key,
                path_image: cdn_path + s.path_image,
                author,
                categories,
                ..s
            },
        ),
{
    law_story_document_keeps_story_fields(s, story_id, increment_id, url_key, author_id);
}

/// The author created for a story whose author title no author has: the
/// story's dates, an identifier and URL key that creation replaces. The
/// story names no description for its author, so the new author's is empty.
pub open spec fn new_author_for(s: StoriesView) -> AuthorsView {
    AuthorsView {
        author_id: "auto"@,
        title: s.author.author_title,
        url_key: Seq::empty(),
        description: Seq::empty(),
        created_date: s.publish_date,
        updated_date: s.updated_date,
    }
}

/// The filter that selects an author by title.
pub open spec fn author_title_clauses(title: Seq<char>) -> Clauses {
    seq![("title"@, ConditionView::Str(title))]
}

/// The filter that selects a story by URL key.
pub open spec fn url_key_clauses(url_key: Seq<char>) -> Clauses {
    seq![("url_key"@, ConditionView::Str(url_key))]
}

/// The answer where the URL key of the story is taken.
pub open spec fn url_key_taken() -> ResponseView {
    ResponseView { message: "URL key already exists."@, error: true }
}

/// The answer where the author could not be created.
pub open spec fn author_failed(message: Seq<char>) -> ResponseView {
    ResponseView { message: "Failed to create new author: "@ + message, error: true }
}

/// The answer to storing the story. A failed insert is reported with
/// `error` false.
pub open spec fn stored_answer(inserted: bool) -> ResponseView {
    if inserted {
        ResponseView { message: "Create document successful."@, error: false }
    } else {
        ResponseView { message: "Something wrong."@, error: false }
    }
}

/// The step after an author record was found: the story is stored with the
/// record's `author_id`, or the creation fails where the record has none.
pub open spec fn after_author_found(
    s: StoriesView,
    increment_id: i64,
    url_key: Seq<char>,
    d: Entries,
    story_id: Seq<char>,
) -> (StoryCreationView, CreateActionView) {
    match doc_str(d, "author_id"@) {
        Some(author_id) => (
            StoryCreationView { story: s, step: CreateStepView::AwaitInsert },
            CreateActionView::InsertStory(story_entries(s, story_id, increment_id, url_key, author_id)),
        ),
        None => (StoryCreationView { story: s, step: CreateStepView::Done }, CreateActionView::Fail),
    }
}

/// The first step of a creation: ask for the counter value.
pub open spec fn creation_start(s: StoriesView) -> (StoryCreationView, CreateActionView) {
    (
        StoryCreationView { story: s, step: CreateStepView::AwaitIncrementId },
        CreateActionView::NextIncrementId,
    )
}

/// The step that an answer leads to, `story_id` being the identifier a
/// story stored now gets. An answer that the step does not wait for ends
/// the creation with a failure.
pub open spec fn creation_next(
    st: StoryCreationView,
    ev: CreateEventView,
    story_id: Seq<char>,
) -> (StoryCreationView, CreateActionView) {
    let s = st.story;
    let done = StoryCreationView { story: s, step: CreateStepView::Done };
    match st.step {
        CreateStepView::AwaitIncrementId => match ev {
            CreateEventView::IncrementId(n) => {
                let u = url_key_of(s.title);
                (
                    StoryCreationView {
                        story: s,
                        step: CreateStepView::AwaitUrlKeyCheck { increment_id: n, url_key: u },
                    },
                    CreateActionView::FindStory(url_key_clauses(u)),
                )
            },
            _ => (done, CreateActionView::Fail),
        },
        CreateStepView::AwaitUrlKeyCheck { increment_id, url_key } => match ev {
            CreateEventView::Found(Some(_)) => (done, CreateActionView::Reply(url_key_taken())),
            CreateEventView::Found(None) => (
                StoryCreationView {
                    story: s,
                    step: CreateStepView::AwaitAuthor { increment_id, url_key },
                },
                CreateActionView::FindAuthor(author_title_clauses(s.author.author_title)),
            ),
            _ => (done, CreateActionView::Fail),
        },
        CreateStepView::AwaitAuthor { increment_id, url_key } => match ev {
            CreateEventView::Found(Some(d)) => after_author_found(
                s,
                increment_id,
                url_key,
                d,
                story_id,
            ),
            CreateEventView::Found(None) => (
                StoryCreationView {
                    story: s,
                    step: CreateStepView::AwaitAuthorCreated { increment_id, url_key },
                },
                CreateActionView::CreateAuthor(new_author_for(s)),
            ),
            _ => (done, CreateActionView::Fail),
        },
        CreateStepView::AwaitAuthorCreated { increment_id, url_key } => match ev {
            CreateEventView::AuthorCreated(r) => if !r.error {
                (
                    StoryCreationView {
                        story: s,
                        step: CreateStepView::AwaitCreatedAuthor { increment_id, url_key },
                    },
                    CreateActionView::FindAuthor(author_title_clauses(s.author.author_title)),
                )
            } else {
                (done, CreateActionView::Reply(author_failed(r.message)))
            },
            _ => (done, CreateActionView::Fail),
        },
        CreateStepView::AwaitCreatedAuthor { increment_id, url_key } => match ev {
            CreateEventView::Found(Some(d)) => after_author_found(
                s,
                increment_id,
                url_key,
                d,
                story_id,
            ),
            _ => (done, CreateActionView::Fail),
        },
        CreateStepView::AwaitInsert => match ev {
            CreateEventView::Inserted(b) => (done, CreateActionView::Reply(stored_answer(b))),
            _ => (done, CreateActionView::Fail),
        },
        CreateStepView::Done => (done, CreateActionView::Fail),
    }
}

/// Where a creation stands, and what it does last, after the answers
/// `evs` (the `i`-th step getting the identifier `ids[i]`).
pub open spec fn creation_after(
    s: StoriesView,
    evs: Seq<CreateEventView>,
    ids: Seq<Seq<char>>,
) -> (StoryCreationView, CreateActionView)
    decreases evs.len(),
{
    if evs.len() == 0 {
        creation_start(s)
    } else {
        creation_next(
            creation_after(s, evs.drop_last(), ids).0,
            evs.last(),
            ids[evs.len() - 1],
        )
    }
}

/// What the answers so far say of the step reached.
pub open spec fn creation_history(s: StoriesView, evs: Seq<CreateEventView>, st: StoryCreationView) -> bool {
    &&& st.story == s
    &&& match st.step {
        CreateStepView::AwaitIncrementId => evs.len() == 0,
        CreateStepView::AwaitUrlKeyCheck { increment_id, url_key } => evs.len() == 1 && evs[0]
            == CreateEventView::IncrementId(increment_id) && url_key == url_key_of(s.title),
        CreateStepView::AwaitAuthor { increment_id, url_key } => evs.len() >= 2 && evs[0]
            == CreateEventView::IncrementId(increment_id) && evs[1] == CreateEventView::Found(None)
            && url_key == url_key_of(s.title),
        CreateStepView::AwaitAuthorCreated { increment_id, url_key } => evs.len() >= 2 && evs[0]
            == CreateEventView::IncrementId(increment_id) && evs[1] == CreateEventView::Found(None)
            && url_key == url_key_of(s.title),
        CreateStepView::AwaitCreatedAuthor { increment_id, url_key } => evs.len() >= 2 && evs[0]
            == CreateEventView::IncrementId(increment_id) && evs[1] == CreateEventView::Found(None)
            && url_key == url_key_of(s.title),
        _ => true,
    }
}

proof fn lemma_creation_history(s: StoriesView, evs: Seq<CreateEventView>, ids: Seq<Seq<char>>)
    requires
        ids.len() >= evs.len(),
    ensures
        creation_history(s, evs, creation_after(s, evs, ids).0),
    decreases evs.len(),
{
    if evs.len() > 0 {
        let prev = evs.drop_last();
        lemma_creation_history(s, prev, ids);
        assert(forall|i: int| 0 <= i < prev.len() ==> prev[i] == evs[i]);
    }
}

/// A story is stored only where the lookup of its URL key found no story:
/// whatever the store answers, an insert comes after the counter value `n`
/// and a URL-key lookup that found nothing, and the stored document carries
/// `n`, the URL key of the title, and the `author_id` of the author record
/// found just before.
pub proof fn law_story_stored_only_with_free_url_key(
    s: StoriesView,
    evs: Seq<CreateEventView>,
    ids: Seq<Seq<char>>,
)
    requires
        ids.len() >= evs.len(),
    ensures
        creation_after(s, evs, ids).1 matches CreateActionView::InsertStory(d) ==> {
            &&& evs.len() >= 3
            &&& evs[1] == CreateEventView::Found(None)
            &&& exists|n: i64, rec: Entries, author_id: Seq<char>|
                #![trigger story_entries(s, ids[evs.len() - 1], n, url_key_of(s.title), author_id), doc_str(rec, "author_id"@)]
                evs[0] == CreateEventView::IncrementId(n) && evs.last() == CreateEventView::Found(
                    Some(rec),
                ) && doc_str(rec, "author_id"@) == Some(author_id) && d == story_entries(
                    s,
                    ids[evs.len() - 1],
                    n,
                    url_key_of(s.title),
                    author_id,
                )
        },
{
    if evs.len() > 0 {
        let prev = evs.drop_last();
        lemma_creation_history(s, prev, ids);
        assert(forall|i: int| 0 <= i < prev.len() ==> prev[i] == evs[i]);
        let st = creation_after(s, prev, ids).0;
        let ev = evs.last();
        let id = ids[evs.len() - 1];
        if let CreateActionView::InsertStory(d) = creation_after(s, evs, ids).1 {
            match st.step {
                CreateStepView::AwaitAuthor { increment_id, url_key } => {
                    if let CreateEventView::Found(Some(rec)) = ev {
                        let a = doc_str(rec, "author_id"@)->0;
                        assert(d == story_entries(s, id, increment_id, url_key_of(s.title), a));
                    }
                },
                CreateStepView::AwaitCreatedAuthor { increment_id, url_key } => {
                    if let CreateEventView::Found(Some(rec)) = ev {
                        let a = doc_str(rec, "author_id"@)->0;
                        assert(d == story_entries(s, id, increment_id, url_key_of(s.title), a));
                    }
                },
                _ => {},
            }
        }
    }
}

/// Whether the step stores the story now, and so needs a fresh identifier.
pub open spec fn needs_story_id(st: StoryCreationView, ev: CreateEventView) -> bool {
    match (st.step, ev) {
        (CreateStepView::AwaitAuthor { .. }, CreateEventView::Found(Some(_))) => true,
        (CreateStepView::AwaitCreatedAuthor { .. }, CreateEventView::Found(Some(_))) => true,
        _ => false,
    }
}

/// The document to store for a new story.
pub fn story_document(
    story: &Stories,
    story_id: &str,
    increment_id: i64,
    url_key: &str,
    author_id: &str,
) -> (res: Document)
    ensures
        res@ == story_entries(story@, story_id@, increment_id, url_key@, author_id@),
        doc_str(res@, "title"@) == Some(story.title@),
        doc_bool(res@, "is_active"@) == Some(story.is_active),
        doc_str(res@, "path_image"@) == Some(story.path_image@),
        doc_str(res@, "description"@) == Some(story.description@),
        doc_str(res@, "publish_date"@) == Some(story.publish_date@),
        doc_str(res@, "updated_date"@) == Some(story.updated_date@),
        doc_str(res@, "status"@) == Some(story.status@),
        doc_bool(res@, "is_full"@) == Some(story.is_full),
        doc_bool(res@, "is_hot"@) == Some(story.is_hot),
        doc_i64(res@, "total_chapters"@) == Some(story.total_chapters),
        doc_str(res@, "source"@) == Some(story.source@),
        doc_str(res@, "translator"@) == Some(story.translator@),
        doc_str(res@, "story_id"@) == Some(story_id@),
        doc_i64(res@, "increment_id"@) == Some(increment_id),
        doc_str(res@, "url_key"@) == Some(url_key@),
        doc_str(res@, "author_id"@) == Some(author_id@),
{
    proof {
        law_story_document_keeps_story_fields(story@, story_id@, increment_id, url_key@, author_id@);
    }
    let mut d = Document::new();
    d.push("story_id", Field::Str(story_id.to_owned()));
    d.push("increment_id", Field::Int64(increment_id));
    d.push("title", Field::Str(story.title.clone()));
    d.push("url_key", Field::Str(url_key.to_owned()));
    d.push("is_active", Field::Bool(story.is_active));
    d.push("path_image", Field::Str(story.path_image.clone()));
    d.push("author_id", Field::Str(author_id.to_owned()));
    d.push("description", Field::Str(story.description.clone()));
    d.push("publish_date", Field::Str(story.publish_date.clone()));
    d.push("updated_date", Field::Str(story.updated_date.clone()));
    d.push("status", Field::Str(story.status.clone()));
    d.push("is_full", Field::Bool(story.is_full));
    d.push("is_hot", Field::Bool(story.is_hot));
    d.push("total_chapters", Field::Int64(story.total_chapters));
    d.push("source", Field::Str(story.source.clone()));
    d.push("translator", Field::Str(story.translator.clone()));
    proof {
        assert(d@ =~= story_entries(story@, story_id@, increment_id, url_key@, author_id@));
    }
    d
}

fn after_author_found_exec(
    story: Stories,
    increment_id: i64,
    url_key: String,
    d: &Document,
    story_id: &str,
) -> (res: (StoryCreation, CreateAction))
    ensures
        (res.0@, res.1@) == after_author_found(story@, increment_id, url_key@, d@, story_id@),
{
    match d.get_str("author_id") {
        Some(author_id) => {
            let doc = story_document(
                &story,
                story_id,
                increment_id,
                url_key.as_str(),
                author_id.as_str(),
            );
            (StoryCreation { story, step: CreateStep::AwaitInsert }, CreateAction::InsertStory(doc))
        },
        None => (StoryCreation { story, step: CreateStep::Done }, CreateAction::Fail),
    }
}

fn author_title_filter(title: &String) -> (res: Filter)
    ensures
        res@ == author_title_clauses(title@),
{
    filter_of("title", Condition::Str(title.clone()))
}

impl StoryCreation {
    /// Starts creating a story: the first action asks for the counter value.
    pub fn start(story: Stories) -> (res: (StoryCreation, CreateAction))
        ensures
            (res.0@, res.1@) == creation_start(story@),
    {
        (StoryCreation { story, step: CreateStep::AwaitIncrementId }, CreateAction::NextIncrementId)
    }

    /// Takes the store's answer to the last action and gives the next step,
    /// with `story_id` as the identifier of a story stored now.
    pub fn step_with(self, event: CreateEvent, story_id: &str) -> (res: (StoryCreation, CreateAction))
        ensures
            (res.0@, res.1@) == creation_next(self@, event@, story_id@),
    {
        let StoryCreation { story, step } = self;
        match step {
            CreateStep::AwaitIncrementId => match event {
                CreateEvent::IncrementId(n) => {
                    let u = generate_url_key(story.title.as_str());
                    let f = filter_of("url_key", Condition::Str(u.clone()));
                    (
                        StoryCreation {
                            story,
                            step: CreateStep::AwaitUrlKeyCheck { increment_id: n, url_key: u },
                        },
                        CreateAction::FindStory(f),
                    )
                },
                _ => (StoryCreation { story, step: CreateStep::Done }, CreateAction::Fail),
            },
            CreateStep::AwaitUrlKeyCheck { increment_id, url_key } => match event {
                CreateEvent::Found(Some(_)) => (
                    StoryCreation { story, step: CreateStep::Done },
                    CreateAction::Reply(response("URL key already exists.", true)),
                ),
                CreateEvent::Found(None) => {
                    let f = author_title_filter(&story.author.author_title);
                    (
                        StoryCreation {
                            story,
                            step: CreateStep::AwaitAuthor { increment_id, url_key },
                        },
                        CreateAction::FindAuthor(f),
                    )
                },
                _ => (StoryCreation { story, step: CreateStep::Done }, CreateAction::Fail),
            },
            CreateStep::AwaitAuthor { increment_id, url_key } => match event {
                CreateEvent::Found(Some(d)) => after_author_found_exec(
                    story,
                    increment_id,
                    url_key,
                    &d,
                    story_id,
                ),
                CreateEvent::Found(None) => {
                    let author = Authors {
                        author_id: String::from_str("auto"),
                        title: story.author.author_title.clone(),
                        url_key: String::new(),
                        description: String::new(),
                        created_date: story.publish_date.clone(),
                        updated_date: story.updated_date.clone(),
                    };
                    (
                        StoryCreation {
                            story,
                            step: CreateStep::AwaitAuthorCreated { increment_id, url_key },
                        },
                        CreateAction::CreateAuthor(author),
                    )
                },
                _ => (StoryCreation { story, step: CreateStep::Done }, CreateAction::Fail),
            },
            CreateStep::AwaitAuthorCreated { increment_id, url_key } => match event {
                CreateEvent::AuthorCreated(r) => if !r.error {
                    let f = author_title_filter(&story.author.author_title);
                    (
                        StoryCreation {
                            story,
                            step: CreateStep::AwaitCreatedAuthor { increment_id, url_key },
                        },
                        CreateAction::FindAuthor(f),
                    )
                } else {
                    let mut message = String::from_str("Failed to create new author: ");
                    message.append(r.message.as_str());
                    (
                        StoryCreation { story, step: CreateStep::Done },
                        CreateAction::Reply(Response { message, error: true }),
                    )
                },
                _ => (StoryCreation { story, step: CreateStep::Done }, CreateAction::Fail),
            },
            CreateStep::AwaitCreatedAuthor { increment_id, url_key } => match event {
                CreateEvent::Found(Some(d)) => after_author_found_exec(
                    story,
                    increment_id,
                    url_key,
                    &d,
                    story_id,
                ),
                _ => (StoryCreation { story, step: CreateStep::Done }, CreateAction::Fail),
            },
            CreateStep::AwaitInsert => match event {
                CreateEvent::Inserted(b) => {
                    let r = if b {
                        response("Create document successful.", false)
                    } else {
                        response("Something wrong.", false)
                    };
                    (StoryCreation { story, step: CreateStep::Done }, CreateAction::Reply(r))
                },
                _ => (StoryCreation { story, step: CreateStep::Done }, CreateAction::Fail),
            },
            CreateStep::Done => (StoryCreation { story, step: CreateStep::Done }, CreateAction::Fail),
        }
    }

    /// Takes the store's answer to the last action and gives the next step;
    /// a story stored now gets a fresh random identifier.
    pub fn step(self, event: CreateEvent) -> (res: (StoryCreation, CreateAction))
        ensures
            exists|id: Seq<char>|
                #![trigger creation_next(self@, event@, id)]
                (needs_story_id(self@, event@) ==> is_uuid_v4_text(id)) && (res.0@, res.1@)
                    === creation_next(self@, event@, id),
    {
        let ghost before = self@;
        let ghost ev = event@;
        let needs = match (&self.step, &event) {
            (CreateStep::AwaitAuthor { .. }, CreateEvent::Found(Some(_))) => true,
            (CreateStep::AwaitCreatedAuthor { .. }, CreateEvent::Found(Some(_))) => true,
            _ => false,
        };
        let story_id = if needs {
            new_uuid_v4()
        } else {
            String::new()
        };
        let res = self.step_with(event, story_id.as_str());
        proof {
            assert(needs == needs_story_id(before, ev));
            let w = story_id@;
            assert((needs_story_id(before, ev) ==> is_uuid_v4_text(w)) && (res.0@, res.1@)
                === creation_next(before, ev, w));
        }
        res
    }
}

} // verus!
