//! Chapters: creating one, reading one, and listing a story's chapters.
//! A chapter is found by its identifier or by its story and position; the
//! store offers no lookup of a chapter by URL key.

use vstd::prelude::*;
use crate::document::{
    decode_all, doc_i64, doc_integer, doc_str, documents_view, filter_of,
    lemma_decode_all_prefix_none, lemma_decode_all_step, lemma_entry_of_at, lemma_insert_clause_absent, Condition, ConditionView, Document,
    Entries, Field, FieldView, Filter,
};
use crate::helpers::{generate_url_key, url_key_of};
use crate::models::chapters::{
    Chapters, ChaptersByStoryId, ChaptersByStoryIdView, ChaptersView, ListChaptersByStoryId,
    ListChaptersResponse,
};
use crate::outside::{is_uuid_v4_text, new_uuid_v4};

verus! {

/// The document stored for a new chapter. Its short title is not stored.
pub open spec fn chapter_entries(
    c: ChaptersView,
    chapter_id: Seq<char>,
    increment_id: i64,
    url_key: Seq<char>,
) -> Entries {
    seq![
        ("chapter_id"@, FieldView::Str(chapter_id)),
        ("story_id"@, FieldView::Str(c.story_id)),
        ("increment_id"@, FieldView::Int64(increment_id)),
        ("title"@, FieldView::Str(c.title)),
        ("url_key"@, FieldView::Str(url_key)),
        ("content"@, FieldView::Str(c.content)),
        ("ordered"@, FieldView::Int64(c.ordered)),
        ("status"@, FieldView::Str(c.status)),
        ("created_date"@, FieldView::Str(c.created_date)),
        ("updated_date"@, FieldView::Str(c.updated_date)),
    ]
}

/// The document to store for a new chapter with the given identifier,
/// counter value and URL key.
pub fn chapter_document(chapter: &Chapters, chapter_id: &str, increment_id: i64, url_key: &str) -> (res:
    Document)
    ensures
        res@ == chapter_entries(chapter@, chapter_id@, increment_id, url_key@),
{
    let mut d = Document::new();
    d.push("chapter_id", Field::Str(chapter_id.to_owned()));
    d.push("story_id", Field::Str(chapter.story_id.clone()));
    d.push("increment_id", Field::Int64(increment_id));
    d.push("title", Field::Str(chapter.title.clone()));
    d.push("url_key", Field::Str(url_key.to_owned()));
    d.push("content", Field::Str(chapter.content.clone()));
    d.push("ordered", Field::Int64(chapter.ordered));
    d.push("status", Field::Str(chapter.status.clone()));
    d.push("created_date", Field::Str(chapter.created_date.clone()));
    d.push("updated_date", Field::Str(chapter.updated_date.clone()));
    proof {
        assert(d@ =~= chapter_entries(chapter@, chapter_id@, increment_id, url_key@));
    }
    d
}

/// The document to store when a chapter is created: a fresh random
/// identifier, the collection's next counter value, and the URL key of the
/// title.
pub fn new_chapter_document(chapter: &Chapters, increment_id: i64) -> (res: Document)
    ensures
        exists|id: Seq<char>|
            is_uuid_v4_text(id) && res@ == chapter_entries(
                chapter@,
                id,
                increment_id,
                url_key_of(chapter.title@),
            ),
{
    let chapter_id = new_uuid_v4();
    let url_key = generate_url_key(chapter.title.as_str());
    chapter_document(chapter, chapter_id.as_str(), increment_id, url_key.as_str())
}

/// The chapter that a stored document deserializes to: every field present,
/// strings as strings, numbers as 32- or 64-bit integers.
pub open spec fn chapter_of(d: Entries) -> Option<ChaptersView> {
    match (
        (
            doc_str(d, "chapter_id"@),
            doc_str(d, "story_id"@),
            doc_integer(d, "increment_id"@),
            doc_str(d, "title"@),
            doc_str(d, "short_title"@),
            doc_str(d, "url_key"@),
        ),
        (
            doc_str(d, "content"@),
            doc_integer(d, "ordered"@),
            doc_str(d, "status"@),
            doc_str(d, "created_date"@),
            doc_str(d, "updated_date"@),
        ),
    ) {
        (
            (Some(chapter_id), Some(story_id), Some(increment_id), Some(title), Some(short_title), Some(url_key)),
            (Some(content), Some(ordered), Some(status), Some(created_date), Some(updated_date)),
        ) => Some(
            ChaptersView {
                chapter_id,
                story_id,
                increment_id,
                title,
                short_title,
                url_key,
                content,
                ordered,
                status,
                created_date,
                updated_date,
            },
        ),
        _ => None,
    }
}

/// Deserializes a stored document into a chapter; `None` where a field is
/// missing or of another type.
pub fn chapter_from_document(d: &Document) -> (res: Option<Chapters>)
    ensures
        match res {
            Some(c) => chapter_of(d@) == Some(c@),
            None => chapter_of(d@) is None,
        },
{
    let chapter_id = match d.get_str("chapter_id") {
        Some(v) => v,
        None => {
            return None;
        },
    };
    let story_id = match d.get_str("story_id") {
        Some(v) => v,
        None => {
            return None;
        },
    };
    let increment_id = match d.get_integer("increment_id") {
        Some(v) => v,
        None => {
            return None;
        },
    };
    let title = match d.get_str("title") {
        Some(v) => v,
        None => {
            return None;
        },
    };
    let short_title = match d.get_str("short_title") {
        Some(v) => v,
        None => {
            return None;
        },
    };
    let url_key = match d.get_str("url_key") {
        Some(v) => v,
        None => {
            return None;
        },
    };
    let content = match d.get_str("content") {
        Some(v) => v,
        None => {
            return None;
        },
    };
    let ordered = match d.get_integer("ordered") {
        Some(v) => v,
        None => {
            return None;
        },
    };
    let status = match d.get_str("status") {
        Some(v) => v,
        None => {
            return None;
        },
    };
    let created_date = match d.get_str("created_date") {
        Some(v) => v,
        None => {
            return None;
        },
    };
    let updated_date = match d.get_str("updated_date") {
        Some(v) => v,
        None => {
            return None;
        },
    };
    Some(
        Chapters {
            chapter_id,
            story_id,
            increment_id,
            title,
            short_title,
            url_key,
            content,
            ordered,
            status,
            created_date,
            updated_date,
        },
    )
}

/// The chapter summary that a stored document holds for a story's chapter
/// list (64-bit integers for the numbers).
pub open spec fn chapter_summary_of(d: Entries) -> Option<ChaptersByStoryIdView> {
    match (
        (
            doc_str(d, "chapter_id"@),
            doc_str(d, "story_id"@),
            doc_i64(d, "increment_id"@),
            doc_str(d, "title"@),
            doc_str(d, "url_key"@),
        ),
        (
            doc_i64(d, "ordered"@),
            doc_str(d, "status"@),
            doc_str(d, "created_date"@),
            doc_str(d, "updated_date"@),
        ),
    ) {
        (
            (Some(chapter_id), Some(story_id), Some(increment_id), Some(title), Some(url_key)),
            (Some(ordered), Some(status), Some(created_date), Some(updated_date)),
        ) => Some(
            ChaptersByStoryIdView {
                chapter_id,
                story_id,
                increment_id,
                title,
                url_key,
                ordered,
                status,
                created_date,
                updated_date,
            },
        ),
        _ => None,
    }
}

/// A chapter summary is read field by field from the entries of the same
/// names, and a document holding every field with its type is read.
pub proof fn law_chapter_summary_from_same_named_entries(d: Entries)
    ensures
        chapter_summary_of(d) matches Some(r) ==> {
            &&& doc_str(d, "chapter_id"@) == Some(r.chapter_id)
            &&& doc_str(d, "story_id"@) == Some(r.story_id)
            &&& doc_i64(d, "increment_id"@) == Some(r.increment_id)
            &&& doc_str(d, "title"@) == Some(r.title)
            &&& doc_str(d, "url_key"@) == Some(r.url_key)
            &&& doc_i64(d, "ordered"@) == Some(r.ordered)
            &&& doc_str(d, "status"@) == Some(r.status)
            &&& doc_str(d, "created_date"@) == Some(r.created_date)
            &&& doc_str(d, "updated_date"@) == Some(r.updated_date)
        },
        (doc_str(d, "chapter_id"@) is Some && doc_str(d, "story_id"@) is Some && doc_i64(
            d,
            "increment_id"@,
        ) is Some && doc_str(d, "title"@) is Some && doc_str(d, "url_key"@) is Some && doc_i64(
            d,
            "ordered"@,
        ) is Some && doc_str(d, "status"@) is Some && doc_str(d, "created_date"@) is Some
            && doc_str(d, "updated_date"@) is Some) ==> chapter_summary_of(d) is Some,
{
}

/// The summary read from the document stored for a new chapter gives that
/// chapter's story, title, position, status and dates, with the identifier,
/// counter value and URL key it was stored with.
pub proof fn law_stored_chapter_summary_reads_back(
    c: ChaptersView,
    chapter_id: Seq<char>,
    increment_id: i64,
    url_key: Seq<char>,
)
    ensures
        chapter_summary_of(chapter_entries(c, chapter_id, increment_id, url_key)) == Some(
            ChaptersByStoryIdView {
                chapter_id,
                story_id: c.story_id,
                increment_id,
                title: c.title,
                url_key,
                ordered: c.ordered,
                status: c.status,
                created_date: c.created_date,
                updated_date: c.updated_date,
            },
        ),
{
    let d = chapter_entries(c, chapter_id, increment_id, url_key);
    reveal_strlit("chapter_id");
    reveal_strlit("story_id");
    reveal_strlit("increment_id");
    reveal_strlit("title");
    reveal_strlit("url_key");
    reveal_strlit("content");
    reveal_strlit("ordered");
    reveal_strlit("status");
    reveal_strlit("created_date");
    reveal_strlit("updated_date");
    assert("chapter_id"@.len() == 10 && "story_id"@.len() == 8 && "increment_id"@.len() == 12);
    assert("title"@.len() == 5 && "url_key"@.len() == 7 && "content"@.len() == 7);
    assert("ordered"@.len() == 7 && "status"@.len() == 6 && "created_date"@.len() == 12);
    assert("updated_date"@.len() == 12);
    assert("url_key"@[0] == 'u' && "content"@[0] == 'c' && "ordered"@[0] == 'o');
    assert("increment_id"@[0] == 'i' && "created_date"@[0] == 'c' && "updated_date"@[0] == 'u');
    lemma_entry_of_at(d, "chapter_id"@, 0);
    lemma_entry_of_at(d, "story_id"@, 1);
    lemma_entry_of_at(d, "increment_id"@, 2);
    lemma_entry_of_at(d, "title"@, 3);
    lemma_entry_of_at(d, "url_key"@, 4);
    lemma_entry_of_at(d, "ordered"@, 6);
    lemma_entry_of_at(d, "status"@, 7);
    lemma_entry_of_at(d, "created_date"@, 8);
    lemma_entry_of_at(d, "updated_date"@, 9);
}

/// Reads a chapter summary from a stored document.
pub fn chapter_summary_from_document(d: &Document) -> (res: Option<ChaptersByStoryId>)
    ensures
        match res {
            Some(c) => chapter_summary_of(d@) == Some(c@),
            None => chapter_summary_of(d@) is None,
        },
        res matches Some(c) ==> {
            &&& doc_str(d@, "chapter_id"@) == Some(c.chapter_id@)
            &&& doc_str(d@, "story_id"@) == Some(c.story_id@)
            &&& doc_i64(d@, "increment_id"@) == Some(c.increment_id)
            &&& doc_str(d@, "title"@) == Some(c.title@)
            &&& doc_str(d@, "url_key"@) == Some(c.url_key@)
            &&& doc_i64(d@, "ordered"@) == Some(c.ordered)
            &&& doc_str(d@, "status"@) == Some(c.status@)
            &&& doc_str(d@, "created_date"@) == Some(c.created_date@)
            &&& doc_str(d@, "updated_date"@) == Some(c.updated_date@)
        },
{
    proof {
        law_chapter_summary_from_same_named_entries(d@);
    }
    let chapter_id = match d.get_str("chapter_id") {
        Some(v) => v,
        None => {
            return None;
        },
    };
    let story_id = match d.get_str("story_id") {
        Some(v) => v,
        None => {
            return None;
        },
    };
    let increment_id = match d.get_i64("increment_id") {
        Some(v) => v,
        None => {
            return None;
        },
    };
    let title = match d.get_str("title") {
        Some(v) => v,
        None => {
            return None;
        },
    };
    let url_key = match d.get_str("url_key") {
        Some(v) => v,
        None => {
            return None;
        },
    };
    let ordered = match d.get_i64("ordered") {
        Some(v) => v,
        None => {
            return None;
        },
    };
    let status = match d.get_str("status") {
        Some(v) => v,
        None => {
            return None;
        },
    };
    let created_date = match d.get_str("created_date") {
        Some(v) => v,
        None => {
            return None;
        },
    };
    let updated_date = match d.get_str("updated_date") {
        Some(v) => v,
        None => {
            return None;
        },
    };
    Some(
        ChaptersByStoryId {
            chapter_id,
            story_id,
            increment_id,
            title,
            url_key,
            ordered,
            status,
            created_date,
            updated_date,
        },
    )
}

/// The chapter summaries of a listing; `None` where one of the documents
/// lacks a field.
pub fn decode_chapter_summaries(docs: &Vec<Document>) -> (res: Option<Vec<ChaptersByStoryId>>)
    ensures
        match res {
            Some(v) => decode_all(documents_view(docs@), |d: Entries| chapter_summary_of(d))
                == Some(v@.map_values(|c: ChaptersByStoryId| c@)),
            None => decode_all(documents_view(docs@), |d: Entries| chapter_summary_of(d)) is None,
        },
{
    let ghost ds = documents_view(docs@);
    let ghost f = |d: Entries| chapter_summary_of(d);
    let mut out: Vec<ChaptersByStoryId> = Vec::new();
    let mut i: usize = 0;
    proof {
        assert(ds.take(0) =~= Seq::<Entries>::empty());
        assert(out@.map_values(|c: ChaptersByStoryId| c@) =~= Seq::<ChaptersByStoryIdView>::empty());
    }
    while i < docs.len()
        invariant
            i <= docs.len(),
            ds == documents_view(docs@),
            f == (|d: Entries| chapter_summary_of(d)),
            decode_all(ds.take(i as int), f) == Some(out@.map_values(|c: ChaptersByStoryId| c@)),
        decreases docs.len() - i,
    {
        proof {
            lemma_decode_all_step(ds, f, i as int);
            assert(ds[i as int] == docs@[i as int]@);
        }
        match chapter_summary_from_document(&docs[i]) {
            Some(c) => {
                let ghost before = out@.map_values(|c: ChaptersByStoryId| c@);
                out.push(c);
                proof {
                    assert(out@.map_values(|c: ChaptersByStoryId| c@) =~= before.push(c@));
                }
            },
            None => {
                proof {
                    lemma_decode_all_prefix_none(ds, f, i + 1);
                }
                return None;
            },
        }
        i = i + 1;
    }
    proof {
        assert(ds.take(docs.len() as int) =~= ds);
    }
    Some(out)
}

/// The answer to a listing of a story's chapters; `None` where a document
/// lacks a field (the listing fails then).
pub fn list_chapters_response(docs: &Vec<Document>, total: i64, total_page: i64) -> (res: Option<
    ListChaptersResponse,
>)
    ensures
        res is Some <==> decode_all(documents_view(docs@), |d: Entries| chapter_summary_of(d)) is Some,
        res matches Some(r) ==> {
            &&& r.message@ == "Successfully"@
            &&& !r.error
            &&& r.data.total == total
            &&& r.data.total_page == total_page
            &&& decode_all(documents_view(docs@), |d: Entries| chapter_summary_of(d)) == Some(
                r.data.list@.map_values(|c: ChaptersByStoryId| c@),
            )
        },
{
    match decode_chapter_summaries(docs) {
        Some(list) => Some(
            ListChaptersResponse {
                message: "Successfully".to_owned(),
                error: false,
                data: ListChaptersByStoryId { list, total, total_page },
            },
        ),
        None => None,
    }
}

/// The filter that selects a chapter by identifier.
pub fn chapter_id_filter(chapter_id: &str) -> (res: Filter)
    ensures
        res@ == seq![("chapter_id"@, ConditionView::Str(chapter_id@))],
{
    filter_of("chapter_id", Condition::Str(chapter_id.to_owned()))
}

/// The filter that selects the chapters of a story.
pub fn story_chapters_filter(story_id: &str) -> (res: Filter)
    ensures
        res@ == seq![("story_id"@, ConditionView::Str(story_id@))],
{
    filter_of("story_id", Condition::Str(story_id.to_owned()))
}

/// The filter that selects a story's chapter by its place in the story.
pub fn story_and_ordered_filter(story_id: &str, ordered: i64) -> (res: Filter)
    ensures
        res@ == seq![
            ("story_id"@, ConditionView::Str(story_id@)),
            ("ordered"@, ConditionView::Int64(ordered)),
        ],
{
    let mut f = story_chapters_filter(story_id);
    let ghost first = f@;
    f.insert("ordered", Condition::Int64(ordered));
    proof {
        reveal_strlit("story_id");
        reveal_strlit("ordered");
        assert("story_id"@ != "ordered"@) by {
            assert("story_id"@[0] != "ordered"@[0]);
        }
        lemma_insert_clause_absent(first, "ordered"@, ConditionView::Int64(ordered));
        assert(f@ =~= seq![
            ("story_id"@, ConditionView::Str(story_id@)),
            ("ordered"@, ConditionView::Int64(ordered)),
        ]);
    }
    f
}

} // verus!
