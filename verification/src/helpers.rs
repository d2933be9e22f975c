//! Helpers shared by the repositories: URL keys and per-collection counters.

use vstd::prelude::*;
use crate::document::{doc_i64, filter_of, Condition, ConditionView, Document, Entries, Filter, Update, UpdateView};
use crate::models::response::{response, Response, ResponseView};
use crate::outside::{is_slug, slugified, slugify_text};

verus! {

/// The URL key of a title: its slug with `-` as the separator.
pub open spec fn url_key_of(title: Seq<char>) -> Seq<char> {
    slugified(title, Seq::empty(), seq!['-'], None)
}

/// The URL key of a title: the title transliterated to ASCII, lower-cased,
/// each run of characters other than letters and digits turned into one `-`.
pub fn generate_url_key(title: &str) -> (res: String)
    ensures
        res@ == url_key_of(title@),
        is_slug(res@),
{
    proof {
        reveal_strlit("-");
        reveal_strlit("");
        assert(""@ =~= Seq::<char>::empty());
        assert("-"@ =~= seq!['-']);
    }
    slugify_text(title, "", "-", None)
}

/// The filter that selects the counter of a collection.
pub fn increment_filter(collection_name: &str) -> (res: Filter)
    ensures
        res@ == seq![("collection_name"@, ConditionView::Str(collection_name@))],
{
    filter_of("collection_name", Condition::Str(collection_name.to_owned()))
}

/// The update that moves a counter on by one.
pub fn increment_update() -> (res: Update)
    ensures
        res@ == (UpdateView::Increment { key: "current_id"@, by: 1 }),
{
    Update::Increment { key: "current_id".to_owned(), by: 1 }
}

/// The next identifier that a counter gives: its `current_id` after the
/// increment, or 1 where the store gave no counter or it holds no 64-bit
/// integer there.
pub open spec fn next_increment_id(counter: Option<Entries>) -> i64 {
    match counter {
        Some(d) => match doc_i64(d, "current_id"@) {
            Some(v) => v,
            None => 1,
        },
        None => 1,
    }
}

/// Reads the next identifier from the counter that the store returned after
/// incrementing it.
pub fn increment_id_from(counter: Option<&Document>) -> (res: i64)
    ensures
        res == next_increment_id(
            match counter {
                Some(d) => Some(d@),
                None => None,
            },
        ),
{
    match counter {
        Some(d) => match d.get_i64("current_id") {
            Some(v) => v,
            None => 1,
        },
        None => 1,
    }
}

/// The answer to creating a document: success where the store took it.
pub open spec fn create_answer(inserted: bool) -> ResponseView {
    if inserted {
        ResponseView { message: "Create document successful."@, error: false }
    } else {
        ResponseView { message: "Something went wrong."@, error: true }
    }
}

/// The answer to creating an author, a category or a chapter.
pub fn create_response(inserted: bool) -> (res: Response)
    ensures
        res@ == create_answer(inserted),
{
    if inserted {
        response("Create document successful.", false)
    } else {
        response("Something went wrong.", true)
    }
}

} // verus!
