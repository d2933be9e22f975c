//! Authors: creating one, reading one or the list of all.

use vstd::prelude::*;
use crate::document::{
    decode_all, doc_str, documents_view, filter_of, holds_clauses, Clauses, lemma_decode_all_prefix_none,
    lemma_decode_all_step, Condition, ConditionView, Document, Entries, Field, FieldView, Filter,
};
use crate::helpers::{generate_url_key, url_key_of};
use crate::models::authors::{Authors, AuthorsView, ListAuthors, ListAuthorsResponse};
use crate::outside::{is_uuid_v4_text, new_uuid_v4};
use crate::paging::{paging_for, paging_of, Paging};
use vstd::pervasive::unreached;

verus! {

/// The author that a stored document holds, where it has every field as a
/// string.
pub open spec fn authors_of(d: Entries) -> Option<AuthorsView> {
    match (
        doc_str(d, "author_id"@),
        doc_str(d, "title"@),
        doc_str(d, "url_key"@),
        doc_str(d, "description"@),
        doc_str(d, "created_date"@),
        doc_str(d, "updated_date"@),
    ) {
        (Some(author_id), Some(title), Some(url_key), Some(description), Some(created_date), Some(updated_date)) => Some(
            AuthorsView { author_id, title, url_key, description, created_date, updated_date },
        ),
        _ => None,
    }
}

/// Reads an author from a stored document; `None` where a field is missing
/// or is not a string.
pub fn author_from_document(d: &Document) -> (res: Option<Authors>)
    ensures
        match res {
            Some(a) => authors_of(d@) == Some(a@),
            None => authors_of(d@) is None,
        },
{
    let author_id = match d.get_str("author_id") {
        Some(v) => v,
        None => {
            return None;
        },
    };
    let title = match d.get_str("title") {
        Some(v) => v,
        None => {
            return None;
        },
    };
    let url_key = match d.get_str("url_key") {
        Some(v) => v,
        None => {
            return None;
        },
    };
    let description = match d.get_str("description") {
        Some(v) => v,
        None => {
            return None;
        },
    };
    let created_date = match d.get_str("created_date") {
        Some(v) => v,
        None => {
            return None;
        },
    };
    let updated_date = match d.get_str("updated_date") {
        Some(v) => v,
        None => {
            return None;
        },
    };
    Some(Authors { author_id, title, url_key, description, created_date, updated_date })
}

/// The document stored for a new author.
pub open spec fn author_entries(a: AuthorsView, author_id: Seq<char>, url_key: Seq<char>) -> Entries {
    seq![
        ("author_id"@, FieldView::Str(author_id)),
        ("title"@, FieldView::Str(a.title)),
        ("url_key"@, FieldView::Str(url_key)),
        ("description"@, FieldView::Str(a.description)),
        ("created_date"@, FieldView::Str(a.created_date)),
        ("updated_date"@, FieldView::Str(a.updated_date)),
    ]
}

/// The document to store for a new author with the given identifier and
/// URL key; the author's own identifier and URL key are not used.
pub fn author_document(author: &Authors, author_id: &str, url_key: &str) -> (res: Document)
    ensures
        res@ == author_entries(author@, author_id@, url_key@),
{
    let mut d = Document::new();
    d.push("author_id", Field::Str(author_id.to_owned()));
    d.push("title", Field::Str(author.title.clone()));
    d.push("url_key", Field::Str(url_key.to_owned()));
    d.push("description", Field::Str(author.description.clone()));
    d.push("created_date", Field::Str(author.created_date.clone()));
    d.push("updated_date", Field::Str(author.updated_date.clone()));
    proof {
        assert(d@ =~= author_entries(author@, author_id@, url_key@));
    }
    d
}

/// The document to store when an author is created: a fresh random
/// identifier, and the URL key of the title.
pub fn new_author_document(author: &Authors) -> (res: Document)
    ensures
        exists|id: Seq<char>|
            is_uuid_v4_text(id) && res@ == author_entries(author@, id, url_key_of(author.title@)),
{
    let author_id = new_uuid_v4();
    let url_key = generate_url_key(author.title.as_str());
    author_document(author, author_id.as_str(), url_key.as_str())
}

/// An author created and then looked up by the URL key of its title: the
/// filter of that URL key selects the stored record, and where no other
/// record of the store holds that URL key, every record the lookup can find
/// reads back as the author, with the new identifier and the URL key of
/// the title.
pub proof fn law_created_author_found_by_url_key(
    author: AuthorsView,
    author_id: Seq<char>,
    stored: Entries,
    filter: Clauses,
    store: Seq<Entries>,
)
    requires
        stored == author_entries(author, author_id, url_key_of(author.title)),
        filter == seq![("url_key"@, ConditionView::Str(url_key_of(author.title)))],
        store.contains(stored),
        forall|j: int| 0 <= j < store.len() && store[j] != stored ==> !holds_clauses(filter, #[trigger] store[j]),
    ensures
        holds_clauses(filter, stored),
        authors_of(stored) == Some(
            AuthorsView {
                author_id,
                title: author.title,
                url_key: url_key_of(author.title),
                description: author.description,
                created_date: author.created_date,
                updated_date: author.updated_date,
            },
        ),
        forall|j: int|
            0 <= j < store.len() && holds_clauses(filter, #[trigger] store[j]) ==> store[j] == stored,
{
    let k = url_key_of(author.title);
    reveal_strlit("author_id");
    reveal_strlit("title");
    reveal_strlit("url_key");
    reveal_strlit("description");
    reveal_strlit("created_date");
    reveal_strlit("updated_date");
    assert("author_id"@.len() == 9 && "title"@.len() == 5 && "url_key"@.len() == 7);
    assert("description"@.len() == 11 && "created_date"@.len() == 12);
    assert("created_date"@[0] != "updated_date"@[0]);
    assert("author_id"@ != "title"@ && "author_id"@ != "url_key"@ && "title"@ != "url_key"@);
    assert("description"@ != "author_id"@ && "description"@ != "title"@ && "description"@ != "url_key"@);
    assert("created_date"@ != "author_id"@ && "created_date"@ != "title"@ && "created_date"@ != "url_key"@ && "created_date"@ != "description"@);
    assert("updated_date"@ != "author_id"@ && "updated_date"@ != "title"@ && "updated_date"@ != "url_key"@ && "updated_date"@ != "description"@ && "updated_date"@ != "created_date"@);
    crate::document::lemma_entry_of_at(stored, "author_id"@, 0);
    crate::document::lemma_entry_of_at(stored, "title"@, 1);
    crate::document::lemma_entry_of_at(stored, "url_key"@, 2);
    crate::document::lemma_entry_of_at(stored, "description"@, 3);
    crate::document::lemma_entry_of_at(stored, "created_date"@, 4);
    crate::document::lemma_entry_of_at(stored, "updated_date"@, 5);
    assert(doc_str(stored, "url_key"@) == Some(k));
    assert forall|i: int| 0 <= i < filter.len() implies crate::document::holds_clause(
        stored,
        #[trigger] filter[i].0,
        filter[i].1,
    ) by {
        assert(i == 0);
    }
}

/// The filter that selects an author by identifier.
pub fn author_id_filter(author_id: &str) -> (res: Filter)
    ensures
        res@ == seq![("author_id"@, ConditionView::Str(author_id@))],
{
    filter_of("author_id", Condition::Str(author_id.to_owned()))
}

/// The filter that selects an author by URL key.
pub fn url_key_filter(url_key: &str) -> (res: Filter)
    ensures
        res@ == seq![("url_key"@, ConditionView::Str(url_key@))],
{
    filter_of("url_key", Condition::Str(url_key.to_owned()))
}

/// The authors' listing is one page of up to 1000 authors.
pub fn authors_paging(total: i64) -> (res: Paging)
    requires
        total >= 0,
    ensures
        paging_of(0, 1000, total as int) == Some(res),
{
    match paging_for(0, 1000, total) {
        Some(p) => p,
        None => {
            proof {
                assert(0int * 1000int == 0);
            }
            unreached()
        },
    }
}

/// The authors of a listing, decoded from the documents the store returned;
/// `None` where one of them lacks a field (the listing fails then).
pub fn decode_authors(docs: &Vec<Document>) -> (res: Option<Vec<Authors>>)
    ensures
        match res {
            Some(v) => decode_all(documents_view(docs@), |d: Entries| authors_of(d)) == Some(
                v@.map_values(|a: Authors| a@),
            ),
            None => decode_all(documents_view(docs@), |d: Entries| authors_of(d)) is None,
        },
{
    let ghost ds = documents_view(docs@);
    let ghost f = |d: Entries| authors_of(d);
    let mut out: Vec<Authors> = Vec::new();
    let mut i: usize = 0;
    proof {
        assert(ds.take(0) =~= Seq::<Entries>::empty());
        assert(out@.map_values(|a: Authors| a@) =~= Seq::<AuthorsView>::empty());
    }
    while i < docs.len()
        invariant
            i <= docs.len(),
            ds == documents_view(docs@),
            f == (|d: Entries| authors_of(d)),
            decode_all(ds.take(i as int), f) == Some(out@.map_values(|a: Authors| a@)),
        decreases docs.len() - i,
    {
        proof {
            lemma_decode_all_step(ds, f, i as int);
            assert(ds[i as int] == docs@[i as int]@);
        }
        match author_from_document(&docs[i]) {
            Some(a) => {
                let ghost before = out@.map_values(|a: Authors| a@);
                out.push(a);
                proof {
                    assert(out@.map_values(|a: Authors| a@) =~= before.push(a@));
                }
            },
            None => {
                proof {
                    lemma_decode_all_prefix_none(ds, f, i + 1);
                }
                return None;
            },
        }
        i = i + 1;
    }
    proof {
        assert(ds.take(docs.len() as int) =~= ds);
    }
    Some(out)
}

/// The answer to a listing of authors: every document decoded, with the
/// count of all authors and of pages; `None` where a document lacks a field.
pub fn list_authors_response(docs: &Vec<Document>, total: i64, total_page: i64) -> (res: Option<
    ListAuthorsResponse,
>)
    ensures
        res is Some <==> decode_all(documents_view(docs@), |d: Entries| authors_of(d)) is Some,
        res matches Some(r) ==> {
            &&& r.message@ == "Successfully"@
            &&& !r.error
            &&& r.data.total == total
            &&& r.data.total_page == total_page
            &&& decode_all(documents_view(docs@), |d: Entries| authors_of(d)) == Some(
                r.data.list@.map_values(|a: Authors| a@),
            )
        },
{
    match decode_authors(docs) {
        Some(list) => Some(
            ListAuthorsResponse {
                message: "Successfully".to_owned(),
                error: false,
                data: ListAuthors { list, total, total_page },
            },
        ),
        None => None,
    }
}

} // verus!
