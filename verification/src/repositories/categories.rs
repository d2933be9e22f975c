//! Categories: creating one and listing them.

use vstd::prelude::*;
use crate::document::{
    decode_all, doc_i64, doc_str, documents_view, insert_clause, lemma_decode_all_prefix_none,
    lemma_decode_all_step, lemma_entry_of_at, Clauses, Condition, ConditionView, Document, Entries, Field, FieldView,
    Filter,
};
use crate::helpers::{generate_url_key, url_key_of};
use crate::models::categories::{Category, CategoryView, ListCategories, ListCategoriesResponse};
use crate::outside::{is_uuid_v4_text, new_uuid_v4};
use crate::query::{param_or_empty, QueryParams};

verus! {

/// The filter of a category listing: the `type_category` parameter, where it
/// is not empty, as a condition on `type_category`, then the `title`
/// parameter, where it is not empty, as a condition on `name`.
pub open spec fn category_conditions(q: Map<Seq<char>, Seq<char>>) -> Clauses {
    let type_category = param_or_empty(q, "type_category"@);
    let title = param_or_empty(q, "title"@);
    let first = if type_category.len() > 0 {
        insert_clause(Seq::empty(), "type_category"@, ConditionView::Str(type_category))
    } else {
        Seq::empty()
    };
    if title.len() > 0 {
        insert_clause(first, "name"@, ConditionView::Str(title))
    } else {
        first
    }
}

/// Builds the filter of a category listing from the request's parameters.
pub fn build_condition_query(query: &QueryParams) -> (res: Filter)
    ensures
        res@ == category_conditions(query@),
{
    let mut condition = Filter::new();
    let type_category = query.get_or_empty("type_category");
    if !type_category.as_str().is_empty() {
        condition.insert("type_category", Condition::Str(type_category));
    }
    let name = query.get_or_empty("title");
    if !name.as_str().is_empty() {
        condition.insert("name", Condition::Str(name));
    }
    condition
}

/// The category that a stored document holds, where it has each field with
/// the type the listing reads (64-bit integers for the numbers).
pub open spec fn category_of(d: Entries) -> Option<CategoryView> {
    match (
        doc_str(d, "category_id"@),
        doc_i64(d, "increment_id"@),
        doc_str(d, "title"@),
        doc_str(d, "url_key"@),
        doc_str(d, "type_category"@),
        doc_i64(d, "priority"@),
    ) {
        (Some(category_id), Some(increment_id), Some(title), Some(url_key), Some(type_category), Some(priority)) => Some(
            CategoryView { category_id, increment_id, title, url_key, priority, type_category },
        ),
        _ => None,
    }
}

/// A category is read field by field from the entries of the same names,
/// and a document holding every field with its type is read.
pub proof fn law_category_from_same_named_entries(d: Entries)
    ensures
        category_of(d) matches Some(r) ==> {
            &&& doc_str(d, "category_id"@) == Some(r.category_id)
            &&& doc_i64(d, "increment_id"@) == Some(r.increment_id)
            &&& doc_str(d, "title"@) == Some(r.title)
            &&& doc_str(d, "url_key"@) == Some(r.url_key)
            &&& doc_str(d, "type_category"@) == Some(r.type_category)
            &&& doc_i64(d, "priority"@) == Some(r.priority)
        },
        (doc_str(d, "category_id"@) is Some && doc_i64(d, "increment_id"@) is Some && doc_str(
            d,
            "title"@,
        ) is Some && doc_str(d, "url_key"@) is Some && doc_str(d, "type_category"@) is Some
            && doc_i64(d, "priority"@) is Some) ==> category_of(d) is Some,
{
}

/// Reading back the document stored for a new category gives that
/// category's title, priority and type, with the identifier, counter value
/// and URL key it was stored with.
pub proof fn law_stored_category_reads_back(
    c: CategoryView,
    category_id: Seq<char>,
    increment_id: i64,
    url_key: Seq<char>,
)
    ensures
        category_of(category_entries(c, category_id, increment_id, url_key)) == Some(
            CategoryView { category_id, increment_id, url_key, ..c },
        ),
{
    let d = category_entries(c, category_id, increment_id, url_key);
    reveal_strlit("category_id");
    reveal_strlit("increment_id");
    reveal_strlit("title");
    reveal_strlit("url_key");
    reveal_strlit("priority");
    reveal_strlit("type_category");
    assert("category_id"@.len() == 11 && "increment_id"@.len() == 12 && "title"@.len() == 5);
    assert("url_key"@.len() == 7 && "priority"@.len() == 8 && "type_category"@.len() == 13);
    lemma_entry_of_at(d, "category_id"@, 0);
    lemma_entry_of_at(d, "increment_id"@, 1);
    lemma_entry_of_at(d, "title"@, 2);
    lemma_entry_of_at(d, "url_key"@, 3);
    lemma_entry_of_at(d, "priority"@, 4);
    lemma_entry_of_at(d, "type_category"@, 5);
}

/// Reads a category from a stored document.
pub fn category_from_document(d: &Document) -> (res: Option<Category>)
    ensures
        match res {
            Some(c) => category_of(d@) == Some(c@),
            None => category_of(d@) is None,
        },
        res matches Some(c) ==> {
            &&& doc_str(d@, "category_id"@) == Some(c.category_id@)
            &&& doc_i64(d@, "increment_id"@) == Some(c.increment_id)
            &&& doc_str(d@, "title"@) == Some(c.title@)
            &&& doc_str(d@, "url_key"@) == Some(c.url_key@)
            &&& doc_str(d@, "type_category"@) == Some(c.type_category@)
            &&& doc_i64(d@, "priority"@) == Some(c.priority)
        },
{
    proof {
        law_category_from_same_named_entries(d@);
    }
    let category_id = match d.get_str("category_id") {
        Some(v) => v,
        None => {
            return None;
        },
    };
    let increment_id = match d.get_i64("increment_id") {
        Some(v) => v,
        None => {
            return None;
        },
    };
    let title = match d.get_str("title") {
        Some(v) => v,
        None => {
            return None;
        },
    };
    let url_key = match d.get_str("url_key") {
        Some(v) => v,
        None => {
            return None;
        },
    };
    let type_category = match d.get_str("type_category") {
        Some(v) => v,
        None => {
            return None;
        },
    };
    let priority = match d.get_i64("priority") {
        Some(v) => v,
        None => {
            return None;
        },
    };
    Some(Category { category_id, increment_id, title, url_key, priority, type_category })
}

/// The categories of a listing, decoded from the documents the store
/// returned; `None` where one of them lacks a field.
pub fn decode_categories(docs: &Vec<Document>) -> (res: Option<Vec<Category>>)
    ensures
        match res {
            Some(v) => decode_all(documents_view(docs@), |d: Entries| category_of(d)) == Some(
                v@.map_values(|c: Category| c@),
            ),
            None => decode_all(documents_view(docs@), |d: Entries| category_of(d)) is None,
        },
{
    let ghost ds = documents_view(docs@);
    let ghost f = |d: Entries| category_of(d);
    let mut out: Vec<Category> = Vec::new();
    let mut i: usize = 0;
    proof {
        assert(ds.take(0) =~= Seq::<Entries>::empty());
        assert(out@.map_values(|c: Category| c@) =~= Seq::<CategoryView>::empty());
    }
    while i < docs.len()
        invariant
            i <= docs.len(),
            ds == documents_view(docs@),
            f == (|d: Entries| category_of(d)),
            decode_all(ds.take(i as int), f) == Some(out@.map_values(|c: Category| c@)),
        decreases docs.len() - i,
    {
        proof {
            lemma_decode_all_step(ds, f, i as int);
            assert(ds[i as int] == docs@[i as int]@);
        }
        match category_from_document(&docs[i]) {
            Some(c) => {
                let ghost before = out@.map_values(|c: Category| c@);
                out.push(c);
                proof {
                    assert(out@.map_values(|c: Category| c@) =~= before.push(c@));
                }
            },
            None => {
                proof {
                    lemma_decode_all_prefix_none(ds, f, i + 1);
                }
                return None;
            },
        }
        i = i + 1;
    }
    proof {
        assert(ds.take(docs.len() as int) =~= ds);
    }
    Some(out)
}

/// The answer to a listing of categories; `None` where a document lacks a
/// field (the listing fails then).
pub fn list_categories_response(docs: &Vec<Document>, total: i64, total_page: i64) -> (res: Option<
    ListCategoriesResponse,
>)
    ensures
        res is Some <==> decode_all(documents_view(docs@), |d: Entries| category_of(d)) is Some,
        res matches Some(r) ==> {
            &&& r.message@ == "Successfully"@
            &&& !r.error
            &&& r.data.total == total
            &&& r.data.total_page == total_page
            &&& decode_all(documents_view(docs@), |d: Entries| category_of(d)) == Some(
                r.data.list@.map_values(|c: Category| c@),
            )
        },
{
    match decode_categories(docs) {
        Some(list) => Some(
            ListCategoriesResponse {
                message: "Successfully".to_owned(),
                error: false,
                data: ListCategories { list, total, total_page },
            },
        ),
        None => None,
    }
}

/// The document stored for a new category.
pub open spec fn category_entries(
    c: CategoryView,
    category_id: Seq<char>,
    increment_id: i64,
    url_key: Seq<char>,
) -> Entries {
    seq![
        ("category_id"@, FieldView::Str(category_id)),
        ("increment_id"@, FieldView::Int64(increment_id)),
        ("title"@, FieldView::Str(c.title)),
        ("url_key"@, FieldView::Str(url_key)),
        ("priority"@, FieldView::Int64(c.priority)),
        ("type_category"@, FieldView::Str(c.type_category)),
    ]
}

/// The document to store for a new category with the given identifier,
/// counter value and URL key.
pub fn category_document(
    category: &Category,
    category_id: &str,
    increment_id: i64,
    url_key: &str,
) -> (res: Document)
    ensures
        res@ == category_entries(category@, category_id@, increment_id, url_key@),
{
    let mut d = Document::new();
    d.push("category_id", Field::Str(category_id.to_owned()));
    d.push("increment_id", Field::Int64(increment_id));
    d.push("title", Field::Str(category.title.clone()));
    d.push("url_key", Field::Str(url_key.to_owned()));
    d.push("priority", Field::Int64(category.priority));
    d.push("type_category", Field::Str(category.type_category.clone()));
    proof {
        assert(d@ =~= category_entries(category@, category_id@, increment_id, url_key@));
    }
    d
}

/// The document to store when a category is created: a fresh random
/// identifier, the collection's next counter value, and the URL key of the
/// title.
pub fn new_category_document(category: &Category, increment_id: i64) -> (res: Document)
    ensures
        exists|id: Seq<char>|
            is_uuid_v4_text(id) && res@ == category_entries(
                category@,
                id,
                increment_id,
                url_key_of(category.title@),
            ),
{
    let category_id = new_uuid_v4();
    let url_key = generate_url_key(category.title.as_str());
    category_document(category, category_id.as_str(), increment_id, url_key.as_str())
}

} // verus!
