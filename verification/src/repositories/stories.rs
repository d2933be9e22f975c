//! Stories: listing and filtering them, reading one, filing one under
//! categories, changing its image, and the lookups that complete a stored
//! story with its author and categories.

use vstd::prelude::*;
use vstd::multiset::Multiset;
use crate::document::{
    entry_of, law_clause_read_after_insert, lemma_entry_of_stands, doc_bool, doc_i64, doc_str, documents_view, filter_of, holds_clauses, insert_clause, Clauses, Condition,
    ConditionView, Document, Entries, Field, FieldView, Filter, SortKey, Update, UpdateView,
};
use crate::models::authors::{AuthorStory, AuthorStoryView};
use crate::models::categories::{CategoryStory, CategoryStoryView};
use crate::models::response::{response, Response, ResponseView};
use crate::models::stories::{ListStories, ListStoriesResponse, PostStoryCategoryMapping, Stories, StoriesView};
use crate::outside::{escape_regex, regex_escaped};
use crate::query::{param_or_empty, strings_view, QueryParams};
use crate::text::equals;

verus! {

/// The `title` condition of a story listing: the title, escaped, anywhere
/// in the stored title, ignoring case.
pub open spec fn title_condition(title: Seq<char>) -> ConditionView {
    ConditionView::Matches { pattern: ".*"@ + regex_escaped(title) + ".*"@, options: "i"@ }
}

/// A `true`/`false` parameter as a condition on a boolean field: `true` and
/// `false` select it, anything else leaves the clauses as they are.
pub open spec fn flag_clause(c: Clauses, q: Map<Seq<char>, Seq<char>>, key: Seq<char>) -> Clauses {
    let v = param_or_empty(q, key);
    if v == "true"@ {
        insert_clause(c, key, ConditionView::Bool(true))
    } else if v == "false"@ {
        insert_clause(c, key, ConditionView::Bool(false))
    } else {
        c
    }
}

/// The filter of a story listing, clause by clause in this order: `status`
/// (where not empty), `title` (a case-insensitive match of the escaped
/// text), `is_active` (only `true` selects), `author_id` (where not empty),
/// `differ_story_id` (where not empty, a story other than that one),
/// `is_full` and `is_hot` (`true` or `false`).
pub open spec fn story_conditions(q: Map<Seq<char>, Seq<char>>) -> Clauses {
    let status = param_or_empty(q, "status"@);
    let title = param_or_empty(q, "title"@);
    let is_active = param_or_empty(q, "is_active"@);
    let author_id = param_or_empty(q, "author_id"@);
    let differ = param_or_empty(q, "differ_story_id"@);
    let c1 = if status.len() > 0 {
        insert_clause(Seq::empty(), "status"@, ConditionView::Str(status))
    } else {
        Seq::empty()
    };
    let c2 = if title.len() > 0 {
        insert_clause(c1, "title"@, title_condition(title))
    } else {
        c1
    };
    let c3 = if is_active == "true"@ {
        insert_clause(c2, "is_active"@, ConditionView::Bool(true))
    } else {
        c2
    };
    let c4 = if author_id.len() > 0 {
        insert_clause(c3, "author_id"@, ConditionView::Str(author_id))
    } else {
        c3
    };
    let c5 = if differ.len() > 0 {
        insert_clause(c4, "story_id"@, ConditionView::NotEqual(differ))
    } else {
        c4
    };
    flag_clause(flag_clause(c5, q, "is_full"@), q, "is_hot"@)
}

/// The `is_full` and `is_hot` parameters of a story listing: `true` or
/// `false` puts that boolean on the flag in the filter, so that a record the
/// filter selects holds it there; any other value leaves the flag free.
pub proof fn law_listing_flags(q: Map<Seq<char>, Seq<char>>, k: Seq<char>, d: Entries)
    requires
        k == "is_full"@ || k == "is_hot"@,
    ensures
        param_or_empty(q, k) == "true"@ ==> entry_of(story_conditions(q), k) == Some(
            ConditionView::Bool(true),
        ),
        param_or_empty(q, k) == "false"@ ==> entry_of(story_conditions(q), k) == Some(
            ConditionView::Bool(false),
        ),
        param_or_empty(q, k) != "true"@ && param_or_empty(q, k) != "false"@ ==> entry_of(
            story_conditions(q),
            k,
        ) is None,
        holds_clauses(story_conditions(q), d) && param_or_empty(q, k) == "true"@ ==> doc_bool(
            d,
            k,
        ) == Some(true),
        holds_clauses(story_conditions(q), d) && param_or_empty(q, k) == "false"@ ==> doc_bool(
            d,
            k,
        ) == Some(false),
{
    reveal_strlit("is_full");
    reveal_strlit("is_hot");
    reveal_strlit("status");
    reveal_strlit("title");
    reveal_strlit("is_active");
    reveal_strlit("author_id");
    reveal_strlit("story_id");
    reveal_strlit("true");
    reveal_strlit("false");
    assert("true"@.len() == 4 && "false"@.len() == 5);
    assert("is_full"@.len() == 7 && "is_hot"@.len() == 6 && "status"@.len() == 6);
    assert("title"@.len() == 5 && "is_active"@.len() == 9 && "author_id"@.len() == 9);
    assert("story_id"@.len() == 8 && "status"@[0] == 's' && "is_hot"@[0] == 'i');
    let status = param_or_empty(q, "status"@);
    let title = param_or_empty(q, "title"@);
    let author_id = param_or_empty(q, "author_id"@);
    let differ = param_or_empty(q, "differ_story_id"@);
    let e: Clauses = Seq::empty();
    law_clause_read_after_insert(e, "status"@, ConditionView::Str(status), k);
    let c1 = if status.len() > 0 {
        insert_clause(e, "status"@, ConditionView::Str(status))
    } else {
        e
    };
    assert(entry_of(c1, k) is None);
    law_clause_read_after_insert(c1, "title"@, title_condition(title), k);
    let c2 = if title.len() > 0 {
        insert_clause(c1, "title"@, title_condition(title))
    } else {
        c1
    };
    law_clause_read_after_insert(c2, "is_active"@, ConditionView::Bool(true), k);
    let c3 = if param_or_empty(q, "is_active"@) == "true"@ {
        insert_clause(c2, "is_active"@, ConditionView::Bool(true))
    } else {
        c2
    };
    law_clause_read_after_insert(c3, "author_id"@, ConditionView::Str(author_id), k);
    let c4 = if author_id.len() > 0 {
        insert_clause(c3, "author_id"@, ConditionView::Str(author_id))
    } else {
        c3
    };
    law_clause_read_after_insert(c4, "story_id"@, ConditionView::NotEqual(differ), k);
    let c5 = if differ.len() > 0 {
        insert_clause(c4, "story_id"@, ConditionView::NotEqual(differ))
    } else {
        c4
    };
    assert(entry_of(c5, k) is None);
    law_clause_read_after_insert(c5, "is_full"@, ConditionView::Bool(true), k);
    law_clause_read_after_insert(c5, "is_full"@, ConditionView::Bool(false), k);
    let c6 = flag_clause(c5, q, "is_full"@);
    law_clause_read_after_insert(c6, "is_hot"@, ConditionView::Bool(true), k);
    law_clause_read_after_insert(c6, "is_hot"@, ConditionView::Bool(false), k);
    let f = flag_clause(c6, q, "is_hot"@);
    assert(f == story_conditions(q));
    lemma_entry_of_stands(f, k);
    if holds_clauses(f, d) {
        if let Some(v) = entry_of(f, k) {
            let i = choose|i: int| 0 <= i < f.len() && #[trigger] f[i] == (k, v);
            assert(crate::document::holds_clause(d, f[i].0, f[i].1));
        }
    }
}

/// Adds the condition that a `true`/`false` parameter asks for.
fn add_flag(condition: &mut Filter, query: &QueryParams, key: &str)
    ensures
        final(condition)@ == flag_clause(old(condition)@, query@, key@),
{
    let v = query.get_or_empty(key);
    if equals(v.as_str(), "true") {
        condition.insert(key, Condition::Bool(true));
    } else if equals(v.as_str(), "false") {
        condition.insert(key, Condition::Bool(false));
    }
}

/// Builds the filter of a story listing from the request's parameters.
pub fn build_condition_query(query: &QueryParams) -> (res: Filter)
    ensures
        res@ == story_conditions(query@),
        forall|k: Seq<char>|
            (k == "is_full"@ || k == "is_hot"@) ==> {
                &&& param_or_empty(query@, k) == "true"@ ==> entry_of(#[trigger] res@, k) == Some(
                    ConditionView::Bool(true),
                )
                &&& param_or_empty(query@, k) == "false"@ ==> entry_of(res@, k) == Some(
                    ConditionView::Bool(false),
                )
                &&& (param_or_empty(query@, k) != "true"@ && param_or_empty(query@, k) != "false"@)
                    ==> entry_of(res@, k) is None
            },
{
    proof {
        law_listing_flags(query@, "is_full"@, Seq::empty());
        law_listing_flags(query@, "is_hot"@, Seq::empty());
    }
    let mut condition = Filter::new();
    let status = query.get_or_empty("status");
    if !status.as_str().is_empty() {
        condition.insert("status", Condition::Str(status));
    }
    let title = query.get_or_empty("title");
    if !title.as_str().is_empty() {
        let escaped = escape_regex(title.as_str());
        let mut pattern = String::from_str(".*");
        pattern.append(escaped.as_str());
        pattern.append(".*");
        condition.insert(
            "title",
            Condition::Matches { pattern, options: String::from_str("i") },
        );
    }
    let is_active = query.get_or_empty("is_active");
    if equals(is_active.as_str(), "true") {
        condition.insert("is_active", Condition::Bool(true));
    }
    let author_id = query.get_or_empty("author_id");
    if !author_id.as_str().is_empty() {
        condition.insert("author_id", Condition::Str(author_id));
    }
    let differ_story_id = query.get_or_empty("differ_story_id");
    if !differ_story_id.as_str().is_empty() {
        condition.insert("story_id", Condition::NotEqual(differ_story_id));
    }
    add_flag(&mut condition, query, "is_full");
    add_flag(&mut condition, query, "is_hot");
    condition
}

/// The order of a story listing: by `updated_date`, newest first, where the
/// `sort_by_latest` parameter is `true`; the store's own order otherwise.
pub fn sort_order(query: &QueryParams) -> (res: Option<SortKey>)
    ensures
        res is Some <==> param_or_empty(query@, "sort_by_latest"@) == "true"@,
        res matches Some(k) ==> k.field@ == "updated_date"@ && k.direction == -1,
{
    let v = query.get_or_empty("sort_by_latest");
    if equals(v.as_str(), "true") {
        Some(SortKey { field: String::from_str("updated_date"), direction: -1 })
    } else {
        None
    }
}

/// The filter that selects an active story by identifier.
pub fn active_story_filter(story_id: &str) -> (res: Filter)
    ensures
        res@ == insert_clause(
            seq![("story_id"@, ConditionView::Str(story_id@))],
            "is_active"@,
            ConditionView::Bool(true),
        ),
{
    let mut f = filter_of("story_id", Condition::Str(story_id.to_owned()));
    f.insert("is_active", Condition::Bool(true));
    f
}

/// The filter that selects a story, or a story's category links, by the
/// story's identifier.
pub fn story_id_filter(story_id: &str) -> (res: Filter)
    ensures
        res@ == seq![("story_id"@, ConditionView::Str(story_id@))],
{
    filter_of("story_id", Condition::Str(story_id.to_owned()))
}

/// The filter that selects the category links of a category.
pub fn category_links_filter(category_id: &str) -> (res: Filter)
    ensures
        res@ == seq![("category_id"@, ConditionView::Str(category_id@))],
{
    filter_of("category_id", Condition::Str(category_id.to_owned()))
}

/// The update that sets a story's image path.
pub fn path_image_update(new_path_image: &str) -> (res: Update)
    ensures
        res@ == (UpdateView::Assign { key: "path_image"@, value: new_path_image@ }),
{
    Update::Assign { key: String::from_str("path_image"), value: new_path_image.to_owned() }
}

/// The link between a story and one category.
pub open spec fn link_entries(story_id: Seq<char>, category_id: Seq<char>) -> Entries {
    seq![("story_id"@, FieldView::Str(story_id)), ("category_id"@, FieldView::Str(category_id))]
}

/// The links to store for a filing request: one per category, in order.
pub fn category_link_documents(mapping: &PostStoryCategoryMapping) -> (res: Vec<Document>)
    ensures
        res@.len() == mapping.category_ids@.len(),
        forall|i: int|
            0 <= i < res@.len() ==> #[trigger] res@[i]@ == link_entries(
                mapping.story_id@,
                mapping.category_ids@[i]@,
            ),
{
    let mut out: Vec<Document> = Vec::new();
    let mut i: usize = 0;
    while i < mapping.category_ids.len()
        invariant
            i <= mapping.category_ids.len(),
            out@.len() == i,
            forall|j: int|
                0 <= j < i ==> #[trigger] out@[j]@ == link_entries(
                    mapping.story_id@,
                    mapping.category_ids@[j]@,
                ),
        decreases mapping.category_ids.len() - i,
    {
        let mut d = Document::new();
        d.push("story_id", Field::Str(mapping.story_id.clone()));
        d.push("category_id", Field::Str(mapping.category_ids[i].clone()));
        proof {
            assert(d@ =~= link_entries(mapping.story_id@, mapping.category_ids@[i as int]@));
        }
        out.push(d);
        i = i + 1;
    }
    out
}

/// The links the store holds after a story is filed under categories: every
/// link the filter selects is removed, and the new links are added.
pub open spec fn relinked(held: Multiset<Entries>, filter: Clauses, links: Seq<Entries>) -> Multiset<
    Entries,
> {
    held.filter(|d: Entries| !holds_clauses(filter, d)).add(links.to_multiset())
}

/// Filing a story under the same categories twice leaves the store's links
/// as after the first time: the story's filter selects every new link, so
/// the second filing removes exactly the links the first one added and adds
/// them again.
pub proof fn law_relinking_twice(
    held: Multiset<Entries>,
    story_id: Seq<char>,
    category_ids: Seq<Seq<char>>,
    filter: Clauses,
    links: Seq<Entries>,
)
    requires
        filter == seq![("story_id"@, ConditionView::Str(story_id))],
        links.len() == category_ids.len(),
        forall|i: int| 0 <= i < links.len() ==> #[trigger] links[i] == link_entries(story_id, category_ids[i]),
    ensures
        forall|i: int| 0 <= i < links.len() ==> holds_clauses(filter, #[trigger] links[i]),
        relinked(relinked(held, filter, links), filter, links) == relinked(held, filter, links),
{
    broadcast use vstd::multiset::group_multiset_axioms;
    broadcast use vstd::seq_lib::group_to_multiset_ensures;

    assert forall|i: int| 0 <= i < links.len() implies holds_clauses(filter, #[trigger] links[i]) by {
        let d = links[i];
        assert(d[0] == ("story_id"@, FieldView::Str(story_id)));
        assert(doc_str(d, "story_id"@) == Some(story_id));
        assert forall|j: int| 0 <= j < filter.len() implies crate::document::holds_clause(
            d,
            #[trigger] filter[j].0,
            filter[j].1,
        ) by {
            assert(j == 0);
        }
    }
    let once = relinked(held, filter, links);
    let twice = relinked(once, filter, links);
    assert forall|v: Entries| #[trigger] twice.count(v) == once.count(v) by {
        if !holds_clauses(filter, v) {
            if links.to_multiset().count(v) > 0 {
                assert(links.contains(v));
                let i = choose|i: int| 0 <= i < links.len() && links[i] == v;
                assert(holds_clauses(filter, links[i]));
            }
        }
    }
    assert(twice =~= once);
}

/// The answer where the old links of a story could not be removed.
pub fn unlink_failed_response() -> (res: Response)
    ensures
        res@ == (ResponseView { message: "Failed to delete existing mappings."@, error: true }),
{
    response("Failed to delete existing mappings.", true)
}

/// The answer to storing a story's new links.
pub fn link_response(inserted: bool) -> (res: Response)
    ensures
        res@ == if inserted {
            ResponseView { message: "Mapping created successfully."@, error: false }
        } else {
            ResponseView { message: "Something went wrong."@, error: true }
        },
{
    if inserted {
        response("Mapping created successfully.", false)
    } else {
        response("Something went wrong.", true)
    }
}

/// The story identifiers that a list of documents holds as strings, in
/// order; the others are skipped.
pub open spec fn story_ids_of(ds: Seq<Entries>) -> Seq<Seq<char>>
    decreases ds.len(),
{
    if ds.len() == 0 {
        Seq::empty()
    } else {
        let rest = story_ids_of(ds.drop_last());
        match doc_str(ds.last(), "story_id"@) {
            Some(id) => rest.push(id),
            None => rest,
        }
    }
}

/// Collects the story identifiers of a list of documents.
pub fn collect_story_ids(docs: &Vec<Document>) -> (res: Vec<String>)
    ensures
        strings_view(res@) == story_ids_of(documents_view(docs@)),
{
    let ghost ds = documents_view(docs@);
    let mut out: Vec<String> = Vec::new();
    let mut i: usize = 0;
    proof {
        assert(ds.take(0) =~= Seq::<Entries>::empty());
        assert(strings_view(out@) =~= Seq::<Seq<char>>::empty());
    }
    while i < docs.len()
        invariant
            i <= docs.len(),
            ds == documents_view(docs@),
            strings_view(out@) == story_ids_of(ds.take(i as int)),
        decreases docs.len() - i,
    {
        proof {
            assert(ds.take(i + 1).drop_last() =~= ds.take(i as int));
            assert(ds.take(i + 1).last() == docs@[i as int]@);
        }
        let ghost before = strings_view(out@);
        match docs[i].get_str("story_id") {
            Some(id) => {
                out.push(id);
                proof {
                    assert(strings_view(out@) =~= before.push(id@));
                }
            },
            None => {},
        }
        i = i + 1;
    }
    proof {
        assert(ds.take(docs.len() as int) =~= ds);
    }
    out
}

/// Copies a list of strings.
pub fn copy_strings(v: &Vec<String>) -> (res: Vec<String>)
    ensures
        strings_view(res@) == strings_view(v@),
{
    let mut out: Vec<String> = Vec::new();
    let mut i: usize = 0;
    while i < v.len()
        invariant
            i <= v.len(),
            strings_view(out@) == strings_view(v@).take(i as int),
        decreases v.len() - i,
    {
        let ghost before = strings_view(out@);
        out.push(v[i].clone());
        proof {
            assert(strings_view(out@) =~= before.push(v@[i as int]@));
            assert(strings_view(v@).take(i + 1) =~= strings_view(v@).take(i as int).push(
                v@[i as int]@,
            ));
        }
        i = i + 1;
    }
    proof {
        assert(strings_view(v@).take(v.len() as int) =~= strings_view(v@));
    }
    out
}

/// The filter of a category's story listing: the listing's filter, with the
/// story identifier required to be one of the category's stories (this
/// replaces a `differ_story_id` condition where there is one).
pub fn category_stories_filter(query: &QueryParams, story_ids: &Vec<String>) -> (res: Filter)
    ensures
        res@ == insert_clause(
            story_conditions(query@),
            "story_id"@,
            ConditionView::OneOf(strings_view(story_ids@)),
        ),
{
    let mut condition = build_condition_query(query);
    let ids = copy_strings(story_ids);
    condition.insert("story_id", Condition::OneOf(ids));
    condition
}

/// The answer to a listing of stories.
pub fn list_stories_response(list: Vec<Stories>, total: i64, total_page: i64) -> (res:
    ListStoriesResponse)
    ensures
        res.message@ == "Successfully"@,
        !res.error,
        res.data.list@ == list@,
        res.data.total == total,
        res.data.total_page == total_page,
{
    ListStoriesResponse {
        message: String::from_str("Successfully"),
        error: false,
        data: ListStories { list, total, total_page },
    }
}

/// The answer to a category's listing where the category holds no story:
/// an empty list, no stories, no pages.
pub fn empty_stories_response() -> (res: ListStoriesResponse)
    ensures
        res.message@ == "Successfully"@,
        !res.error,
        res.data.list@.len() == 0,
        res.data.total == 0,
        res.data.total_page == 0,
{
    list_stories_response(Vec::new(), 0, 0)
}

/// The author of a stored story: the author record found by the story's
/// `author_id`, or empty fields where none was found; `None` where the found
/// record lacks one of its fields.
pub open spec fn author_story_of(found: Option<Entries>) -> Option<AuthorStoryView> {
    match found {
        None => Some(
            AuthorStoryView {
                author_id: Seq::empty(),
                author_title: Seq::empty(),
                url_key: Seq::empty(),
            },
        ),
        Some(d) => match (
            doc_str(d, "author_id"@),
            doc_str(d, "title"@),
            doc_str(d, "url_key"@),
        ) {
            (Some(author_id), Some(author_title), Some(url_key)) => Some(
                AuthorStoryView { author_id, author_title, url_key },
            ),
            _ => None,
        },
    }
}

/// Reads the author of a story from the author record the store found.
pub fn author_story_from(found: Option<&Document>) -> (res: Option<AuthorStory>)
    ensures
        match res {
            Some(a) => author_story_of(
                match found {
                    Some(d) => Some(d@),
                    None => None,
                },
            ) == Some(a@),
            None => author_story_of(
                match found {
                    Some(d) => Some(d@),
                    None => None,
                },
            ) is None,
        },
{
    match found {
        None => Some(
            AuthorStory { author_id: String::new(), author_title: String::new(), url_key: String::new() },
        ),
        Some(d) => {
            let author_id = match d.get_str("author_id") {
                Some(v) => v,
                None => {
                    return None;
                },
            };
            let author_title = match d.get_str("title") {
                Some(v) => v,
                None => {
                    return None;
                },
            };
            let url_key = match d.get_str("url_key") {
                Some(v) => v,
                None => {
                    return None;
                },
            };
            Some(AuthorStory { author_id, author_title, url_key })
        },
    }
}

/// The filter that selects a category of the `category` type by identifier.
pub fn story_category_filter(category_id: &str) -> (res: Filter)
    ensures
        res@ == insert_clause(
            seq![("category_id"@, ConditionView::Str(category_id@))],
            "type_category"@,
            ConditionView::Str("category"@),
        ),
{
    let mut f = filter_of("category_id", Condition::Str(category_id.to_owned()));
    f.insert("type_category", Condition::Str(String::from_str("category")));
    f
}

/// A category as a story shows it, read from the category record; `None`
/// where the record lacks one of the fields.
pub open spec fn category_story_of(d: Entries) -> Option<CategoryStoryView> {
    match (doc_str(d, "category_id"@), doc_str(d, "title"@), doc_str(d, "url_key"@)) {
        (Some(category_id), Some(category_name), Some(url_key)) => Some(
            CategoryStoryView { category_id, category_name, url_key },
        ),
        _ => None,
    }
}

/// Reads a category of a story from the category record.
pub fn category_story_from(d: &Document) -> (res: Option<CategoryStory>)
    ensures
        match res {
            Some(c) => category_story_of(d@) == Some(c@),
            None => category_story_of(d@) is None,
        },
{
    let category_id = match d.get_str("category_id") {
        Some(v) => v,
        None => {
            return None;
        },
    };
    let category_name = match d.get_str("title") {
        Some(v) => v,
        None => {
            return None;
        },
    };
    let url_key = match d.get_str("url_key") {
        Some(v) => v,
        None => {
            return None;
        },
    };
    Some(CategoryStory { category_id, category_name, url_key })
}

/// The view of the category records the store found, one per link.
pub open spec fn found_view(v: Seq<Option<Document>>) -> Seq<Option<Entries>> {
    v.map_values(|o: Option<Document>| match o {
        Some(d) => Some(d@),
        None => None,
    })
}

/// The categories of a story, from its links to categories in the order the
/// store gave them and, for each link, the category record found for it: a
/// link without a `category_id` string, or whose category was not found, is
/// skipped; the others give their category in order. `None` where a found
/// record lacks one of its fields.
pub open spec fn story_categories_of(links: Seq<Entries>, found: Seq<Option<Entries>>) -> Option<
    Seq<CategoryStoryView>,
>
    decreases links.len(),
{
    if links.len() == 0 {
        Some(Seq::empty())
    } else {
        match story_categories_of(links.drop_last(), found) {
            None => None,
            Some(r) => match (doc_str(links.last(), "category_id"@), found[links.len() - 1]) {
                (Some(_), Some(c)) => match category_story_of(c) {
                    Some(cs) => Some(r.push(cs)),
                    None => None,
                },
                _ => Some(r),
            },
        }
    }
}

/// Gathers the categories of a story from its links and the category
/// records found for them (`found[i]` for `links[i]`).
pub fn story_categories(links: &Vec<Document>, found: &Vec<Option<Document>>) -> (res: Option<
    Vec<CategoryStory>,
>)
    requires
        links.len() == found.len(),
    ensures
        match res {
            Some(v) => story_categories_of(documents_view(links@), found_view(found@)) == Some(
                v@.map_values(|c: CategoryStory| c@),
            ),
            None => story_categories_of(documents_view(links@), found_view(found@)) is None,
        },
{
    let ghost ls = documents_view(links@);
    let ghost fs = found_view(found@);
    let mut out: Vec<CategoryStory> = Vec::new();
    let mut i: usize = 0;
    proof {
        assert(ls.take(0) =~= Seq::<Entries>::empty());
        assert(out@.map_values(|c: CategoryStory| c@) =~= Seq::<CategoryStoryView>::empty());
    }
    while i < links.len()
        invariant
            i <= links.len(),
            links.len() == found.len(),
            ls == documents_view(links@),
            fs == found_view(found@),
            story_categories_of(ls.take(i as int), fs) == Some(
                out@.map_values(|c: CategoryStory| c@),
            ),
        decreases links.len() - i,
    {
        proof {
            assert(ls.take(i + 1).drop_last() =~= ls.take(i as int));
            assert(ls.take(i + 1).last() == links@[i as int]@);
            assert(fs[i as int] == match found@[i as int] {
                Some(d) => Some(d@),
                None => None::<Entries>,
            });
        }
        let ghost before = out@.map_values(|c: CategoryStory| c@);
        match links[i].get_str("category_id") {
            Some(_) => match &found[i] {
                Some(c) => match category_story_from(c) {
                    Some(cs) => {
                        let ghost csv = cs@;
                        out.push(cs);
                        proof {
                            assert(out@.map_values(|c: CategoryStory| c@) =~= before.push(csv));
                        }
                    },
                    None => {
                        proof {
                            assert(story_categories_of(ls.take(i + 1), fs) is None);
                            lemma_story_categories_none_stays(ls, fs, i as int + 1);
                        }
                        return None;
                    },
                },
                None => {},
            },
            None => {},
        }
        i = i + 1;
    }
    proof {
        assert(ls.take(links.len() as int) =~= ls);
    }
    Some(out)
}

/// Once a found record fails to read, the categories of every longer prefix
/// of the links fail too.
proof fn lemma_story_categories_none_stays(ls: Seq<Entries>, fs: Seq<Option<Entries>>, j: int)
    requires
        0 <= j <= ls.len(),
        story_categories_of(ls.take(j), fs) is None,
    ensures
        story_categories_of(ls, fs) is None,
    decreases ls.len() - j,
{
    if j < ls.len() {
        assert(ls.take(j + 1).drop_last() =~= ls.take(j));
        lemma_story_categories_none_stays(ls, fs, j + 1);
    } else {
        assert(ls.take(j) =~= ls);
    }
}

/// What a category's story listing does once the category's links are
/// read: answer at once where they name no story, else look up the stories
/// the filter selects.
pub enum CategoryListing {
    /// The answer, given before any lookup.
    Answer(ListStoriesResponse),
    /// The filter of the stories to count and list.
    Lookup(Filter),
}

/// Decides a category's story listing from the category's links and the
/// request.
pub fn category_listing(query: &QueryParams, links: &Vec<Document>) -> (res: CategoryListing)
    ensures
        story_ids_of(documents_view(links@)).len() == 0 ==> (res matches CategoryListing::Answer(
            r,
        ) && r.message@ == "Successfully"@ && !r.error && r.data.list@.len() == 0 && r.data.total
            == 0 && r.data.total_page == 0),
        story_ids_of(documents_view(links@)).len() > 0 ==> (res matches CategoryListing::Lookup(f)
            && f@ == insert_clause(
            story_conditions(query@),
            "story_id"@,
            ConditionView::OneOf(story_ids_of(documents_view(links@))),
        )),
{
    let story_ids = collect_story_ids(links);
    if story_ids.len() == 0 {
        proof {
            assert(strings_view(story_ids@).len() == story_ids@.len());
        }
        CategoryListing::Answer(empty_stories_response())
    } else {
        CategoryListing::Lookup(category_stories_filter(query, &story_ids))
    }
}

/// The story that a stored document holds, completed with its author and
/// categories, its image path prefixed with the address the images are
/// served from; `None` where the document lacks a field or holds another
/// type there.
pub open spec fn story_of(
    d: Entries,
    cdn_path: Seq<char>,
    author: AuthorStoryView,
    categories: Seq<CategoryStoryView>,
) -> Option<StoriesView> {
    match (
        (
            doc_str(d, "story_id"@),
            doc_i64(d, "increment_id"@),
            doc_str(d, "title"@),
            doc_str(d, "url_key"@),
            doc_bool(d, "is_active"@),
            doc_str(d, "path_image"@),
        ),
        (
            doc_str(d, "description"@),
            doc_str(d, "publish_date"@),
            doc_str(d, "updated_date"@),
            doc_str(d, "status"@),
            doc_bool(d, "is_full"@),
        ),
        (
            doc_bool(d, "is_hot"@),
            doc_i64(d, "total_chapters"@),
            doc_str(d, "source"@),
            doc_str(d, "translator"@),
        ),
    ) {
        (
            (Some(story_id), Some(increment_id), Some(title), Some(url_key), Some(is_active), Some(path_image)),
            (Some(description), Some(publish_date), Some(updated_date), Some(status), Some(is_full)),
            (Some(is_hot), Some(total_chapters), Some(source), Some(translator)),
        ) => Some(
            StoriesView {
                story_id,
                increment_id,
                title,
                url_key,
                is_active,
                path_image: cdn_path + path_image,
                author,
                description,
                publish_date,
                updated_date,
                status,
                is_full,
                is_hot,
                total_chapters,
                source,
                translator,
                categories,
            },
        ),
        _ => None,
    }
}

/// A stored story is read field by field from the entries of the same
/// names: each field of the result is the document's value under that
/// field's name (the image path behind the address the images are served
/// from), with the author and categories as the lookups found them; and a
/// document holding every field with its type is read.
pub proof fn law_story_read_from_same_named_entries(
    d: Entries,
    cdn_path: Seq<char>,
    author: AuthorStoryView,
    categories: Seq<CategoryStoryView>,
)
    ensures
        story_of(d, cdn_path, author, categories) matches Some(r) ==> {
            &&& doc_str(d, "story_id"@) == Some(r.story_id)
            &&& doc_i64(d, "increment_id"@) == Some(r.increment_id)
            &&& doc_str(d, "title"@) == Some(r.title)
            &&& doc_str(d, "url_key"@) == Some(r.url_key)
            &&& doc_bool(d, "is_active"@) == Some(r.is_active)
            &&& doc_str(d, "path_image"@) is Some
            &&& r.path_image == cdn_path + doc_str(d, "path_image"@)->0
            &&& doc_str(d, "description"@) == Some(r.description)
            &&& doc_str(d, "publish_date"@) == Some(r.publish_date)
            &&& doc_str(d, "updated_date"@) == Some(r.updated_date)
            &&& doc_str(d, "status"@) == Some(r.status)
            &&& doc_bool(d, "is_full"@) == Some(r.is_full)
            &&& doc_bool(d, "is_hot"@) == Some(r.is_hot)
            &&& doc_i64(d, "total_chapters"@) == Some(r.total_chapters)
            &&& doc_str(d, "source"@) == Some(r.source)
            &&& doc_str(d, "translator"@) == Some(r.translator)
            &&& r.author == author
            &&& r.categories == categories
        },
        (doc_str(d, "story_id"@) is Some && doc_i64(d, "increment_id"@) is Some && doc_str(
            d,
            "title"@,
        ) is Some && doc_str(d, "url_key"@) is Some && doc_bool(d, "is_active"@) is Some
            && doc_str(d, "path_image"@) is Some && doc_str(d, "description"@) is Some && doc_str(
            d,
            "publish_date"@,
        ) is Some && doc_str(d, "updated_date"@) is Some && doc_str(d, "status"@) is Some
            && doc_bool(d, "is_full"@) is Some && doc_bool(d, "is_hot"@) is Some && doc_i64(
            d,
            "total_chapters"@,
        ) is Some && doc_str(d, "source"@) is Some && doc_str(d, "translator"@) is Some)
            ==> story_of(d, cdn_path, author, categories) is Some,
{
}

/// Reads a stored story, given its author and categories as the lookups
/// found them.
pub fn story_from_document(
    d: &Document,
    cdn_path: &str,
    author: AuthorStory,
    categories: Vec<CategoryStory>,
) -> (res: Option<Stories>)
    ensures
        match res {
            Some(s) => story_of(
                d@,
                cdn_path@,
                author@,
                categories@.map_values(|c: CategoryStory| c@),
            ) == Some(s@),
            None => story_of(
                d@,
                cdn_path@,
                author@,
                categories@.map_values(|c: CategoryStory| c@),
            ) is None,
        },
        res matches Some(st) ==> {
            &&& doc_str(d@, "story_id"@) == Some(st.story_id@)
            &&& doc_str(d@, "title"@) == Some(st.title@)
            &&& doc_str(d@, "url_key"@) == Some(st.url_key@)
            &&& doc_bool(d@, "is_active"@) == Some(st.is_active)
            &&& doc_str(d@, "description"@) == Some(st.description@)
            &&& doc_str(d@, "publish_date"@) == Some(st.publish_date@)
            &&& doc_str(d@, "updated_date"@) == Some(st.updated_date@)
            &&& doc_str(d@, "status"@) == Some(st.status@)
            &&& doc_bool(d@, "is_full"@) == Some(st.is_full)
            &&& doc_bool(d@, "is_hot"@) == Some(st.is_hot)
            &&& doc_i64(d@, "total_chapters"@) == Some(st.total_chapters)
            &&& doc_str(d@, "source"@) == Some(st.source@)
            &&& doc_str(d@, "translator"@) == Some(st.translator@)
        },
{
    proof {
        law_story_read_from_same_named_entries(
            d@,
            cdn_path@,
            author@,
            categories@.map_values(|c: CategoryStory| c@),
        );
    }
    let story_id = match d.get_str("story_id") {
        Some(v) => v,
        None => {
            return None;
        },
    };
    let increment_id = match d.get_i64("increment_id") {
        Some(v) => v,
        None => {
            return None;
        },
    };
    let title = match d.get_str("title") {
        Some(v) => v,
        None => {
            return None;
        },
    };
    let url_key = match d.get_str("url_key") {
        Some(v) => v,
        None => {
            return None;
        },
    };
    let is_active = match d.get_bool("is_active") {
        Some(v) => v,
        None => {
            return None;
        },
    };
    let path = match d.get_str("path_image") {
        Some(v) => v,
        None => {
            return None;
        },
    };
    let description = match d.get_str("description") {
        Some(v) => v,
        None => {
            return None;
        },
    };
    let publish_date = match d.get_str("publish_date") {
        Some(v) => v,
        None => {
            return None;
        },
    };
    let updated_date = match d.get_str("updated_date") {
        Some(v) => v,
        None => {
            return None;
        },
    };
    let status = match d.get_str("status") {
        Some(v) => v,
        None => {
            return None;
        },
    };
    let is_full = match d.get_bool("is_full") {
        Some(v) => v,
        None => {
            return None;
        },
    };
    let is_hot = match d.get_bool("is_hot") {
        Some(v) => v,
        None => {
            return None;
        },
    };
    let total_chapters = match d.get_i64("total_chapters") {
        Some(v) => v,
        None => {
            return None;
        },
    };
    let source = match d.get_str("source") {
        Some(v) => v,
        None => {
            return None;
        },
    };
    let translator = match d.get_str("translator") {
        Some(v) => v,
        None => {
            return None;
        },
    };
    let mut path_image = String::from_str(cdn_path);
    path_image.append(path.as_str());
    Some(
        Stories {
            story_id,
            increment_id,
            title,
            url_key,
            is_active,
            path_image,
            author,
            description,
            publish_date,
            updated_date,
            status,
            is_full,
            is_hot,
            total_chapters,
            source,
            translator,
            categories,
        },
    )
}

} // verus!
