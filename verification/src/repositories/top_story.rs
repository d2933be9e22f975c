//! The ranked stories of a period, optionally of one category. A ranked
//! story is answered as any stored story is; the store offers no lookup of
//! its last chapter, so the answer carries none.

use vstd::prelude::*;
use crate::document::{filter_of, insert_clause, Condition, ConditionView, Filter};
use crate::models::stories::{ListStories, ListStoriesResponse, Stories};
use crate::query::{strings_view, QueryParams};
use crate::document::{documents_view, Document};
use crate::repositories::stories::{collect_story_ids, copy_strings, story_ids_of};
use crate::text::{parse_i64, parsed_i64};

verus! {

/// The filter that selects the ranking entries of a period.
pub fn period_filter(period: &str) -> (res: Filter)
    ensures
        res@ == seq![("period"@, ConditionView::Str(period@))],
{
    filter_of("period", Condition::Str(period.to_owned()))
}

/// The filter that selects the links of the given stories to a category.
pub fn ranked_in_category_filter(story_ids: &Vec<String>, category_id: &str) -> (res: Filter)
    ensures
        res@ == insert_clause(
            seq![("story_id"@, ConditionView::OneOf(strings_view(story_ids@)))],
            "category_id"@,
            ConditionView::Str(category_id@),
        ),
{
    let ids = copy_strings(story_ids);
    let mut f = filter_of("story_id", Condition::OneOf(ids));
    f.insert("category_id", Condition::Str(category_id.to_owned()));
    f
}

/// The ranked stories a request covers: the story identifiers of the
/// period's ranking entries, in ranking order; where a category is asked
/// for, those of the category's links found among them instead, in the
/// order the store gave the links.
pub fn ranked_story_ids(ranked: &Vec<Document>, category_links: Option<&Vec<Document>>) -> (res:
    Vec<String>)
    ensures
        strings_view(res@) == match category_links {
            Some(links) => story_ids_of(documents_view(links@)),
            None => story_ids_of(documents_view(ranked@)),
        },
{
    match category_links {
        Some(links) => collect_story_ids(links),
        None => collect_story_ids(ranked),
    }
}

/// The filter that selects the given stories.
pub fn stories_filter(story_ids: &Vec<String>) -> (res: Filter)
    ensures
        res@ == seq![("story_id"@, ConditionView::OneOf(strings_view(story_ids@)))],
{
    let ids = copy_strings(story_ids);
    filter_of("story_id", Condition::OneOf(ids))
}

/// How many ranked stories a request asks for: its `size` parameter where
/// that parses, else all of them.
pub open spec fn ranked_size(q: Map<Seq<char>, Seq<char>>, count: int) -> i64 {
    if q.contains_key("size"@) && parsed_i64(q["size"@]) is Some {
        parsed_i64(q["size"@])->0
    } else {
        count as i64
    }
}

/// How many of `count` ranked stories are taken: the size, read as a
/// machine word (a negative size wraps to a very large one), and no more
/// than there are.
pub open spec fn ranked_take(q: Map<Seq<char>, Seq<char>>, count: int) -> int {
    let n = ranked_size(q, count) as usize;
    if n < count {
        n as int
    } else {
        count
    }
}

/// The first ranked stories, as many as the request asks for.
pub fn limit_ranked(query: &QueryParams, story_ids: &Vec<String>) -> (res: Vec<String>)
    ensures
        strings_view(res@) == strings_view(story_ids@).take(
            ranked_take(query@, story_ids@.len() as int),
        ),
{
    let size: i64 = match query.get("size") {
        Some(v) => match parse_i64(v.as_str()) {
            Some(n) => n,
            None => story_ids.len() as i64,
        },
        None => story_ids.len() as i64,
    };
    let limit: usize = size as usize;
    let mut out: Vec<String> = Vec::new();
    let mut i: usize = 0;
    while i < story_ids.len() && i < limit
        invariant
            i <= story_ids.len(),
            i <= limit,
            limit == ranked_size(query@, story_ids@.len() as int) as usize,
            strings_view(out@) == strings_view(story_ids@).take(i as int),
        decreases story_ids.len() - i,
    {
        let ghost before = strings_view(out@);
        out.push(story_ids[i].clone());
        proof {
            assert(strings_view(out@) =~= before.push(story_ids@[i as int]@));
            assert(strings_view(story_ids@).take(i + 1) =~= strings_view(story_ids@).take(
                i as int,
            ).push(story_ids@[i as int]@));
        }
        i = i + 1;
    }
    out
}

/// The answer to a ranking request: every story found, counted, on one page.
pub fn ranked_response(list: Vec<Stories>) -> (res: ListStoriesResponse)
    ensures
        res.message@ == "Successfully"@,
        !res.error,
        res.data.list@ == list@,
        res.data.total == list@.len() as i64,
        res.data.total_page == 1,
{
    let total = list.len() as i64;
    ListStoriesResponse {
        message: String::from_str("Successfully"),
        error: false,
        data: ListStories { list, total, total_page: 1 },
    }
}

} // verus!
