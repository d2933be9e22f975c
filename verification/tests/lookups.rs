use story_catalog::document::{Condition, Document, Field};
use story_catalog::helpers::generate_url_key;
use story_catalog::models::authors::Authors;
use story_catalog::models::stories::PostStoryCategoryMapping;
use story_catalog::query::parse_query_first_wins;
use story_catalog::repositories::authors::{author_from_document, new_author_document, url_key_filter};
use story_catalog::repositories::stories::{
    category_link_documents, category_listing, story_categories, story_id_filter, CategoryListing,
};
use story_catalog::repositories::top_story::ranked_story_ids;

fn doc(pairs: &[(&str, &str)]) -> Document {
    let mut d = Document::new();
    for (k, v) in pairs {
        d.push(k, Field::Str(v.to_string()));
    }
    d
}

fn clause_strs(clauses: &[(String, Condition)]) -> Vec<String> {
    clauses
        .iter()
        .map(|(k, c)| match c {
            Condition::Str(s) => format!("{}={}", k, s),
            Condition::Int64(v) => format!("{}={}", k, v),
            Condition::Bool(b) => format!("{}={}", k, b),
            Condition::NotEqual(s) => format!("{}!={}", k, s),
            Condition::Matches { pattern, options } => format!("{}~/{}/{}", k, pattern, options),
            Condition::OneOf(v) => format!("{} in [{}]", k, v.join(",")),
        })
        .collect()
}

fn category(id: &str, title: &str) -> Document {
    doc(&[("category_id", id), ("title", title), ("url_key", id)])
}

#[test]
fn story_categories_skip_links_without_a_found_category() {
    let links = vec![
        doc(&[("story_id", "s1"), ("category_id", "c1")]),
        doc(&[("story_id", "s1")]),
        doc(&[("story_id", "s1"), ("category_id", "c2")]),
        doc(&[("story_id", "s1"), ("category_id", "c3")]),
    ];
    let found = vec![Some(category("c1", "Love")), Some(category("cx", "Unused")), None, Some(category("c3", "War"))];
    let got = story_categories(&links, &found).unwrap();
    let names: Vec<(String, String)> =
        got.iter().map(|c| (c.category_id.clone(), c.category_name.clone())).collect();
    assert_eq!(names, vec![("c1".to_string(), "Love".to_string()), ("c3".to_string(), "War".to_string())]);
}

#[test]
fn story_categories_fail_on_an_unreadable_category() {
    let links = vec![doc(&[("category_id", "c1")])];
    let found = vec![Some(doc(&[("category_id", "c1"), ("title", "Love")]))];
    assert!(story_categories(&links, &found).is_none());
    assert!(story_categories(&vec![], &vec![]).unwrap().is_empty());
}

#[test]
fn category_listing_without_stories_answers_at_once() {
    let q = parse_query_first_wins("status=full");
    match category_listing(&q, &vec![doc(&[("category_id", "c1")])]) {
        CategoryListing::Answer(r) => {
            assert_eq!(r.message, "Successfully");
            assert!(!r.error);
            assert!(r.data.list.is_empty());
            assert_eq!(r.data.total, 0);
            assert_eq!(r.data.total_page, 0);
        }
        CategoryListing::Lookup(_) => panic!("expected an answer"),
    }
}

#[test]
fn category_listing_with_stories_looks_them_up() {
    let q = parse_query_first_wins("differ_story_id=s9&is_hot=true");
    let links = vec![doc(&[("story_id", "s1")]), doc(&[("category_id", "c1")]), doc(&[("story_id", "s2")])];
    match category_listing(&q, &links) {
        CategoryListing::Lookup(f) => assert_eq!(
            clause_strs(&f.into_clauses()),
            vec!["is_hot=true", "story_id in [s1,s2]"]
        ),
        CategoryListing::Answer(_) => panic!("expected a lookup"),
    }
}

#[test]
fn ranked_ids_of_a_category_replace_the_ranking() {
    let ranked = vec![doc(&[("story_id", "s3")]), doc(&[("story_id", "s1")]), doc(&[("period", "day")])];
    assert_eq!(ranked_story_ids(&ranked, None), vec!["s3", "s1"]);
    let links = vec![doc(&[("story_id", "s1"), ("category_id", "c1")])];
    assert_eq!(ranked_story_ids(&ranked, Some(&links)), vec!["s1"]);
    assert!(ranked_story_ids(&ranked, Some(&vec![])).is_empty());
}

fn link_strs(d: &Document) -> String {
    format!("{}/{}", d.get_str("story_id").unwrap_or_default(), d.get_str("category_id").unwrap_or_default())
}

fn relink(held: &[Document], mapping: &PostStoryCategoryMapping) -> Vec<String> {
    let filter = story_id_filter(&mapping.story_id).into_clauses();
    let (key, wanted) = match &filter[0] {
        (k, Condition::Str(v)) => (k.clone(), v.clone()),
        _ => panic!("an equality filter was expected"),
    };
    let mut out: Vec<String> = held
        .iter()
        .filter(|d| d.get_str(&key).as_deref() != Some(wanted.as_str()))
        .map(link_strs)
        .collect();
    out.extend(category_link_documents(mapping).iter().map(link_strs));
    out.sort();
    out
}

#[test]
fn filing_a_story_twice_keeps_its_links() {
    let mapping = PostStoryCategoryMapping {
        story_id: "s1".to_string(),
        category_ids: vec!["c1".to_string(), "c2".to_string()],
    };
    let held = vec![
        doc(&[("story_id", "s1"), ("category_id", "c9")]),
        doc(&[("story_id", "s2"), ("category_id", "c1")]),
    ];
    let once = relink(&held, &mapping);
    assert_eq!(once, vec!["s1/c1", "s1/c2", "s2/c1"]);
    let once_docs: Vec<Document> = once
        .iter()
        .map(|l| {
            let (a, b) = l.split_once('/').unwrap();
            doc(&[("story_id", a), ("category_id", b)])
        })
        .collect();
    assert_eq!(relink(&once_docs, &mapping), once);
}

#[test]
fn created_author_is_found_by_its_url_key() {
    let author = Authors {
        author_id: "ignored".to_string(),
        title: "Tô Hoài".to_string(),
        url_key: "ignored".to_string(),
        description: "writer".to_string(),
        created_date: "2024-01-01".to_string(),
        updated_date: "2024-01-02".to_string(),
    };
    let stored = new_author_document(&author);
    let key = generate_url_key(&author.title);
    assert_eq!(key, "to-hoai");
    let filter = url_key_filter(&key).into_clauses();
    assert_eq!(clause_strs(&filter), vec!["url_key=to-hoai"]);
    assert_eq!(stored.get_str("url_key").as_deref(), Some("to-hoai"));
    let back = author_from_document(&stored).unwrap();
    assert_eq!(back.title, author.title);
    assert_eq!(back.url_key, "to-hoai");
    assert_eq!(back.description, "writer");
    assert_eq!(back.created_date, "2024-01-01");
    assert_eq!(back.updated_date, "2024-01-02");
    assert_ne!(back.author_id, "ignored");
}
