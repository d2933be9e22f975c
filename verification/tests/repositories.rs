use story_catalog::document::{Condition, Document, Field, Update};
use story_catalog::models::authors::{AuthorStory, Authors};
use story_catalog::models::categories::{Category, CategoryStory};
use story_catalog::models::chapters::Chapters;
use story_catalog::models::stories::{PostStoryCategoryMapping, Stories};
use story_catalog::query::parse_query_first_wins;
use story_catalog::query::parse_query_last_wins;
use story_catalog::repositories::authors::{
    author_document, author_from_document, author_id_filter, authors_paging,
    list_authors_response, new_author_document, url_key_filter,
};
use story_catalog::helpers::create_response;
use story_catalog::repositories::categories;
use story_catalog::repositories::chapters::{
    chapter_document, chapter_from_document, chapter_id_filter, chapter_summary_from_document,
    list_chapters_response, new_chapter_document, story_and_ordered_filter,
};
use story_catalog::repositories::stories;
use story_catalog::repositories::top_story::{
    limit_ranked, period_filter, ranked_in_category_filter, ranked_response, stories_filter,
};

fn clause_strs(clauses: &[(String, Condition)]) -> Vec<String> {
    clauses
        .iter()
        .map(|(k, c)| match c {
            Condition::Str(s) => format!("{}={}", k, s),
            Condition::Int64(v) => format!("{}={}", k, v),
            Condition::Bool(b) => format!("{}={}", k, b),
            Condition::NotEqual(s) => format!("{}!={}", k, s),
            Condition::Matches { pattern, options } => format!("{}~/{}/{}", k, pattern, options),
            Condition::OneOf(v) => format!("{} in [{}]", k, v.join(",")),
        })
        .collect()
}

fn field_strs(d: &Document) -> Vec<String> {
    d.entries
        .iter()
        .map(|(k, f)| match f {
            Field::Str(s) => format!("{}={}", k, s),
            Field::Int32(v) => format!("{}={}i32", k, v),
            Field::Int64(v) => format!("{}={}", k, v),
            Field::Bool(b) => format!("{}={}", k, b),
            Field::Other => format!("{}=?", k),
        })
        .collect()
}

fn is_uuid_v4(s: &str) -> bool {
    let c: Vec<char> = s.chars().collect();
    c.len() == 36
        && (0..36).all(|i| {
            if i == 8 || i == 13 || i == 18 || i == 23 {
                c[i] == '-'
            } else {
                c[i].is_ascii_digit() || ('a'..='f').contains(&c[i])
            }
        })
        && c[14] == '4'
        && "89ab".contains(c[19])
}

fn doc(pairs: &[(&str, Field)]) -> Document {
    let mut d = Document::new();
    for (k, f) in pairs {
        let f = match f {
            Field::Str(s) => Field::Str(s.clone()),
            Field::Int32(v) => Field::Int32(*v),
            Field::Int64(v) => Field::Int64(*v),
            Field::Bool(b) => Field::Bool(*b),
            Field::Other => Field::Other,
        };
        d.push(k, f);
    }
    d
}

fn s(v: &str) -> Field {
    Field::Str(v.to_string())
}

fn sample_author() -> Authors {
    Authors {
        author_id: "ignored".to_string(),
        title: "Nguyen Nhat Anh".to_string(),
        url_key: "ignored".to_string(),
        description: "writer".to_string(),
        created_date: "2024-01-01".to_string(),
        updated_date: "2024-01-02".to_string(),
    }
}

fn author_doc() -> Document {
    doc(&[
        ("_id", Field::Other),
        ("author_id", s("a1")),
        ("title", s("Anh")),
        ("url_key", s("anh")),
        ("description", s("d")),
        ("created_date", s("c")),
        ("updated_date", s("u")),
    ])
}

#[test]
fn author_document_and_new_author() {
    let d = author_document(&sample_author(), "id-1", "key-1");
    assert_eq!(
        field_strs(&d),
        vec![
            "author_id=id-1",
            "title=Nguyen Nhat Anh",
            "url_key=key-1",
            "description=writer",
            "created_date=2024-01-01",
            "updated_date=2024-01-02"
        ]
    );
    let n = new_author_document(&sample_author());
    let id = n.get_str("author_id").unwrap();
    assert!(is_uuid_v4(&id));
    assert_ne!(id, "ignored");
    assert_eq!(n.get_str("url_key"), Some("nguyen-nhat-anh".to_string()));
}

#[test]
fn create_response_messages() {
    let ok = create_response(true);
    assert_eq!(ok.message, "Create document successful.");
    assert!(!ok.error);
    let bad = create_response(false);
    assert_eq!(bad.message, "Something went wrong.");
    assert!(bad.error);
}

#[test]
fn author_decoding() {
    let a = author_from_document(&author_doc()).unwrap();
    assert_eq!(a.author_id, "a1");
    assert_eq!(a.title, "Anh");
    let mut missing = author_doc();
    missing.entries.retain(|(k, _)| k != "description");
    assert_eq!(author_from_document(&missing), None);
    let wrong = doc(&[
        ("author_id", Field::Int64(1)),
        ("title", s("Anh")),
        ("url_key", s("anh")),
        ("description", s("d")),
        ("created_date", s("c")),
        ("updated_date", s("u")),
    ]);
    assert_eq!(author_from_document(&wrong), None);
}

#[test]
fn author_listing() {
    let p = authors_paging(2500);
    assert_eq!((p.skip, p.limit, p.total_page), (0, 1000, 3));
    let r = list_authors_response(&vec![author_doc(), author_doc()], 2, 1).unwrap();
    assert_eq!(r.message, "Successfully");
    assert!(!r.error);
    assert_eq!(r.data.list.len(), 2);
    assert_eq!(r.data.total, 2);
    assert_eq!(r.data.total_page, 1);
    assert!(list_authors_response(&vec![author_doc(), doc(&[])], 2, 1).is_none());
}

#[test]
fn author_filters() {
    assert_eq!(clause_strs(&author_id_filter("a1").into_clauses()), vec!["author_id=a1"]);
    assert_eq!(clause_strs(&url_key_filter("anh").into_clauses()), vec!["url_key=anh"]);
}

#[test]
fn category_conditions_use_type_and_name() {
    let q = parse_query_last_wins("type_category=tag&title=Fantasy&page=1");
    assert_eq!(
        clause_strs(&categories::build_condition_query(&q).into_clauses()),
        vec!["type_category=tag", "name=Fantasy"]
    );
    let q = parse_query_last_wins("type_category=&title=");
    assert!(categories::build_condition_query(&q).into_clauses().is_empty());
}

#[test]
fn category_document_and_decoding() {
    let c = Category {
        category_id: "x".to_string(),
        increment_id: 0,
        title: "Tiên Hiệp".to_string(),
        url_key: "x".to_string(),
        priority: 3,
        type_category: "category".to_string(),
    };
    let d = categories::category_document(&c, "c1", 9, "tien-hiep");
    assert_eq!(
        field_strs(&d),
        vec![
            "category_id=c1",
            "increment_id=9",
            "title=Tiên Hiệp",
            "url_key=tien-hiep",
            "priority=3",
            "type_category=category"
        ]
    );
    let n = categories::new_category_document(&c, 9);
    assert!(is_uuid_v4(&n.get_str("category_id").unwrap()));
    assert_eq!(n.get_str("url_key"), Some("tien-hiep".to_string()));
    let back = categories::category_from_document(&d).unwrap();
    assert_eq!(back.category_id, "c1");
    assert_eq!(back.increment_id, 9);
    assert_eq!(back.priority, 3);
    let d32 = doc(&[
        ("category_id", s("c1")),
        ("increment_id", Field::Int32(9)),
        ("title", s("t")),
        ("url_key", s("u")),
        ("priority", Field::Int64(1)),
        ("type_category", s("tag")),
    ]);
    assert_eq!(categories::category_from_document(&d32), None);
    let r = categories::list_categories_response(&vec![d], 1, 1).unwrap();
    assert_eq!(r.data.list.len(), 1);
    assert_eq!(r.message, "Successfully");
}

fn sample_chapter() -> Chapters {
    Chapters {
        chapter_id: "ignored".to_string(),
        story_id: "s1".to_string(),
        increment_id: 0,
        title: "Chapter One".to_string(),
        short_title: "One".to_string(),
        url_key: "ignored".to_string(),
        content: "Once".to_string(),
        ordered: 1,
        status: "published".to_string(),
        created_date: "c".to_string(),
        updated_date: "u".to_string(),
    }
}

#[test]
fn chapter_document_has_no_short_title() {
    let d = chapter_document(&sample_chapter(), "ch1", 4, "chapter-one");
    assert_eq!(
        field_strs(&d),
        vec![
            "chapter_id=ch1",
            "story_id=s1",
            "increment_id=4",
            "title=Chapter One",
            "url_key=chapter-one",
            "content=Once",
            "ordered=1",
            "status=published",
            "created_date=c",
            "updated_date=u"
        ]
    );
    // the detail reads the short title, which creation does not store
    assert_eq!(chapter_from_document(&d), None);
    let summary = chapter_summary_from_document(&d).unwrap();
    assert_eq!(summary.chapter_id, "ch1");
    assert_eq!(summary.ordered, 1);
    let n = new_chapter_document(&sample_chapter(), 4);
    assert!(is_uuid_v4(&n.get_str("chapter_id").unwrap()));
    assert_eq!(n.get_str("url_key"), Some("chapter-one".to_string()));
}

#[test]
fn chapter_detail_accepts_32_bit_numbers() {
    let d = doc(&[
        ("chapter_id", s("ch1")),
        ("story_id", s("s1")),
        ("increment_id", Field::Int32(4)),
        ("title", s("t")),
        ("short_title", s("st")),
        ("url_key", s("u")),
        ("content", s("c")),
        ("ordered", Field::Int32(2)),
        ("status", s("p")),
        ("created_date", s("c")),
        ("updated_date", s("u")),
    ]);
    let c = chapter_from_document(&d).unwrap();
    assert_eq!(c.increment_id, 4);
    assert_eq!(c.ordered, 2);
    assert_eq!(c.short_title, "st");
    assert_eq!(chapter_summary_from_document(&d), None);
    assert!(list_chapters_response(&vec![d], 1, 1).is_none());
}

#[test]
fn chapter_filters() {
    assert_eq!(clause_strs(&chapter_id_filter("ch1").into_clauses()), vec!["chapter_id=ch1"]);
    assert_eq!(
        clause_strs(&story_and_ordered_filter("s1", 3).into_clauses()),
        vec!["story_id=s1", "ordered=3"]
    );
}

#[test]
fn story_conditions_in_order() {
    let q = parse_query_first_wins(
        "status=full&title=a.b(c)&is_active=true&author_id=a1&differ_story_id=s9&is_full=false&is_hot=true",
    );
    assert_eq!(
        clause_strs(&stories::build_condition_query(&q).into_clauses()),
        vec![
            "status=full",
            "title~/.*a\\.b\\(c\\).*/i",
            "is_active=true",
            "author_id=a1",
            "story_id!=s9",
            "is_full=false",
            "is_hot=true"
        ]
    );
    let q = parse_query_first_wins("is_active=false&is_full=yes&is_hot=");
    assert!(stories::build_condition_query(&q).into_clauses().is_empty());
}

#[test]
fn category_listing_replaces_the_excluded_story() {
    let q = parse_query_first_wins("differ_story_id=s9&status=full");
    let f = stories::category_stories_filter(&q, &vec!["s1".to_string(), "s2".to_string()]);
    assert_eq!(clause_strs(&f.into_clauses()), vec!["status=full", "story_id in [s1,s2]"]);
    let q = parse_query_first_wins("differ_story_id=s9&is_full=true");
    let f = stories::category_stories_filter(&q, &vec!["s1".to_string()]);
    assert_eq!(clause_strs(&f.into_clauses()), vec!["is_full=true", "story_id in [s1]"]);
}

#[test]
fn sort_order_by_latest() {
    let q = parse_query_first_wins("sort_by_latest=true");
    let k = stories::sort_order(&q).unwrap();
    assert_eq!(k.field, "updated_date");
    assert_eq!(k.direction, -1);
    assert!(stories::sort_order(&parse_query_first_wins("sort_by_latest=1")).is_none());
}

#[test]
fn story_filters_and_update() {
    assert_eq!(
        clause_strs(&stories::active_story_filter("s1").into_clauses()),
        vec!["story_id=s1", "is_active=true"]
    );
    assert_eq!(
        clause_strs(&stories::story_category_filter("c1").into_clauses()),
        vec!["category_id=c1", "type_category=category"]
    );
    match stories::path_image_update("/img/a.png") {
        Update::Assign { key, value } => {
            assert_eq!(key, "path_image");
            assert_eq!(value, "/img/a.png");
        },
        _ => panic!("not an assignment"),
    }
}

#[test]
fn filing_a_story_under_categories() {
    let m = PostStoryCategoryMapping {
        story_id: "s1".to_string(),
        category_ids: vec!["c1".to_string(), "c2".to_string()],
    };
    let docs = stories::category_link_documents(&m);
    assert_eq!(docs.len(), 2);
    assert_eq!(field_strs(&docs[1]), vec!["story_id=s1", "category_id=c2"]);
    assert_eq!(stories::link_response(true).message, "Mapping created successfully.");
    assert!(stories::link_response(false).error);
    let r = stories::unlink_failed_response();
    assert_eq!(r.message, "Failed to delete existing mappings.");
    assert!(r.error);
}

#[test]
fn story_ids_of_links() {
    let docs = vec![doc(&[("story_id", s("s1"))]), doc(&[("other", s("x"))]), doc(&[("story_id", s("s3"))])];
    assert_eq!(stories::collect_story_ids(&docs), vec!["s1", "s3"]);
    let e = stories::empty_stories_response();
    assert_eq!((e.data.list.len(), e.data.total, e.data.total_page), (0, 0, 0));
}

fn story_doc() -> Document {
    doc(&[
        ("story_id", s("s1")),
        ("increment_id", Field::Int64(7)),
        ("title", s("T")),
        ("url_key", s("t")),
        ("is_active", Field::Bool(true)),
        ("path_image", s("/a.png")),
        ("author_id", s("a1")),
        ("description", s("d")),
        ("publish_date", s("p")),
        ("updated_date", s("u")),
        ("status", s("full")),
        ("is_full", Field::Bool(true)),
        ("is_hot", Field::Bool(false)),
        ("total_chapters", Field::Int64(12)),
        ("source", s("src")),
        ("translator", s("tr")),
    ])
}

#[test]
fn story_from_stored_document() {
    let author = stories::author_story_from(Some(&author_doc())).unwrap();
    assert_eq!(author.author_title, "Anh");
    let none = stories::author_story_from(None).unwrap();
    assert_eq!(none, AuthorStory { author_id: String::new(), author_title: String::new(), url_key: String::new() });
    assert!(stories::author_story_from(Some(&doc(&[("author_id", s("a"))]))).is_none());
    let cat = stories::category_story_from(&doc(&[("category_id", s("c1")), ("title", s("Action")), ("url_key", s("action"))])).unwrap();
    assert_eq!(cat, CategoryStory { category_id: "c1".to_string(), category_name: "Action".to_string(), url_key: "action".to_string() });
    let st = stories::story_from_document(&story_doc(), "https://cdn.example", author, vec![cat]).unwrap();
    assert_eq!(st.path_image, "https://cdn.example/a.png");
    assert_eq!(st.total_chapters, 12);
    assert_eq!(st.categories.len(), 1);
    let mut broken = story_doc();
    broken.entries.retain(|(k, _)| k != "translator");
    assert!(stories::story_from_document(&broken, "", none, vec![]).is_none());
}

#[test]
fn ranking_takes_the_requested_number() {
    let ids = vec!["a".to_string(), "b".to_string(), "c".to_string()];
    assert_eq!(limit_ranked(&parse_query_first_wins("size=2"), &ids), vec!["a", "b"]);
    assert_eq!(limit_ranked(&parse_query_first_wins("size=x"), &ids), vec!["a", "b", "c"]);
    assert_eq!(limit_ranked(&parse_query_first_wins(""), &ids), vec!["a", "b", "c"]);
    assert_eq!(limit_ranked(&parse_query_first_wins("size=-1"), &ids), vec!["a", "b", "c"]);
    assert_eq!(limit_ranked(&parse_query_first_wins("size=0"), &ids).len(), 0);
    assert_eq!(clause_strs(&period_filter("week").into_clauses()), vec!["period=week"]);
    assert_eq!(
        clause_strs(&ranked_in_category_filter(&ids, "c1").into_clauses()),
        vec!["story_id in [a,b,c]", "category_id=c1"]
    );
    assert_eq!(clause_strs(&stories_filter(&ids).into_clauses()), vec!["story_id in [a,b,c]"]);
    let r = ranked_response(vec![]);
    assert_eq!((r.data.total, r.data.total_page), (0, 1));
}

#[allow(dead_code)]
fn sample_story() -> Stories {
    Stories {
        story_id: "x".to_string(),
        increment_id: 0,
        title: "Hello World".to_string(),
        url_key: "x".to_string(),
        is_active: true,
        path_image: "/p.png".to_string(),
        author: AuthorStory { author_id: String::new(), author_title: "Anh".to_string(), url_key: String::new() },
        description: "d".to_string(),
        publish_date: "p".to_string(),
        updated_date: "u".to_string(),
        status: "full".to_string(),
        is_full: false,
        is_hot: true,
        total_chapters: 3,
        source: "src".to_string(),
        translator: "tr".to_string(),
        categories: vec![],
    }
}
