//! Categories and tags that stories are filed under.

use vstd::prelude::*;

verus! {

/// A stored category; `type_category` is `category`, `tag` or
/// `number_chapters`.
#[derive(Debug, PartialEq, Eq)]
pub struct Category {
    pub category_id: String,
    pub increment_id: i64,
    pub title: String,
    pub url_key: String,
    pub priority: i64,
    pub type_category: String,
}

/// The mathematical value of a [`Category`].
pub ghost struct CategoryView {
    pub category_id: Seq<char>,
    pub increment_id: i64,
    pub title: Seq<char>,
    pub url_key: Seq<char>,
    pub priority: i64,
    pub type_category: Seq<char>,
}

impl View for Category {
    type V = CategoryView;

    open spec fn view(&self) -> CategoryView {
        CategoryView {
            category_id: self.category_id@,
            increment_id: self.increment_id,
            title: self.title@,
            url_key: self.url_key@,
            priority: self.priority,
            type_category: self.type_category@,
        }
    }
}

/// A page of categories with the count of all of them and of their pages.
#[derive(Debug, PartialEq, Eq)]
pub struct ListCategories {
    pub list: Vec<Category>,
    pub total: i64,
    pub total_page: i64,
}

/// The answer to a request for the list of categories.
#[derive(Debug, PartialEq, Eq)]
pub struct ListCategoriesResponse {
    pub message: String,
    pub error: bool,
    pub data: ListCategories,
}

/// A category as a story shows it.
#[derive(Debug, PartialEq, Eq)]
pub struct CategoryStory {
    pub category_id: String,
    pub category_name: String,
    pub url_key: String,
}

/// The mathematical value of a [`CategoryStory`].
pub ghost struct CategoryStoryView {
    pub category_id: Seq<char>,
    pub category_name: Seq<char>,
    pub url_key: Seq<char>,
}

impl View for CategoryStory {
    type V = CategoryStoryView;

    open spec fn view(&self) -> CategoryStoryView {
        CategoryStoryView {
            category_id: self.category_id@,
            category_name: self.category_name@,
            url_key: self.url_key@,
        }
    }
}

} // verus!
