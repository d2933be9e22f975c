//! Stories, their listings, and the request that files a story under
//! categories.

use vstd::prelude::*;
use crate::models::authors::{AuthorStory, AuthorStoryView};
use crate::models::categories::{CategoryStory, CategoryStoryView};

verus! {

/// A story as the service stores and shows it.
#[derive(Debug, PartialEq, Eq)]
pub struct Stories {
    pub story_id: String,
    pub increment_id: i64,
    pub title: String,
    pub url_key: String,
    pub is_active: bool,
    pub path_image: String,
    pub author: AuthorStory,
    pub description: String,
    pub publish_date: String,
    pub updated_date: String,
    pub status: String,
    pub is_full: bool,
    pub is_hot: bool,
    pub total_chapters: i64,
    pub source: String,
    pub translator: String,
    pub categories: Vec<CategoryStory>,
}

/// The mathematical value of [`Stories`].
pub ghost struct StoriesView {
    pub story_id: Seq<char>,
    pub increment_id: i64,
    pub title: Seq<char>,
    pub url_key: Seq<char>,
    pub is_active: bool,
    pub path_image: Seq<char>,
    pub author: AuthorStoryView,
    pub description: Seq<char>,
    pub publish_date: Seq<char>,
    pub updated_date: Seq<char>,
    pub status: Seq<char>,
    pub is_full: bool,
    pub is_hot: bool,
    pub total_chapters: i64,
    pub source: Seq<char>,
    pub translator: Seq<char>,
    pub categories: Seq<CategoryStoryView>,
}

impl View for Stories {
    type V = StoriesView;

    open spec fn view(&self) -> StoriesView {
        StoriesView {
            story_id: self.story_id@,
            increment_id: self.increment_id,
            title: self.title@,
            url_key: self.url_key@,
            is_active: self.is_active,
            path_image: self.path_image@,
            author: self.author@,
            description: self.description@,
            publish_date: self.publish_date@,
            updated_date: self.updated_date@,
            status: self.status@,
            is_full: self.is_full,
            is_hot: self.is_hot,
            total_chapters: self.total_chapters,
            source: self.source@,
            translator: self.translator@,
            categories: self.categories@.map_values(|c: CategoryStory| c@),
        }
    }
}

/// A page of stories with the count of all of them and of their pages.
#[derive(Debug, PartialEq, Eq)]
pub struct ListStories {
    pub list: Vec<Stories>,
    pub total: i64,
    pub total_page: i64,
}

/// The answer to a request for a list of stories.
#[derive(Debug, PartialEq, Eq)]
pub struct ListStoriesResponse {
    pub message: String,
    pub error: bool,
    pub data: ListStories,
}

/// A request to file a story under the given categories, replacing the
/// ones it was filed under.
#[derive(Debug, PartialEq, Eq)]
pub struct PostStoryCategoryMapping {
    pub story_id: String,
    pub category_ids: Vec<String>,
}

} // verus!
