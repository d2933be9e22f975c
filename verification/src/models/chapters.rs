//! Chapters of stories.

use vstd::prelude::*;

verus! {

/// A stored chapter.
#[derive(Debug, PartialEq, Eq)]
pub struct Chapters {
    pub chapter_id: String,
    pub story_id: String,
    pub increment_id: i64,
    pub title: String,
    pub short_title: String,
    pub url_key: String,
    pub content: String,
    pub ordered: i64,
    pub status: String,
    pub created_date: String,
    pub updated_date: String,
}

/// The mathematical value of [`Chapters`].
pub ghost struct ChaptersView {
    pub chapter_id: Seq<char>,
    pub story_id: Seq<char>,
    pub increment_id: i64,
    pub title: Seq<char>,
    pub short_title: Seq<char>,
    pub url_key: Seq<char>,
    pub content: Seq<char>,
    pub ordered: i64,
    pub status: Seq<char>,
    pub created_date: Seq<char>,
    pub updated_date: Seq<char>,
}

impl View for Chapters {
    type V = ChaptersView;

    open spec fn view(&self) -> ChaptersView {
        ChaptersView {
            chapter_id: self.chapter_id@,
            story_id: self.story_id@,
            increment_id: self.increment_id,
            title: self.title@,
            short_title: self.short_title@,
            url_key: self.url_key@,
            content: self.content@,
            ordered: self.ordered,
            status: self.status@,
            created_date: self.created_date@,
            updated_date: self.updated_date@,
        }
    }
}

/// A page of chapters.
#[derive(Debug, PartialEq, Eq)]
pub struct ListChapters {
    pub list: Vec<Chapters>,
    pub total: i64,
    pub total_page: i64,
}

/// A chapter as the list of a story's chapters shows it, without its text.
#[derive(Debug, PartialEq, Eq)]
pub struct ChaptersByStoryId {
    pub chapter_id: String,
    pub story_id: String,
    pub increment_id: i64,
    pub title: String,
    pub url_key: String,
    pub ordered: i64,
    pub status: String,
    pub created_date: String,
    pub updated_date: String,
}

/// The mathematical value of [`ChaptersByStoryId`].
pub ghost struct ChaptersByStoryIdView {
    pub chapter_id: Seq<char>,
    pub story_id: Seq<char>,
    pub increment_id: i64,
    pub title: Seq<char>,
    pub url_key: Seq<char>,
    pub ordered: i64,
    pub status: Seq<char>,
    pub created_date: Seq<char>,
    pub updated_date: Seq<char>,
}

impl View for ChaptersByStoryId {
    type V = ChaptersByStoryIdView;

    open spec fn view(&self) -> ChaptersByStoryIdView {
        ChaptersByStoryIdView {
            chapter_id: self.chapter_id@,
            story_id: self.story_id@,
            increment_id: self.increment_id,
            title: self.title@,
            url_key: self.url_key@,
            ordered: self.ordered,
            status: self.status@,
            created_date: self.created_date@,
            updated_date: self.updated_date@,
        }
    }
}

/// A page of a story's chapters.
#[derive(Debug, PartialEq, Eq)]
pub struct ListChaptersByStoryId {
    pub list: Vec<ChaptersByStoryId>,
    pub total: i64,
    pub total_page: i64,
}

/// The answer to a request for a story's chapters.
#[derive(Debug, PartialEq, Eq)]
pub struct ListChaptersResponse {
    pub message: String,
    pub error: bool,
    pub data: ListChaptersByStoryId,
}

} // verus!
