//! Authors of stories.

use vstd::prelude::*;

verus! {

/// A stored author.
#[derive(Debug, PartialEq, Eq)]
pub struct Authors {
    pub author_id: String,
    pub title: String,
    pub url_key: String,
    pub description: String,
    pub created_date: String,
    pub updated_date: String,
}

/// The mathematical value of [`Authors`].
pub ghost struct AuthorsView {
    pub author_id: Seq<char>,
    pub title: Seq<char>,
    pub url_key: Seq<char>,
    pub description: Seq<char>,
    pub created_date: Seq<char>,
    pub updated_date: Seq<char>,
}

impl View for Authors {
    type V = AuthorsView;

    open spec fn view(&self) -> AuthorsView {
        AuthorsView {
            author_id: self.author_id@,
            title: self.title@,
            url_key: self.url_key@,
            description: self.description@,
            created_date: self.created_date@,
            updated_date: self.updated_date@,
        }
    }
}

/// A page of authors with the count of all of them and of their pages.
#[derive(Debug, PartialEq, Eq)]
pub struct ListAuthors {
    pub list: Vec<Authors>,
    pub total: i64,
    pub total_page: i64,
}

/// The author of a story as a story shows it.
#[derive(Debug, PartialEq, Eq)]
pub struct AuthorStory {
    pub author_id: String,
    pub author_title: String,
    pub url_key: String,
}

/// The mathematical value of an [`AuthorStory`].
pub ghost struct AuthorStoryView {
    pub author_id: Seq<char>,
    pub author_title: Seq<char>,
    pub url_key: Seq<char>,
}

impl View for AuthorStory {
    type V = AuthorStoryView;

    open spec fn view(&self) -> AuthorStoryView {
        AuthorStoryView {
            author_id: self.author_id@,
            author_title: self.author_title@,
            url_key: self.url_key@,
        }
    }
}

/// The answer to a request for one author.
#[derive(Debug, PartialEq, Eq)]
pub struct AuthorResponse {
    pub message: String,
    pub error: bool,
    pub data: Option<Authors>,
}

/// The answer to a request for the list of authors.
#[derive(Debug, PartialEq, Eq)]
pub struct ListAuthorsResponse {
    pub message: String,
    pub error: bool,
    pub data: ListAuthors,
}

} // verus!
