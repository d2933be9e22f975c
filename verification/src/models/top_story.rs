//! Stories ranked for a period.

use vstd::prelude::*;
use crate::models::stories::Stories;

verus! {

/// A story's place in the ranking of a period.
#[derive(Debug, PartialEq, Eq)]
pub struct TopStory {
    pub period: String,
    pub story_id: String,
    pub priority: i64,
    pub created_at: String,
    pub updated_at: String,
}

/// The ranked stories of a period.
#[derive(Debug, PartialEq, Eq)]
pub struct ListTopStories {
    pub list: Vec<Stories>,
    pub total: i64,
    pub total_page: i64,
}

} // verus!
