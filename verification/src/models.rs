//! The records that the service stores, receives and answers with.

pub mod authors;
pub mod categories;
pub mod chapters;
pub mod response;
pub mod stories;
pub mod top_story;
