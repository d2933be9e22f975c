//! The rules of each collection: the filters and documents sent to the
//! store, the records read back, and the answers given.

pub mod authors;
pub mod categories;
pub mod chapters;
pub mod stories;
pub mod story_creation;
pub mod top_story;
