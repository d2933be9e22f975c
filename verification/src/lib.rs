//! The request-handling rules of a story catalogue service: reading query
//! strings, paging, building store filters and documents, decoding stored
//! records, and the decisions taken while a story is created.

pub mod db;
pub mod document;
pub mod helpers;
pub mod models;
pub mod outside;
pub mod paging;
pub mod query;
pub mod repositories;
pub mod text;
