//! A content-publishing graph of articles, authors and media: the row models,
//! the graph nodes built over them, and page-number cursor pagination.

pub mod association;
pub mod cursor;
pub mod decimal;
pub mod graphql;
pub mod models;
