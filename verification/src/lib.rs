//! Search-query composition and paginated result retrieval.
//!
//! The crate has two parts: a boolean query-expression model that renders
//! to the wire query syntax of a card-search service, and a lazy cursor
//! over the paginated results such a search returns.

pub mod cursor;
pub mod expr;
pub mod laws;
