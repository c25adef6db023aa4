//! Snippet ingestion and resolution: parsers that turn snippet sources into
//! a uniform collection, the classifier that tells static text from
//! templates, and the algorithms that pick one snippet for a user's input.

pub mod application;
pub mod config;
pub mod domain;
pub mod infrastructure;
pub mod util;
