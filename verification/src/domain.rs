//! The data model: snippets, their content, their sources and the errors
//! that ingestion and resolution report.

pub mod content;
pub mod errors;
pub mod parser;
pub mod snippet;
pub mod template;

pub use content::SnippetContent;
pub use parser::SnippetType;
pub use snippet::Snippet;
