//! The parsers of the three source formats and the helpers around them.

pub mod clipboard;
pub mod edit_snippets;
pub mod fuzzy;
pub mod lenient;
pub mod minijinja;
pub mod parsers;

pub use edit_snippets::find_snippet_line_number;
pub use lenient::{parse_content, parse_snippets_file};
