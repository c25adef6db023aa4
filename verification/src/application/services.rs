//! Resolution of completions and lookup of the snippets of a type.

pub mod completion;
pub mod management;
pub mod template;

pub use completion::CompletionService;
pub use management::SnippetManagementService;
pub use template::TemplateProcessingService;
