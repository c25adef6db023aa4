//! What a template engine and a shell executor offer. Both are implemented
//! outside this library.

use crate::domain::content::SnippetContent;
use crate::domain::template::errors::TemplateError;
use vstd::prelude::*;

verus! {

/// Renders the content of a snippet.
pub trait TemplateEngine {
    /// The rendered text of `content`, or the error of the engine.
    fn render(&self, content: &SnippetContent) -> Result<String, TemplateError>;
}

/// Runs a shell command for a template.
pub trait ShellCommandExecutor {
    /// What the command wrote, or the error with which it was refused or
    /// failed.
    fn execute(&self, command: &str) -> Result<String, TemplateError>;
}

} // verus!
