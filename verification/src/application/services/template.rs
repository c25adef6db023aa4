//! From a snippet to the text that is used: static content as it stands,
//! a template through the engine.

use crate::domain::content::{ContentView, SnippetContent};
use crate::domain::snippet::Snippet;
use crate::domain::template::errors::TemplateError;
use crate::domain::template::interface::TemplateEngine;
use crate::infrastructure::clipboard::{clipboard_text, clipboard_text_of};
use vstd::prelude::*;

verus! {

/// A snippet's text after processing, and what of it goes to the clipboard.
#[derive(Debug, Clone, PartialEq, Eq)]
pub struct Processed {
    /// The text as it is shown.
    pub rendered: String,
    /// The text as it is copied: `rendered` without the line feeds at its
    /// end.
    pub clipboard: String,
}

/// Processes snippets with the template engine `E`.
pub struct TemplateProcessingService<E: TemplateEngine> {
    template_engine: E,
}

impl<E: TemplateEngine> TemplateProcessingService<E> {
    /// The engine that renders the templates of this service.
    pub closed spec fn engine(&self) -> E {
        self.template_engine
    }

    /// A service that renders templates with `template_engine`.
    pub fn new(template_engine: E) -> (service: Self)
        ensures
            service.engine() == template_engine,
    {
        TemplateProcessingService { template_engine }
    }

    /// The text of `content`. Static content never reaches the engine and
    /// comes back character for character. For a template the engine
    /// decides.
    pub fn render(&self, content: &SnippetContent) -> (result: Result<String, TemplateError>)
        ensures
            content@ matches ContentView::Static(text) ==> (result matches Ok(rendered)
                && rendered@ == text),
    {
        match content {
            SnippetContent::Static(text) => Ok(text.clone()),
            SnippetContent::Template { .. } => self.template_engine.render(content),
        }
    }

    /// The text of `snippet` and what of it goes to the clipboard.
    pub fn process(&self, snippet: &Snippet) -> (result: Result<Processed, TemplateError>)
        ensures
            result matches Ok(done) ==> done.clipboard@ == clipboard_text_of(done.rendered@),
            snippet@.content matches ContentView::Static(text) ==> (result matches Ok(done)
                && done.rendered@ == text),
    {
        match self.render(&snippet.content) {
            Ok(rendered) => {
                let clipboard = clipboard_text(rendered.as_str());
                Ok(Processed { rendered, clipboard })
            },
            Err(e) => Err(e),
        }
    }
}

} // verus!
