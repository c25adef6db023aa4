//! Errors of template rendering.

use vstd::prelude::*;

verus! {

/// What can go wrong while a template is rendered.
#[derive(Debug, PartialEq, Eq)]
pub enum TemplateError {
    /// The template source does not compile.
    Syntax(String),
    /// The template compiled and failed while rendering.
    Rendering(String),
    /// A value of the rendering context is missing or of the wrong kind.
    Context(String),
    /// A shell command of the template was refused or failed.
    Shell(String),
}

/// The mathematical value of a [`TemplateError`].
pub enum TemplateErrorView {
    Syntax(Seq<char>),
    Rendering(Seq<char>),
    Context(Seq<char>),
    Shell(Seq<char>),
}

impl View for TemplateError {
    type V = TemplateErrorView;

    open spec fn view(&self) -> TemplateErrorView {
        match self {
            TemplateError::Syntax(m) => TemplateErrorView::Syntax(m@),
            TemplateError::Rendering(m) => TemplateErrorView::Rendering(m@),
            TemplateError::Context(m) => TemplateErrorView::Context(m@),
            TemplateError::Shell(m) => TemplateErrorView::Shell(m@),
        }
    }
}

impl Clone for TemplateError {
    fn clone(&self) -> (copy: Self)
        ensures
            copy@ == self@,
    {
        match self {
            TemplateError::Syntax(m) => TemplateError::Syntax(m.clone()),
            TemplateError::Rendering(m) => TemplateError::Rendering(m.clone()),
            TemplateError::Context(m) => TemplateError::Context(m.clone()),
            TemplateError::Shell(m) => TemplateError::Shell(m.clone()),
        }
    }
}

impl TemplateErrorView {
    /// The text shown for the error.
    pub open spec fn message(self) -> Seq<char> {
        match self {
            TemplateErrorView::Syntax(m) => "Template syntax error: "@ + m,
            TemplateErrorView::Rendering(m) => "Template rendering error: "@ + m,
            TemplateErrorView::Context(m) => "Context error: "@ + m,
            TemplateErrorView::Shell(m) => "Shell command error: "@ + m,
        }
    }
}

impl TemplateError {
    /// The text shown for the error.
    pub fn message(&self) -> (text: String)
        ensures
            text@ == self@.message(),
    {
        match self {
            TemplateError::Syntax(m) => "Template syntax error: ".to_owned().concat(m.as_str()),
            TemplateError::Rendering(m) => "Template rendering error: ".to_owned().concat(
                m.as_str(),
            ),
            TemplateError::Context(m) => "Context error: ".to_owned().concat(m.as_str()),
            TemplateError::Shell(m) => "Shell command error: ".to_owned().concat(m.as_str()),
        }
    }
}

} // verus!
