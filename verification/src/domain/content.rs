//! Snippet content and its classification as static text or template.

use crate::util::text::{chars_of, contains, contains_run};
use vstd::prelude::*;

verus! {

/// The text of a snippet, tagged by whether it has to be rendered before use.
#[derive(Debug, PartialEq, Eq)]
pub enum SnippetContent {
    /// Text that is used as it stands.
    Static(String),
    /// Text that holds template markers and goes through the template engine.
    Template { source: String },
}

/// The mathematical value of a [`SnippetContent`].
pub enum ContentView {
    Static(Seq<char>),
    Template(Seq<char>),
}

impl ContentView {
    /// The text, whatever the tag.
    pub open spec fn text(self) -> Seq<char> {
        match self {
            ContentView::Static(s) => s,
            ContentView::Template(s) => s,
        }
    }
}

impl View for SnippetContent {
    type V = ContentView;

    open spec fn view(&self) -> ContentView {
        match self {
            SnippetContent::Static(s) => ContentView::Static(s@),
            SnippetContent::Template { source } => ContentView::Template(source@),
        }
    }
}

impl DeepView for SnippetContent {
    type V = ContentView;

    open spec fn deep_view(&self) -> ContentView {
        self.view()
    }
}

/// The marker that opens a template expression.
pub open spec fn opening_marker() -> Seq<char> {
    seq!['{', '{']
}

/// The marker that closes a template expression.
pub open spec fn closing_marker() -> Seq<char> {
    seq!['}', '}']
}

/// A text is taken for a template when both markers occur in it, anywhere
/// and in any order.
pub open spec fn is_template_text(raw: Seq<char>) -> bool {
    contains_run(raw, opening_marker()) && contains_run(raw, closing_marker())
}

/// The content that a raw text classifies as.
pub open spec fn classify(raw: Seq<char>) -> ContentView {
    if is_template_text(raw) {
        ContentView::Template(raw)
    } else {
        ContentView::Static(raw)
    }
}

impl Clone for SnippetContent {
    fn clone(&self) -> (copy: Self)
        ensures
            copy@ == self@,
    {
        match self {
            SnippetContent::Static(s) => SnippetContent::Static(s.clone()),
            SnippetContent::Template { source } => SnippetContent::Template {
                source: source.clone(),
            },
        }
    }
}

impl SnippetContent {
    /// Classifies `content`: a template if it holds both markers, static
    /// text otherwise. The text itself is kept unchanged.
    pub fn new(content: String) -> (result: Self)
        ensures
            result@ == classify(content@),
            result@.text() == content@,
    {
        let chars = chars_of(content.as_str());
        let open: Vec<char> = vec!['{', '{'];
        let close: Vec<char> = vec!['}', '}'];
        assert(open@ =~= opening_marker());
        assert(close@ =~= closing_marker());
        if contains(&chars, &open) && contains(&chars, &close) {
            SnippetContent::Template { source: content }
        } else {
            SnippetContent::Static(content)
        }
    }

    /// The text, whatever the tag.
    pub fn get_content(&self) -> (text: &str)
        ensures
            text@ == self@.text(),
    {
        match self {
            SnippetContent::Static(s) => s.as_str(),
            SnippetContent::Template { source } => source.as_str(),
        }
    }

    /// Whether the content has to go through the template engine.
    pub fn is_template(&self) -> (b: bool)
        ensures
            b == (self@ is Template),
    {
        match self {
            SnippetContent::Static(_) => false,
            SnippetContent::Template { .. } => true,
        }
    }
}

/// Classification goes by the two markers alone: a text that holds both,
/// anywhere, is a template, a text that lacks either is static, and the text
/// is kept as it is in both cases.
pub proof fn lemma_classification(raw: Seq<char>)
    ensures
        contains_run(raw, opening_marker()) && contains_run(raw, closing_marker()) ==> classify(raw)
            == ContentView::Template(raw),
        !contains_run(raw, opening_marker()) || !contains_run(raw, closing_marker()) ==> classify(
            raw,
        ) == ContentView::Static(raw),
        classify(raw).text() == raw,
{
}

} // verus!
