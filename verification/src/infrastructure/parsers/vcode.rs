//! The parser of the object format (Visual Studio Code).
//!
//! A source is a list of records, each found under a title that is
//! dropped. Each record becomes one snippet. The placeholders of a body are
//! left as they stand: this format does not convert them.

use crate::domain::content::{classify, SnippetContent};
use crate::domain::snippet::{snippet_views, Snippet, SnippetView};
use crate::util::text::{join_strings, joined, string_views};
use vstd::prelude::*;

verus! {

/// The body of a record: one text, or a list of lines.
#[derive(Debug, PartialEq, Eq)]
pub enum SnippetBody {
    Single(String),
    Multiple(Vec<String>),
}

/// The mathematical value of a [`SnippetBody`].
pub enum SnippetBodyView {
    Single(Seq<char>),
    Multiple(Seq<Seq<char>>),
}

impl View for SnippetBody {
    type V = SnippetBodyView;

    open spec fn view(&self) -> SnippetBodyView {
        match self {
            SnippetBody::Single(text) => SnippetBodyView::Single(text@),
            SnippetBody::Multiple(lines) => SnippetBodyView::Multiple(string_views(lines@)),
        }
    }
}

impl SnippetBodyView {
    /// The body as one text: a list of lines is joined by line feeds.
    pub open spec fn text(self) -> Seq<char> {
        match self {
            SnippetBodyView::Single(text) => text,
            SnippetBodyView::Multiple(lines) => joined(lines, "\n"@),
        }
    }
}

impl SnippetBody {
    /// The body as one text: a list of lines is joined by line feeds.
    pub fn text(&self) -> (text: String)
        ensures
            text@ == self@.text(),
    {
        match self {
            SnippetBody::Single(text) => text.clone(),
            SnippetBody::Multiple(lines) => join_strings(lines, "\n"),
        }
    }
}

/// One record of an object-format source.
#[derive(Debug, PartialEq, Eq)]
pub struct VCodeSnippet {
    pub prefix: String,
    pub body: SnippetBody,
    pub description: Option<String>,
}

/// The mathematical value of a [`VCodeSnippet`].
pub struct VCodeSnippetView {
    pub prefix: Seq<char>,
    pub body: SnippetBodyView,
    pub description: Option<Seq<char>>,
}

impl View for VCodeSnippet {
    type V = VCodeSnippetView;

    open spec fn view(&self) -> VCodeSnippetView {
        VCodeSnippetView {
            prefix: self.prefix@,
            body: self.body@,
            description: match self.description {
                Some(d) => Some(d@),
                None => None,
            },
        }
    }
}

/// The values of a list of records, in order.
pub open spec fn vcode_views(records: Seq<VCodeSnippet>) -> Seq<VCodeSnippetView> {
    Seq::new(records.len(), |i: int| records[i]@)
}

/// The snippet that a record becomes: named by its prefix, with its body as
/// content and its description, if it has one, as the only comment.
pub open spec fn vcode_snippet(record: VCodeSnippetView) -> SnippetView {
    SnippetView {
        name: record.prefix,
        content: classify(record.body.text()),
        comments: match record.description {
            Some(d) => seq![d],
            None => Seq::empty(),
        },
    }
}

/// The snippets of a list of records: one for each record, in their order.
pub open spec fn vcode_snippets(records: Seq<VCodeSnippetView>) -> Seq<SnippetView> {
    Seq::new(records.len(), |i: int| vcode_snippet(records[i]))
}

/// The parser of the object format.
#[derive(Debug, Clone, Copy)]
pub struct VCodeSnippetParser;

impl VCodeSnippetParser {
    /// The parser; it holds no state.
    pub fn new() -> Self {
        VCodeSnippetParser
    }

    /// The snippet that `record` becomes.
    pub fn snippet_of(record: &VCodeSnippet) -> (snippet: Snippet)
        ensures
            snippet@ == vcode_snippet(record@),
    {
        let mut comments: Vec<String> = Vec::new();
        match &record.description {
            Some(d) => {
                comments.push(d.clone());
            },
            None => {},
        }
        assert(string_views(comments@) =~= vcode_snippet(record@).comments);
        Snippet {
            name: record.prefix.clone(),
            content: SnippetContent::new(record.body.text()),
            comments,
        }
    }

    /// The snippets of `records`, one for each record and in their order.
    pub fn parse_records(&self, records: &Vec<VCodeSnippet>) -> (snippets: Vec<Snippet>)
        ensures
            snippet_views(snippets@) == vcode_snippets(vcode_views(records@)),
    {
        let mut snippets: Vec<Snippet> = Vec::new();
        let mut i: usize = 0;
        while i < records.len()
            invariant
                i <= records.len(),
                snippets.len() == i,
                forall|j: int| 0 <= j < i ==> snippets@[j]@ == vcode_snippet(records@[j]@),
            decreases records.len() - i,
        {
            snippets.push(Self::snippet_of(&records[i]));
            i += 1;
        }
        assert(snippet_views(snippets@) =~= vcode_snippets(vcode_views(records@)));
        snippets
    }
}

} // verus!
