//! The unit of completion.

use crate::domain::content::{ContentView, SnippetContent};
use crate::util::text::string_views;
use vstd::prelude::*;

verus! {

/// A named text fragment with its annotations.
#[derive(Debug, PartialEq, Eq)]
pub struct Snippet {
    /// The key by which the snippet is resolved.
    pub name: String,
    /// The text, static or template.
    pub content: SnippetContent,
    /// Annotations for display; they take no part in matching.
    pub comments: Vec<String>,
}

/// The mathematical value of a [`Snippet`].
pub struct SnippetView {
    pub name: Seq<char>,
    pub content: ContentView,
    pub comments: Seq<Seq<char>>,
}

impl View for Snippet {
    type V = SnippetView;

    open spec fn view(&self) -> SnippetView {
        SnippetView {
            name: self.name@,
            content: self.content@,
            comments: string_views(self.comments@),
        }
    }
}

impl DeepView for Snippet {
    type V = SnippetView;

    open spec fn deep_view(&self) -> SnippetView {
        self.view()
    }
}

/// The values of a list of snippets, in order.
pub open spec fn snippet_views(snippets: Seq<Snippet>) -> Seq<SnippetView> {
    Seq::new(snippets.len(), |i: int| snippets[i]@)
}

/// A copy of a list of strings.
pub fn clone_strings(strings: &Vec<String>) -> (copy: Vec<String>)
    ensures
        string_views(copy@) == string_views(strings@),
{
    let mut copy: Vec<String> = Vec::new();
    let mut i: usize = 0;
    while i < strings.len()
        invariant
            i <= strings.len(),
            copy.len() == i,
            forall|j: int| 0 <= j < i ==> copy@[j]@ == strings@[j]@,
        decreases strings.len() - i,
    {
        copy.push(strings[i].clone());
        i += 1;
    }
    assert(string_views(copy@) =~= string_views(strings@));
    copy
}

impl Clone for Snippet {
    fn clone(&self) -> (copy: Self)
        ensures
            copy@ == self@,
    {
        Snippet {
            name: self.name.clone(),
            content: self.content.clone(),
            comments: clone_strings(&self.comments),
        }
    }
}

} // verus!
