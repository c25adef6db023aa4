//! The forgiving reading of the delimited text format.
//!
//! Deprecated in favour of [`DefaultSnippetParser`]: this reading closes a
//! snippet by itself where the next one opens or the text ends, accepts a
//! snippet without content and keeps every blank line. It never fails.
//!
//! [`DefaultSnippetParser`]: crate::infrastructure::parsers::DefaultSnippetParser

use crate::domain::snippet::{snippet_views, Snippet, SnippetView};
use crate::infrastructure::parsers::default::{
    classify_line, line_kind, BuilderView, Line, LineKind, ParserState, ScanState, SnippetBuilder,
};
use crate::util::text::{chars_of, line_views, lines_of, split_lines, string_of};
use vstd::prelude::*;

verus! {

/// The snippets that are done once the open snippet, if there is one, is
/// closed.
pub open spec fn closed(st: ScanState) -> Seq<SnippetView> {
    if st.in_snippet() {
        st.snippets.push(st.builder.snippet())
    } else {
        st.snippets
    }
}

/// What the line `line`, the `number`-th of the source, does to the state.
pub open spec fn lenient_step(st: ScanState, number: nat, line: Seq<char>) -> ScanState {
    match line_kind(line) {
        LineKind::Opening(name) => ScanState {
            snippets: closed(st),
            builder: BuilderView::opened(name, number),
            last_line_empty: st.last_line_empty,
        },
        LineKind::Closing => ScanState {
            snippets: closed(st),
            builder: BuilderView::empty(),
            last_line_empty: st.last_line_empty,
        },
        LineKind::Comment(text) => if st.in_snippet() {
            ScanState {
                builder: BuilderView { comments: st.builder.comments.push(text), ..st.builder },
                ..st
            }
        } else {
            st
        },
        LineKind::Text { blank } => if st.in_snippet() {
            ScanState {
                builder: BuilderView {
                    content_lines: st.builder.content_lines.push(line),
                    ..st.builder
                },
                ..st
            }
        } else {
            st
        },
    }
}

/// The state after the first `count` lines. Lines are numbered from 1.
pub open spec fn lenient_scan(lines: Seq<Seq<char>>, count: nat) -> ScanState
    decreases count,
{
    if count == 0 {
        ScanState::initial()
    } else {
        lenient_step(lenient_scan(lines, (count - 1) as nat), count, lines[count - 1])
    }
}

/// The snippets that the forgiving reading finds in a text, in source order.
pub open spec fn lenient_parse(content: Seq<char>) -> Seq<SnippetView> {
    closed(lenient_scan(lines_of(content), lines_of(content).len()))
}

/// Closes the open snippet, if there is one, and leaves `builder` in its
/// place.
fn close(state: ParserState, builder: SnippetBuilder) -> (next: ParserState)
    ensures
        next@ == (ScanState {
            snippets: closed(state@),
            builder: builder@,
            last_line_empty: state@.last_line_empty,
        }),
{
    let ParserState { mut snippets, builder: open, last_line_empty } = state;
    let ghost before = snippet_views(snippets@);
    match open.finish() {
        Some(snippet) => {
            snippets.push(snippet);
            assert(snippet_views(snippets@) =~= before.push(snippet@));
        },
        None => {},
    }
    ParserState { snippets, builder, last_line_empty }
}

/// Feeds the line `line`, the `number`-th of the source, to the forgiving
/// reading.
pub fn step_lenient(state: ParserState, number: usize, line: &Vec<char>) -> (next: ParserState)
    ensures
        next@ == lenient_step(state@, number as nat, line@),
{
    match classify_line(line) {
        Line::Opening(name) => close(state, SnippetBuilder::open(name, number)),
        Line::Closing => close(state, SnippetBuilder::new()),
        Line::Comment(text) => {
            let ParserState { snippets, mut builder, last_line_empty } = state;
            if builder.name.is_some() {
                builder.push_comment(text);
            }
            ParserState { snippets, builder, last_line_empty }
        },
        Line::Text { blank } => {
            let ParserState { snippets, mut builder, last_line_empty } = state;
            if builder.name.is_some() {
                builder.push_content(string_of(line));
            }
            ParserState { snippets, builder, last_line_empty }
        },
    }
}

/// The snippets that the forgiving reading finds in `content`.
pub fn parse_content(content: &str) -> (snippets: Vec<Snippet>)
    ensures
        snippet_views(snippets@) == lenient_parse(content@),
{
    let lines = split_lines(&chars_of(content));
    let ghost texts = lines_of(content@);
    let mut state = ParserState::new();
    let mut i: usize = 0;
    while i < lines.len()
        invariant
            i <= lines.len(),
            texts == line_views(lines@),
            texts == lines_of(content@),
            lenient_scan(texts, i as nat) == state@,
        decreases lines.len() - i,
    {
        assert(texts[i as int] == lines@[i as int]@);
        state = step_lenient(state, i + 1, &lines[i]);
        i += 1;
    }
    let done = close(state, SnippetBuilder::new());
    done.snippets
}

/// The snippets of a source that is read forgivingly: those of `content`,
/// the text of its file, or those of `fallback` where the file is missing.
pub fn parse_snippets_file(content: Option<&str>, fallback: &str) -> (snippets: Vec<Snippet>)
    ensures
        snippet_views(snippets@) == lenient_parse(
            match content {
                Some(text) => text@,
                None => fallback@,
            },
        ),
{
    match content {
        Some(text) => parse_content(text),
        None => parse_content(fallback),
    }
}

} // verus!
