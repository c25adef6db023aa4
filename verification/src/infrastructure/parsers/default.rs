//! The parser of the delimited text format.
//!
//! A source is read line by line. `--- name` opens a snippet, a bare `---`
//! closes it, a line that starts with `:` inside a snippet is a comment, and
//! every other line inside a snippet is content. Text between snippets is
//! ignored. The parser is a state machine: [`strict_step`] says what one line
//! does to the state, [`strict_parse`] what a whole text yields.

use crate::domain::content::{classify, SnippetContent};
use crate::domain::errors::{FormatReason, SnippetError, SnippetErrorView};
use crate::domain::parser::outcome_of;
use crate::domain::snippet::{snippet_views, Snippet, SnippetView};
use crate::util::text::{
    chars_of, copy_range, join_strings, joined, lemma_joined_empty, line_views, lines_of,
    same_chars, split_lines, starts_with, string_of, string_of_range, string_views, trim, trimmed,
};
use vstd::prelude::*;

verus! {

/// The token that opens a snippet; the name follows it.
pub open spec fn opening_token() -> Seq<char> {
    seq!['-', '-', '-', ' ']
}

/// The token that closes a snippet.
pub open spec fn closing_token() -> Seq<char> {
    seq!['-', '-', '-']
}

/// What a physical line is to the parser.
pub enum LineKind {
    /// `--- name`: the remainder after the token is the name.
    Opening(Seq<char>),
    /// A bare `---`.
    Closing,
    /// A line that starts with `:`; the marker is stripped and the rest trimmed.
    Comment(Seq<char>),
    /// Any other line; `blank` if nothing but whitespace stands on it.
    Text { blank: bool },
}

/// The kind of a line, decided on the trimmed line.
pub open spec fn line_kind(line: Seq<char>) -> LineKind {
    let t = trimmed(line);
    if opening_token().is_prefix_of(t) {
        LineKind::Opening(t.subrange(4, t.len() as int))
    } else if t == closing_token() {
        LineKind::Closing
    } else if t.len() > 0 && t[0] == ':' {
        LineKind::Comment(trimmed(t.subrange(1, t.len() as int)))
    } else {
        LineKind::Text { blank: t.len() == 0 }
    }
}

/// A line as the parser sees it.
#[derive(Debug, PartialEq, Eq)]
pub enum Line {
    Opening(String),
    Closing,
    Comment(String),
    Text { blank: bool },
}

impl View for Line {
    type V = LineKind;

    open spec fn view(&self) -> LineKind {
        match self {
            Line::Opening(name) => LineKind::Opening(name@),
            Line::Closing => LineKind::Closing,
            Line::Comment(text) => LineKind::Comment(text@),
            Line::Text { blank } => LineKind::Text { blank: *blank },
        }
    }
}

/// Decides what `line` is to the parser.
pub fn classify_line(line: &Vec<char>) -> (kind: Line)
    ensures
        kind@ == line_kind(line@),
{
    let t = trim(line);
    let opening: Vec<char> = vec!['-', '-', '-', ' '];
    let closing: Vec<char> = vec!['-', '-', '-'];
    assert(opening@ =~= opening_token());
    assert(closing@ =~= closing_token());
    if starts_with(&t, &opening) {
        Line::Opening(string_of_range(&t, 4, t.len()))
    } else if same_chars(&t, &closing) {
        Line::Closing
    } else if t.len() > 0 && t[0] == ':' {
        let rest = copy_range(&t, 1, t.len());
        Line::Comment(string_of(&trim(&rest)))
    } else {
        Line::Text { blank: t.len() == 0 }
    }
}

/// The mathematical value of a [`SnippetBuilder`].
pub struct BuilderView {
    pub name: Option<Seq<char>>,
    pub content_lines: Seq<Seq<char>>,
    pub comments: Seq<Seq<char>>,
    pub start_line: nat,
}

impl BuilderView {
    /// The builder before any line was seen.
    pub open spec fn empty() -> BuilderView {
        BuilderView {
            name: None,
            content_lines: Seq::empty(),
            comments: Seq::empty(),
            start_line: 0,
        }
    }

    /// The builder of a snippet that was opened at line `number`.
    pub open spec fn opened(name: Seq<char>, number: nat) -> BuilderView {
        BuilderView {
            name: Some(name),
            content_lines: Seq::empty(),
            comments: Seq::empty(),
            start_line: number,
        }
    }

    /// The content lines joined by line feeds, each line as it stood.
    pub open spec fn content(self) -> Seq<char> {
        joined(self.content_lines, "\n"@)
    }

    /// The snippet that the builder holds, once it has a name.
    pub open spec fn snippet(self) -> SnippetView {
        SnippetView {
            name: self.name.unwrap(),
            content: classify(self.content()),
            comments: self.comments,
        }
    }
}

/// A structural violation: which snippet, at which 1-based line, and why.
pub struct FormatFault {
    pub name: Seq<char>,
    pub line: nat,
    pub reason: FormatReason,
}

impl FormatFault {
    /// The error that reports the fault for the source `file`.
    pub open spec fn in_file(self, file: Seq<char>) -> SnippetErrorView {
        SnippetErrorView::InvalidFormat {
            name: self.name,
            file,
            line: self.line,
            reason: self.reason,
        }
    }
}

/// Accumulates one snippet while its lines are read.
#[derive(Debug)]
pub struct SnippetBuilder {
    pub name: Option<String>,
    pub content_lines: Vec<String>,
    pub comments: Vec<String>,
    pub start_line: usize,
}

impl View for SnippetBuilder {
    type V = BuilderView;

    open spec fn view(&self) -> BuilderView {
        BuilderView {
            name: match self.name {
                Some(n) => Some(n@),
                None => None,
            },
            content_lines: string_views(self.content_lines@),
            comments: string_views(self.comments@),
            start_line: self.start_line as nat,
        }
    }
}

/// The parser of the delimited text format.
#[derive(Debug, Clone, Copy)]
pub struct DefaultSnippetParser;

impl DefaultSnippetParser {
    /// The parser; it holds no state.
    pub fn new() -> Self {
        DefaultSnippetParser
    }

    /// Refuses a snippet whose joined content is empty.
    pub fn validate_snippet(
        name: &str,
        content_lines: &Vec<String>,
        line_number: usize,
        file: &str,
    ) -> (result: Result<(), SnippetError>)
        ensures
            result is Ok <==> joined(string_views(content_lines@), "\n"@).len() > 0,
            result matches Err(e) ==> e@ == (FormatFault {
                name: name@,
                line: line_number as nat,
                reason: FormatReason::EmptyContent,
            }).in_file(file@),
    {
        proof {
            reveal_strlit("\n");
            lemma_joined_empty(string_views(content_lines@), "\n"@);
        }
        let empty = content_lines.len() == 0 || (content_lines.len() == 1
            && content_lines[0].as_str().unicode_len() == 0);
        if empty {
            Err(
                SnippetError::InvalidFormat {
                    name: name.to_owned(),
                    file: file.to_owned(),
                    line: line_number,
                    reason: FormatReason::EmptyContent,
                },
            )
        } else {
            Ok(())
        }
    }
}

impl SnippetBuilder {
    /// A builder that holds nothing yet.
    pub fn new() -> (builder: Self)
        ensures
            builder@ == BuilderView::empty(),
    {
        let builder = SnippetBuilder {
            name: None,
            content_lines: Vec::new(),
            comments: Vec::new(),
            start_line: 0,
        };
        assert(builder@.content_lines =~= Seq::empty());
        assert(builder@.comments =~= Seq::empty());
        builder
    }

    /// A builder for the snippet `name` that was opened at line `start_line`.
    pub fn open(name: String, start_line: usize) -> (builder: Self)
        ensures
            builder@ == BuilderView::opened(name@, start_line as nat),
    {
        let builder = SnippetBuilder {
            name: Some(name),
            content_lines: Vec::new(),
            comments: Vec::new(),
            start_line,
        };
        assert(builder@.content_lines =~= Seq::empty());
        assert(builder@.comments =~= Seq::empty());
        builder
    }

    /// Adds one comment.
    pub fn push_comment(&mut self, text: String)
        ensures
            final(self)@ == (BuilderView {
                comments: old(self)@.comments.push(text@),
                ..old(self)@
            }),
    {
        self.comments.push(text);
        assert(string_views(self.comments@) =~= string_views(old(self).comments@).push(text@));
    }

    /// Adds one line of content.
    pub fn push_content(&mut self, line: String)
        ensures
            final(self)@ == (BuilderView {
                content_lines: old(self)@.content_lines.push(line@),
                ..old(self)@
            }),
    {
        self.content_lines.push(line);
        assert(string_views(self.content_lines@) =~= string_views(old(self).content_lines@).push(
            line@,
        ));
    }

    /// The snippet that was accumulated: none if no snippet was opened, an
    /// error if the snippet has no content.
    pub fn build(self, file: &str) -> (result: Result<Option<Snippet>, SnippetError>)
        ensures
            self@.name is None ==> result matches Ok(None),
            self@.name is Some && self@.content().len() == 0 ==> (result matches Err(e) && e@ == (
            FormatFault {
                name: self@.name.unwrap(),
                line: self@.start_line,
                reason: FormatReason::EmptyContent,
            }).in_file(file@)),
            self@.name is Some && self@.content().len() > 0 ==> (result matches Ok(Some(s)) && s@
                == self@.snippet()),
    {
        let ghost view = self@;
        let SnippetBuilder { name, content_lines, comments, start_line } = self;
        match name {
            Some(name) => {
                match DefaultSnippetParser::validate_snippet(
                    name.as_str(),
                    &content_lines,
                    start_line,
                    file,
                ) {
                    Err(e) => Err(e),
                    Ok(()) => {
                        let text = join_strings(&content_lines, "\n");
                        Ok(Some(Snippet { name, content: SnippetContent::new(text), comments }))
                    },
                }
            },
            None => Ok(None),
        }
    }

    /// The snippet that was accumulated, whatever its content; none if no
    /// snippet was opened.
    pub fn finish(self) -> (result: Option<Snippet>)
        ensures
            self@.name is None ==> result is None,
            self@.name is Some ==> (result matches Some(s) && s@ == self@.snippet()),
    {
        let SnippetBuilder { name, content_lines, comments, start_line } = self;
        match name {
            Some(name) => {
                let text = join_strings(&content_lines, "\n");
                Some(Snippet { name, content: SnippetContent::new(text), comments })
            },
            None => None,
        }
    }
}

/// The state of the parser between two lines.
pub struct ScanState {
    /// The snippets that were closed so far, in source order.
    pub snippets: Seq<SnippetView>,
    /// The snippet that is open, if `builder.name` is set.
    pub builder: BuilderView,
    /// Whether the last content line that was seen was blank.
    pub last_line_empty: bool,
}

impl ScanState {
    /// The state before the first line.
    pub open spec fn initial() -> ScanState {
        ScanState { snippets: Seq::empty(), builder: BuilderView::empty(), last_line_empty: false }
    }

    /// Whether a snippet is open.
    pub open spec fn in_snippet(self) -> bool {
        self.builder.name is Some
    }
}

/// What the line `line`, the `number`-th of the source, does to the state.
///
/// An opening inside an open snippet is a fault at the line where that
/// snippet began: the parser never closes a snippet by itself. A snippet
/// that is closed without content is a fault too. Blank content lines are
/// kept only after content, and never two in a row.
pub open spec fn strict_step(st: ScanState, number: nat, line: Seq<char>) -> Result<
    ScanState,
    FormatFault,
> {
    match line_kind(line) {
        LineKind::Opening(name) => match st.builder.name {
            Some(open) => Err(
                FormatFault {
                    name: open,
                    line: st.builder.start_line,
                    reason: FormatReason::MissingClosingDelimiter,
                },
            ),
            None => Ok(
                ScanState {
                    snippets: st.snippets,
                    builder: BuilderView::opened(name, number),
                    last_line_empty: false,
                },
            ),
        },
        LineKind::Closing => match st.builder.name {
            None => Err(
                FormatFault {
                    name: Seq::empty(),
                    line: number,
                    reason: FormatReason::UnmatchedClosingDelimiter,
                },
            ),
            Some(open) => if st.builder.content().len() == 0 {
                Err(
                    FormatFault {
                        name: open,
                        line: st.builder.start_line,
                        reason: FormatReason::EmptyContent,
                    },
                )
            } else {
                Ok(
                    ScanState {
                        snippets: st.snippets.push(st.builder.snippet()),
                        builder: BuilderView::empty(),
                        last_line_empty: false,
                    },
                )
            },
        },
        LineKind::Comment(text) => if st.in_snippet() {
            Ok(
                ScanState {
                    builder: BuilderView {
                        comments: st.builder.comments.push(text),
                        ..st.builder
                    },
                    ..st
                },
            )
        } else {
            Ok(st)
        },
        LineKind::Text { blank } => if st.in_snippet() {
            let keep = !blank || (st.builder.content_lines.len() > 0 && !st.last_line_empty);
            Ok(
                ScanState {
                    snippets: st.snippets,
                    builder: if keep {
                        BuilderView {
                            content_lines: st.builder.content_lines.push(line),
                            ..st.builder
                        }
                    } else {
                        st.builder
                    },
                    last_line_empty: blank,
                },
            )
        } else {
            Ok(st)
        },
    }
}

/// The state after the first `count` lines, or the first fault among them.
/// Lines are numbered from 1.
pub open spec fn strict_scan(lines: Seq<Seq<char>>, count: nat) -> Result<ScanState, FormatFault>
    decreases count,
{
    if count == 0 {
        Ok(ScanState::initial())
    } else {
        match strict_scan(lines, (count - 1) as nat) {
            Err(fault) => Err(fault),
            Ok(st) => strict_step(st, count, lines[count - 1]),
        }
    }
}

/// What the lines of a source yield: its snippets in source order, or the
/// first fault. A snippet that is still open at the end is a fault at the
/// line where it began.
pub open spec fn strict_parse_lines(lines: Seq<Seq<char>>) -> Result<
    Seq<SnippetView>,
    FormatFault,
> {
    match strict_scan(lines, lines.len()) {
        Err(fault) => Err(fault),
        Ok(st) => match st.builder.name {
            Some(open) => Err(
                FormatFault {
                    name: open,
                    line: st.builder.start_line,
                    reason: FormatReason::MissingClosingDelimiter,
                },
            ),
            None => Ok(st.snippets),
        },
    }
}

/// What a text in the default format yields.
pub open spec fn strict_parse(content: Seq<char>) -> Result<Seq<SnippetView>, FormatFault> {
    strict_parse_lines(lines_of(content))
}

/// What parsing the text `content` of the source `file` has to return: the
/// snippets of [`strict_parse`], or the error that reports its fault.
pub open spec fn strict_outcome(file: Seq<char>, content: Seq<char>) -> Result<
    Seq<SnippetView>,
    SnippetErrorView,
> {
    match strict_parse(content) {
        Ok(snippets) => Ok(snippets),
        Err(fault) => Err(fault.in_file(file)),
    }
}

/// The parser's state while it runs.
#[derive(Debug)]
pub struct ParserState {
    pub snippets: Vec<Snippet>,
    pub builder: SnippetBuilder,
    pub last_line_empty: bool,
}

impl View for ParserState {
    type V = ScanState;

    open spec fn view(&self) -> ScanState {
        ScanState {
            snippets: snippet_views(self.snippets@),
            builder: self.builder@,
            last_line_empty: self.last_line_empty,
        }
    }
}

impl ParserState {
    /// The state before the first line.
    pub fn new() -> (state: Self)
        ensures
            state@ == ScanState::initial(),
    {
        let state = ParserState {
            snippets: Vec::new(),
            builder: SnippetBuilder::new(),
            last_line_empty: false,
        };
        assert(snippet_views(state.snippets@) =~= Seq::empty());
        state
    }

    /// Feeds the line `line`, the `number`-th of the source `file`.
    pub fn step(self, number: usize, line: &Vec<char>, file: &str) -> (result: Result<
        ParserState,
        SnippetError,
    >)
        ensures
            match strict_step(self@, number as nat, line@) {
                Ok(next) => result matches Ok(state) && state@ == next,
                Err(fault) => result matches Err(e) && e@ == fault.in_file(file@),
            },
    {
        let ParserState { mut snippets, mut builder, last_line_empty } = self;
        match classify_line(line) {
            Line::Opening(name) => {
                match &builder.name {
                    Some(open) => Err(
                        SnippetError::InvalidFormat {
                            name: open.clone(),
                            file: file.to_owned(),
                            line: builder.start_line,
                            reason: FormatReason::MissingClosingDelimiter,
                        },
                    ),
                    None => Ok(
                        ParserState {
                            snippets,
                            builder: SnippetBuilder::open(name, number),
                            last_line_empty: false,
                        },
                    ),
                }
            },
            Line::Closing => {
                let ghost before = snippet_views(snippets@);
                if builder.name.is_none() {
                    return Err(
                        SnippetError::InvalidFormat {
                            name: String::new(),
                            file: file.to_owned(),
                            line: number,
                            reason: FormatReason::UnmatchedClosingDelimiter,
                        },
                    );
                }
                match builder.build(file) {
                    Err(e) => Err(e),
                    Ok(None) => Ok(
                        ParserState {
                            snippets,
                            builder: SnippetBuilder::new(),
                            last_line_empty: false,
                        },
                    ),
                    Ok(Some(snippet)) => {
                        snippets.push(snippet);
                        assert(snippet_views(snippets@) =~= before.push(snippet@));
                        Ok(
                            ParserState {
                                snippets,
                                builder: SnippetBuilder::new(),
                                last_line_empty: false,
                            },
                        )
                    },
                }
            },
            Line::Comment(text) => {
                if builder.name.is_some() {
                    builder.push_comment(text);
                }
                Ok(ParserState { snippets, builder, last_line_empty })
            },
            Line::Text { blank } => {
                if builder.name.is_some() {
                    if !blank || (builder.content_lines.len() > 0 && !last_line_empty) {
                        builder.push_content(string_of(line));
                    }
                    Ok(ParserState { snippets, builder, last_line_empty: blank })
                } else {
                    Ok(ParserState { snippets, builder, last_line_empty })
                }
            },
        }
    }
}

impl DefaultSnippetParser {
    /// Parses the text `content` of the source `file`.
    ///
    /// Returns the snippets in source order. The whole parse fails on the
    /// first structural violation, with the line at which to look: an
    /// opening inside an open snippet or an open snippet at the end (at the
    /// line where that snippet began), a closing delimiter with no snippet
    /// open (at its own line), a snippet without content (at the line where
    /// it began).
    pub fn parse_text(&self, file: &str, content: &str) -> (result: Result<
        Vec<Snippet>,
        SnippetError,
    >)
        ensures
            outcome_of(result) == strict_outcome(file@, content@),
    {
        let chars = chars_of(content);
        let lines = split_lines(&chars);
        let ghost texts = lines_of(content@);
        let mut state = ParserState::new();
        let mut i: usize = 0;
        while i < lines.len()
            invariant
                i <= lines.len(),
                texts == line_views(lines@),
                texts == lines_of(content@),
                strict_scan(texts, i as nat) == Ok::<ScanState, FormatFault>(state@),
            decreases lines.len() - i,
        {
            assert(texts[i as int] == lines@[i as int]@);
            let ghost reached = state@;
            match state.step(i + 1, &lines[i], file) {
                Err(e) => {
                    proof {
                        assert(strict_scan(texts, (i + 1) as nat) == strict_step(
                            reached,
                            (i + 1) as nat,
                            texts[i as int],
                        ));
                        lemma_fault_stays(texts, (i + 1) as nat, texts.len());
                    }
                    return Err(e);
                },
                Ok(next) => {
                    state = next;
                },
            }
            i += 1;
        }
        let ParserState { snippets, builder, last_line_empty } = state;
        match builder.name {
            Some(open) => Err(
                SnippetError::InvalidFormat {
                    name: open,
                    file: file.to_owned(),
                    line: builder.start_line,
                    reason: FormatReason::MissingClosingDelimiter,
                },
            ),
            None => Ok(snippets),
        }
    }
}

/// Once a fault was met, later lines do not change it.
pub proof fn lemma_fault_stays(lines: Seq<Seq<char>>, count: nat, later: nat)
    requires
        count <= later,
        strict_scan(lines, count) is Err,
    ensures
        strict_scan(lines, later) == strict_scan(lines, count),
    decreases later,
{
    if count < later {
        lemma_fault_stays(lines, count, (later - 1) as nat);
    }
}

/// Parsing is repeatable: two results of parsing one text are the same
/// snippets, element for element and in the same order, or the same error.
pub proof fn lemma_parse_repeatable(
    file: Seq<char>,
    content: Seq<char>,
    first: Result<Vec<Snippet>, SnippetError>,
    second: Result<Vec<Snippet>, SnippetError>,
)
    requires
        outcome_of(first) == strict_outcome(file, content),
        outcome_of(second) == strict_outcome(file, content),
    ensures
        outcome_of(first) == outcome_of(second),
        first is Ok <==> second is Ok,
        first matches Ok(a) ==> (second matches Ok(b) && a@.len() == b@.len() && forall|i: int|
            0 <= i < a@.len() ==> a@[i]@ == b@[i]@),
{
    if let Ok(a) = first {
        if let Ok(b) = second {
            assert(snippet_views(a@) == snippet_views(b@));
            assert(snippet_views(a@).len() == a@.len());
            assert(snippet_views(b@).len() == b@.len());
            assert forall|i: int| 0 <= i < a@.len() implies a@[i]@ == b@[i]@ by {
                assert(snippet_views(a@)[i] == a@[i]@);
                assert(snippet_views(b@)[i] == b@[i]@);
            }
        }
    }
}

/// What holds of every state that the parser reaches: an open snippet began
/// at one of the lines that were read, and every snippet that was closed
/// has content.
pub open spec fn is_sound_state(st: ScanState, count: nat) -> bool {
    &&& st.in_snippet() ==> 1 <= st.builder.start_line <= count
    &&& forall|i: int|
        0 <= i < st.snippets.len() ==> (#[trigger] st.snippets[i]).content.text().len() > 0
}

/// Every state that the parser reaches is sound, and every fault that it
/// reports lies at one of the lines that were read.
pub proof fn lemma_scan_sound(lines: Seq<Seq<char>>, count: nat)
    requires
        count <= lines.len(),
    ensures
        match strict_scan(lines, count) {
            Ok(st) => is_sound_state(st, count),
            Err(fault) => 1 <= fault.line <= count,
        },
    decreases count,
{
    if count > 0 {
        lemma_scan_sound(lines, (count - 1) as nat);
        match strict_scan(lines, (count - 1) as nat) {
            Ok(st) => {
                match strict_step(st, count, lines[count - 1]) {
                    Ok(next) => {
                        assert forall|i: int| 0 <= i < next.snippets.len() implies (
                        #[trigger] next.snippets[i]).content.text().len() > 0 by {
                            if i < st.snippets.len() {
                                assert(next.snippets[i] == st.snippets[i]);
                            }
                        }
                    },
                    Err(_) => {},
                }
            },
            Err(_) => {},
        }
    }
}

/// A parse that fails names a line of the text, counted from 1, and a parse
/// that succeeds returns only snippets with content.
pub proof fn lemma_parse_sound(content: Seq<char>)
    ensures
        match strict_parse(content) {
            Ok(snippets) => forall|i: int|
                0 <= i < snippets.len() ==> (#[trigger] snippets[i]).content.text().len() > 0,
            Err(fault) => 1 <= fault.line <= lines_of(content).len(),
        },
{
    lemma_scan_sound(lines_of(content), lines_of(content).len());
}

/// Whether a line neither opens nor closes a snippet.
pub open spec fn is_plain_line(line: Seq<char>) -> bool {
    line_kind(line) is Comment || line_kind(line) is Text
}

/// Text before the first snippet is ignored: lines that neither open nor
/// close a snippet leave the initial state as it is.
pub proof fn lemma_free_text_ignored(lines: Seq<Seq<char>>, count: nat)
    requires
        count <= lines.len(),
        forall|j: int| 0 <= j < count ==> is_plain_line(#[trigger] lines[j]),
    ensures
        strict_scan(lines, count) == Ok::<ScanState, FormatFault>(ScanState::initial()),
    decreases count,
{
    if count > 0 {
        lemma_free_text_ignored(lines, (count - 1) as nat);
        assert(is_plain_line(lines[count - 1]));
    }
}

/// A closing delimiter that no opening precedes is a fault at its own line.
pub proof fn lemma_unmatched_closing(lines: Seq<Seq<char>>, at: nat)
    requires
        at < lines.len(),
        line_kind(lines[at as int]) is Closing,
        forall|j: int| 0 <= j < at ==> is_plain_line(#[trigger] lines[j]),
    ensures
        strict_parse_lines(lines) == Err::<Seq<SnippetView>, FormatFault>(
            FormatFault {
                name: Seq::empty(),
                line: at + 1,
                reason: FormatReason::UnmatchedClosingDelimiter,
            },
        ),
{
    lemma_free_text_ignored(lines, at);
    assert(strict_scan(lines, at + 1) == strict_step(
        ScanState::initial(),
        at + 1,
        lines[at as int],
    ));
    lemma_fault_stays(lines, at + 1, lines.len());
}

/// A snippet that is still open after the last line is a fault at the line
/// where it began: the end of the text closes nothing.
pub proof fn lemma_unterminated_snippet(lines: Seq<Seq<char>>)
    requires
        strict_scan(lines, lines.len()) matches Ok(st) && st.in_snippet(),
    ensures
        strict_parse_lines(lines) matches Err(fault) && fault.reason
            == FormatReason::MissingClosingDelimiter && 1 <= fault.line <= lines.len(),
{
    lemma_scan_sound(lines, lines.len());
}

/// The names of the opening lines among the first `count` lines, in order.
pub open spec fn opening_names(lines: Seq<Seq<char>>, count: nat) -> Seq<Seq<char>>
    decreases count,
{
    if count == 0 {
        Seq::empty()
    } else {
        let earlier = opening_names(lines, (count - 1) as nat);
        match line_kind(lines[count - 1]) {
            LineKind::Opening(name) => earlier.push(name),
            _ => earlier,
        }
    }
}

/// The names of a list of snippets, in order.
pub open spec fn names_of(snippets: Seq<SnippetView>) -> Seq<Seq<char>> {
    Seq::new(snippets.len(), |i: int| snippets[i].name)
}

/// The names that a state holds: those of the closed snippets and then,
/// if one is open, its name.
pub open spec fn names_in(st: ScanState) -> Seq<Seq<char>> {
    match st.builder.name {
        Some(open) => names_of(st.snippets).push(open),
        None => names_of(st.snippets),
    }
}

/// While no fault is met, the snippets follow the opening lines one for
/// one: the parser neither drops, adds nor reorders a snippet.
pub proof fn lemma_scan_follows_openings(lines: Seq<Seq<char>>, count: nat)
    requires
        count <= lines.len(),
        strict_scan(lines, count) is Ok,
    ensures
        strict_scan(lines, count) matches Ok(st) && names_in(st) == opening_names(lines, count),
    decreases count,
{
    if count > 0 {
        let before = strict_scan(lines, (count - 1) as nat);
        lemma_scan_follows_openings(lines, (count - 1) as nat);
        match before {
            Ok(st) => {
                match strict_step(st, count, lines[count - 1]) {
                    Ok(next) => {
                        match line_kind(lines[count - 1]) {
                            LineKind::Opening(name) => {
                                assert(names_of(next.snippets) =~= names_of(st.snippets));
                            },
                            LineKind::Closing => {
                                assert(names_of(next.snippets) =~= names_of(st.snippets).push(
                                    st.builder.name.unwrap(),
                                ));
                            },
                            _ => {
                                assert(names_of(next.snippets) =~= names_of(st.snippets));
                            },
                        }
                    },
                    Err(_) => {},
                }
            },
            Err(_) => {},
        }
    } else {
        assert(names_of(ScanState::initial().snippets) =~= Seq::<Seq<char>>::empty());
    }
}

/// A parse that succeeds returns one snippet for each opening line, in the
/// order of the lines and under the name that stands on the line.
pub proof fn lemma_parse_keeps_source_order(content: Seq<char>)
    requires
        strict_parse(content) is Ok,
    ensures
        strict_parse(content) matches Ok(snippets) && names_of(snippets) == opening_names(
            lines_of(content),
            lines_of(content).len(),
        ),
{
    lemma_scan_follows_openings(lines_of(content), lines_of(content).len());
}

} // verus!
