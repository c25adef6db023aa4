//! The parser of the table format (simple-completion-language-server).
//!
//! A source is a list of records. Each record becomes one snippet: its body
//! is normalized to one text, its numbered placeholders are turned into
//! template variables, and its description and scope become comments.

use crate::domain::content::{classify, SnippetContent};
use crate::domain::errors::{SnippetError, SnippetErrorView};
use crate::domain::parser::outcome_of;
use crate::domain::snippet::{snippet_views, Snippet, SnippetView};
use crate::util::text::{join_strings, joined, string_views, unescape_newlines, unescaped};
use vstd::prelude::*;

verus! {

/// One record of a table-format source.
#[derive(Debug, PartialEq, Eq)]
pub struct SclsSnippet {
    pub prefix: String,
    pub scope: Vec<String>,
    pub body: String,
    pub description: Option<String>,
}

/// The mathematical value of an [`SclsSnippet`].
pub struct SclsSnippetView {
    pub prefix: Seq<char>,
    pub scope: Seq<Seq<char>>,
    pub body: Seq<char>,
    pub description: Option<Seq<char>>,
}

impl View for SclsSnippet {
    type V = SclsSnippetView;

    open spec fn view(&self) -> SclsSnippetView {
        SclsSnippetView {
            prefix: self.prefix@,
            scope: string_views(self.scope@),
            body: self.body@,
            description: match self.description {
                Some(d) => Some(d@),
                None => None,
            },
        }
    }
}

/// The values of a list of records, in order.
pub open spec fn scls_views(records: Seq<SclsSnippet>) -> Seq<SclsSnippetView> {
    Seq::new(records.len(), |i: int| records[i]@)
}

/// The placeholders of the table format: `${N:label}` and `$N`.
pub const PLACEHOLDER_PATTERN: &'static str = "\\$\\{(\\d+):([^}]+)\\}|\\$(\\d+)";

/// What stands in place of one placeholder. A labeled placeholder becomes
/// the variable named by its label, a bare numbered one the variable
/// `param` followed by its number.
pub open spec fn placeholder_text_of(
    number: Option<Seq<char>>,
    label: Option<Seq<char>>,
    bare: Option<Seq<char>>,
) -> Seq<char> {
    match label {
        Some(l) => "{{ "@ + l + " }}"@,
        None => match bare {
            Some(n) => "{{ param"@ + n + " }}"@,
            None => match number {
                Some(n) => "{{ param"@ + n + " }}"@,
                None => Seq::empty(),
            },
        },
    }
}

/// What stands in place of one placeholder, given what the three groups of
/// the pattern captured: the number and the label of `${N:label}`, and the
/// number of `$N`.
pub fn placeholder_text(number: Option<&str>, label: Option<&str>, bare: Option<&str>) -> (text:
    String)
    ensures
        text@ == placeholder_text_of(
            match number {
                Some(n) => Some(n@),
                None => None,
            },
            match label {
                Some(l) => Some(l@),
                None => None,
            },
            match bare {
                Some(n) => Some(n@),
                None => None,
            },
        ),
{
    match label {
        Some(l) => "{{ ".to_owned().concat(l).concat(" }}"),
        None => match bare {
            Some(n) => "{{ param".to_owned().concat(n).concat(" }}"),
            None => match number {
                Some(n) => "{{ param".to_owned().concat(n).concat(" }}"),
                None => String::new(),
            },
        },
    }
}

/// `regex::Error`, the error with which regex refuses a pattern. Nothing is
/// claimed of what it holds.
#[verifier::external_type_specification]
#[verifier::external_body]
pub struct ExRegexError(regex::Error);

/// `serde_json::Error`, the error with which serde_json refuses a text.
/// Nothing is claimed of what it holds.
#[verifier::external_type_specification]
#[verifier::external_body]
pub struct ExJsonError(serde_json::Error);

/// What regex's `Regex::replace_all` returns for the regular expression
/// `pattern` on `text`, with [`placeholder_text`] as the replacement of each
/// match; `None` where `Regex::new` refuses `pattern`.
pub uninterp spec fn placeholders_replaced(pattern: Seq<char>, text: Seq<char>) -> Option<
    Seq<char>,
>;

/// `Regex::new` and `Regex::replace_all` of regex: compiles `pattern` and
/// replaces every match in `text`, from the left and without overlap, by
/// what [`placeholder_text`] gives for the match's three capture groups. The
/// contract claims that the outcome depends on the two texts alone.
#[verifier::external_body]
fn replace_placeholders(pattern: &str, text: &str) -> (result: Result<String, regex::Error>)
    ensures
        match result {
            Ok(out) => placeholders_replaced(pattern@, text@) == Some(out@),
            Err(_) => placeholders_replaced(pattern@, text@) is None,
        },
{
    let re = regex::Regex::new(pattern)?;
    let replaced = re.replace_all(
        text,
        |caps: &regex::Captures| {
            placeholder_text(
                caps.get(1).map(|m| m.as_str()),
                caps.get(2).map(|m| m.as_str()),
                caps.get(3).map(|m| m.as_str()),
            )
        },
    );
    Ok(replaced.into_owned())
}

/// What serde_json's `from_str` returns for `text` as a list of strings;
/// `None` where `text` is no JSON array of strings.
pub uninterp spec fn json_string_list(text: Seq<char>) -> Option<Seq<Seq<char>>>;

/// `from_str` of serde_json, for a `Vec<String>`: the strings of the JSON
/// array that `text` is, or the error if it is none. The contract claims
/// that the outcome depends on the text alone.
#[verifier::external_body]
fn parse_string_list(text: &str) -> (result: Result<Vec<String>, serde_json::Error>)
    ensures
        match result {
            Ok(lines) => json_string_list(text@) == Some(string_views(lines@)),
            Err(_) => json_string_list(text@) is None,
        },
{
    serde_json::from_str::<Vec<String>>(text)
}

/// The message of the error that is reported when the placeholder pattern
/// is refused.
pub open spec fn pattern_refused() -> Seq<char> {
    "placeholder pattern does not compile"@
}

/// A text with its placeholders turned into template variables.
pub open spec fn converted(text: Seq<char>) -> Result<Seq<char>, SnippetErrorView> {
    match placeholders_replaced(PLACEHOLDER_PATTERN@, text) {
        Some(out) => Ok(out),
        None => Err(SnippetErrorView::ParserError(pattern_refused())),
    }
}

/// The body of a record as one text. A body that starts with `[` and is a
/// JSON array of strings is the strings joined by line feeds. Any other
/// body has its two-character newline escapes turned into line feeds.
pub open spec fn body_text(body: Seq<char>) -> Seq<char> {
    normalized_body(
        body,
        if body.len() > 0 && body[0] == '[' {
            json_string_list(body)
        } else {
            None
        },
    )
}

/// The body as one text, given the strings that it lists, if it lists any.
pub open spec fn normalized_body(body: Seq<char>, listed: Option<Seq<Seq<char>>>) -> Seq<char> {
    match listed {
        Some(lines) => joined(lines, "\n"@),
        None => unescaped(body),
    }
}

/// The comments of a record: its description, if it has one, and then its
/// scope, if it names any.
pub open spec fn scls_comments(description: Option<Seq<char>>, scope: Seq<Seq<char>>) -> Seq<
    Seq<char>,
> {
    let first = match description {
        Some(d) => seq![d],
        None => Seq::empty(),
    };
    if scope.len() > 0 {
        first.push("Scope: "@ + joined(scope, ", "@))
    } else {
        first
    }
}

/// The snippet of a record whose body, normalized and converted, is `text`.
pub open spec fn scls_snippet_with(record: SclsSnippetView, text: Seq<char>) -> SnippetView {
    SnippetView {
        name: record.prefix,
        content: classify(text),
        comments: scls_comments(record.description, record.scope),
    }
}

/// The snippet that a record becomes.
pub open spec fn scls_snippet(record: SclsSnippetView) -> Result<SnippetView, SnippetErrorView> {
    match converted(body_text(record.body)) {
        Ok(text) => Ok(scls_snippet_with(record, text)),
        Err(e) => Err(e),
    }
}

/// The snippets of the first `count` records, or the first error.
pub open spec fn scls_snippets(records: Seq<SclsSnippetView>, count: nat) -> Result<
    Seq<SnippetView>,
    SnippetErrorView,
>
    decreases count,
{
    if count == 0 {
        Ok(Seq::empty())
    } else {
        match scls_snippets(records, (count - 1) as nat) {
            Err(e) => Err(e),
            Ok(done) => match scls_snippet(records[count - 1]) {
                Err(e) => Err(e),
                Ok(snippet) => Ok(done.push(snippet)),
            },
        }
    }
}

/// The parser of the table format.
#[derive(Debug, Clone, Copy)]
pub struct SclsSnippetParser;

impl SclsSnippetParser {
    /// The parser; it holds no state.
    pub fn new() -> Self {
        SclsSnippetParser
    }

    /// `input` with every placeholder turned into a template variable:
    /// `${N:label}` into `{{ label }}` and `$N` into `{{ paramN }}`.
    pub fn convert_placeholders(input: &str) -> (result: Result<String, SnippetError>)
        ensures
            match converted(input@) {
                Ok(text) => result matches Ok(out) && out@ == text,
                Err(e) => result matches Err(err) && err@ == e,
            },
    {
        match replace_placeholders(PLACEHOLDER_PATTERN, input) {
            Ok(out) => Ok(out),
            Err(_) => Err(
                SnippetError::ParserError("placeholder pattern does not compile".to_owned()),
            ),
        }
    }

    /// The body as one text, given the strings that it lists, if it lists
    /// any: the strings joined by line feeds, or else the body with its
    /// newline escapes turned into line feeds.
    pub fn normalize_body(body: &str, listed: Option<Vec<String>>) -> (text: String)
        ensures
            text@ == normalized_body(
                body@,
                match listed {
                    Some(lines) => Some(string_views(lines@)),
                    None => None,
                },
            ),
    {
        match listed {
            Some(lines) => join_strings(&lines, "\n"),
            None => unescape_newlines(body),
        }
    }

    /// The body of a record as one text.
    pub fn process_body(body: &str) -> (text: String)
        ensures
            text@ == body_text(body@),
    {
        let listed = if body.unicode_len() > 0 && body.get_char(0) == '[' {
            match parse_string_list(body) {
                Ok(lines) => Some(lines),
                Err(_) => None,
            }
        } else {
            None
        };
        Self::normalize_body(body, listed)
    }

    /// The comments of a record.
    pub fn comments_of(description: &Option<String>, scope: &Vec<String>) -> (comments: Vec<
        String,
    >)
        ensures
            string_views(comments@) == scls_comments(
                match description {
                    Some(d) => Some(d@),
                    None => None,
                },
                string_views(scope@),
            ),
    {
        let mut comments: Vec<String> = Vec::new();
        match description {
            Some(d) => {
                comments.push(d.clone());
            },
            None => {},
        }
        if scope.len() > 0 {
            let names = join_strings(scope, ", ");
            comments.push("Scope: ".to_owned().concat(names.as_str()));
        }
        assert(string_views(comments@) =~= scls_comments(
            match description {
                Some(d) => Some(d@),
                None => None,
            },
            string_views(scope@),
        ));
        comments
    }

    /// The snippet of `record`, whose body, normalized and converted, is
    /// `text`.
    pub fn snippet_with(record: &SclsSnippet, text: String) -> (snippet: Snippet)
        ensures
            snippet@ == scls_snippet_with(record@, text@),
    {
        Snippet {
            name: record.prefix.clone(),
            content: SnippetContent::new(text),
            comments: Self::comments_of(&record.description, &record.scope),
        }
    }

    /// The snippet that `record` becomes.
    pub fn snippet_of(record: &SclsSnippet) -> (result: Result<Snippet, SnippetError>)
        ensures
            match scls_snippet(record@) {
                Ok(snippet) => result matches Ok(s) && s@ == snippet,
                Err(e) => result matches Err(err) && err@ == e,
            },
    {
        let body = Self::process_body(record.body.as_str());
        match Self::convert_placeholders(body.as_str()) {
            Ok(text) => Ok(Self::snippet_with(record, text)),
            Err(e) => Err(e),
        }
    }

    /// The snippets of `records`, one for each record and in their order.
    pub fn parse_records(&self, records: &Vec<SclsSnippet>) -> (result: Result<
        Vec<Snippet>,
        SnippetError,
    >)
        ensures
            outcome_of(result) == scls_snippets(scls_views(records@), records.len() as nat),
    {
        let mut snippets: Vec<Snippet> = Vec::new();
        let ghost views = scls_views(records@);
        let mut i: usize = 0;
        assert(snippet_views(snippets@) =~= Seq::empty());
        while i < records.len()
            invariant
                i <= records.len(),
                views == scls_views(records@),
                scls_snippets(views, i as nat) == Ok::<Seq<SnippetView>, SnippetErrorView>(
                    snippet_views(snippets@),
                ),
            decreases records.len() - i,
        {
            let ghost before = snippet_views(snippets@);
            assert(views[i as int] == records@[i as int]@);
            match Self::snippet_of(&records[i]) {
                Err(e) => {
                    proof {
                        lemma_scls_error_stays(views, (i + 1) as nat, views.len());
                    }
                    return Err(e);
                },
                Ok(snippet) => {
                    snippets.push(snippet);
                    assert(snippet_views(snippets@) =~= before.push(snippet@));
                },
            }
            i += 1;
        }
        Ok(snippets)
    }
}

/// Once a record was refused, later records do not change the error.
pub proof fn lemma_scls_error_stays(records: Seq<SclsSnippetView>, count: nat, later: nat)
    requires
        count <= later,
        scls_snippets(records, count) is Err,
    ensures
        scls_snippets(records, later) == scls_snippets(records, count),
    decreases later,
{
    if count < later {
        lemma_scls_error_stays(records, count, (later - 1) as nat);
    }
}

} // verus!
