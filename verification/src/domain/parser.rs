//! Sources of snippets: the formats a source can have and the named
//! pointer to one concrete source.

use crate::domain::errors::{SnippetError, SnippetErrorView};
use crate::domain::snippet::{snippet_views, Snippet, SnippetView};
use crate::infrastructure::parsers::default::strict_outcome;
use crate::infrastructure::parsers::scls::{scls_snippets, scls_views, SclsSnippet, SclsSnippetView};
use crate::infrastructure::parsers::vcode::{
    vcode_snippets, vcode_views, VCodeSnippet, VCodeSnippetView,
};
use crate::util::text::{ascii_lowercase, chars_of, lowercase_ascii, same_chars};
use vstd::prelude::*;

verus! {

/// Format of a snippet source.
#[derive(Debug, Clone, Copy, PartialEq, Eq)]
pub enum SnippetFormat {
    /// The delimited text format.
    Default,
    /// The table format of simple-completion-language-server.
    Scls,
    /// The object format of Visual Studio Code.
    VCode,
}

/// The format that an identifier names, whatever its ASCII case.
pub open spec fn format_named(tag: Seq<char>) -> Option<SnippetFormat> {
    let lowered = ascii_lowercase(tag);
    if lowered == "default"@ {
        Some(SnippetFormat::Default)
    } else if lowered == "scls"@ {
        Some(SnippetFormat::Scls)
    } else if lowered == "vcode"@ {
        Some(SnippetFormat::VCode)
    } else {
        None
    }
}

impl SnippetFormat {
    /// The format that `format` names, if it names one.
    pub fn from_str(format: &str) -> (result: Option<Self>)
        ensures
            result == format_named(format@),
    {
        let lowered = lowercase_ascii(&chars_of(format));
        if same_chars(&lowered, &chars_of("default")) {
            Some(SnippetFormat::Default)
        } else if same_chars(&lowered, &chars_of("scls")) {
            Some(SnippetFormat::Scls)
        } else if same_chars(&lowered, &chars_of("vcode")) {
            Some(SnippetFormat::VCode)
        } else {
            None
        }
    }
}

/// A named pointer to one concrete source of snippets.
#[derive(Debug, PartialEq, Eq)]
pub struct SnippetType {
    pub name: String,
    pub source_file: String,
    pub format: SnippetFormat,
}

/// The mathematical value of a [`SnippetType`].
pub struct SnippetTypeView {
    pub name: Seq<char>,
    pub source_file: Seq<char>,
    pub format: SnippetFormat,
}

impl View for SnippetType {
    type V = SnippetTypeView;

    open spec fn view(&self) -> SnippetTypeView {
        SnippetTypeView { name: self.name@, source_file: self.source_file@, format: self.format }
    }
}

impl Clone for SnippetType {
    fn clone(&self) -> (copy: Self)
        ensures
            copy@ == self@,
    {
        SnippetType {
            name: self.name.clone(),
            source_file: self.source_file.clone(),
            format: self.format,
        }
    }
}

/// What was read from a source file, in the shape that its format calls
/// for. Reading the file and deserializing a structured format are done
/// before the parsers; how they ended is part of the value.
#[derive(Debug, PartialEq, Eq)]
pub enum SourceData {
    /// The text of a default-format file.
    Text(String),
    /// The records of a table-format file.
    Table(Vec<SclsSnippet>),
    /// The records of an object-format file, in the order in which they are
    /// to appear.
    Object(Vec<VCodeSnippet>),
    /// A structured file that could not be deserialized.
    Malformed { cause: String },
    /// A file that could not be read.
    Unreadable { cause: String },
}

/// The mathematical value of a [`SourceData`].
pub enum SourceDataView {
    Text(Seq<char>),
    Table(Seq<SclsSnippetView>),
    Object(Seq<VCodeSnippetView>),
    Malformed { cause: Seq<char> },
    Unreadable { cause: Seq<char> },
}

impl View for SourceData {
    type V = SourceDataView;

    open spec fn view(&self) -> SourceDataView {
        match self {
            SourceData::Text(content) => SourceDataView::Text(content@),
            SourceData::Table(records) => SourceDataView::Table(scls_views(records@)),
            SourceData::Object(records) => SourceDataView::Object(vcode_views(records@)),
            SourceData::Malformed { cause } => SourceDataView::Malformed { cause: cause@ },
            SourceData::Unreadable { cause } => SourceDataView::Unreadable { cause: cause@ },
        }
    }
}

/// The list of snippets of a source, or the error that aborted its parse.
pub type ParseOutcome = Result<Seq<SnippetView>, SnippetErrorView>;

/// The mathematical value of a parse result.
pub open spec fn outcome_of(result: Result<Vec<Snippet>, SnippetError>) -> ParseOutcome {
    match result {
        Ok(snippets) => Ok(snippet_views(snippets@)),
        Err(e) => Err(e@),
    }
}

/// The message of the error that a parser reports for data of another
/// format's shape.
pub open spec fn wrong_shape() -> Seq<char> {
    "source data does not have the shape of the format"@
}

/// What the parser of `format` has to return for `source`, read from
/// `file`. A file that could not be read and a structured file that could
/// not be deserialized are errors that name the file and carry no line.
/// Data of the format's shape yields what the format's rules give, and
/// data of another shape is refused.
pub open spec fn source_outcome(format: SnippetFormat, file: Seq<char>, source: SourceDataView)
    -> ParseOutcome {
    match source {
        SourceDataView::Unreadable { cause } => Err(SnippetErrorView::FileError { file, cause }),
        SourceDataView::Malformed { cause } => Err(
            SnippetErrorView::MalformedStructuredData { file, cause },
        ),
        SourceDataView::Text(content) => if format == SnippetFormat::Default {
            strict_outcome(file, content)
        } else {
            Err(SnippetErrorView::ParserError(wrong_shape()))
        },
        SourceDataView::Table(records) => if format == SnippetFormat::Scls {
            scls_snippets(records, records.len())
        } else {
            Err(SnippetErrorView::ParserError(wrong_shape()))
        },
        SourceDataView::Object(records) => if format == SnippetFormat::VCode {
            Ok(vcode_snippets(records))
        } else {
            Err(SnippetErrorView::ParserError(wrong_shape()))
        },
    }
}

/// The one contract of the parsers: from what was read of a source to its
/// ordered list of snippets, or to the error that aborted the parse.
pub trait SnippetParser {
    /// The format that the parser reads.
    spec fn format(&self) -> SnippetFormat;

    /// Parses what was read from the source `file`.
    fn parse(&self, file: &str, source: &SourceData) -> (result: Result<Vec<Snippet>, SnippetError>)
        ensures
            outcome_of(result) == source_outcome(self.format(), file@, source@),
    ;
}

} // verus!
