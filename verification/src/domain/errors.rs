//! The errors of snippet ingestion and resolution.

use crate::domain::template::errors::{TemplateError, TemplateErrorView};
use crate::util::text::{decimal_digits, decimal_string};
use vstd::prelude::*;

verus! {

/// Why a source in the default format was refused.
#[derive(Debug, Clone, Copy, PartialEq, Eq)]
pub enum FormatReason {
    /// A snippet was closed without any content.
    EmptyContent,
    /// A snippet was opened and never closed.
    MissingClosingDelimiter,
    /// A closing delimiter stands where no snippet is open.
    UnmatchedClosingDelimiter,
}

impl FormatReason {
    /// The text shown for the reason.
    pub open spec fn message_text(self) -> Seq<char> {
        match self {
            FormatReason::EmptyContent => "Empty content"@,
            FormatReason::MissingClosingDelimiter => "Missing closing delimiter (---)"@,
            FormatReason::UnmatchedClosingDelimiter =>
                "Found closing delimiter without opening snippet"@,
        }
    }

    /// The text shown for the reason.
    pub fn message(&self) -> (text: &'static str)
        ensures
            text@ == self.message_text(),
    {
        match self {
            FormatReason::EmptyContent => "Empty content",
            FormatReason::MissingClosingDelimiter => "Missing closing delimiter (---)",
            FormatReason::UnmatchedClosingDelimiter =>
                "Found closing delimiter without opening snippet",
        }
    }
}

/// What ingestion and resolution can report.
#[derive(Debug, PartialEq, Eq)]
pub enum SnippetError {
    /// No snippet of that name.
    NotFound { name: String },
    /// No snippet type of that name is configured.
    UnknownSnippetType { name: String },
    /// A structural violation in a default-format source, at a 1-based line.
    InvalidFormat { name: String, file: String, line: usize, reason: FormatReason },
    /// The source file could not be read.
    FileError { file: String, cause: String },
    /// A table- or object-format source could not be deserialized.
    MalformedStructuredData { file: String, cause: String },
    /// The template engine failed.
    TemplateError(TemplateError),
    /// A parser was handed what it cannot work on.
    ParserError(String),
    /// A name or an input has more characters than can be scored.
    TooLong { limit: usize },
    /// The clipboard failed.
    ClipboardError(String),
}

/// The mathematical value of a [`SnippetError`].
pub enum SnippetErrorView {
    NotFound { name: Seq<char> },
    UnknownSnippetType { name: Seq<char> },
    InvalidFormat { name: Seq<char>, file: Seq<char>, line: nat, reason: FormatReason },
    FileError { file: Seq<char>, cause: Seq<char> },
    MalformedStructuredData { file: Seq<char>, cause: Seq<char> },
    TemplateError(TemplateErrorView),
    ParserError(Seq<char>),
    TooLong { limit: nat },
    ClipboardError(Seq<char>),
}

impl View for SnippetError {
    type V = SnippetErrorView;

    open spec fn view(&self) -> SnippetErrorView {
        match self {
            SnippetError::NotFound { name } => SnippetErrorView::NotFound { name: name@ },
            SnippetError::UnknownSnippetType { name } => SnippetErrorView::UnknownSnippetType {
                name: name@,
            },
            SnippetError::InvalidFormat { name, file, line, reason } =>
                SnippetErrorView::InvalidFormat {
                    name: name@,
                    file: file@,
                    line: *line as nat,
                    reason: *reason,
                },
            SnippetError::FileError { file, cause } => SnippetErrorView::FileError {
                file: file@,
                cause: cause@,
            },
            SnippetError::MalformedStructuredData { file, cause } =>
                SnippetErrorView::MalformedStructuredData { file: file@, cause: cause@ },
            SnippetError::TemplateError(e) => SnippetErrorView::TemplateError(e@),
            SnippetError::ParserError(m) => SnippetErrorView::ParserError(m@),
            SnippetError::TooLong { limit } => SnippetErrorView::TooLong { limit: *limit as nat },
            SnippetError::ClipboardError(m) => SnippetErrorView::ClipboardError(m@),
        }
    }
}

impl Clone for SnippetError {
    fn clone(&self) -> (copy: Self)
        ensures
            copy@ == self@,
    {
        match self {
            SnippetError::NotFound { name } => SnippetError::NotFound { name: name.clone() },
            SnippetError::UnknownSnippetType { name } => SnippetError::UnknownSnippetType {
                name: name.clone(),
            },
            SnippetError::InvalidFormat { name, file, line, reason } =>
                SnippetError::InvalidFormat {
                    name: name.clone(),
                    file: file.clone(),
                    line: *line,
                    reason: *reason,
                },
            SnippetError::FileError { file, cause } => SnippetError::FileError {
                file: file.clone(),
                cause: cause.clone(),
            },
            SnippetError::MalformedStructuredData { file, cause } =>
                SnippetError::MalformedStructuredData { file: file.clone(), cause: cause.clone() },
            SnippetError::TemplateError(e) => SnippetError::TemplateError(e.clone()),
            SnippetError::ParserError(m) => SnippetError::ParserError(m.clone()),
            SnippetError::TooLong { limit } => SnippetError::TooLong { limit: *limit },
            SnippetError::ClipboardError(m) => SnippetError::ClipboardError(m.clone()),
        }
    }
}

impl SnippetErrorView {
    /// The text shown for the error.
    pub open spec fn message(self) -> Seq<char> {
        match self {
            SnippetErrorView::NotFound { name } => "Snippet not found: "@ + name,
            SnippetErrorView::UnknownSnippetType { name } => "Unknown snippet type: "@ + name
                + ", update your configuration."@,
            SnippetErrorView::InvalidFormat { name, file, line, reason } =>
                "Invalid snippet format for "@ + name + " in "@ + file + ", line "@
                    + decimal_digits(line) + ": "@ + reason.message_text(),
            SnippetErrorView::FileError { file, cause } => "Failed to read snippet file: "@ + file
                + ": "@ + cause,
            SnippetErrorView::MalformedStructuredData { file, cause } =>
                "Malformed structured data in "@ + file + ": "@ + cause,
            SnippetErrorView::TemplateError(e) => "Template error: "@ + e.message(),
            SnippetErrorView::ParserError(m) => "Parser error: "@ + m,
            SnippetErrorView::TooLong { limit } => "A name or the input has more than "@
                + decimal_digits(limit) + " characters"@,
            SnippetErrorView::ClipboardError(m) => "Clipboard error: "@ + m,
        }
    }
}

impl SnippetError {
    /// The text shown for the error: what went wrong, and for a format error
    /// the file and the line at which to look.
    pub fn message(&self) -> (text: String)
        ensures
            text@ == self@.message(),
    {
        match self {
            SnippetError::NotFound { name } => "Snippet not found: ".to_owned().concat(
                name.as_str(),
            ),
            SnippetError::UnknownSnippetType { name } => "Unknown snippet type: ".to_owned()
                .concat(name.as_str()).concat(", update your configuration."),
            SnippetError::InvalidFormat { name, file, line, reason } => {
                let number = decimal_string(*line);
                "Invalid snippet format for ".to_owned().concat(name.as_str()).concat(
                    " in ",
                ).concat(file.as_str()).concat(", line ").concat(number.as_str()).concat(
                    ": ",
                ).concat(reason.message())
            },
            SnippetError::FileError { file, cause } => "Failed to read snippet file: ".to_owned()
                .concat(file.as_str()).concat(": ").concat(cause.as_str()),
            SnippetError::MalformedStructuredData { file, cause } =>
                "Malformed structured data in ".to_owned().concat(file.as_str()).concat(
                    ": ",
                ).concat(cause.as_str()),
            SnippetError::TemplateError(e) => {
                let inner = e.message();
                "Template error: ".to_owned().concat(inner.as_str())
            },
            SnippetError::ParserError(m) => "Parser error: ".to_owned().concat(m.as_str()),
            SnippetError::TooLong { limit } => {
                let number = decimal_string(*limit);
                "A name or the input has more than ".to_owned().concat(number.as_str()).concat(
                    " characters",
                )
            },
            SnippetError::ClipboardError(m) => "Clipboard error: ".to_owned().concat(m.as_str()),
        }
    }
}

/// The result of an operation on snippets.
pub type SnippetResult<T> = Result<T, SnippetError>;

} // verus!
