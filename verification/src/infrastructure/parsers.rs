//! One parser for each source format, and the factory that picks the
//! parser of a format.

pub mod default;
pub mod scls;
pub mod vcode;

pub use default::DefaultSnippetParser;
pub use scls::SclsSnippetParser;
pub use vcode::VCodeSnippetParser;

use crate::domain::errors::SnippetError;
use crate::domain::parser::{
    outcome_of, source_outcome, SnippetFormat, SnippetParser, SourceData,
};
use crate::domain::snippet::Snippet;
use vstd::prelude::*;

verus! {

/// Parses what was read from the source `file` by the rules of `format`.
pub fn parse_source(format: SnippetFormat, file: &str, source: &SourceData) -> (result: Result<
    Vec<Snippet>,
    SnippetError,
>)
    ensures
        outcome_of(result) == source_outcome(format, file@, source@),
{
    match source {
        SourceData::Unreadable { cause } => Err(
            SnippetError::FileError { file: file.to_owned(), cause: cause.clone() },
        ),
        SourceData::Malformed { cause } => Err(
            SnippetError::MalformedStructuredData { file: file.to_owned(), cause: cause.clone() },
        ),
        SourceData::Text(content) => match format {
            SnippetFormat::Default => DefaultSnippetParser::new().parse_text(
                file,
                content.as_str(),
            ),
            _ => Err(wrong_shape_error()),
        },
        SourceData::Table(records) => match format {
            SnippetFormat::Scls => SclsSnippetParser::new().parse_records(records),
            _ => Err(wrong_shape_error()),
        },
        SourceData::Object(records) => match format {
            SnippetFormat::VCode => Ok(VCodeSnippetParser::new().parse_records(records)),
            _ => Err(wrong_shape_error()),
        },
    }
}

/// The error that a parser reports for data of another format's shape.
fn wrong_shape_error() -> (e: SnippetError)
    ensures
        e@ == crate::domain::errors::SnippetErrorView::ParserError(
            crate::domain::parser::wrong_shape(),
        ),
{
    SnippetError::ParserError("source data does not have the shape of the format".to_owned())
}

impl SnippetParser for DefaultSnippetParser {
    open spec fn format(&self) -> SnippetFormat {
        SnippetFormat::Default
    }

    fn parse(&self, file: &str, source: &SourceData) -> (result: Result<Vec<Snippet>, SnippetError>) {
        parse_source(SnippetFormat::Default, file, source)
    }
}

impl SnippetParser for SclsSnippetParser {
    open spec fn format(&self) -> SnippetFormat {
        SnippetFormat::Scls
    }

    fn parse(&self, file: &str, source: &SourceData) -> (result: Result<Vec<Snippet>, SnippetError>) {
        parse_source(SnippetFormat::Scls, file, source)
    }
}

impl SnippetParser for VCodeSnippetParser {
    open spec fn format(&self) -> SnippetFormat {
        SnippetFormat::VCode
    }

    fn parse(&self, file: &str, source: &SourceData) -> (result: Result<Vec<Snippet>, SnippetError>) {
        parse_source(SnippetFormat::VCode, file, source)
    }
}

/// The parser of one of the three formats.
#[derive(Debug, Clone, Copy)]
pub enum Parser {
    Default(DefaultSnippetParser),
    Scls(SclsSnippetParser),
    VCode(VCodeSnippetParser),
}

impl SnippetParser for Parser {
    open spec fn format(&self) -> SnippetFormat {
        match self {
            Parser::Default(_) => SnippetFormat::Default,
            Parser::Scls(_) => SnippetFormat::Scls,
            Parser::VCode(_) => SnippetFormat::VCode,
        }
    }

    fn parse(&self, file: &str, source: &SourceData) -> (result: Result<Vec<Snippet>, SnippetError>) {
        match self {
            Parser::Default(parser) => parser.parse(file, source),
            Parser::Scls(parser) => parser.parse(file, source),
            Parser::VCode(parser) => parser.parse(file, source),
        }
    }
}

/// Picks the parser of a format.
pub struct SnippetParserFactory;

impl SnippetParserFactory {
    /// The parser that reads `format`.
    pub fn create(format: SnippetFormat) -> (parser: Parser)
        ensures
            parser.format() == format,
    {
        match format {
            SnippetFormat::Default => Parser::Default(DefaultSnippetParser::new()),
            SnippetFormat::Scls => Parser::Scls(SclsSnippetParser::new()),
            SnippetFormat::VCode => Parser::VCode(VCodeSnippetParser::new()),
        }
    }
}

} // verus!
