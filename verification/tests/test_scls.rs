use rsnip::domain::errors::SnippetError;
use rsnip::domain::parser::{SnippetFormat, SnippetParser, SourceData};
use rsnip::infrastructure::parsers::scls::{placeholder_text, SclsSnippet};
use rsnip::infrastructure::parsers::{SclsSnippetParser, SnippetParserFactory};

fn text_of(table: &toml::Table, key: &str) -> Option<String> {
    table.get(key).and_then(|v| v.as_str()).map(|s| s.to_string())
}

// What deserializing a table-format file hands to the parser.
fn table_file(content: &str) -> SourceData {
    let document = match format!("{}\n", content).parse::<toml::Table>() {
        Ok(document) => document,
        Err(e) => {
            return SourceData::Malformed {
                cause: e.to_string(),
            }
        }
    };
    let mut records = Vec::new();
    if let Some(list) = document.get("snippets").and_then(|v| v.as_array()) {
        for item in list {
            let table = item.as_table().unwrap();
            let scope = table
                .get("scope")
                .and_then(|v| v.as_array())
                .map(|names| {
                    names
                        .iter()
                        .map(|n| n.as_str().unwrap().to_string())
                        .collect()
                })
                .unwrap_or_default();
            records.push(SclsSnippet {
                prefix: text_of(table, "prefix").unwrap(),
                scope,
                body: text_of(table, "body").unwrap(),
                description: text_of(table, "description"),
            });
        }
    }
    SourceData::Table(records)
}

#[test]
fn given_valid_scls_file_when_parse_then_returns_snippets() {
    // Arrange
    let content = r#"
[[snippets]]
prefix = "log"
scope = ["python"]
body = "print($1)"
description = "Simple print statement"

[[snippets]]
prefix = "func"
scope = ["python", "javascript"]
body = "def ${1:name}(${2:args}):\n    ${3:pass}"
"#;
    let parser = SnippetParserFactory::create(SnippetFormat::Scls);

    // Act
    let snippets = parser.parse("snippets.toml", &table_file(content)).unwrap();

    // Assert
    assert_eq!(snippets.len(), 2);

    // Check first snippet
    assert_eq!(snippets[0].name, "log");
    assert_eq!(snippets[0].content.get_content(), "print({{ param1 }})");
    assert_eq!(snippets[0].comments.len(), 2);
    assert_eq!(snippets[0].comments[0], "Simple print statement");
    assert_eq!(snippets[0].comments[1], "Scope: python");

    // Check second snippet
    assert_eq!(snippets[1].name, "func");
    assert_eq!(
        snippets[1].content.get_content(),
        "def {{ name }}({{ args }}):\n    {{ pass }}"
    );
    assert_eq!(snippets[1].comments.len(), 1);
    assert_eq!(snippets[1].comments[0], "Scope: python, javascript");
}

#[test]
fn given_empty_scls_file_when_parse_then_returns_empty_vec() {
    // Arrange
    let content = "# Empty SCLS file";
    let parser = SnippetParserFactory::create(SnippetFormat::Scls);

    // Act
    let snippets = parser.parse("snippets.toml", &table_file(content)).unwrap();

    // Assert
    assert!(snippets.is_empty());
}

#[test]
fn given_multiline_array_body_when_parse_then_handles_correctly() {
    // Arrange
    let content = r#"
[[snippets]]
prefix = "class"
body = """
class ${1:ClassName}:
    def __init__(self):
        ${2:pass}
"""
"#;
    let parser = SnippetParserFactory::create(SnippetFormat::Scls);

    // Act
    let snippets = parser.parse("snippets.toml", &table_file(content)).unwrap();

    // Assert
    assert_eq!(snippets.len(), 1);
    assert_eq!(
        snippets[0].content.get_content(),
        "class {{ ClassName }}:\n    def __init__(self):\n        {{ pass }}\n"
    );
}

#[test]
fn given_malformed_toml_when_parse_then_returns_error() {
    // Arrange
    let content = r#"
[[snippets]
malformed = toml
"#;
    let parser = SnippetParserFactory::create(SnippetFormat::Scls);

    // Act
    let result = parser.parse("snippets.toml", &table_file(content));

    // Assert
    assert!(result.is_err());
    assert!(matches!(
        result,
        Err(SnippetError::MalformedStructuredData { .. })
    ));
}

#[test]
fn given_snippet_with_named_placeholders_when_parse_then_converts_correctly() {
    // Arrange
    let content = r#"
[[snippets]]
prefix = "example"
body = "${1:first} ${2:second} $3"
"#;
    let parser = SnippetParserFactory::create(SnippetFormat::Scls);

    // Act
    let snippets = parser.parse("snippets.toml", &table_file(content)).unwrap();

    // Assert
    assert_eq!(snippets.len(), 1);
    assert_eq!(
        snippets[0].content.get_content(),
        "{{ first }} {{ second }} {{ param3 }}"
    );
}

#[test]
fn test_scls_given_nonexistent_file_when_parse_then_returns_error() {
    // Arrange
    let parser = SnippetParserFactory::create(SnippetFormat::Scls);
    let unreadable = SourceData::Unreadable {
        cause: "No such file or directory".to_string(),
    };

    // Act
    let result = parser.parse("/nonexistent/file", &unreadable);

    // Assert
    assert!(result.is_err());
}

#[test]
fn test_parse_simple_snippets_file() {
    let content = r#"
[[snippets]]
prefix = "ld"
scope = ["python"]
body = 'log.debug("$1")'
description = "log at debug level"

[[snippets]]
prefix = "li"
scope = ["python", "rust"]
body = 'log.info("${1:message}")'
description = "log at info level"
"#;
    let records = match table_file(content) {
        SourceData::Table(records) => records,
        other => panic!("expected records, got {:?}", other),
    };

    let snippets = SclsSnippetParser::new().parse_records(&records).unwrap();

    assert_eq!(snippets.len(), 2);

    // Check first snippet
    assert_eq!(snippets[0].name, "ld");
    assert_eq!(
        snippets[0].content.get_content(),
        "log.debug(\"{{ param1 }}\")"
    );
    assert_eq!(snippets[0].comments[0], "log at debug level");
    assert_eq!(snippets[0].comments[1], "Scope: python");

    // Check second snippet
    assert_eq!(snippets[1].name, "li");
    assert_eq!(
        snippets[1].content.get_content(),
        "log.info(\"{{ message }}\")"
    );
    assert_eq!(snippets[1].comments[0], "log at info level");
    assert_eq!(snippets[1].comments[1], "Scope: python, rust");
}

#[test]
fn test_convert_placeholders() {
    let cases = vec![
        ("log.debug(\"$1\")", "log.debug(\"{{ param1 }}\")"),
        ("print(\"${1:message}\")", "print(\"{{ message }}\")"),
        ("$1: $2", "{{ param1 }}: {{ param2 }}"),
        ("${1:arg}: ${2:type}", "{{ arg }}: {{ type }}"),
    ];

    for (input, expected) in cases {
        assert_eq!(
            SclsSnippetParser::convert_placeholders(input).unwrap(),
            expected
        );
    }
}

#[test]
fn test_parse_empty_file() {
    let test_cases = vec![
        "# Empty file\n",
        "",
        "# Just comments\n# Another comment",
        "[[wrong]]\nsome = \"content\"", // Wrong structure but should not fail
    ];

    for content in test_cases {
        let snippets = SnippetParserFactory::create(SnippetFormat::Scls)
            .parse("snippets.toml", &table_file(content))
            .unwrap();
        assert!(
            snippets.is_empty(),
            "Expected empty snippets for content: {}",
            content
        );
    }
}

#[test]
fn given_placeholders_when_converting_then_gives_template_variables() {
    assert_eq!(
        SclsSnippetParser::convert_placeholders("print($1)").unwrap(),
        "print({{ param1 }})"
    );
    assert_eq!(
        SclsSnippetParser::convert_placeholders("${1:message}").unwrap(),
        "{{ message }}"
    );
    assert_eq!(
        SclsSnippetParser::convert_placeholders("no placeholder: $ {1} $x").unwrap(),
        "no placeholder: $ {1} $x"
    );
    assert_eq!(
        SclsSnippetParser::convert_placeholders("$12${3:a b}$").unwrap(),
        "{{ param12 }}{{ a b }}$"
    );
}

#[test]
fn given_capture_groups_when_rendering_placeholder_then_label_wins() {
    assert_eq!(
        placeholder_text(Some("1"), Some("name"), None),
        "{{ name }}"
    );
    assert_eq!(
        placeholder_text(None, None, Some("7")),
        "{{ param7 }}"
    );
    assert_eq!(
        placeholder_text(Some("4"), None, None),
        "{{ param4 }}"
    );
    assert_eq!(placeholder_text(None, None, None), "");
}

#[test]
fn given_bodies_when_processing_then_joins_lists_and_unescapes_newlines() {
    assert_eq!(
        SclsSnippetParser::process_body(r#"["a", "b\tc", ""]"#),
        "a\nb\tc\n"
    );
    assert_eq!(SclsSnippetParser::process_body(r#"a\nb\\n"#), "a\nb\\\n");
    assert_eq!(SclsSnippetParser::process_body("[not json\\n"), "[not json\n");
    assert_eq!(SclsSnippetParser::process_body("[1, 2]"), "[1, 2]");
    assert_eq!(SclsSnippetParser::process_body(""), "");
    assert_eq!(
        SclsSnippetParser::normalize_body("x\\ny", Some(vec!["p".to_string(), "q".to_string()])),
        "p\nq"
    );
    assert_eq!(SclsSnippetParser::normalize_body("x\\ny", None), "x\ny");
}

#[test]
fn given_description_and_scope_when_collecting_comments_then_keeps_that_order() {
    let scope = vec!["a".to_string(), "b".to_string(), "c".to_string()];
    assert_eq!(
        SclsSnippetParser::comments_of(&Some("d".to_string()), &scope),
        vec!["d", "Scope: a, b, c"]
    );
    assert_eq!(
        SclsSnippetParser::comments_of(&None, &scope),
        vec!["Scope: a, b, c"]
    );
    assert_eq!(
        SclsSnippetParser::comments_of(&Some("d".to_string()), &vec![]),
        vec!["d"]
    );
    assert!(SclsSnippetParser::comments_of(&None, &vec![]).is_empty());
}
