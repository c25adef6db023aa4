use rsnip::domain::parser::{SnippetFormat, SnippetParser, SourceData};
use rsnip::infrastructure::parsers::vcode::{SnippetBody, VCodeSnippet};
use rsnip::infrastructure::parsers::{SnippetParserFactory, VCodeSnippetParser};

fn text_of(record: &serde_json::Value, key: &str) -> Option<String> {
    record.get(key).and_then(|v| v.as_str()).map(|s| s.to_string())
}

// What deserializing an object-format file hands to the parser.
fn object_file(content: &str) -> SourceData {
    let document: serde_json::Value = match serde_json::from_str(&format!("{}\n", content)) {
        Ok(document) => document,
        Err(e) => {
            return SourceData::Malformed {
                cause: e.to_string(),
            }
        }
    };
    let mut records = Vec::new();
    for (_title, record) in document.as_object().unwrap() {
        let body = match record.get("body").unwrap() {
            serde_json::Value::String(text) => SnippetBody::Single(text.clone()),
            lines => SnippetBody::Multiple(
                lines
                    .as_array()
                    .unwrap()
                    .iter()
                    .map(|l| l.as_str().unwrap().to_string())
                    .collect(),
            ),
        };
        records.push(VCodeSnippet {
            prefix: text_of(record, "prefix").unwrap(),
            body,
            description: text_of(record, "description"),
        });
    }
    SourceData::Object(records)
}

#[test]
fn given_valid_vscode_file_when_parse_then_returns_snippets() {
    // Arrange
    let content = r#"{
            "Rust Hello World": {
                "prefix": "rust-hello",
                "body": [
                    "fn main() {",
                    "    println!(\"Hello, world!\");",
                    "}"
                ],
                "description": "Insert a simple Rust Hello World program"
            },
            "Rust Function": {
                "prefix": "rust-fn",
                "body": [
                    "fn ${1:function_name}(${2:params}) -> ${3:ReturnType} {",
                    "    ${4:// function body}",
                    "}"
                ],
                "description": "Create a Rust function template"
            }
        }"#;
    let parser = VCodeSnippetParser::new();

    // Act
    let snippets = parser
        .parse("snippets.json", &object_file(content))
        .unwrap();

    // Assert
    assert_eq!(snippets.len(), 2);

    let hello_snippet = snippets.iter().find(|s| s.name == "rust-hello").unwrap();
    assert_eq!(
        hello_snippet.content.get_content(),
        r#"fn main() {
    println!("Hello, world!");
}"#
    );
    assert_eq!(
        hello_snippet.comments,
        vec!["Insert a simple Rust Hello World program"]
    );

    let fn_snippet = snippets.iter().find(|s| s.name == "rust-fn").unwrap();
    assert_eq!(
        fn_snippet.content.get_content(),
        "fn ${1:function_name}(${2:params}) -> ${3:ReturnType} {\n    ${4:// function body}\n}"
    );
    assert_eq!(fn_snippet.comments, vec!["Create a Rust function template"]);
}

#[test]
fn given_empty_vscode_file_when_parse_then_returns_empty_vec() {
    // Arrange
    let content = "{}";
    let parser = VCodeSnippetParser::new();

    // Act
    let snippets = parser
        .parse("snippets.json", &object_file(content))
        .unwrap();

    // Assert
    assert!(snippets.is_empty());
}

#[test]
fn given_malformed_json_when_parse_then_returns_error() {
    // Arrange
    let content = r#"{ malformed json }"#;
    let parser = VCodeSnippetParser::new();

    // Act
    let result = parser.parse("snippets.json", &object_file(content));

    // Assert
    assert!(result.is_err());
    assert!(result
        .unwrap_err()
        .message()
        .starts_with("Malformed structured data in snippets.json: "));
}

#[test]
fn given_single_line_body_when_parse_then_handles_correctly() {
    // Arrange
    let content = r#"{
            "Single Line": {
                "prefix": "single",
                "body": "println!(\"${1:message}\");",
                "description": "Single line snippet"
            }
        }"#;
    let parser = VCodeSnippetParser::new();

    // Act
    let snippets = parser
        .parse("snippets.json", &object_file(content))
        .unwrap();

    // Assert
    assert_eq!(snippets.len(), 1);
    assert_eq!(
        snippets[0].content.get_content(),
        "println!(\"${1:message}\");"
    );
    assert_eq!(snippets[0].comments, vec!["Single line snippet"]);
}

#[test]
fn given_records_when_parse_then_keeps_their_order_and_placeholders() {
    let records = vec![
        VCodeSnippet {
            prefix: "b".to_string(),
            body: SnippetBody::Multiple(vec!["$1".to_string(), "{{ x }}".to_string()]),
            description: None,
        },
        VCodeSnippet {
            prefix: "a".to_string(),
            body: SnippetBody::Single("plain".to_string()),
            description: Some("first letter".to_string()),
        },
    ];
    let snippets = SnippetParserFactory::create(SnippetFormat::VCode)
        .parse("snippets.json", &SourceData::Object(records))
        .unwrap();
    assert_eq!(snippets.len(), 2);
    assert_eq!(snippets[0].name, "b");
    assert_eq!(snippets[0].content.get_content(), "$1\n{{ x }}");
    assert!(snippets[0].content.is_template());
    assert!(snippets[0].comments.is_empty());
    assert_eq!(snippets[1].name, "a");
    assert!(!snippets[1].content.is_template());
    assert_eq!(snippets[1].comments, vec!["first letter"]);
}
