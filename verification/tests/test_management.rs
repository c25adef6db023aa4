use rsnip::application::services::SnippetManagementService;
use rsnip::config::{Settings, SnippetTypeConfig, SnippetTypes};
use rsnip::domain::errors::SnippetError;
use rsnip::domain::parser::{SnippetFormat, SourceData};
use rsnip::infrastructure::parsers::scls::SclsSnippet;

fn create_test_settings(files: &[(String, String)]) -> Settings {
    let mut snippet_types = SnippetTypes::new();

    // Add concrete types
    for (name, path) in files {
        snippet_types.insert(
            name.clone(),
            SnippetTypeConfig::Concrete {
                source_file: path.clone(),
                description: None,
                alias: None,
                format: "default".to_string(),
            },
        );
    }

    Settings {
        snippet_types,
        config_paths: vec![],
        active_config_path: None,
    }
}

fn create_test_settings_combined(source_files: Vec<String>) -> Settings {
    let mut snippet_types = SnippetTypes::new();

    // Add source types
    for (idx, path) in source_files.iter().enumerate() {
        snippet_types.insert(
            format!("source{}", idx + 1),
            SnippetTypeConfig::Concrete {
                source_file: path.clone(),
                description: None,
                alias: None,
                format: "default".to_string(),
            },
        );
    }

    // Add combined type
    let sources = (1..=source_files.len())
        .map(|i| format!("source{}", i))
        .collect();

    snippet_types.insert(
        "combined".to_string(),
        SnippetTypeConfig::Combined {
            sources,
            description: None,
            alias: None,
        },
    );

    Settings {
        snippet_types,
        config_paths: vec![],
        active_config_path: None,
    }
}

// What a file holds after `content` and a line feed were written to it.
fn file_with(content: &str) -> SourceData {
    SourceData::Text(format!("{}\n", content))
}

#[test]
fn given_valid_snippet_file_when_getting_snippets_then_returns_snippets() {
    // Arrange
    let settings = create_test_settings(&[("test".to_string(), "test.txt".to_string())]);
    let service = SnippetManagementService::new(&settings);
    let loaded = vec![file_with("--- test\nContent\n---")];

    // Act
    let snippets = service.get_snippets("test", &loaded).unwrap();

    // Assert
    assert_eq!(snippets.len(), 1);
    assert_eq!(snippets[0].name, "test");
    assert_eq!(snippets[0].content.get_content(), "Content");
}

#[test]
fn given_combined_type_when_getting_snippets_then_returns_all_snippets() {
    // Arrange
    let files = vec!["one.txt".to_string(), "two.txt".to_string()];
    let settings = create_test_settings_combined(files);
    let service = SnippetManagementService::new(&settings);
    let loaded = vec![
        file_with("--- test1\nContent1\n---"),
        file_with("--- test2\nContent2\n---"),
    ];

    // Act
    let snippets = service.get_snippets("combined", &loaded).unwrap();

    // Assert
    assert_eq!(snippets.len(), 2);
    assert!(snippets.iter().any(|s| s.name == "test1"));
    assert!(snippets.iter().any(|s| s.name == "test2"));
}

#[test]
fn given_combined_type_when_asking_for_sources_then_lists_them_in_order() {
    let mut settings = create_test_settings_combined(vec!["one.txt".to_string()]);
    settings.snippet_types.insert(
        "table".to_string(),
        SnippetTypeConfig::Concrete {
            source_file: "table.toml".to_string(),
            description: None,
            alias: None,
            format: "scls".to_string(),
        },
    );
    settings.snippet_types.insert(
        "all".to_string(),
        SnippetTypeConfig::Combined {
            sources: vec![
                "table".to_string(),
                "missing".to_string(),
                "combined".to_string(),
                "source1".to_string(),
                "table".to_string(),
            ],
            description: None,
            alias: None,
        },
    );
    let service = SnippetManagementService::new(&settings);
    let sources = service.sources("all").unwrap();
    let names: Vec<&str> = sources.iter().map(|s| s.name.as_str()).collect();
    assert_eq!(names, vec!["table", "source1", "table"]);
    assert_eq!(sources[0].format, SnippetFormat::Scls);
    assert_eq!(sources[1].source_file, "one.txt");
    assert_eq!(service.sources("source1").unwrap().len(), 1);
    assert_eq!(
        service.sources("nothing"),
        Err(SnippetError::UnknownSnippetType {
            name: "nothing".to_string()
        })
    );

    let record = |prefix: &str| SclsSnippet {
        prefix: prefix.to_string(),
        scope: vec![],
        body: "$1".to_string(),
        description: None,
    };
    let loaded = vec![
        SourceData::Table(vec![record("same")]),
        file_with("--- same\nfrom text\n---\n--- other\nx\n---"),
        SourceData::Table(vec![record("last")]),
    ];
    let snippets = service.get_snippets("all", &loaded).unwrap();
    let names: Vec<&str> = snippets.iter().map(|s| s.name.as_str()).collect();
    assert_eq!(names, vec!["same", "same", "other", "last"]);
    assert_eq!(snippets[0].content.get_content(), "{{ param1 }}");
    assert_eq!(snippets[1].content.get_content(), "from text");
}

#[test]
fn given_failing_source_when_getting_snippets_then_aborts_with_its_error() {
    let settings =
        create_test_settings_combined(vec!["one.txt".to_string(), "two.txt".to_string()]);
    let service = SnippetManagementService::new(&settings);
    let loaded = vec![
        file_with("--- test1\nContent1\n---"),
        SourceData::Unreadable {
            cause: "denied".to_string(),
        },
    ];
    assert_eq!(
        service.get_snippets("combined", &loaded),
        Err(SnippetError::FileError {
            file: "two.txt".to_string(),
            cause: "denied".to_string()
        })
    );
    assert_eq!(
        service.get_snippets("combined", &vec![]),
        Err(SnippetError::ParserError(
            "the data handed over does not match the sources of the type".to_string()
        ))
    );
    assert!(matches!(
        service.get_snippets("unknown", &vec![]),
        Err(SnippetError::UnknownSnippetType { .. })
    ));
}

#[test]
fn given_two_sources_in_either_order_when_combined_then_both_snippets_keep_their_names() {
    let one = "--- first\nfrom one\n---";
    let two = "--- second\nfrom two\n---";
    for order in [["source1", "source2"], ["source2", "source1"]] {
        let mut settings =
            create_test_settings_combined(vec!["one.txt".to_string(), "two.txt".to_string()]);
        settings.snippet_types.insert(
            "combined".to_string(),
            SnippetTypeConfig::Combined {
                sources: order.iter().map(|s| s.to_string()).collect(),
                description: None,
                alias: None,
            },
        );
        let service = SnippetManagementService::new(&settings);
        let sources = service.sources("combined").unwrap();
        let loaded: Vec<SourceData> = sources
            .iter()
            .map(|s| file_with(if s.source_file == "one.txt" { one } else { two }))
            .collect();
        let snippets = service.get_snippets("combined", &loaded).unwrap();
        let names: Vec<&str> = snippets.iter().map(|s| s.name.as_str()).collect();
        let expected = if order[0] == "source1" {
            vec!["first", "second"]
        } else {
            vec!["second", "first"]
        };
        assert_eq!(names, expected);
    }
}
