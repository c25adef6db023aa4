use rsnip::application::services::completion::{input_is_blank, InteractiveOutcome};
use rsnip::application::services::CompletionService;
use rsnip::domain::content::SnippetContent;
use rsnip::domain::snippet::Snippet;
use rsnip::infrastructure::parse_content;
use rsnip::infrastructure::parsers::DefaultSnippetParser;

fn create_test_snippets() -> Vec<Snippet> {
    vec![
        Snippet {
            name: "apple".to_string(),
            content: SnippetContent::Static("apple content".to_string()),
            comments: vec![],
        },
        Snippet {
            name: "banana".to_string(),
            content: SnippetContent::Static("banana content".to_string()),
            comments: vec![],
        },
    ]
}

fn named(names: &[&str]) -> Vec<Snippet> {
    names
        .iter()
        .enumerate()
        .map(|(i, name)| Snippet {
            name: name.to_string(),
            content: SnippetContent::Static(format!("content {}", i)),
            comments: vec![],
        })
        .collect()
}

#[test]
fn given_exact_match_when_finding_completion_then_returns_snippet() {
    // Arrange
    let service = CompletionService::new();
    let snippets = create_test_snippets();

    // Act
    let result = service.find_completion_exact(&snippets, "apple");

    // Assert
    assert!(result.is_some());
    assert_eq!(result.unwrap().name, "apple");
}

#[test]
fn given_fuzzy_match_when_finding_completion_then_returns_best_match() {
    // Arrange
    let service = CompletionService::new();
    let snippets = create_test_snippets();

    // Act
    let result = service.find_completion_fuzzy(&snippets, "apl");

    // Assert
    assert!(result.is_some());
    assert_eq!(result.unwrap().name, "apple");
}

#[test]
fn completion_tests_given_empty_input_when_finding_completion_then_returns_none() {
    // Arrange
    let text = format!(
        "{}\n",
        "--- apple\nA red fruit\n---\n--- banana\nA yellow fruit\n---"
    );
    let items = DefaultSnippetParser::new()
        .parse_text("test.txt", &text)
        .unwrap();
    let service = CompletionService::new();

    // Act & Assert - Test exact match
    assert!(service.find_completion_exact(&items, "").is_none());

    // Act & Assert - Test fuzzy match
    assert!(service.find_completion_fuzzy(&items, "").is_none());
}

#[test]
fn application_given_empty_input_when_finding_completion_then_returns_none() {
    let text = format!(
        "{}\n",
        "--- apple\nA red fruit\n---\n--- banana\nA yellow fruit\n---"
    );
    let items = parse_content(&text);
    assert_eq!(items.len(), 2);

    assert!(CompletionService::new()
        .find_completion_fuzzy(&items, "")
        .is_none());
}

#[test]
fn given_names_apple_and_banana_when_resolving_exactly_then_finds_banana() {
    let service = CompletionService::new();
    let items = named(&["apple", "banana"]);
    assert_eq!(
        service.find_completion_exact(&items, "banana"),
        Some(items[1].clone())
    );
    assert_eq!(service.find_completion_exact(&items, ""), None);
    assert_eq!(service.find_completion_exact(&items, " \t\n"), None);
    assert_eq!(service.find_completion_exact(&items, "Banana"), None);
    assert_eq!(service.find_completion_exact(&items, "banana "), None);
    assert_eq!(service.find_completion_exact(&[], "banana"), None);
}

#[test]
fn given_duplicate_names_when_resolving_exactly_then_first_wins() {
    let service = CompletionService::new();
    let items = named(&["a", "b", "a"]);
    let found = service.find_completion_exact(&items, "a").unwrap();
    assert_eq!(found.content.get_content(), "content 0");
}

#[test]
fn given_names_test_and_testing_when_resolving_fuzzily_then_finds_a_test() {
    let service = CompletionService::new();
    let items = named(&["test", "testing"]);
    let found = service.find_completion_fuzzy(&items, "tst").unwrap();
    assert!(found.name.contains("test"));
    assert_eq!(service.find_completion_fuzzy(&items, ""), None);
    assert_eq!(service.find_completion_fuzzy(&items, "   "), None);
    assert_eq!(service.find_completion_fuzzy(&items, "xyz"), None);
}

#[test]
fn given_equal_scores_when_resolving_fuzzily_then_first_wins() {
    let service = CompletionService::new();
    let items = named(&["same", "other", "same"]);
    let found = service.find_completion_fuzzy(&items, "sm").unwrap();
    assert_eq!(found.content.get_content(), "content 0");
    let items = named(&["xab", "ab", "ab"]);
    let found = service.find_completion_fuzzy(&items, "ab").unwrap();
    assert_eq!(found.content.get_content(), "content 1");
}

#[test]
fn given_single_fuzzy_match_when_interactive_then_resolves_without_asking() {
    let service = CompletionService::new();
    let snippets = create_test_snippets();
    assert_eq!(
        service.find_completion_interactive(&snippets, "ban"),
        InteractiveOutcome::Resolved(Some(snippets[1].clone()))
    );
    assert_eq!(
        service.find_completion_interactive(&snippets, "apple"),
        InteractiveOutcome::Resolved(Some(snippets[0].clone()))
    );
    assert_eq!(
        service.find_completion_interactive(&snippets, "a"),
        InteractiveOutcome::AskUser {
            query: "a".to_string()
        }
    );
    assert_eq!(
        service.find_completion_interactive(&snippets, ""),
        InteractiveOutcome::AskUser {
            query: "".to_string()
        }
    );
    assert_eq!(
        service.find_completion_interactive(&[], "a"),
        InteractiveOutcome::Resolved(None)
    );
}

#[test]
fn given_selection_when_resolving_it_then_matches_the_name_before_the_tab() {
    let service = CompletionService::new();
    let snippets = create_test_snippets();
    assert_eq!(
        service.resolve_selection(&snippets, Some("banana\tbanana content")),
        Some(snippets[1].clone())
    );
    assert_eq!(service.resolve_selection(&snippets, Some("cherry")), None);
    assert_eq!(service.resolve_selection(&snippets, None), None);
}

#[test]
fn given_inputs_when_testing_for_blank_then_whitespace_counts_as_blank() {
    assert!(input_is_blank(""));
    assert!(input_is_blank(" \t\r\n\u{a0}\u{2003}\u{3000}"));
    assert!(!input_is_blank(" a "));
    assert!(!input_is_blank("\u{200b}"));
}

#[test]
fn given_overlong_input_when_resolving_then_reports_it() {
    let service = CompletionService::new();
    let snippets = create_test_snippets();
    let long = "a".repeat(1_000_001);
    let err = service.resolve_fuzzy(&snippets, &long).unwrap_err();
    assert_eq!(
        err.message(),
        "A name or the input has more than 1000000 characters"
    );
    assert_eq!(
        service.resolve_interactive(&snippets, &long).unwrap_err(),
        err
    );
    assert_eq!(
        service.resolve_fuzzy(&snippets, "apl"),
        Ok(Some(snippets[0].clone()))
    );
    assert_eq!(
        service.resolve_interactive(&snippets, "ban"),
        Ok(InteractiveOutcome::Resolved(Some(snippets[1].clone())))
    );
}
