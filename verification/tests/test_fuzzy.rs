use rsnip::domain::content::SnippetContent;
use rsnip::domain::snippet::Snippet;
use rsnip::infrastructure::fuzzy::{
    best_match, can_be_scored, create_skim_items, exact_index, only_match, run_fuzzy_finder,
    score_all, selected_index, selected_name, FinderStep, PreviewLabels, MAX_SCORED_LEN,
};

// Helper function to create consistent test data
fn create_test_data() -> Vec<Snippet> {
    vec![
        Snippet {
            name: "apple".to_string(),
            content: SnippetContent::Static("This is an apple".to_string()),
            comments: Vec::new(),
        },
        Snippet {
            name: "apricot".to_string(),
            content: SnippetContent::Static("This is an apricot".to_string()),
            comments: Vec::new(),
        },
        Snippet {
            name: "banana".to_string(),
            content: SnippetContent::Static("This is a banana".to_string()),
            comments: Vec::new(),
        },
    ]
}

fn labels() -> PreviewLabels {
    PreviewLabels {
        name: "Name".to_string(),
        comments: "Comments".to_string(),
        content: "Content".to_string(),
    }
}

// The name that the finder decided on, if it decided without the selector.
fn decided(items: &[Snippet], step: FinderStep) -> Option<String> {
    match step {
        FinderStep::Done(Some(i)) => Some(items[i].name.clone()),
        FinderStep::Done(None) => None,
        FinderStep::Ask => panic!("the selector would be shown"),
    }
}

#[test]
fn fuzzy_given_exact_match_when_fuzzy_finder_then_returns_immediately() {
    let items = create_test_data();
    let result = decided(&items, run_fuzzy_finder(&items, "apple"));
    assert_eq!(result, Some("apple".to_string()));
}

#[test]
fn fuzzy_given_single_partial_match_when_fuzzy_finder_then_auto_selects() {
    let items = create_test_data();
    let result = decided(&items, run_fuzzy_finder(&items, "ban"));
    assert_eq!(result, Some("banana".to_string()));
}

#[test]
fn fuzzy_given_empty_items_when_fuzzy_finder_then_returns_none() {
    let items: Vec<Snippet> = vec![];
    let result = decided(&items, run_fuzzy_finder(&items, "anything"));
    assert_eq!(result, None);
}

#[test]
fn test_fuzzy_given_exact_match_when_fuzzy_finder_then_returns_immediately() {
    let items = create_test_data();
    let result = decided(&items, run_fuzzy_finder(&items, "apple"));
    assert_eq!(result, Some("apple".to_string()));
}

#[test]
fn test_fuzzy_given_single_partial_match_when_fuzzy_finder_then_auto_selects() {
    let items = create_test_data();
    let result = decided(&items, run_fuzzy_finder(&items, "ban"));
    assert_eq!(result, Some("banana".to_string()));
}

#[test]
fn test_fuzzy_given_empty_items_when_fuzzy_finder_then_returns_none() {
    let items: Vec<Snippet> = vec![];
    let result = decided(&items, run_fuzzy_finder(&items, "anything"));
    assert_eq!(result, None);
}

#[test]
fn given_no_or_several_matches_when_fuzzy_finder_then_asks_the_user() {
    let items = create_test_data();
    assert_eq!(run_fuzzy_finder(&items, "ap"), FinderStep::Ask);
    assert_eq!(run_fuzzy_finder(&items, "xyz"), FinderStep::Ask);
    assert_eq!(run_fuzzy_finder(&items, ""), FinderStep::Ask);
    assert_eq!(run_fuzzy_finder(&items, "APPLE"), FinderStep::Ask);
}

#[test]
fn fuzzy_given_snippets_when_creating_skim_items_then_returns_formatted_items() {
    // Arrange
    let snippets = vec![
        Snippet {
            name: "test1".to_string(),
            content: SnippetContent::Static("line1\nline2\nline3".to_string()),
            comments: vec!["A test comment".to_string()],
        },
        Snippet {
            name: "test2".to_string(),
            content: SnippetContent::Static("".to_string()),
            comments: Vec::new(),
        },
    ];

    // Act
    let items = create_skim_items(&snippets, &labels());

    // Assert
    assert_eq!(items.len(), 2);
    assert_eq!(items[0].text(), "test1");
    assert_eq!(items[1].text(), "test2");

    // Test preview with content and comments
    let preview = &items[0].preview;
    assert!(preview.contains("line1\nline2\nline3"));
    assert!(preview.contains("Name"));
    assert!(preview.contains("Content"));
    assert!(preview.contains("Comments"));
    assert!(preview.contains("A test comment"));

    // Test preview with empty content
    let preview = &items[1].preview;
    assert!(preview.contains("No content"));
    assert!(preview.contains("Name"));
    assert!(preview.contains("Content"));
    assert!(!preview.contains("Comments")); // No comments section for empty comments
}

#[test]
fn test_fuzzy_given_snippets_when_creating_skim_items_then_returns_formatted_items() {
    let snippets = vec![
        Snippet {
            name: "test1".to_string(),
            content: SnippetContent::Static("line1\nline2\nline3".to_string()),
            comments: vec!["A test comment".to_string(), "and more".to_string()],
        },
        Snippet {
            name: "test2".to_string(),
            content: SnippetContent::Template {
                source: "".to_string(),
            },
            comments: Vec::new(),
        },
    ];

    let items = create_skim_items(&snippets, &labels());

    assert_eq!(items.len(), 2);
    assert_eq!(
        items[0].preview,
        "Name: test1\n\nComments:\nA test comment\nand more\n\nContent:\nline1\nline2\nline3"
    );
    assert_eq!(items[1].preview, "Name: test2\n\nContent:\nNo content");
    assert_eq!(items[0].output(), "test1");
}

#[test]
fn given_selector_output_when_naming_selection_then_cuts_at_first_tab() {
    assert_eq!(selected_name("apple\tA red fruit\tmore"), "apple");
    assert_eq!(selected_name("apple"), "apple");
    assert_eq!(selected_name("\tapple"), "");
    assert_eq!(selected_name(""), "");
    let items = create_test_data();
    assert_eq!(selected_index(&items, "banana\tThis is a banana"), Some(2));
    assert_eq!(selected_index(&items, "banana "), None);
}

#[test]
fn given_scores_when_picking_best_then_first_highest_wins() {
    assert_eq!(best_match(&vec![]), None);
    assert_eq!(best_match(&vec![None, None]), None);
    assert_eq!(
        best_match(&vec![Some(3), None, Some(7), Some(7), Some(-1)]),
        Some(2)
    );
    assert_eq!(best_match(&vec![None, Some(-5), Some(-9)]), Some(1));
    assert_eq!(best_match(&vec![Some(i64::MIN), Some(i64::MIN)]), Some(0));
    assert_eq!(only_match(&vec![None, Some(0), None]), Some(1));
    assert_eq!(only_match(&vec![Some(1), Some(0)]), None);
    assert_eq!(only_match(&vec![None]), None);
}

#[test]
fn given_names_when_scoring_then_matcher_decides() {
    let items = create_test_data();
    let scores = score_all(&items, "ap");
    assert_eq!(scores.len(), 3);
    assert!(scores[0].is_some());
    assert!(scores[1].is_some());
    assert_eq!(scores[2], None);
    assert!(scores[0] != Some(0) || scores[1] != Some(0));
    assert_eq!(score_all(&items, "ap"), scores);
    assert_eq!(exact_index(&items, "apricot"), Some(1));
    assert_eq!(exact_index(&items, "Apricot"), None);
}

#[test]
fn given_long_names_when_testing_lengths_then_refuses_them() {
    let mut items = create_test_data();
    assert!(can_be_scored(&items, "query"));
    let long = "x".repeat(MAX_SCORED_LEN + 1);
    assert!(!can_be_scored(&items, &long));
    items[1].name = long;
    assert!(!can_be_scored(&items, "query"));
    items[1].name = "é".repeat(MAX_SCORED_LEN);
    assert!(can_be_scored(&items, "query"));
}
