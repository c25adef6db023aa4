use rsnip::application::services::TemplateProcessingService;
use rsnip::domain::content::SnippetContent;
use rsnip::domain::snippet::Snippet;
use rsnip::domain::template::errors::TemplateError;
use rsnip::domain::template::interface::TemplateEngine;
use rsnip::infrastructure::clipboard::clipboard_text;
use rsnip::infrastructure::minijinja::SafeShellExecutor;

struct MockTemplateEngine;

impl TemplateEngine for MockTemplateEngine {
    fn render(&self, content: &SnippetContent) -> Result<String, TemplateError> {
        match content {
            SnippetContent::Static(s) => Ok(format!("Engine saw: {}", s)),
            SnippetContent::Template { source, .. } => Ok(format!("Rendered: {}", source)),
        }
    }
}

struct FailingEngine;

impl TemplateEngine for FailingEngine {
    fn render(&self, _content: &SnippetContent) -> Result<String, TemplateError> {
        Err(TemplateError::Syntax("unexpected end".to_string()))
    }
}

#[test]
fn given_static_content_when_processing_then_copies_unchanged() {
    // Arrange
    let service = TemplateProcessingService::new(MockTemplateEngine);
    let snippet = Snippet {
        name: "test".to_string(),
        content: SnippetContent::Static("static content".to_string()),
        comments: vec![],
    };

    // Act
    let result = service.process(&snippet).unwrap();

    // Assert
    assert_eq!(result.rendered, "static content");
    assert_eq!(result.clipboard, "static content");
}

#[test]
fn given_static_content_when_rendering_then_returns_unchanged() {
    // Arrange
    let service = TemplateProcessingService::new(FailingEngine);
    let content = SnippetContent::Static("Hello World".to_string());

    // Act
    let result = service.render(&content).unwrap();

    // Assert
    assert_eq!(result, "Hello World");
}

#[test]
fn test_static_content() {
    let service = TemplateProcessingService::new(FailingEngine);
    let content = SnippetContent::Static("Hello World".to_string());
    assert_eq!(service.render(&content).unwrap(), "Hello World");
}

#[test]
fn given_template_when_processing_then_engine_decides() {
    let snippet = Snippet {
        name: "t".to_string(),
        content: SnippetContent::new("{{ x }}\n\n".to_string()),
        comments: vec![],
    };
    let done = TemplateProcessingService::new(MockTemplateEngine)
        .process(&snippet)
        .unwrap();
    assert_eq!(done.rendered, "Rendered: {{ x }}\n\n");
    assert_eq!(done.clipboard, "Rendered: {{ x }}");
    let failed = TemplateProcessingService::new(FailingEngine).process(&snippet);
    assert_eq!(
        failed,
        Err(TemplateError::Syntax("unexpected end".to_string()))
    );
    assert_eq!(
        failed.unwrap_err().message(),
        "Template syntax error: unexpected end"
    );
}

#[test]
fn given_text_when_copying_then_drops_line_feeds_at_the_end() {
    assert_eq!(clipboard_text("a\nb\n\n"), "a\nb");
    assert_eq!(clipboard_text("a \n"), "a ");
    assert_eq!(clipboard_text("\n\n"), "");
    assert_eq!(clipboard_text("a\r\n"), "a\r");
    assert_eq!(clipboard_text(""), "");
}

#[test]
fn given_template_with_dangerous_shell_commands_then_returns_error() {
    // Arrange
    let executor = SafeShellExecutor::new();
    let dangerous_commands = vec![
        "echo hello; rm -rf /",
        "echo hello | rm -rf /",
        "echo hello && rm -rf /",
        "sudo echo hello",
        "`echo hello`",
        "$(echo hello)",
    ];

    // Act & Assert
    for cmd in dangerous_commands {
        assert!(
            executor.check(cmd).is_err(),
            "Should reject dangerous command: {}",
            cmd
        );
    }
}

#[test]
fn test_shell_command_security() {
    let executor = SafeShellExecutor::new();

    // Test command injection attempts
    let dangerous_commands = vec![
        "echo hello; xx -rf /",
        "echo hello | xx -rf /",
        "echo hello && xx -rf /",
    ];

    for cmd in dangerous_commands {
        assert!(
            executor.check(cmd).is_err(),
            "Should reject dangerous command: {}",
            cmd
        );
    }
}

#[test]
fn given_commands_when_testing_safety_then_patterns_decide() {
    let executor = SafeShellExecutor::new();
    assert!(executor.is_command_safe("echo Hello"));
    assert!(executor.is_command_safe("date +%Y"));
    assert!(executor.is_command_safe(""));
    assert!(!executor.is_command_safe("format"));
    assert!(!executor.is_command_safe("skill"));
    assert!(!executor.is_command_safe("a[0]"));
    assert_eq!(executor.check("echo Hello"), Ok(()));
    assert_eq!(
        executor.check("kill 1"),
        Err(TemplateError::Shell(
            "Command contains forbidden patterns".to_string()
        ))
    );
}

#[test]
fn given_finished_command_when_reading_outcome_then_trims_or_reports() {
    let executor = SafeShellExecutor::new();
    assert_eq!(
        executor.outcome(true, "  Hello\n", "ignored"),
        Ok("Hello".to_string())
    );
    assert_eq!(
        executor.outcome(false, "Hello\n", "sh: 1: nonexistent_command: not found\n"),
        Err(TemplateError::Shell(
            "Command failed: sh: 1: nonexistent_command: not found\n".to_string()
        ))
    );
}
