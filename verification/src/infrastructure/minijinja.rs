//! The rules of the shell filter of templates: which commands are run at
//! all, and what a finished command yields.

use crate::domain::template::errors::{TemplateError, TemplateErrorView};
use crate::util::text::{chars_of, contains, contains_run, string_of, trim, trimmed};
use vstd::prelude::*;

verus! {

/// What a command may not hold: the characters by which a shell chains,
/// redirects and substitutes, and the names of a few destructive programs.
pub open spec fn dangerous_patterns() -> Seq<Seq<char>> {
    seq![
        ";"@,
        "|"@,
        "&"@,
        ">"@,
        "<"@,
        "`"@,
        "$"@,
        "("@,
        ")"@,
        "{"@,
        "}"@,
        "["@,
        "]"@,
        "sudo"@,
        "rm"@,
        "mv"@,
        "cp"@,
        "dd"@,
        "mkfs"@,
        "fork"@,
        "kill"@,
    ]
}

/// A command is safe if none of the dangerous patterns occurs in it,
/// anywhere.
pub open spec fn is_safe_command(cmd: Seq<char>) -> bool {
    forall|i: int|
        0 <= i < dangerous_patterns().len() ==> !contains_run(cmd, #[trigger] dangerous_patterns()[i])
}

/// The message of the error for a command that is refused.
pub open spec fn forbidden() -> Seq<char> {
    "Command contains forbidden patterns"@
}

/// What a finished command yields: its trimmed output if it succeeded, and
/// an error with what it wrote to its error stream if it failed.
pub open spec fn command_outcome(success: bool, stdout: Seq<char>, stderr: Seq<char>) -> Result<
    Seq<char>,
    TemplateErrorView,
> {
    if success {
        Ok(trimmed(stdout))
    } else {
        Err(TemplateErrorView::Shell("Command failed: "@ + stderr))
    }
}

/// Runs the shell commands of templates, and only those that are safe.
#[derive(Debug, Clone, Copy)]
pub struct SafeShellExecutor;

impl SafeShellExecutor {
    /// The executor; it holds no state.
    pub fn new() -> Self {
        SafeShellExecutor
    }

    /// Whether `cmd` holds none of the dangerous patterns.
    pub fn is_command_safe(&self, cmd: &str) -> (safe: bool)
        ensures
            safe == is_safe_command(cmd@),
    {
        let patterns: Vec<&str> = vec![
            ";",
            "|",
            "&",
            ">",
            "<",
            "`",
            "$",
            "(",
            ")",
            "{",
            "}",
            "[",
            "]",
            "sudo",
            "rm",
            "mv",
            "cp",
            "dd",
            "mkfs",
            "fork",
            "kill",
        ];
        assert(patterns@.len() == 21);
        assert(dangerous_patterns().len() == 21);
        assert forall|j: int| 0 <= j < 21 implies (#[trigger] patterns@[j])@
            == dangerous_patterns()[j] by {}
        let chars = chars_of(cmd);
        let mut i: usize = 0;
        while i < patterns.len()
            invariant
                i <= patterns.len(),
                patterns.len() == dangerous_patterns().len(),
                chars@ == cmd@,
                forall|j: int|
                    0 <= j < patterns.len() ==> (#[trigger] patterns@[j])@
                        == dangerous_patterns()[j],
                forall|j: int|
                    0 <= j < i ==> !contains_run(cmd@, #[trigger] dangerous_patterns()[j]),
            decreases patterns.len() - i,
        {
            if contains(&chars, &chars_of(patterns[i])) {
                assert(contains_run(cmd@, dangerous_patterns()[i as int]));
                return false;
            }
            i += 1;
        }
        true
    }

    /// Refuses a command that is not safe.
    pub fn check(&self, cmd: &str) -> (result: Result<(), TemplateError>)
        ensures
            is_safe_command(cmd@) ==> result is Ok,
            !is_safe_command(cmd@) ==> (result matches Err(e) && e@ == TemplateErrorView::Shell(
                forbidden(),
            )),
    {
        if self.is_command_safe(cmd) {
            Ok(())
        } else {
            Err(TemplateError::Shell("Command contains forbidden patterns".to_owned()))
        }
    }

    /// What a finished command yields to the template.
    pub fn outcome(&self, success: bool, stdout: &str, stderr: &str) -> (result: Result<
        String,
        TemplateError,
    >)
        ensures
            match command_outcome(success, stdout@, stderr@) {
                Ok(text) => result matches Ok(out) && out@ == text,
                Err(e) => result matches Err(err) && err@ == e,
            },
    {
        if success {
            Ok(string_of(&trim(&chars_of(stdout))))
        } else {
            Err(TemplateError::Shell("Command failed: ".to_owned().concat(stderr)))
        }
    }
}

} // verus!
