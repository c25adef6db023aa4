//! Where a snippet begins in its source, and how an editor is told to go
//! there.

use crate::infrastructure::parsers::default::{line_kind, opening_token, LineKind};
use crate::util::text::{
    chars_of, decimal_digits, decimal_string, line_views, lines_of, same_chars, split_lines,
    string_views, trim, trimmed,
};
use vstd::prelude::*;

verus! {

/// Whether `line` opens the snippet `name`: trimmed, it is the opening token
/// followed by exactly the name.
pub open spec fn opens_snippet(line: Seq<char>, name: Seq<char>) -> bool {
    trimmed(line) == opening_token() + name
}

/// Whether `number` is the 1-based number of the first line of `lines` that
/// opens the snippet `name`.
pub open spec fn is_start_line(lines: Seq<Seq<char>>, name: Seq<char>, number: int) -> bool {
    &&& 1 <= number <= lines.len()
    &&& opens_snippet(lines[number - 1], name)
    &&& forall|j: int| 0 <= j < number - 1 ==> !opens_snippet(lines[j], name)
}

/// The 1-based number of the line at which the snippet `snippet_name`
/// begins in `content`: the first line that opens it. None if no line does.
pub fn find_snippet_line_number(content: &str, snippet_name: &str) -> (found: Option<usize>)
    ensures
        match found {
            Some(number) => is_start_line(lines_of(content@), snippet_name@, number as int),
            None => forall|j: int|
                0 <= j < lines_of(content@).len() ==> !opens_snippet(
                    #[trigger] lines_of(content@)[j],
                    snippet_name@,
                ),
        },
{
    let lines = split_lines(&chars_of(content));
    let mut wanted: Vec<char> = vec!['-', '-', '-', ' '];
    assert(wanted@ =~= opening_token());
    let mut name = chars_of(snippet_name);
    wanted.append(&mut name);
    let ghost texts = lines_of(content@);
    let mut i: usize = 0;
    while i < lines.len()
        invariant
            i <= lines.len(),
            texts == line_views(lines@),
            texts == lines_of(content@),
            wanted@ == opening_token() + snippet_name@,
            forall|j: int| 0 <= j < i ==> !opens_snippet(#[trigger] texts[j], snippet_name@),
        decreases lines.len() - i,
    {
        assert(texts[i as int] == lines@[i as int]@);
        if same_chars(&trim(&lines[i]), &wanted) {
            return Some(i + 1);
        }
        i += 1;
    }
    None
}

/// How an editor is told at which line to open a file.
#[derive(Debug, Clone, Copy, PartialEq, Eq)]
pub enum LineArgument {
    /// `+N` before nothing else: vim, nvim, emacs, nano, hx.
    Plus,
    /// `--goto file:N`: code, codium.
    Goto,
    /// The editor is not known to take a line.
    Unknown,
}

/// The way in which the editor `editor` takes a line number.
pub open spec fn line_argument_of(editor: Seq<char>) -> LineArgument {
    if editor == "vim"@ || editor == "nvim"@ || editor == "emacs"@ || editor == "nano"@ || editor
        == "hx"@ {
        LineArgument::Plus
    } else if editor == "code"@ || editor == "codium"@ {
        LineArgument::Goto
    } else {
        LineArgument::Unknown
    }
}

/// The arguments with which `editor` opens `file`, at `line` if one is given
/// and the editor is known to take one.
pub open spec fn editor_arguments_of(editor: Seq<char>, file: Seq<char>, line: Option<nat>) -> Seq<
    Seq<char>,
> {
    match line {
        None => seq![file],
        Some(n) => match line_argument_of(editor) {
            LineArgument::Plus => seq![file, "+"@ + decimal_digits(n)],
            LineArgument::Goto => seq![file, "--goto"@, file + ":"@ + decimal_digits(n)],
            LineArgument::Unknown => seq![file],
        },
    }
}

/// Tests whether `editor` is named `name`.
fn is_named(editor: &Vec<char>, name: &str) -> (b: bool)
    ensures
        b == (editor@ == name@),
{
    same_chars(editor, &chars_of(name))
}

/// The way in which the editor `editor` takes a line number.
pub fn line_argument(editor: &str) -> (kind: LineArgument)
    ensures
        kind == line_argument_of(editor@),
{
    let e = chars_of(editor);
    if is_named(&e, "vim") || is_named(&e, "nvim") || is_named(&e, "emacs") || is_named(&e, "nano")
        || is_named(&e, "hx") {
        LineArgument::Plus
    } else if is_named(&e, "code") || is_named(&e, "codium") {
        LineArgument::Goto
    } else {
        LineArgument::Unknown
    }
}

/// The arguments with which `editor` opens `file`, at `line_number` if one
/// is given and the editor is known to take one.
pub fn editor_arguments(editor: &str, file: &str, line_number: Option<usize>) -> (arguments: Vec<
    String,
>)
    ensures
        string_views(arguments@) == editor_arguments_of(
            editor@,
            file@,
            match line_number {
                Some(n) => Some(n as nat),
                None => None,
            },
        ),
{
    let mut arguments: Vec<String> = Vec::new();
    arguments.push(file.to_owned());
    match line_number {
        None => {},
        Some(n) => {
            let number = decimal_string(n);
            match line_argument(editor) {
                LineArgument::Plus => {
                    arguments.push("+".to_owned().concat(number.as_str()));
                },
                LineArgument::Goto => {
                    arguments.push("--goto".to_owned());
                    arguments.push(file.to_owned().concat(":").concat(number.as_str()));
                },
                LineArgument::Unknown => {},
            }
        },
    }
    assert(string_views(arguments@) =~= editor_arguments_of(
        editor@,
        file@,
        match line_number {
            Some(n) => Some(n as nat),
            None => None,
        },
    ));
    arguments
}

/// The locator and the parser agree on what opens a snippet: a line opens
/// the snippet `name` exactly if the parser reads it as the opening of
/// `name`.
pub proof fn lemma_locator_agrees_with_parser(line: Seq<char>, name: Seq<char>)
    ensures
        opens_snippet(line, name) <==> line_kind(line) == LineKind::Opening(name),
{
    let t = trimmed(line);
    if opens_snippet(line, name) {
        assert(t.subrange(0, 4) =~= opening_token());
        assert(t.subrange(4, t.len() as int) =~= name);
    }
    if line_kind(line) == LineKind::Opening(name) {
        assert(opening_token().is_prefix_of(t));
        assert(t =~= opening_token() + t.subrange(4, t.len() as int));
    }
}

} // verus!
