//! Paths that begin at the home directory.

use crate::domain::errors::{SnippetError, SnippetErrorView};
use crate::util::text::{chars_of, copy_range, string_of};
use vstd::prelude::*;

verus! {

/// The message of the error for a path that begins with `~` where no home
/// directory is known.
pub open spec fn no_home() -> Seq<char> {
    "Could not determine home directory"@
}

/// `base` followed by `rest` as one path, as on Unix: an absolute `rest`
/// stands for itself, and a separator is put between the two where `base`
/// is not empty and does not end in one.
pub open spec fn joined_path(base: Seq<char>, rest: Seq<char>) -> Seq<char> {
    if rest.len() > 0 && rest[0] == '/' {
        rest
    } else if base.len() > 0 && base.last() != '/' {
        base + seq!['/'] + rest
    } else {
        base + rest
    }
}

/// A path with a leading `~` replaced by the home directory. A path that
/// does not begin with `~` stands for itself, `~` alone for the home
/// directory, and `~/rest` for `rest` below the home directory. A path that
/// begins with `~` in another way is refused, and so is every path that
/// begins with `~` where no home directory is known.
pub open spec fn expanded_path(path: Seq<char>, home: Option<Seq<char>>) -> Result<
    Seq<char>,
    SnippetErrorView,
> {
    if path.len() > 0 && path[0] == '~' {
        match home {
            None => Err(SnippetErrorView::ParserError(no_home())),
            Some(h) => if path.len() == 1 {
                Ok(h)
            } else if path[1] == '/' {
                Ok(joined_path(h, path.subrange(2, path.len() as int)))
            } else {
                Err(SnippetErrorView::ParserError("Invalid path: "@ + path))
            },
        }
    } else {
        Ok(path)
    }
}

/// `base` followed by `rest` as one path.
pub fn join_path(base: &Vec<char>, rest: &Vec<char>) -> (path: Vec<char>)
    ensures
        path@ == joined_path(base@, rest@),
{
    let mut path: Vec<char> = Vec::new();
    if rest.len() > 0 && rest[0] == '/' {
        let mut tail = copy_range(rest, 0, rest.len());
        path.append(&mut tail);
        assert(path@ =~= rest@);
    } else {
        let mut head = copy_range(base, 0, base.len());
        path.append(&mut head);
        if base.len() > 0 && base[base.len() - 1] != '/' {
            path.push('/');
        }
        let mut tail = copy_range(rest, 0, rest.len());
        path.append(&mut tail);
        assert(path@ =~= joined_path(base@, rest@));
    }
    path
}

/// Expands a path that may begin with `~` for the home directory `home`.
pub fn expand_path(path: &str, home: Option<&str>) -> (result: Result<String, SnippetError>)
    ensures
        match expanded_path(
            path@,
            match home {
                Some(h) => Some(h@),
                None => None,
            },
        ) {
            Ok(expanded) => result matches Ok(p) && p@ == expanded,
            Err(e) => result matches Err(err) && err@ == e,
        },
{
    let chars = chars_of(path);
    if chars.len() > 0 && chars[0] == '~' {
        match home {
            None => Err(SnippetError::ParserError("Could not determine home directory".to_owned())),
            Some(h) => {
                if chars.len() == 1 {
                    Ok(h.to_owned())
                } else if chars[1] == '/' {
                    let rest = copy_range(&chars, 2, chars.len());
                    Ok(string_of(&join_path(&chars_of(h), &rest)))
                } else {
                    Err(SnippetError::ParserError("Invalid path: ".to_owned().concat(path)))
                }
            },
        }
    } else {
        Ok(path.to_owned())
    }
}

} // verus!
