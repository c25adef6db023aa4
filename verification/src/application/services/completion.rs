//! The three ways to pick one snippet of a collection for a user's input:
//! by exact name, by best fuzzy score, and interactively.

use crate::domain::errors::{SnippetError, SnippetErrorView};
use crate::domain::snippet::Snippet;
use crate::infrastructure::fuzzy::{
    best_match, can_be_scored, can_score, exact_index, finder_step, is_best, is_first_exact,
    no_exact, run_fuzzy_finder, score_all, scores_of, selected_index, selection_of, FinderStep,
    FinderStepView, MAX_SCORED_LEN,
};
use crate::util::text::{chars_of, trim, trimmed};
use vstd::prelude::*;

verus! {

/// Whether an input is empty or holds whitespace only.
pub open spec fn is_blank(input: Seq<char>) -> bool {
    trimmed(input).len() == 0
}

/// Tests whether `input` is empty or holds whitespace only.
pub fn input_is_blank(input: &str) -> (blank: bool)
    ensures
        blank == is_blank(input@),
{
    trim(&chars_of(input)).len() == 0
}

/// The error for a name or an input that is too long to be scored.
pub open spec fn too_long() -> SnippetErrorView {
    SnippetErrorView::TooLong { limit: MAX_SCORED_LEN as nat }
}

/// What the interactive resolution asks of its caller.
#[derive(Debug, PartialEq, Eq)]
pub enum InteractiveOutcome {
    /// The resolution is done: this snippet, or none.
    Resolved(Option<Snippet>),
    /// The selector has to be shown, with `query` as its first filter text.
    AskUser { query: String },
}

/// Resolves completions over an ordered collection of snippets.
#[derive(Debug, Clone, Copy)]
pub struct CompletionService;

impl CompletionService {
    /// The service; it holds no state.
    pub fn new() -> Self {
        CompletionService
    }

    /// The first snippet whose name equals `user_input` exactly. A blank
    /// input matches nothing.
    pub fn find_completion_exact(&self, items: &[Snippet], user_input: &str) -> (found: Option<
        Snippet,
    >)
        ensures
            is_blank(user_input@) ==> found is None,
            !is_blank(user_input@) ==> match found {
                Some(s) => exists|i: int|
                    is_first_exact(items@, user_input@, i) && s@ == (#[trigger] items@[i])@,
                None => no_exact(items@, user_input@),
            },
    {
        if input_is_blank(user_input) {
            return None;
        }
        match exact_index(items, user_input) {
            Some(i) => Some(items[i].clone()),
            None => None,
        }
    }

    /// The snippet whose name scores best for `user_input`; among equal
    /// scores the first in the collection. Names that do not match at all
    /// take no part, and a blank input matches nothing.
    pub fn find_completion_fuzzy(&self, items: &[Snippet], user_input: &str) -> (found: Option<
        Snippet,
    >)
        requires
            can_score(items@, user_input@),
        ensures
            is_blank(user_input@) ==> found is None,
            !is_blank(user_input@) ==> match found {
                Some(s) => exists|i: int|
                    is_best(scores_of(items@, user_input@), i) && s@ == (#[trigger] items@[i])@,
                None => forall|j: int|
                    0 <= j < items.len() ==> (#[trigger] scores_of(items@, user_input@)[j]) is None,
            },
    {
        if input_is_blank(user_input) {
            return None;
        }
        let scores = score_all(items, user_input);
        match best_match(&scores) {
            Some(i) => Some(items[i].clone()),
            None => None,
        }
    }

    /// The part of the interactive resolution that comes before the
    /// selector: nothing to choose from resolves to none, a name equal to a
    /// non-empty `user_input` or a single fuzzy match resolves to that
    /// snippet, and everything else has to be asked of the user.
    pub fn find_completion_interactive(&self, items: &[Snippet], user_input: &str) -> (outcome:
        InteractiveOutcome)
        requires
            can_score(items@, user_input@),
        ensures
            match finder_step(items@, user_input@) {
                FinderStepView::Done(None) => outcome matches InteractiveOutcome::Resolved(None),
                FinderStepView::Done(Some(i)) => outcome matches InteractiveOutcome::Resolved(
                    Some(s),
                ) && s@ == items@[i]@,
                FinderStepView::Ask => outcome matches InteractiveOutcome::AskUser { query }
                    && query@ == user_input@,
            },
    {
        match run_fuzzy_finder(items, user_input) {
            FinderStep::Done(None) => InteractiveOutcome::Resolved(None),
            FinderStep::Done(Some(i)) => InteractiveOutcome::Resolved(Some(items[i].clone())),
            FinderStep::Ask => InteractiveOutcome::AskUser { query: user_input.to_owned() },
        }
    }

    /// [`Self::find_completion_fuzzy`] for every input: where the input or a
    /// name is too long to be scored, nothing is scored and the error says
    /// so.
    pub fn resolve_fuzzy(&self, items: &[Snippet], user_input: &str) -> (result: Result<
        Option<Snippet>,
        SnippetError,
    >)
        ensures
            !can_score(items@, user_input@) ==> (result matches Err(e) && e@ == too_long()),
            can_score(items@, user_input@) ==> (result matches Ok(found) && (is_blank(user_input@)
                ==> found is None) && (!is_blank(user_input@) ==> match found {
                Some(s) => exists|i: int|
                    is_best(scores_of(items@, user_input@), i) && s@ == (#[trigger] items@[i])@,
                None => forall|j: int|
                    0 <= j < items.len() ==> (#[trigger] scores_of(items@, user_input@)[j]) is None,
            })),
    {
        if can_be_scored(items, user_input) {
            Ok(self.find_completion_fuzzy(items, user_input))
        } else {
            Err(SnippetError::TooLong { limit: MAX_SCORED_LEN })
        }
    }

    /// [`Self::find_completion_interactive`] for every input: where the
    /// input or a name is too long to be scored, nothing is scored and the
    /// error says so.
    pub fn resolve_interactive(&self, items: &[Snippet], user_input: &str) -> (result: Result<
        InteractiveOutcome,
        SnippetError,
    >)
        ensures
            !can_score(items@, user_input@) ==> (result matches Err(e) && e@ == too_long()),
            can_score(items@, user_input@) ==> (result matches Ok(outcome) && match finder_step(
                items@,
                user_input@,
            ) {
                FinderStepView::Done(None) => outcome matches InteractiveOutcome::Resolved(None),
                FinderStepView::Done(Some(i)) => outcome matches InteractiveOutcome::Resolved(
                    Some(s),
                ) && s@ == items@[i]@,
                FinderStepView::Ask => outcome matches InteractiveOutcome::AskUser { query }
                    && query@ == user_input@,
            }),
    {
        if can_be_scored(items, user_input) {
            Ok(self.find_completion_interactive(items, user_input))
        } else {
            Err(SnippetError::TooLong { limit: MAX_SCORED_LEN })
        }
    }

    /// The snippet that the user selected: the first whose name equals the
    /// selector's output up to its first tab. None if the user aborted.
    pub fn resolve_selection(&self, items: &[Snippet], selected: Option<&str>) -> (found: Option<
        Snippet,
    >)
        ensures
            match selected {
                None => found is None,
                Some(text) => match found {
                    Some(s) => exists|i: int|
                        is_first_exact(items@, selection_of(text@), i) && s@ == (
                        #[trigger] items@[i])@,
                    None => no_exact(items@, selection_of(text@)),
                },
            },
    {
        match selected {
            None => None,
            Some(text) => match selected_index(items, text) {
                Some(i) => Some(items[i].clone()),
                None => None,
            },
        }
    }
}

} // verus!
