//! Fuzzy scoring of snippet names and the decisions that come before the
//! interactive selector is shown.

use crate::domain::snippet::{Snippet, SnippetView};
use crate::util::text::{
    chars_of, copy_range, join_strings, joined, same_chars, string_of,
};
use vstd::prelude::*;

verus! {

/// The longest name or query, in characters, that is handed to the scorer.
/// The scorer counts in 32 bits and moves a score by at most 32 for each
/// character, so up to this length it stays far inside its range.
pub const MAX_SCORED_LEN: usize = 1_000_000;

/// The score that fuzzy-matcher's skim matcher (version 2, default
/// configuration: smart case, no element limit) gives to `choice` for
/// `pattern`; `None` where `pattern` does not match `choice` at all.
pub uninterp spec fn fuzzy_score(choice: Seq<char>, pattern: Seq<char>) -> Option<i64>;

/// `SkimMatcherV2::fuzzy` of fuzzy-matcher, without positions, on a matcher
/// that is made for this one call with `SkimMatcherV2::default()`. The
/// contract claims that the score depends on the two texts alone: a new
/// matcher starts from empty buffers, and nothing else enters the
/// computation.
#[verifier::external_body]
fn fuzzy_score_of(choice: &str, pattern: &str) -> (score: Option<i64>)
    requires
        choice@.len() <= MAX_SCORED_LEN,
        pattern@.len() <= MAX_SCORED_LEN,
    ensures
        score == fuzzy_score(choice@, pattern@),
{
    fuzzy_matcher::skim::SkimMatcherV2::default().fuzzy(choice, pattern, false).map(
        |(score, _)| score,
    )
}

/// Whether the query and every name are short enough to be scored.
pub open spec fn can_score(items: Seq<Snippet>, query: Seq<char>) -> bool {
    &&& query.len() <= MAX_SCORED_LEN
    &&& forall|i: int| 0 <= i < items.len() ==> (#[trigger] items[i]).name@.len() <= MAX_SCORED_LEN
}

/// Tests whether the query and every name are short enough to be scored.
pub fn can_be_scored(items: &[Snippet], query: &str) -> (fits: bool)
    ensures
        fits == can_score(items@, query@),
{
    if query.unicode_len() > MAX_SCORED_LEN {
        return false;
    }
    let mut i: usize = 0;
    while i < items.len()
        invariant
            i <= items.len(),
            query@.len() <= MAX_SCORED_LEN,
            forall|j: int| 0 <= j < i ==> (#[trigger] items@[j]).name@.len() <= MAX_SCORED_LEN,
        decreases items.len() - i,
    {
        if items[i].name.as_str().unicode_len() > MAX_SCORED_LEN {
            return false;
        }
        i += 1;
    }
    true
}

/// The score of every name for `query`, in the order of the items.
pub open spec fn scores_of(items: Seq<Snippet>, query: Seq<char>) -> Seq<Option<i64>> {
    Seq::new(items.len(), |i: int| fuzzy_score(items[i].name@, query))
}

/// The score of every name for `query`, in the order of the items.
pub fn score_all(items: &[Snippet], query: &str) -> (scores: Vec<Option<i64>>)
    requires
        can_score(items@, query@),
    ensures
        scores@ == scores_of(items@, query@),
{
    let mut scores: Vec<Option<i64>> = Vec::new();
    let mut i: usize = 0;
    while i < items.len()
        invariant
            i <= items.len(),
            can_score(items@, query@),
            scores.len() == i,
            forall|j: int| 0 <= j < i ==> scores@[j] == fuzzy_score(items@[j].name@, query@),
        decreases items.len() - i,
    {
        assert(items@[i as int].name@.len() <= MAX_SCORED_LEN);
        scores.push(fuzzy_score_of(items[i].name.as_str(), query));
        i += 1;
    }
    assert(scores@ =~= scores_of(items@, query@));
    scores
}

/// Whether `i` is the index of the best score: it holds a score, no score
/// is higher, and every earlier score is lower.
pub open spec fn is_best(scores: Seq<Option<i64>>, i: int) -> bool {
    &&& 0 <= i < scores.len()
    &&& scores[i] is Some
    &&& forall|j: int|
        0 <= j < scores.len() && scores[j] is Some ==> scores[j].unwrap() <= scores[i].unwrap()
    &&& forall|j: int| 0 <= j < i && scores[j] is Some ==> scores[j].unwrap() < scores[i].unwrap()
}

/// The index of the highest score; among equal scores the first wins. None
/// if nothing was scored.
pub fn best_match(scores: &Vec<Option<i64>>) -> (best: Option<usize>)
    ensures
        match best {
            Some(i) => is_best(scores@, i as int),
            None => forall|j: int| 0 <= j < scores.len() ==> scores@[j] is None,
        },
{
    let mut best: Option<usize> = None;
    let mut top: i64 = 0;
    let mut i: usize = 0;
    while i < scores.len()
        invariant
            i <= scores.len(),
            match best {
                Some(b) => b < i && is_best(scores@.take(i as int), b as int) && scores@[b as int]
                    == Some(top),
                None => forall|j: int| 0 <= j < i ==> scores@[j] is None,
            },
        decreases scores.len() - i,
    {
        match scores[i] {
            Some(score) => {
                let better = match best {
                    Some(_) => score > top,
                    None => true,
                };
                if better {
                    best = Some(i);
                    top = score;
                }
            },
            None => {},
        }
        i += 1;
    }
    assert(scores@.take(scores.len() as int) =~= scores@);
    best
}

/// How many names match `query` at all.
pub open spec fn match_count(scores: Seq<Option<i64>>) -> nat
    decreases scores.len(),
{
    if scores.len() == 0 {
        0
    } else {
        match_count(scores.drop_last()) + if scores.last() is Some {
            1nat
        } else {
            0nat
        }
    }
}

/// Whether `i` is the first index whose name equals `query`.
pub open spec fn is_first_exact(items: Seq<Snippet>, query: Seq<char>, i: int) -> bool {
    &&& 0 <= i < items.len()
    &&& items[i].name@ == query
    &&& forall|j: int| 0 <= j < i ==> items[j].name@ != query
}

/// Whether no name equals `query`.
pub open spec fn no_exact(items: Seq<Snippet>, query: Seq<char>) -> bool {
    forall|j: int| 0 <= j < items.len() ==> items[j].name@ != query
}

/// The index of the first item whose name equals `query`, character for
/// character.
pub fn exact_index(items: &[Snippet], query: &str) -> (found: Option<usize>)
    ensures
        match found {
            Some(i) => is_first_exact(items@, query@, i as int),
            None => no_exact(items@, query@),
        },
{
    let wanted = chars_of(query);
    let mut i: usize = 0;
    while i < items.len()
        invariant
            i <= items.len(),
            wanted@ == query@,
            forall|j: int| 0 <= j < i ==> items@[j].name@ != query@,
        decreases items.len() - i,
    {
        let name = chars_of(items[i].name.as_str());
        if same_chars(&name, &wanted) {
            return Some(i);
        }
        i += 1;
    }
    None
}

/// What the finder decides before its selector is shown.
pub enum FinderStepView {
    /// Decided without the user: the item at this index, or nothing.
    Done(Option<int>),
    /// The selector has to be shown.
    Ask,
}

/// Whether `i` is the only index whose name matches the query.
pub open spec fn is_only_match(scores: Seq<Option<i64>>, i: int) -> bool {
    &&& 0 <= i < scores.len()
    &&& scores[i] is Some
    &&& forall|j: int| 0 <= j < scores.len() && j != i ==> scores[j] is None
}

/// The decision that comes before the selector. With nothing to choose from
/// there is nothing to show. For a non-empty query, a name that equals it
/// wins at once (the first such), and so does the only name that matches it
/// fuzzily. In every other case the selector is shown.
pub open spec fn finder_step(items: Seq<Snippet>, query: Seq<char>) -> FinderStepView {
    if items.len() == 0 {
        FinderStepView::Done(None)
    } else if query.len() == 0 {
        FinderStepView::Ask
    } else if exists|i: int| is_first_exact(items, query, i) {
        FinderStepView::Done(Some(choose|i: int| is_first_exact(items, query, i)))
    } else if exists|i: int| is_only_match(scores_of(items, query), i) {
        FinderStepView::Done(Some(choose|i: int| is_only_match(scores_of(items, query), i)))
    } else {
        FinderStepView::Ask
    }
}

/// What the finder decides before its selector is shown.
#[derive(Debug, Clone, Copy, PartialEq, Eq)]
pub enum FinderStep {
    /// Decided without the user: the item at this index, or nothing.
    Done(Option<usize>),
    /// The selector has to be shown.
    Ask,
}

impl View for FinderStep {
    type V = FinderStepView;

    open spec fn view(&self) -> FinderStepView {
        match self {
            FinderStep::Done(Some(i)) => FinderStepView::Done(Some(*i as int)),
            FinderStep::Done(None) => FinderStepView::Done(None),
            FinderStep::Ask => FinderStepView::Ask,
        }
    }
}

/// The index of the only score that is set, if exactly one is.
pub fn only_match(scores: &Vec<Option<i64>>) -> (only: Option<usize>)
    ensures
        match only {
            Some(i) => is_only_match(scores@, i as int),
            None => forall|i: int| !is_only_match(scores@, i),
        },
{
    let mut found: Option<usize> = None;
    let mut i: usize = 0;
    while i < scores.len()
        invariant
            i <= scores.len(),
            match found {
                Some(f) => f < i && scores@[f as int] is Some && forall|j: int|
                    0 <= j < i && j != f ==> scores@[j] is None,
                None => forall|j: int| 0 <= j < i ==> scores@[j] is None,
            },
        decreases scores.len() - i,
    {
        if scores[i].is_some() {
            match found {
                Some(f) => {
                    assert forall|k: int| !is_only_match(scores@, k) by {
                        if is_only_match(scores@, k) {
                            if k == f as int {
                                assert(scores@[i as int] is None);
                            } else {
                                assert(scores@[f as int] is None);
                            }
                        }
                    }
                    return None;
                },
                None => {
                    found = Some(i);
                },
            }
        }
        i += 1;
    }
    found
}

/// Decides whether the selector has to be shown for `initial_query`, and
/// which item is chosen if it has not.
pub fn run_fuzzy_finder(items: &[Snippet], initial_query: &str) -> (step: FinderStep)
    requires
        can_score(items@, initial_query@),
    ensures
        step@ == finder_step(items@, initial_query@),
{
    if items.len() == 0 {
        return FinderStep::Done(None);
    }
    if initial_query.unicode_len() == 0 {
        return FinderStep::Ask;
    }
    match exact_index(items, initial_query) {
        Some(i) => {
            proof {
                lemma_first_exact_unique(items@, initial_query@, i as int);
            }
            return FinderStep::Done(Some(i));
        },
        None => {},
    }
    let scores = score_all(items, initial_query);
    match only_match(&scores) {
        Some(i) => {
            proof {
                lemma_only_match_unique(scores@, i as int);
            }
            FinderStep::Done(Some(i))
        },
        None => FinderStep::Ask,
    }
}

/// There is one first exact match at most.
pub proof fn lemma_first_exact_unique(items: Seq<Snippet>, query: Seq<char>, i: int)
    requires
        is_first_exact(items, query, i),
    ensures
        forall|k: int| is_first_exact(items, query, k) ==> k == i,
        (choose|k: int| is_first_exact(items, query, k)) == i,
{
    assert forall|k: int| is_first_exact(items, query, k) implies k == i by {
        if k < i {
            assert(items[k].name@ != query);
        } else if i < k {
            assert(items[i].name@ != query);
        }
    }
}

/// There is one only match at most.
pub proof fn lemma_only_match_unique(scores: Seq<Option<i64>>, i: int)
    requires
        is_only_match(scores, i),
    ensures
        forall|k: int| is_only_match(scores, k) ==> k == i,
        (choose|k: int| is_only_match(scores, k)) == i,
{
    assert forall|k: int| is_only_match(scores, k) implies k == i by {
        if k != i {
            assert(scores[k] is None);
        }
    }
}

/// What the selector's output names: the text up to its first tab. The
/// selector shows a name and, behind a tab, what it displays beside it.
pub open spec fn selection_of(output: Seq<char>) -> Seq<char> {
    output.subrange(0, first_tab(output, 0))
}

/// Index of the first tab at or after `from` (`s.len()` if there is none).
pub open spec fn first_tab(s: Seq<char>, from: int) -> int
    decreases s.len() - from,
{
    if 0 <= from < s.len() && s[from] != '\t' {
        first_tab(s, from + 1)
    } else {
        from
    }
}

/// The name that the selector's output stands for.
pub fn selected_name(output: &str) -> (name: String)
    ensures
        name@ == selection_of(output@),
{
    let chars = chars_of(output);
    let mut end: usize = 0;
    while end < chars.len() && chars[end] != '\t'
        invariant
            end <= chars.len(),
            first_tab(chars@, 0) == first_tab(chars@, end as int),
        decreases chars.len() - end,
    {
        end += 1;
    }
    string_of(&copy_range(&chars, 0, end))
}

/// The index of the item that the selector's output stands for: the first
/// whose name equals the output up to its first tab.
pub fn selected_index(items: &[Snippet], output: &str) -> (found: Option<usize>)
    ensures
        match found {
            Some(i) => is_first_exact(items@, selection_of(output@), i as int),
            None => no_exact(items@, selection_of(output@)),
        },
{
    let name = selected_name(output);
    exact_index(items, name.as_str())
}

/// The headings of a preview. They are handed in as they are to be shown,
/// with whatever styling the terminal takes.
#[derive(Debug, Clone, PartialEq, Eq)]
pub struct PreviewLabels {
    pub name: String,
    pub comments: String,
    pub content: String,
}

/// The mathematical value of [`PreviewLabels`].
pub struct PreviewLabelsView {
    pub name: Seq<char>,
    pub comments: Seq<char>,
    pub content: Seq<char>,
}

impl View for PreviewLabels {
    type V = PreviewLabelsView;

    open spec fn view(&self) -> PreviewLabelsView {
        PreviewLabelsView { name: self.name@, comments: self.comments@, content: self.content@ }
    }
}

/// One entry of the selector: the text that is shown and matched, and the
/// preview that is shown beside it.
#[derive(Debug, Clone, PartialEq, Eq)]
pub struct SnippetItem {
    pub display_text: String,
    pub preview: String,
}

/// The mathematical value of a [`SnippetItem`].
pub struct SnippetItemView {
    pub display_text: Seq<char>,
    pub preview: Seq<char>,
}

impl View for SnippetItem {
    type V = SnippetItemView;

    open spec fn view(&self) -> SnippetItemView {
        SnippetItemView { display_text: self.display_text@, preview: self.preview@ }
    }
}

/// The content as a preview shows it.
pub open spec fn shown_content(text: Seq<char>) -> Seq<char> {
    if text.len() == 0 {
        "No content"@
    } else {
        text
    }
}

/// The preview of a snippet: its name, its comments if it has any, and its
/// content, each under its heading.
pub open spec fn preview_of(labels: PreviewLabelsView, snippet: SnippetView) -> Seq<char> {
    let head = labels.name + ": "@ + snippet.name + "\n\n"@;
    let body = labels.content + ":\n"@ + shown_content(snippet.content.text());
    if snippet.comments.len() == 0 {
        head + body
    } else {
        head + labels.comments + ":\n"@ + joined(snippet.comments, "\n"@) + "\n\n"@ + body
    }
}

/// The entry of the selector for a snippet: shown by its name.
pub open spec fn item_of(labels: PreviewLabelsView, snippet: SnippetView) -> SnippetItemView {
    SnippetItemView { display_text: snippet.name, preview: preview_of(labels, snippet) }
}

impl SnippetItem {
    /// The text that the selector shows and matches.
    pub fn text(&self) -> (text: &str)
        ensures
            text@ == self@.display_text,
    {
        self.display_text.as_str()
    }

    /// What the selector hands back when the entry is chosen: the name,
    /// which is the shown text up to its first tab.
    pub fn output(&self) -> (name: String)
        ensures
            name@ == selection_of(self@.display_text),
    {
        selected_name(self.display_text.as_str())
    }
}

/// The entry of the selector for `snippet`.
pub fn create_skim_item(snippet: &Snippet, labels: &PreviewLabels) -> (item: SnippetItem)
    ensures
        item@ == item_of(labels@, snippet@),
{
    let text = snippet.content.get_content();
    let shown = if text.unicode_len() == 0 {
        "No content"
    } else {
        text
    };
    let head = labels.name.clone().concat(": ").concat(snippet.name.as_str()).concat("\n\n");
    let body = labels.content.clone().concat(":\n").concat(shown);
    let preview = if snippet.comments.len() == 0 {
        head.concat(body.as_str())
    } else {
        let comments = join_strings(&snippet.comments, "\n");
        head.concat(labels.comments.as_str()).concat(":\n").concat(comments.as_str()).concat(
            "\n\n",
        ).concat(body.as_str())
    };
    SnippetItem { display_text: snippet.name.clone(), preview }
}

/// The entries of the selector for `items`: one for each snippet, in their
/// order.
pub fn create_skim_items(items: &[Snippet], labels: &PreviewLabels) -> (entries: Vec<SnippetItem>)
    ensures
        entries.len() == items.len(),
        forall|i: int| 0 <= i < items.len() ==> (#[trigger] entries@[i])@ == item_of(
            labels@,
            items@[i]@,
        ),
{
    let mut entries: Vec<SnippetItem> = Vec::new();
    let mut i: usize = 0;
    while i < items.len()
        invariant
            i <= items.len(),
            entries.len() == i,
            forall|j: int| 0 <= j < i ==> (#[trigger] entries@[j])@ == item_of(
                labels@,
                items@[j]@,
            ),
        decreases items.len() - i,
    {
        entries.push(create_skim_item(&items[i], labels));
        i += 1;
    }
    entries
}

/// Ties are not arbitrary: there is one best index at most, the first that
/// reaches the highest score.
pub proof fn lemma_best_unique(scores: Seq<Option<i64>>, i: int, k: int)
    requires
        is_best(scores, i),
        is_best(scores, k),
    ensures
        i == k,
{
    if i < k {
        assert(scores[i].unwrap() < scores[k].unwrap());
        assert(scores[k].unwrap() <= scores[i].unwrap());
    } else if k < i {
        assert(scores[k].unwrap() < scores[i].unwrap());
        assert(scores[i].unwrap() <= scores[k].unwrap());
    }
}

/// Matching goes by names alone: two collections with the same names, item
/// for item, have the same first exact match and the same scores, whatever
/// their contents and comments are.
pub proof fn lemma_matching_by_names(a: Seq<Snippet>, b: Seq<Snippet>, query: Seq<char>)
    requires
        a.len() == b.len(),
        forall|i: int| 0 <= i < a.len() ==> a[i].name@ == b[i].name@,
    ensures
        forall|i: int| is_first_exact(a, query, i) <==> is_first_exact(b, query, i),
        scores_of(a, query) == scores_of(b, query),
{
    assert(scores_of(a, query) =~= scores_of(b, query));
    assert forall|i: int| is_first_exact(a, query, i) <==> is_first_exact(b, query, i) by {
        if is_first_exact(a, query, i) {
            assert forall|j: int| 0 <= j < i implies b[j].name@ != query by {
                assert(a[j].name@ != query);
            }
        }
        if is_first_exact(b, query, i) {
            assert forall|j: int| 0 <= j < i implies a[j].name@ != query by {
                assert(b[j].name@ != query);
            }
        }
    }
}

} // verus!
