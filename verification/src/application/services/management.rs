//! From the name of a snippet type to its snippets: which sources have to
//! be read, and what they yield together.

use crate::config::{combined_sources_of, snippet_type_of, Settings, SnippetTypeConfigView};
use crate::domain::errors::{SnippetError, SnippetErrorView};
use crate::domain::parser::{
    outcome_of, source_outcome, ParseOutcome, SnippetType, SnippetTypeView, SourceData,
    SourceDataView,
};
use crate::domain::snippet::{snippet_views, Snippet, SnippetView};
use crate::infrastructure::parsers::parse_source;
use crate::util::text::string_views;
use vstd::prelude::*;

verus! {

/// The values of a list of snippet types, in order.
pub open spec fn type_views(types: Seq<SnippetType>) -> Seq<SnippetTypeView> {
    Seq::new(types.len(), |i: int| types[i]@)
}

/// The values of a list of source data, in order.
pub open spec fn data_views(data: Seq<SourceData>) -> Seq<SourceDataView> {
    Seq::new(data.len(), |i: int| data[i]@)
}

/// The concrete types among the first `count` names, in the order of the
/// names. A name that stands for no concrete type is passed over.
pub open spec fn concrete_among(
    types: Map<Seq<char>, SnippetTypeConfigView>,
    names: Seq<Seq<char>>,
    count: nat,
) -> Seq<SnippetTypeView>
    decreases count,
{
    if count == 0 {
        Seq::empty()
    } else {
        let earlier = concrete_among(types, names, (count - 1) as nat);
        match snippet_type_of(types, names[count - 1]) {
            Some(t) => earlier.push(t),
            None => earlier,
        }
    }
}

/// The concrete sources that the type `name` is read from, in order: the
/// sources of a combined type, or the one source of a concrete type. An
/// unknown name is an error.
pub open spec fn sources_of(types: Map<Seq<char>, SnippetTypeConfigView>, name: Seq<char>)
    -> Result<Seq<SnippetTypeView>, SnippetErrorView> {
    match combined_sources_of(types, name) {
        Some(names) => Ok(concrete_among(types, names, names.len())),
        None => match snippet_type_of(types, name) {
            Some(t) => Ok(seq![t]),
            None => Err(SnippetErrorView::UnknownSnippetType { name }),
        },
    }
}

/// What the first `count` sources yield together: the snippets of each, one
/// list after the other in the order of the sources. Nothing is merged and
/// no name is dropped. The first source that fails aborts the whole.
pub open spec fn gathered(
    sources: Seq<SnippetTypeView>,
    loaded: Seq<SourceDataView>,
    count: nat,
) -> ParseOutcome
    decreases count,
{
    if count == 0 {
        Ok(Seq::empty())
    } else {
        match gathered(sources, loaded, (count - 1) as nat) {
            Err(e) => Err(e),
            Ok(earlier) => {
                let source = sources[count - 1];
                match source_outcome(source.format, source.source_file, loaded[count - 1]) {
                    Err(e) => Err(e),
                    Ok(snippets) => Ok(earlier + snippets),
                }
            },
        }
    }
}

/// The message of the error for data that does not match the sources.
pub open spec fn sources_mismatch() -> Seq<char> {
    "the data handed over does not match the sources of the type"@
}

/// What the type `name` yields from `loaded`, the data of its sources in
/// their order. Data for another number of sources is refused.
pub open spec fn snippets_of(
    types: Map<Seq<char>, SnippetTypeConfigView>,
    name: Seq<char>,
    loaded: Seq<SourceDataView>,
) -> ParseOutcome {
    match sources_of(types, name) {
        Err(e) => Err(e),
        Ok(sources) => if sources.len() == loaded.len() {
            gathered(sources, loaded, sources.len())
        } else {
            Err(SnippetErrorView::ParserError(sources_mismatch()))
        },
    }
}

/// Looks up the snippets of a snippet type.
pub struct SnippetManagementService<'a> {
    config: &'a Settings,
}

impl<'a> SnippetManagementService<'a> {
    /// The settings that the service reads.
    pub closed spec fn settings(&self) -> Settings {
        *self.config
    }

    /// A service over the types of `config`.
    pub fn new(config: &'a Settings) -> (service: Self)
        ensures
            service.settings() == *config,
    {
        SnippetManagementService { config }
    }

    /// The concrete sources that have to be read for `snippet_type`, in the
    /// order in which their snippets will appear.
    pub fn sources(&self, snippet_type: &str) -> (result: Result<Vec<SnippetType>, SnippetError>)
        ensures
            match sources_of(self.settings().snippet_types@, snippet_type@) {
                Ok(sources) => result matches Ok(found) && type_views(found@) == sources,
                Err(e) => result matches Err(err) && err@ == e,
            },
    {
        let ghost types = self.settings().snippet_types@;
        match self.config.get_combined_sources(snippet_type) {
            Some(names) => {
                let mut found: Vec<SnippetType> = Vec::new();
                let mut i: usize = 0;
                assert(type_views(found@) =~= Seq::empty());
                while i < names.len()
                    invariant
                        i <= names.len(),
                        types == self.settings().snippet_types@,
                        type_views(found@) == concrete_among(
                            types,
                            string_views(names@),
                            i as nat,
                        ),
                    decreases names.len() - i,
                {
                    let ghost before = type_views(found@);
                    match self.config.get_snippet_type(names[i].as_str()) {
                        Some(t) => {
                            found.push(t);
                            assert(type_views(found@) =~= before.push(t@));
                        },
                        None => {},
                    }
                    i += 1;
                }
                Ok(found)
            },
            None => match self.config.get_snippet_type(snippet_type) {
                Some(t) => {
                    let mut found: Vec<SnippetType> = Vec::new();
                    found.push(t);
                    assert(type_views(found@) =~= seq![t@]);
                    Ok(found)
                },
                None => Err(SnippetError::UnknownSnippetType { name: snippet_type.to_owned() }),
            },
        }
    }

    /// The snippets of one concrete source, from what was read of its file.
    pub fn get_concrete_snippets(&self, snippet_type: &SnippetType, source: &SourceData) -> (result:
        Result<Vec<Snippet>, SnippetError>)
        ensures
            outcome_of(result) == source_outcome(
                snippet_type@.format,
                snippet_type@.source_file,
                source@,
            ),
    {
        parse_source(snippet_type.format, snippet_type.source_file.as_str(), source)
    }

    /// The snippets of `snippet_type`, from `loaded`: what was read of each
    /// of its sources, in the order of [`Self::sources`]. For a combined
    /// type the lists of its sources follow one another in that order.
    pub fn get_snippets(&self, snippet_type: &str, loaded: &Vec<SourceData>) -> (result: Result<
        Vec<Snippet>,
        SnippetError,
    >)
        ensures
            outcome_of(result) == snippets_of(
                self.settings().snippet_types@,
                snippet_type@,
                data_views(loaded@),
            ),
    {
        let sources = match self.sources(snippet_type) {
            Ok(sources) => sources,
            Err(e) => {
                return Err(e);
            },
        };
        if sources.len() != loaded.len() {
            return Err(
                SnippetError::ParserError(
                    "the data handed over does not match the sources of the type".to_owned(),
                ),
            );
        }
        let ghost source_views = type_views(sources@);
        let ghost loaded_views = data_views(loaded@);
        let mut all: Vec<Snippet> = Vec::new();
        let mut i: usize = 0;
        assert(snippet_views(all@) =~= Seq::empty());
        while i < sources.len()
            invariant
                i <= sources.len(),
                sources.len() == loaded.len(),
                source_views == type_views(sources@),
                loaded_views == data_views(loaded@),
                sources_of(self.settings().snippet_types@, snippet_type@) == Ok::<
                    Seq<SnippetTypeView>,
                    SnippetErrorView,
                >(source_views),
                gathered(source_views, loaded_views, i as nat) == Ok::<
                    Seq<SnippetView>,
                    SnippetErrorView,
                >(snippet_views(all@)),
            decreases sources.len() - i,
        {
            let ghost before = snippet_views(all@);
            assert(source_views[i as int] == sources@[i as int]@);
            assert(loaded_views[i as int] == loaded@[i as int]@);
            match self.get_concrete_snippets(&sources[i], &loaded[i]) {
                Err(e) => {
                    proof {
                        assert(gathered(source_views, loaded_views, (i + 1) as nat) is Err);
                        lemma_gathering_error_stays(
                            source_views,
                            loaded_views,
                            (i + 1) as nat,
                            sources.len() as nat,
                        );
                    }
                    return Err(e);
                },
                Ok(mut snippets) => {
                    let ghost added = snippet_views(snippets@);
                    all.append(&mut snippets);
                    assert(snippet_views(all@) =~= before + added);
                },
            }
            i += 1;
        }
        Ok(all)
    }
}

/// Once a source failed, later sources do not change the error.
pub proof fn lemma_gathering_error_stays(
    sources: Seq<SnippetTypeView>,
    loaded: Seq<SourceDataView>,
    count: nat,
    later: nat,
)
    requires
        count <= later,
        gathered(sources, loaded, count) is Err,
    ensures
        gathered(sources, loaded, later) == gathered(sources, loaded, count),
    decreases later,
{
    if count < later {
        lemma_gathering_error_stays(sources, loaded, count, (later - 1) as nat);
    }
}

/// A type that combines two sources yields the snippets of the first and
/// then those of the second: every snippet of either source is there, as it
/// was parsed, and nothing else.
pub proof fn lemma_two_sources(
    sources: Seq<SnippetTypeView>,
    loaded: Seq<SourceDataView>,
    first: Seq<SnippetView>,
    second: Seq<SnippetView>,
)
    requires
        sources.len() == 2,
        loaded.len() == 2,
        source_outcome(sources[0].format, sources[0].source_file, loaded[0]) == Ok::<
            Seq<SnippetView>,
            SnippetErrorView,
        >(first),
        source_outcome(sources[1].format, sources[1].source_file, loaded[1]) == Ok::<
            Seq<SnippetView>,
            SnippetErrorView,
        >(second),
    ensures
        gathered(sources, loaded, 2) == Ok::<Seq<SnippetView>, SnippetErrorView>(first + second),
{
    assert(gathered(sources, loaded, 0) == Ok::<Seq<SnippetView>, SnippetErrorView>(Seq::empty()));
    assert(gathered(sources, loaded, 1) == Ok::<Seq<SnippetView>, SnippetErrorView>(
        Seq::empty() + first,
    ));
    assert(Seq::<SnippetView>::empty() + first =~= first);
}

/// Gathering keeps every list whole and in order: where no source fails,
/// what the first `count` sources yield is what the sources before the last
/// yield, followed by the list of the last.
pub proof fn lemma_gathered_in_order(
    sources: Seq<SnippetTypeView>,
    loaded: Seq<SourceDataView>,
    count: nat,
)
    requires
        count > 0,
        gathered(sources, loaded, count) is Ok,
    ensures
        gathered(sources, loaded, (count - 1) as nat) matches Ok(earlier) && source_outcome(
            sources[count - 1].format,
            sources[count - 1].source_file,
            loaded[count - 1],
        ) matches Ok(last) && gathered(sources, loaded, count) == Ok::<
            Seq<SnippetView>,
            SnippetErrorView,
        >(earlier + last),
{
}

} // verus!
