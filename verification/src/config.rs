//! The registry of snippet types: which names stand for one concrete source
//! and which for an ordered list of other types.

use crate::domain::errors::{SnippetError, SnippetErrorView};
use crate::domain::parser::{format_named, SnippetFormat, SnippetType, SnippetTypeView};
use crate::domain::snippet::clone_strings;
use crate::util::path_utils::{expand_path, expanded_path};
use crate::util::text::{chars_of, same_chars, string_views};
use vstd::prelude::*;

verus! {

/// What is configured under the name of a snippet type.
#[derive(Debug, PartialEq, Eq)]
pub enum SnippetTypeConfig {
    /// One source file in one format.
    Concrete {
        source_file: String,
        description: Option<String>,
        alias: Option<String>,
        format: String,
    },
    /// An ordered list of other type names whose snippets are put together.
    Combined { sources: Vec<String>, description: Option<String>, alias: Option<String> },
}

/// The mathematical value of a [`SnippetTypeConfig`].
pub enum SnippetTypeConfigView {
    Concrete {
        source_file: Seq<char>,
        description: Option<Seq<char>>,
        alias: Option<Seq<char>>,
        format: Seq<char>,
    },
    Combined { sources: Seq<Seq<char>>, description: Option<Seq<char>>, alias: Option<Seq<char>> },
}

/// The value of a text that may be absent.
pub open spec fn optional_view(text: Option<String>) -> Option<Seq<char>> {
    match text {
        Some(t) => Some(t@),
        None => None,
    }
}

impl View for SnippetTypeConfig {
    type V = SnippetTypeConfigView;

    open spec fn view(&self) -> SnippetTypeConfigView {
        match self {
            SnippetTypeConfig::Concrete { source_file, description, alias, format } =>
                SnippetTypeConfigView::Concrete {
                    source_file: source_file@,
                    description: optional_view(*description),
                    alias: optional_view(*alias),
                    format: format@,
                },
            SnippetTypeConfig::Combined { sources, description, alias } =>
                SnippetTypeConfigView::Combined {
                    sources: string_views(sources@),
                    description: optional_view(*description),
                    alias: optional_view(*alias),
                },
        }
    }
}

/// A copy of a text that may be absent.
pub fn clone_optional(text: &Option<String>) -> (copy: Option<String>)
    ensures
        optional_view(copy) == optional_view(*text),
{
    match text {
        Some(t) => Some(t.clone()),
        None => None,
    }
}

impl Clone for SnippetTypeConfig {
    fn clone(&self) -> (copy: Self)
        ensures
            copy@ == self@,
    {
        match self {
            SnippetTypeConfig::Concrete { source_file, description, alias, format } =>
                SnippetTypeConfig::Concrete {
                    source_file: source_file.clone(),
                    description: clone_optional(description),
                    alias: clone_optional(alias),
                    format: format.clone(),
                },
            SnippetTypeConfig::Combined { sources, description, alias } =>
                SnippetTypeConfig::Combined {
                    sources: clone_strings(sources),
                    description: clone_optional(description),
                    alias: clone_optional(alias),
                },
        }
    }
}

/// One entry of the registry.
#[derive(Debug, PartialEq, Eq)]
pub struct TypeEntry {
    pub name: String,
    pub config: SnippetTypeConfig,
}

/// The map that a list of entries stands for: of two entries with one name
/// the earlier counts.
pub open spec fn entries_map(entries: Seq<TypeEntry>) -> Map<Seq<char>, SnippetTypeConfigView>
    decreases entries.len(),
{
    if entries.len() == 0 {
        Map::empty()
    } else {
        let earlier = entries_map(entries.drop_last());
        if earlier.dom().contains(entries.last().name@) {
            earlier
        } else {
            earlier.insert(entries.last().name@, entries.last().config@)
        }
    }
}

/// Whether `i` is the index of the first entry named `name`.
pub open spec fn is_first_entry(entries: Seq<TypeEntry>, name: Seq<char>, i: int) -> bool {
    &&& 0 <= i < entries.len()
    &&& entries[i].name@ == name
    &&& forall|j: int| 0 <= j < i ==> entries[j].name@ != name
}

/// A name that no entry has is not in the map.
pub proof fn lemma_absent_entry(entries: Seq<TypeEntry>, name: Seq<char>)
    requires
        forall|j: int| 0 <= j < entries.len() ==> entries[j].name@ != name,
    ensures
        !entries_map(entries).dom().contains(name),
    decreases entries.len(),
{
    if entries.len() > 0 {
        lemma_absent_entry(entries.drop_last(), name);
    }
}

/// The map holds under a name what the first entry of that name holds.
pub proof fn lemma_first_entry(entries: Seq<TypeEntry>, name: Seq<char>, i: int)
    requires
        is_first_entry(entries, name, i),
    ensures
        entries_map(entries).dom().contains(name),
        entries_map(entries)[name] == entries[i].config@,
    decreases entries.len(),
{
    let earlier = entries.drop_last();
    if i == entries.len() - 1 {
        lemma_absent_entry(earlier, name);
    } else {
        assert(is_first_entry(earlier, name, i));
        lemma_first_entry(earlier, name, i);
    }
}

/// Replacing what the first entry of a name holds replaces what the map
/// holds under that name.
pub proof fn lemma_replace_entry(
    entries: Seq<TypeEntry>,
    name: Seq<char>,
    i: int,
    entry: TypeEntry,
)
    requires
        is_first_entry(entries, name, i),
        entry.name@ == name,
    ensures
        entries_map(entries.update(i, entry)) == entries_map(entries).insert(name, entry.config@),
    decreases entries.len(),
{
    let earlier = entries.drop_last();
    let changed = entries.update(i, entry);
    if i == entries.len() - 1 {
        assert(changed.drop_last() =~= earlier);
        lemma_absent_entry(earlier, name);
        assert(entries_map(changed) =~= entries_map(entries).insert(name, entry.config@));
    } else {
        assert(is_first_entry(earlier, name, i));
        assert(changed.drop_last() =~= earlier.update(i, entry));
        lemma_replace_entry(earlier, name, i, entry);
        lemma_first_entry(earlier, name, i);
        assert(changed.last() == entries.last());
        assert(entries_map(changed) =~= entries_map(entries).insert(name, entry.config@));
    }
}

/// The configured snippet types, by name.
#[derive(Debug, PartialEq, Eq)]
pub struct SnippetTypes {
    entries: Vec<TypeEntry>,
}

impl View for SnippetTypes {
    type V = Map<Seq<char>, SnippetTypeConfigView>;

    closed spec fn view(&self) -> Map<Seq<char>, SnippetTypeConfigView> {
        entries_map(self.entries@)
    }
}

impl SnippetTypes {
    /// The names in the order in which they were first inserted.
    pub closed spec fn names(&self) -> Seq<Seq<char>> {
        Seq::new(self.entries@.len(), |i: int| self.entries@[i].name@)
    }

    /// A registry without any type.
    pub fn new() -> (types: Self)
        ensures
            types@ == Map::<Seq<char>, SnippetTypeConfigView>::empty(),
    {
        SnippetTypes { entries: Vec::new() }
    }

    /// The index of the first entry named `name`.
    fn position(&self, name: &str) -> (found: Option<usize>)
        ensures
            match found {
                Some(i) => is_first_entry(self.entries@, name@, i as int),
                None => forall|j: int| 0 <= j < self.entries@.len() ==> self.entries@[j].name@
                    != name@,
            },
    {
        let wanted = chars_of(name);
        let mut i: usize = 0;
        while i < self.entries.len()
            invariant
                i <= self.entries.len(),
                wanted@ == name@,
                forall|j: int| 0 <= j < i ==> self.entries@[j].name@ != name@,
            decreases self.entries.len() - i,
        {
            if same_chars(&chars_of(self.entries[i].name.as_str()), &wanted) {
                return Some(i);
            }
            i += 1;
        }
        None
    }

    /// Puts `config` under `name`, in place of what stood there.
    pub fn insert(&mut self, name: String, config: SnippetTypeConfig)
        ensures
            final(self)@ == old(self)@.insert(name@, config@),
    {
        let found = self.position(name.as_str());
        let entry = TypeEntry { name, config };
        match found {
            Some(i) => {
                proof {
                    lemma_replace_entry(self.entries@, entry.name@, i as int, entry);
                }
                self.entries.set(i, entry);
            },
            None => {
                proof {
                    lemma_absent_entry(self.entries@, entry.name@);
                }
                let ghost before = self.entries@;
                self.entries.push(entry);
                assert(self.entries@.drop_last() =~= before);
            },
        }
    }

    /// What is configured under `name`.
    pub fn get(&self, name: &str) -> (found: Option<&SnippetTypeConfig>)
        ensures
            match found {
                Some(config) => self@.dom().contains(name@) && self@[name@] == config@,
                None => !self@.dom().contains(name@),
            },
    {
        match self.position(name) {
            Some(i) => {
                proof {
                    lemma_first_entry(self.entries@, name@, i as int);
                }
                Some(&self.entries[i].config)
            },
            None => {
                proof {
                    lemma_absent_entry(self.entries@, name@);
                }
                None
            },
        }
    }

    /// How many entries the registry holds.
    pub fn len(&self) -> (n: usize)
        ensures
            n == self.names().len(),
    {
        self.entries.len()
    }

    /// The name of the `i`-th entry.
    pub fn name_at(&self, i: usize) -> (name: &str)
        requires
            i < self.names().len(),
        ensures
            name@ == self.names()[i as int],
            self@.dom().contains(name@),
    {
        proof {
            lemma_named_entry(self.entries@, i as int);
        }
        self.entries[i].name.as_str()
    }
}

/// Every entry's name is in the map.
pub proof fn lemma_named_entry(entries: Seq<TypeEntry>, i: int)
    requires
        0 <= i < entries.len(),
    ensures
        entries_map(entries).dom().contains(entries[i].name@),
    decreases entries.len(),
{
    if i < entries.len() - 1 {
        lemma_named_entry(entries.drop_last(), i);
    }
}

/// The format of a concrete type that names none.
pub fn default_format() -> (format: String)
    ensures
        format@ == "default"@,
{
    "default".to_owned()
}

/// The registry that is used where nothing is configured: the one type
/// `default`, a default-format file.
pub open spec fn default_types() -> Map<Seq<char>, SnippetTypeConfigView> {
    Map::<Seq<char>, SnippetTypeConfigView>::empty().insert(
        "default"@,
        SnippetTypeConfigView::Concrete {
            source_file: "completion_source.txt"@,
            description: Some("Default snippet type"@),
            alias: None,
            format: "default"@,
        },
    )
}

/// The registry that is used where nothing is configured.
pub fn default_snippet_types() -> (types: SnippetTypes)
    ensures
        types@ == default_types(),
{
    let mut types = SnippetTypes::new();
    types.insert(
        "default".to_owned(),
        SnippetTypeConfig::Concrete {
            source_file: "completion_source.txt".to_owned(),
            description: Some("Default snippet type".to_owned()),
            alias: None,
            format: default_format(),
        },
    );
    types
}

/// The configuration: the snippet types, the places where a configuration
/// file is looked for, and the file that was used.
#[derive(Debug, PartialEq, Eq)]
pub struct Settings {
    pub snippet_types: SnippetTypes,
    pub config_paths: Vec<String>,
    pub active_config_path: Option<String>,
}

/// The concrete source that `config` stands for under `name`; none for a
/// combined type. A format that names no known format counts as the
/// default format.
pub open spec fn concrete_type(name: Seq<char>, config: SnippetTypeConfigView) -> Option<
    SnippetTypeView,
> {
    match config {
        SnippetTypeConfigView::Concrete { source_file, format, .. } => Some(
            SnippetTypeView {
                name,
                source_file,
                format: match format_named(format) {
                    Some(f) => f,
                    None => SnippetFormat::Default,
                },
            },
        ),
        SnippetTypeConfigView::Combined { .. } => None,
    }
}

/// The concrete source that `name` stands for in `types`; none where the
/// name is unknown or stands for a combined type.
pub open spec fn snippet_type_of(types: Map<Seq<char>, SnippetTypeConfigView>, name: Seq<char>)
    -> Option<SnippetTypeView> {
    if types.dom().contains(name) {
        concrete_type(name, types[name])
    } else {
        None
    }
}

/// The ordered source names that `name` stands for in `types`; none where
/// the name is unknown or stands for a concrete type.
pub open spec fn combined_sources_of(
    types: Map<Seq<char>, SnippetTypeConfigView>,
    name: Seq<char>,
) -> Option<Seq<Seq<char>>> {
    if types.dom().contains(name) {
        match types[name] {
            SnippetTypeConfigView::Combined { sources, .. } => Some(sources),
            SnippetTypeConfigView::Concrete { .. } => None,
        }
    } else {
        None
    }
}

impl Default for Settings {
    fn default() -> (settings: Self)
        ensures
            settings.snippet_types@ == default_types(),
            settings.config_paths@.len() == 0,
            settings.active_config_path is None,
    {
        Settings {
            snippet_types: default_snippet_types(),
            config_paths: Vec::new(),
            active_config_path: None,
        }
    }
}

/// What the types `loaded` become once the source file of every concrete
/// type among the first `count` entries has its leading `~` replaced by
/// `home`; the first path that cannot be expanded is the error.
pub open spec fn expanded_entries(loaded: Seq<TypeEntry>, home: Option<Seq<char>>, count: nat)
    -> Result<Map<Seq<char>, SnippetTypeConfigView>, SnippetErrorView>
    decreases count,
{
    if count == 0 {
        Ok(Map::empty())
    } else {
        match expanded_entries(loaded, home, (count - 1) as nat) {
            Err(e) => Err(e),
            Ok(done) => {
                let entry = loaded[count - 1];
                match entry.config@ {
                    SnippetTypeConfigView::Concrete { source_file, description, alias, format } =>
                        match expanded_path(source_file, home) {
                            Err(e) => Err(e),
                            Ok(path) => Ok(
                                done.insert(
                                    entry.name@,
                                    SnippetTypeConfigView::Concrete {
                                        source_file: path,
                                        description,
                                        alias,
                                        format,
                                    },
                                ),
                            ),
                        },
                    combined => Ok(done.insert(entry.name@, combined)),
                }
            },
        }
    }
}

impl Settings {
    /// The settings made of what was loaded: the types `loaded`, of which a
    /// later one replaces an earlier one of the same name, with the source
    /// file of every concrete type expanded against the home directory
    /// `home`.
    pub fn new(
        loaded: Vec<TypeEntry>,
        config_paths: Vec<String>,
        active_config_path: Option<String>,
        home: Option<&str>,
    ) -> (result: Result<Settings, SnippetError>)
        ensures
            match expanded_entries(
                loaded@,
                match home {
                    Some(h) => Some(h@),
                    None => None,
                },
                loaded.len() as nat,
            ) {
                Ok(types) => result matches Ok(settings) && settings.snippet_types@ == types
                    && settings.config_paths == config_paths && settings.active_config_path
                    == active_config_path,
                Err(e) => result matches Err(err) && err@ == e,
            },
    {
        let ghost home_view: Option<Seq<char>> = match home {
            Some(h) => Some(h@),
            None => None,
        };
        let mut types = SnippetTypes::new();
        let mut i: usize = 0;
        while i < loaded.len()
            invariant
                i <= loaded.len(),
                home_view == match home {
                    Some(h) => Some(h@),
                    None => None,
                },
                expanded_entries(loaded@, home_view, i as nat) == Ok::<
                    Map<Seq<char>, SnippetTypeConfigView>,
                    SnippetErrorView,
                >(types@),
            decreases loaded.len() - i,
        {
            let entry = &loaded[i];
            match &entry.config {
                SnippetTypeConfig::Concrete { source_file, description, alias, format } => {
                    match expand_path(source_file.as_str(), home) {
                        Err(e) => {
                            proof {
                                lemma_expansion_error_stays(
                                    loaded@,
                                    home_view,
                                    (i + 1) as nat,
                                    loaded.len() as nat,
                                );
                            }
                            return Err(e);
                        },
                        Ok(path) => {
                            types.insert(
                                entry.name.clone(),
                                SnippetTypeConfig::Concrete {
                                    source_file: path,
                                    description: clone_optional(description),
                                    alias: clone_optional(alias),
                                    format: format.clone(),
                                },
                            );
                        },
                    }
                },
                SnippetTypeConfig::Combined { .. } => {
                    types.insert(entry.name.clone(), entry.config.clone());
                },
            }
            i += 1;
        }
        Ok(Settings { snippet_types: types, config_paths, active_config_path })
    }

    /// The concrete source that `name` stands for; none where the name is
    /// unknown or stands for a combined type.
    pub fn get_snippet_type(&self, name: &str) -> (found: Option<SnippetType>)
        ensures
            match snippet_type_of(self.snippet_types@, name@) {
                Some(t) => found matches Some(f) && f@ == t,
                None => found is None,
            },
    {
        match self.snippet_types.get(name) {
            Some(SnippetTypeConfig::Concrete { source_file, format, .. }) => {
                let format = match SnippetFormat::from_str(format.as_str()) {
                    Some(f) => f,
                    None => SnippetFormat::Default,
                };
                Some(SnippetType { name: name.to_owned(), source_file: source_file.clone(), format })
            },
            Some(SnippetTypeConfig::Combined { .. }) => None,
            None => None,
        }
    }

    /// The ordered source names that `name` stands for; none where the name
    /// is unknown or stands for a concrete type.
    pub fn get_combined_sources(&self, name: &str) -> (found: Option<Vec<String>>)
        ensures
            match combined_sources_of(self.snippet_types@, name@) {
                Some(sources) => found matches Some(f) && string_views(f@) == sources,
                None => found is None,
            },
    {
        match self.snippet_types.get(name) {
            Some(SnippetTypeConfig::Combined { sources, .. }) => Some(clone_strings(sources)),
            _ => None,
        }
    }
}

/// Once a path could not be expanded, later entries do not change the error.
pub proof fn lemma_expansion_error_stays(
    loaded: Seq<TypeEntry>,
    home: Option<Seq<char>>,
    count: nat,
    later: nat,
)
    requires
        count <= later,
        expanded_entries(loaded, home, count) is Err,
    ensures
        expanded_entries(loaded, home, later) == expanded_entries(loaded, home, count),
    decreases later,
{
    if count < later {
        lemma_expansion_error_stays(loaded, home, count, (later - 1) as nat);
    }
}

/// The concrete source that `name` stands for in `config`, or the error
/// that the name stands for none.
pub fn get_snippet_type(config: &Settings, name: &str) -> (result: Result<SnippetType, SnippetError>)
    ensures
        match snippet_type_of(config.snippet_types@, name@) {
            Some(t) => result matches Ok(f) && f@ == t,
            None => result matches Err(e) && e@ == (SnippetErrorView::UnknownSnippetType {
                name: name@,
            }),
        },
{
    match config.get_snippet_type(name) {
        Some(t) => Ok(t),
        None => Err(SnippetError::UnknownSnippetType { name: name.to_owned() }),
    }
}

} // verus!
