//! The `transifex.yaml` file of a project: its filters and settings, the
//! `.tx/config` file that says the same, and the translated files that a
//! filter names.
//!
//! Format of the file:
//! <https://help.transifex.com/en/articles/6265125-github-installation-and-configuration>

use vstd::prelude::*;
use crate::pattern::{
    create_filter_pattern,
    filter_expression_of,
    match_file_names,
    matched_files,
    FilterPattern,
};
use crate::path::{directory_of, file_name_of, split_path};
use crate::template::has_single_placeholder;
use crate::tx_config_file::{
    SectionMainView,
    SectionResourceView,
    TxConfig,
    TxConfigSectionMain,
    TxConfigSectionResource,
    TxConfigView,
};

verus! {

/// One filter of a `transifex.yaml` file: a source file and the template
/// that names its translations.
#[derive(Debug, PartialEq, Eq)]
pub struct Filter {
    /// The `filter_type` key.
    pub type_attr: String,
    /// The `source_file` key.
    pub source: String,
    /// The `file_format` key.
    pub format: String,
    /// The `source_language` key.
    pub source_lang: String,
    /// The `translation_files_expression` key.
    pub target_pattern: String,
}

/// What a filter says.
pub struct FilterView {
    pub type_attr: Seq<char>,
    pub source: Seq<char>,
    pub format: Seq<char>,
    pub source_lang: Seq<char>,
    pub target_pattern: Seq<char>,
}

impl FilterView {
    /// The template for the names of the translated files: the file name of
    /// the target pattern, if it has one.
    pub open spec fn target_file_name(self) -> Option<Seq<char>> {
        file_name_of(self.target_pattern)
    }

    /// The directory of the translated files, as the target pattern gives
    /// it.
    pub open spec fn target_directory(self) -> Seq<char> {
        directory_of(self.target_pattern)
    }

    /// The translated files can be told by their names: the target pattern
    /// has a file name, and it holds the placeholder exactly once.
    pub open spec fn matchable(self) -> bool {
        self.target_file_name() matches Some(name) && has_single_placeholder(name)
    }

    /// The expression for the names of the translated files of a matchable
    /// filter.
    pub open spec fn target_expression(self) -> Seq<char> {
        match self.target_file_name() {
            Some(name) => filter_expression_of(name),
            None => Seq::empty(),
        }
    }
}

impl View for Filter {
    type V = FilterView;

    open spec fn view(&self) -> FilterView {
        FilterView {
            type_attr: self.type_attr@,
            source: self.source@,
            format: self.format@,
            source_lang: self.source_lang@,
            target_pattern: self.target_pattern@,
        }
    }
}

impl DeepView for Filter {
    type V = FilterView;

    open spec fn deep_view(&self) -> FilterView {
        self@
    }
}

/// The settings of a `transifex.yaml` file.
#[derive(Debug, PartialEq, Eq)]
pub struct Settings {
    /// The `pr_branch_name` key.
    pub branch_template: String,
}

/// What the settings say.
pub struct SettingsView {
    pub branch_template: Seq<char>,
}

impl View for Settings {
    type V = SettingsView;

    open spec fn view(&self) -> SettingsView {
        SettingsView { branch_template: self.branch_template@ }
    }
}

impl DeepView for Settings {
    type V = SettingsView;

    open spec fn deep_view(&self) -> SettingsView {
        self@
    }
}

/// A `transifex.yaml` file.
#[derive(Debug, PartialEq, Eq)]
pub struct TransifexYaml {
    pub filters: Vec<Filter>,
    pub settings: Settings,
}

/// What a `transifex.yaml` file says.
pub struct TransifexYamlView {
    pub filters: Seq<FilterView>,
    pub settings: SettingsView,
}

impl View for TransifexYaml {
    type V = TransifexYamlView;

    open spec fn view(&self) -> TransifexYamlView {
        TransifexYamlView { filters: self.filters.deep_view(), settings: self.settings@ }
    }
}

impl DeepView for TransifexYaml {
    type V = TransifexYamlView;

    open spec fn deep_view(&self) -> TransifexYamlView {
        self@
    }
}

/// One line of the table that tells which Transifex resource serves a file
/// of a repository.
#[derive(Debug, PartialEq, Eq)]
pub struct TxResourceLookupEntry {
    pub repository: String,
    /// Git branch name, not Transifex branch name.
    pub branch: String,
    pub resource: String,
    /// Full slug, `o:org:p:proj:r:res`.
    pub transifex_resource_id: String,
}

/// What a line of the lookup table says.
pub struct LookupEntryView {
    pub repository: Seq<char>,
    pub branch: Seq<char>,
    pub resource: Seq<char>,
    pub transifex_resource_id: Seq<char>,
}

impl View for TxResourceLookupEntry {
    type V = LookupEntryView;

    open spec fn view(&self) -> LookupEntryView {
        LookupEntryView {
            repository: self.repository@,
            branch: self.branch@,
            resource: self.resource@,
            transifex_resource_id: self.transifex_resource_id@,
        }
    }
}

impl DeepView for TxResourceLookupEntry {
    type V = LookupEntryView;

    open spec fn deep_view(&self) -> LookupEntryView {
        self@
    }
}

/// The host that every converted file names.
pub open spec fn transifex_host() -> Seq<char> {
    "https://www.transifex.com"@
}

/// The slug that stands for a resource that the lookup table does not know.
pub open spec fn unresolved_slug() -> Seq<char> {
    "o:unknown-org:p:unknown-proj:r:unknown-res"@
}

/// The line `entry` is about the file `resource` of `repository`.
pub open spec fn entry_serves(
    entry: LookupEntryView,
    repository: Seq<char>,
    resource: Seq<char>,
) -> bool {
    entry.repository == repository && entry.resource == resource
}

/// The line at `at` is the first of `table` about the file `resource` of
/// `repository`.
pub open spec fn first_serving(
    table: Seq<LookupEntryView>,
    repository: Seq<char>,
    resource: Seq<char>,
    at: int,
) -> bool {
    &&& 0 <= at < table.len()
    &&& entry_serves(table[at], repository, resource)
    &&& forall|earlier: int|
        0 <= earlier < at ==> !entry_serves(#[trigger] table[earlier], repository, resource)
}

/// The slug of the resource that serves the file `resource` of `repository`:
/// that of the first line of `table` about it, and the unresolved slug where
/// there is no such line.
pub open spec fn resolved_slug(
    table: Seq<LookupEntryView>,
    repository: Seq<char>,
    resource: Seq<char>,
) -> Seq<char> {
    if exists|at: int| first_serving(table, repository, resource, at) {
        table[choose|at: int| first_serving(table, repository, resource, at)].transifex_resource_id
    } else {
        unresolved_slug()
    }
}

/// Where the lookup table has lines about a file, the first of them gives
/// the slug.
pub proof fn lemma_resolved_by_first_entry(
    table: Seq<LookupEntryView>,
    repository: Seq<char>,
    resource: Seq<char>,
    at: int,
)
    requires
        first_serving(table, repository, resource, at),
    ensures
        resolved_slug(table, repository, resource) == table[at].transifex_resource_id,
{
    let chosen = choose|first: int| first_serving(table, repository, resource, first);
    assert(chosen == at);
}

/// Where exactly one line of the lookup table is about a file, that line
/// gives the slug, wherever in the table it stands.
pub proof fn lemma_resolved_by_only_entry(
    table: Seq<LookupEntryView>,
    repository: Seq<char>,
    resource: Seq<char>,
    at: int,
)
    requires
        0 <= at < table.len(),
        entry_serves(table[at], repository, resource),
        forall|other: int|
            0 <= other < table.len() && other != at ==> !entry_serves(
                #[trigger] table[other],
                repository,
                resource,
            ),
    ensures
        resolved_slug(table, repository, resource) == table[at].transifex_resource_id,
{
    lemma_resolved_by_first_entry(table, repository, resource, at);
}

/// Where no line of the lookup table is about a file, and so where the table
/// is empty, the slug is the unresolved one.
pub proof fn lemma_unresolved_without_entry(
    table: Seq<LookupEntryView>,
    repository: Seq<char>,
    resource: Seq<char>,
)
    requires
        forall|at: int|
            0 <= at < table.len() ==> !entry_serves(#[trigger] table[at], repository, resource),
    ensures
        resolved_slug(table, repository, resource) == unresolved_slug(),
{
}

/// The resource section that stands for `filter` in the converted file.
pub open spec fn resource_section_of(
    filter: FilterView,
    repository: Seq<char>,
    table: Seq<LookupEntryView>,
) -> SectionResourceView {
    SectionResourceView {
        resource_full_slug: resolved_slug(table, repository, filter.source),
        file_filter: filter.target_pattern,
        source_file: filter.source,
        source_lang: filter.source_lang,
        type_attr: filter.format,
    }
}

/// The `.tx/config` file that says what the `transifex.yaml` file `file`
/// says, for the repository `repository` and the lookup table `table`: the
/// main section names the Transifex host, and each filter has its resource
/// section, in the order of the filters.
pub open spec fn converted(
    file: TransifexYamlView,
    repository: Seq<char>,
    table: Seq<LookupEntryView>,
) -> TxConfigView {
    TxConfigView {
        main_section: SectionMainView { host: transifex_host() },
        resource_sections: file.filters.map_values(
            |filter: FilterView| resource_section_of(filter, repository, table),
        ),
    }
}

/// The converted file has as many resource sections as the file has
/// filters, and the section at each place is that of the filter at the same
/// place: it names the filter's source file, source language, format and
/// target pattern as they stand.
pub proof fn lemma_sections_follow_filters(
    file: TransifexYamlView,
    repository: Seq<char>,
    table: Seq<LookupEntryView>,
)
    ensures
        converted(file, repository, table).resource_sections.len() == file.filters.len(),
        forall|at: int|
            0 <= at < file.filters.len() ==> {
                let section = #[trigger] converted(file, repository, table).resource_sections[at];
                &&& section == resource_section_of(file.filters[at], repository, table)
                &&& section.source_file == file.filters[at].source
                &&& section.source_lang == file.filters[at].source_lang
                &&& section.type_attr == file.filters[at].format
                &&& section.file_filter == file.filters[at].target_pattern
            },
{
}

/// Looks up the slug of the resource that serves the file `resource` of
/// `repository`.
pub fn resolve_slug(
    lookup_table: &Vec<TxResourceLookupEntry>,
    repository: &String,
    resource: &String,
) -> (slug: String)
    ensures
        slug@ == resolved_slug(lookup_table.deep_view(), repository@, resource@),
{
    let ghost table = lookup_table.deep_view();
    for at in 0..lookup_table.len()
        invariant
            table == lookup_table.deep_view(),
            forall|earlier: int|
                0 <= earlier < at ==> !entry_serves(#[trigger] table[earlier], repository@, resource@),
    {
        let entry = &lookup_table[at];
        if entry.repository == *repository && entry.resource == *resource {
            proof {
                lemma_resolved_by_first_entry(table, repository@, resource@, at as int);
            }
            return entry.transifex_resource_id.clone();
        }
    }
    "o:unknown-org:p:unknown-proj:r:unknown-res".to_owned()
}

/// Why the translated files of a filter were not looked for.
#[derive(Debug, Clone, Copy, PartialEq, Eq)]
pub enum MatchError {
    /// The target pattern has no file name: it ends in `..`, or it is the
    /// root directory.
    FileNameNotFound,
    /// The file name of the target pattern does not hold the placeholder
    /// exactly once, or the engine did not take its expression.
    FilterPatternNotValid,
}

impl MatchError {
    /// What the error says, in words.
    pub open spec fn message_of(self) -> Seq<char> {
        match self {
            MatchError::FileNameNotFound => "File name not found"@,
            MatchError::FilterPatternNotValid => "Filter pattern not valid"@,
        }
    }

    /// What the error says, in words.
    pub fn message(&self) -> (text: &'static str)
        ensures
            text@ == self.message_of(),
    {
        match self {
            MatchError::FileNameNotFound => "File name not found",
            MatchError::FilterPatternNotValid => "Filter pattern not valid",
        }
    }
}

impl Filter {
    /// The resource section that stands for this filter.
    pub fn to_resource_section(
        &self,
        github_repository: &String,
        lookup_table: &Vec<TxResourceLookupEntry>,
    ) -> (section: TxConfigSectionResource)
        ensures
            section@ == resource_section_of(self@, github_repository@, lookup_table.deep_view()),
    {
        TxConfigSectionResource {
            resource_full_slug: resolve_slug(lookup_table, github_repository, &self.source),
            file_filter: self.target_pattern.clone(),
            source_file: self.source.clone(),
            source_lang: self.source_lang.clone(),
            type_attr: self.format.clone(),
        }
    }

    /// The directory of the translated files, as the target pattern gives
    /// it: what stands before the file name, relative to the project root
    /// unless it begins with `/`.
    pub fn target_directory(&self) -> (directory: String)
        ensures
            directory@ == self@.target_directory(),
    {
        split_path(self.target_pattern.as_str()).0
    }

    /// The template for the names of the translated files: the file name of
    /// the target pattern, if it has one.
    pub fn target_file_name(&self) -> (file_name: Option<String>)
        ensures
            file_name.deep_view() == self@.target_file_name(),
    {
        split_path(self.target_pattern.as_str()).1
    }

    /// Compiles the template for the names of the translated files into a
    /// file-name pattern. A target pattern without a file name fails with
    /// `FileNameNotFound`; a file name that does not hold the placeholder
    /// exactly once fails with `FilterPatternNotValid`, and so does one
    /// whose expression the engine rejects.
    pub fn target_file_pattern(&self) -> (compiled: Result<FilterPattern, MatchError>)
        ensures
            self@.target_file_name() is None <==> compiled matches Err(
                MatchError::FileNameNotFound,
            ),
            self@.target_file_name() matches Some(name) && !has_single_placeholder(name)
                ==> compiled matches Err(MatchError::FilterPatternNotValid),
            compiled matches Ok(pattern) ==> self@.matchable() && pattern.expression() == Some(
                self@.target_expression(),
            ),
    {
        match self.target_file_name() {
            None => Err(MatchError::FileNameNotFound),
            Some(file_name) => match create_filter_pattern(file_name.as_str()) {
                Ok(pattern) => Ok(pattern),
                Err(_) => Err(MatchError::FilterPatternNotValid),
            },
        }
    }

    /// Finds the translated files of this filter among the entries of its
    /// target directory. An entry is the name of a file, or nothing where the
    /// name could not be read as text; such an entry is passed over. Each
    /// file found comes with its language code, code first, in the order of
    /// the entries. Where the target pattern is not matchable the error
    /// comes whatever the entries are.
    pub fn match_target_files(&self, entries: &Vec<Option<String>>) -> (found: Result<
        Vec<(String, String)>,
        MatchError,
    >)
        ensures
            self@.target_file_name() is None <==> found matches Err(
                MatchError::FileNameNotFound,
            ),
            self@.target_file_name() matches Some(name) && !has_single_placeholder(name)
                ==> found matches Err(MatchError::FilterPatternNotValid),
            found matches Ok(files) ==> self@.matchable() && files.deep_view() == matched_files(
                self@.target_expression(),
                entries.deep_view(),
            ),
    {
        match self.target_file_pattern() {
            Ok(pattern) => Ok(match_file_names(&pattern, entries)),
            Err(error) => Err(error),
        }
    }
}

impl TransifexYaml {
    /// Converts the file into a `.tx/config` file: one resource section for
    /// each filter, in the order of the filters, under a main section that
    /// names the Transifex host. The settings have no place in it.
    pub fn to_tx_config(
        &self,
        github_repository: String,
        lookup_table: Vec<TxResourceLookupEntry>,
    ) -> (config: TxConfig)
        ensures
            config@ == converted(self@, github_repository@, lookup_table.deep_view()),
    {
        let mut resource_sections: Vec<TxConfigSectionResource> = Vec::new();
        for at in 0..self.filters.len()
            invariant
                resource_sections.len() == at,
                forall|done: int|
                    0 <= done < at ==> (#[trigger] resource_sections[done])@ == resource_section_of(
                        self.filters[done]@,
                        github_repository@,
                        lookup_table.deep_view(),
                    ),
        {
            let section = self.filters[at].to_resource_section(&github_repository, &lookup_table);
            resource_sections.push(section);
        }
        let config = TxConfig {
            main_section: TxConfigSectionMain { host: "https://www.transifex.com".to_owned() },
            resource_sections,
        };
        assert(config@.resource_sections =~= converted(
            self@,
            github_repository@,
            lookup_table.deep_view(),
        ).resource_sections);
        config
    }
}

} // verus!
