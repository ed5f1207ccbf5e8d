//! File-name patterns: a template compiled into an expression that finds
//! the language code in the name of a translated file.

use vstd::prelude::*;
use vstd::string::StringExecFns;
use regex::Regex;
use crate::engine::{captures, escaped, pattern_captures, regex_pattern};
use crate::template::{
    has_single_placeholder,
    lemma_template_parts,
    occurs_at,
    placeholder,
    placeholder_position,
    prefix_of,
    split_template,
    suffix_of,
};

verus! {

/// The expression for the names that begin with `prefix`, go on with a
/// language code of two to six letters or underscores, and end with `suffix`.
/// The language code is its group 1.
pub open spec fn expression_of(prefix: Seq<char>, suffix: Seq<char>) -> Seq<char> {
    "^"@ + escaped(prefix) + "([a-z_A-Z]{2,6})"@ + escaped(suffix) + "$"@
}

/// The expression for a template that holds the placeholder exactly once.
pub open spec fn filter_expression_of(template: Seq<char>) -> Seq<char> {
    expression_of(prefix_of(template), suffix_of(template))
}

/// A template made of `prefix`, the placeholder and `suffix`, and holding the
/// placeholder nowhere else, has the expression for the names between
/// `prefix` and `suffix`.
pub proof fn lemma_expression_of_template(prefix: Seq<char>, suffix: Seq<char>)
    requires
        has_single_placeholder(prefix + placeholder() + suffix),
    ensures
        prefix_of(prefix + placeholder() + suffix) == prefix,
        suffix_of(prefix + placeholder() + suffix) == suffix,
        filter_expression_of(prefix + placeholder() + suffix) == expression_of(prefix, suffix),
{
    let template = prefix + placeholder() + suffix;
    let at = prefix.len() as int;
    assert(template.subrange(at, at + 6) =~= placeholder());
    assert(occurs_at(template, at));
    lemma_template_parts(template);
}

/// The text of the group `index` among `groups`, if the search matched, the
/// group exists and it took part in the match.
pub open spec fn group_text(groups: Option<Seq<Option<Seq<char>>>>, index: int) -> Option<
    Seq<char>,
> {
    match groups {
        Some(texts) => if 0 <= index < texts.len() {
            texts[index]
        } else {
            None
        },
        None => None,
    }
}

/// The language code that `expression` finds in `file_name`.
pub open spec fn language_code_in(expression: Seq<char>, file_name: Seq<char>) -> Option<
    Seq<char>,
> {
    group_text(pattern_captures(expression, file_name), 1)
}

/// What one directory entry adds to the files found: its language code and
/// its name, if it has a readable name and the expression finds a code in it.
pub open spec fn entry_match(expression: Seq<char>, entry: Option<Seq<char>>) -> Option<
    (Seq<char>, Seq<char>),
> {
    match entry {
        Some(name) => match language_code_in(expression, name) {
            Some(code) => Some((code, name)),
            None => None,
        },
        None => None,
    }
}

/// `entry_match` for one expression, as a function of the entry.
pub open spec fn entry_matcher(expression: Seq<char>) -> spec_fn(Option<Seq<char>>) -> Option<
    (Seq<char>, Seq<char>),
> {
    |entry: Option<Seq<char>>| entry_match(expression, entry)
}

/// The files that `expression` finds among `entries`, in the order of the
/// entries, each with its language code.
pub open spec fn matched_files(expression: Seq<char>, entries: Seq<Option<Seq<char>>>) -> Seq<
    (Seq<char>, Seq<char>),
> {
    entries.filter_map(entry_matcher(expression))
}

/// `entry` adds a file to those that `expression` finds.
pub open spec fn entry_matches(expression: Seq<char>, entry: Option<Seq<char>>) -> bool {
    entry_match(expression, entry) is Some
}

/// How many of `entries` add a file to those that `expression` finds.
pub open spec fn matching_count(expression: Seq<char>, entries: Seq<Option<Seq<char>>>) -> nat
    decreases entries.len(),
{
    if entries.len() == 0 {
        0
    } else if entry_matches(expression, entries.last()) {
        matching_count(expression, entries.drop_last()) + 1
    } else {
        matching_count(expression, entries.drop_last())
    }
}

/// In a directory without entries no file is found.
pub proof fn lemma_matched_files_of_none(expression: Seq<char>)
    ensures
        matched_files(expression, Seq::empty()) == Seq::<(Seq<char>, Seq<char>)>::empty(),
{
}

/// A directory of one entry has one file found if the entry matches, and
/// none if it does not.
pub proof fn lemma_matched_files_of_one(expression: Seq<char>, entry: Option<Seq<char>>)
    ensures
        matched_files(expression, seq![entry]) == match entry_match(expression, entry) {
            Some(file) => seq![file],
            None => Seq::empty(),
        },
{
    Seq::lemma_filter_map_singleton(entry, entry_matcher(expression));
}

/// The files found among entries listed one after the other are those found
/// among the first, followed by those found among the second: the files come
/// in the order of the entries.
pub proof fn lemma_matched_files_in_order(
    expression: Seq<char>,
    first: Seq<Option<Seq<char>>>,
    second: Seq<Option<Seq<char>>>,
)
    ensures
        matched_files(expression, first + second) == matched_files(expression, first)
            + matched_files(expression, second),
    decreases second.len(),
{
    if second.len() == 0 {
        assert(first + second =~= first);
    } else {
        let shorter = second.drop_last();
        lemma_matched_files_in_order(expression, first, shorter);
        assert((first + second).drop_last() =~= first + shorter);
    }
}

/// As many files are found as there are entries that match, and each file
/// found is what one entry adds.
pub proof fn lemma_matched_files_count(expression: Seq<char>, entries: Seq<Option<Seq<char>>>)
    ensures
        matched_files(expression, entries).len() == matching_count(expression, entries),
        matching_count(expression, entries) <= entries.len(),
        forall|at: int|
            0 <= at < matched_files(expression, entries).len() ==> exists|from: int|
                0 <= from < entries.len() && entry_match(expression, #[trigger] entries[from])
                    == Some(#[trigger] matched_files(expression, entries)[at]),
    decreases entries.len(),
{
    if entries.len() > 0 {
        let shorter = entries.drop_last();
        lemma_matched_files_count(expression, shorter);
        let found = matched_files(expression, entries);
        let before = matched_files(expression, shorter);
        assert forall|at: int| 0 <= at < found.len() implies exists|from: int|
            0 <= from < entries.len() && entry_match(expression, #[trigger] entries[from]) == Some(
                #[trigger] found[at],
            ) by {
            if at < before.len() {
                let from = choose|from: int|
                    0 <= from < shorter.len() && entry_match(expression, #[trigger] shorter[from])
                        == Some(before[at]);
                assert(entries[from] == shorter[from]);
            } else {
                assert(entry_match(expression, entries.last()) == Some(found[at]));
            }
        }
    }
}

/// Builds the expression for the names between `prefix` and `suffix`.
pub fn build_expression(prefix: &str, suffix: &str) -> (expression: String)
    ensures
        expression@ == expression_of(prefix@, suffix@),
{
    let mut expression = String::from_str("^");
    expression.append(regex::escape(prefix).as_str());
    expression.append("([a-z_A-Z]{2,6})");
    expression.append(regex::escape(suffix).as_str());
    expression.append("$");
    expression
}

/// The expression for `template`. A template without the placeholder, or
/// with more than one, has none.
pub fn filter_expression(template: &str) -> (expression: Option<String>)
    ensures
        match expression {
            Some(text) => has_single_placeholder(template@) && text@ == filter_expression_of(
                template@,
            ),
            None => !has_single_placeholder(template@),
        },
{
    match split_template(template) {
        Some((prefix, suffix)) => Some(build_expression(prefix.as_str(), suffix.as_str())),
        None => None,
    }
}

/// Picks the group `index` out of what a search captured.
pub fn captured_group(groups: Option<Vec<Option<String>>>, index: usize) -> (text: Option<String>)
    ensures
        text.deep_view() == group_text(groups.deep_view(), index as int),
{
    match groups {
        Some(texts) => {
            if index < texts.len() {
                texts[index].clone()
            } else {
                None
            }
        },
        None => None,
    }
}

/// Why a template was not compiled into a file-name pattern.
#[derive(Debug)]
pub enum CompileError {
    /// The template does not hold the placeholder exactly once.
    MalformedTemplate,
    /// The engine did not take the expression of the template; this is what
    /// it said.
    Rejected(regex::Error),
}

/// A compiled file-name pattern.
#[derive(Debug)]
pub struct FilterPattern {
    regex: Regex,
}

impl FilterPattern {
    /// The expression that the engine compiled the pattern from. A pattern
    /// made of a regex that was built with options of its own has none.
    pub closed spec fn expression(&self) -> Option<Seq<char>> {
        regex_pattern(self.regex)
    }

    /// Makes a pattern of what the engine returned for an expression: the
    /// pattern where the engine compiled the expression, and the engine's
    /// own words where it did not.
    pub fn from_compiled(compiled: Result<Regex, regex::Error>) -> (pattern: Result<
        FilterPattern,
        CompileError,
    >)
        ensures
            match compiled {
                Ok(regex) => pattern matches Ok(made) && made.expression() == regex_pattern(regex),
                Err(error) => pattern matches Err(CompileError::Rejected(said)) && said == error,
            },
    {
        match compiled {
            Ok(regex) => Ok(FilterPattern { regex }),
            Err(error) => Err(CompileError::Rejected(error)),
        }
    }

    /// The expression that the pattern was compiled from.
    pub fn as_str(&self) -> (source: &str)
        ensures
            self.expression() matches Some(expression) ==> source@ == expression,
    {
        self.regex.as_str()
    }

    /// The language code in `file_name`, if the name fits the pattern.
    pub fn language_code(&self, file_name: &str) -> (code: Option<String>)
        ensures
            self.expression() matches Some(expression) ==> code.deep_view() == language_code_in(
                expression,
                file_name@,
            ),
    {
        captured_group(captures(&self.regex, file_name), 1)
    }
}

/// Compiles `pattern`, a template, into a file-name pattern. A template
/// without the placeholder, or with more than one, is malformed. The
/// expression of any other template goes to the engine, which compiles it or
/// rejects it.
pub fn create_filter_pattern(pattern: &str) -> (compiled: Result<FilterPattern, CompileError>)
    ensures
        !has_single_placeholder(pattern@) <==> compiled matches Err(
            CompileError::MalformedTemplate,
        ),
        compiled matches Ok(made) ==> made.expression() == Some(filter_expression_of(pattern@)),
{
    match filter_expression(pattern) {
        Some(expression) => FilterPattern::from_compiled(Regex::new(expression.as_str())),
        None => Err(CompileError::MalformedTemplate),
    }
}

/// Finds the translated files among the entries of a directory. An entry is
/// the name of a file, or nothing where the name could not be read as text;
/// such an entry is passed over. Each file found comes with its language
/// code, code first, in the order of the entries.
pub fn match_file_names(pattern: &FilterPattern, entries: &Vec<Option<String>>) -> (files: Vec<
    (String, String),
>)
    ensures
        files.len() <= entries.len(),
        pattern.expression() matches Some(expression) ==> files.deep_view() == matched_files(
            expression,
            entries.deep_view(),
        ),
{
    let mut files: Vec<(String, String)> = Vec::new();
    for at in 0..entries.len()
        invariant
            files.len() <= at,
            pattern.expression() matches Some(expression) ==> files.deep_view() == matched_files(
                expression,
                entries.deep_view().take(at as int),
            ),
    {
        proof {
            if let Some(expression) = pattern.expression() {
                entries.deep_view().lemma_filter_map_take_succ(
                    entry_matcher(expression),
                    at as int,
                );
            }
        }
        match &entries[at] {
            Some(name) => {
                match pattern.language_code(name.as_str()) {
                    Some(code) => {
                        files.push((code, name.clone()));
                    },
                    None => {},
                }
            },
            None => {},
        }
    }
    assert(entries.deep_view().take(entries.len() as int) == entries.deep_view());
    files
}

} // verus!
