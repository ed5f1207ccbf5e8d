//! Finding the `transifex.yaml` file of a project.
//!
//! The file is looked for in the project root first and in the `.tx`
//! directory below it second. Reading and parsing are the caller's part: it
//! reports what it found at each place, and the rules here say what follows.

use vstd::prelude::*;
use crate::yaml_file::TransifexYaml;

verus! {

/// `std::io::Error`, the reason why a file was not read. Its contents are not
/// looked into.
#[verifier::external_type_specification]
#[verifier::external_body]
pub struct ExIoError(std::io::Error);

/// `serde_yml::Error`, the reason why a text was not taken as YAML of the
/// right shape. Its contents are not looked into.
#[verifier::external_type_specification]
#[verifier::external_body]
pub struct ExYamlError(serde_yml::Error);

/// Why no `transifex.yaml` file was loaded.
#[derive(Debug)]
pub enum TxYamlLoadError {
    /// There is no such file.
    FileNotFound,
    /// The file was not read.
    ReadFile(std::io::Error),
    /// The file does not hold what a `transifex.yaml` file holds.
    Serde(serde_yml::Error),
}

/// A place where the file is looked for.
#[derive(Debug, Clone, Copy, PartialEq, Eq)]
pub enum YamlLocation {
    /// `transifex.yaml` in the project root.
    ProjectRoot,
    /// `transifex.yaml` in the `.tx` directory of the project root.
    TxDirectory,
}

impl YamlLocation {
    /// The path of the file below the project root, one component after the
    /// other.
    pub open spec fn components_of(self) -> Seq<Seq<char>> {
        match self {
            YamlLocation::ProjectRoot => seq!["transifex.yaml"@],
            YamlLocation::TxDirectory => seq![".tx"@, "transifex.yaml"@],
        }
    }

    /// The path of the file below the project root, one component after the
    /// other.
    pub fn components(&self) -> (parts: Vec<&'static str>)
        ensures
            parts.deep_view() == self.components_of(),
    {
        let mut parts: Vec<&'static str> = Vec::new();
        match self {
            YamlLocation::ProjectRoot => {},
            YamlLocation::TxDirectory => {
                parts.push(".tx");
            },
        }
        parts.push("transifex.yaml");
        parts
    }
}

/// What the caller found at one place.
#[derive(Debug)]
pub enum YamlProbe {
    /// No file is there.
    NotAFile,
    /// A file is there and was not read.
    Unreadable(std::io::Error),
    /// A file is there, was read, and does not hold what it should.
    Malformed(serde_yml::Error),
    /// A file is there and this is what it holds.
    Loaded(TransifexYaml),
}

/// What a look at one place comes to: the file, or the error that says why
/// there is none.
pub open spec fn outcome_of(found: YamlProbe) -> Result<TransifexYaml, TxYamlLoadError> {
    match found {
        YamlProbe::NotAFile => Err(TxYamlLoadError::FileNotFound),
        YamlProbe::Unreadable(error) => Err(TxYamlLoadError::ReadFile(error)),
        YamlProbe::Malformed(error) => Err(TxYamlLoadError::Serde(error)),
        YamlProbe::Loaded(file) => Ok(file),
    }
}

/// The outcome of a look at `place`, with the place added to the file.
pub open spec fn outcome_at(place: YamlLocation, found: YamlProbe) -> Result<
    (YamlLocation, TransifexYaml),
    TxYamlLoadError,
> {
    match outcome_of(found) {
        Ok(file) => Ok((place, file)),
        Err(error) => Err(error),
    }
}

/// What the looks at both places come to: the outcome at the first of them
/// where a file is, the project root before its `.tx` directory, and
/// `FileNotFound` where neither has a file.
pub open spec fn first_outcome(at_root: YamlProbe, at_tx_directory: YamlProbe) -> Result<
    (YamlLocation, TransifexYaml),
    TxYamlLoadError,
> {
    if !(at_root is NotAFile) {
        outcome_at(YamlLocation::ProjectRoot, at_root)
    } else if !(at_tx_directory is NotAFile) {
        outcome_at(YamlLocation::TxDirectory, at_tx_directory)
    } else {
        Err(TxYamlLoadError::FileNotFound)
    }
}

/// Says what a look at one place comes to: the file, or the error that says
/// why there is none.
pub fn load_tx_yaml_file(found: YamlProbe) -> (loaded: Result<TransifexYaml, TxYamlLoadError>)
    ensures
        loaded == outcome_of(found),
{
    match found {
        YamlProbe::NotAFile => Err(TxYamlLoadError::FileNotFound),
        YamlProbe::Unreadable(error) => Err(TxYamlLoadError::ReadFile(error)),
        YamlProbe::Malformed(error) => Err(TxYamlLoadError::Serde(error)),
        YamlProbe::Loaded(file) => Ok(file),
    }
}

/// Picks the `transifex.yaml` file of a project: the one in the project
/// root if a file is there, else the one in the `.tx` directory. The file
/// comes with the place it was found at. A file that is there and cannot be
/// read or parsed is an error of its own and is not passed over for the
/// other place; where a file is in the project root, what is in the `.tx`
/// directory has no say, and the caller need not have looked there.
pub fn try_laod_transifex_yaml_file(at_root: YamlProbe, at_tx_directory: YamlProbe) -> (loaded:
    Result<(YamlLocation, TransifexYaml), TxYamlLoadError>)
    ensures
        loaded == first_outcome(at_root, at_tx_directory),
{
    if !matches!(at_root, YamlProbe::NotAFile) {
        return match load_tx_yaml_file(at_root) {
            Ok(file) => Ok((YamlLocation::ProjectRoot, file)),
            Err(error) => Err(error),
        };
    }
    if !matches!(at_tx_directory, YamlProbe::NotAFile) {
        return match load_tx_yaml_file(at_tx_directory) {
            Ok(file) => Ok((YamlLocation::TxDirectory, file)),
            Err(error) => Err(error),
        };
    }
    Err(TxYamlLoadError::FileNotFound)
}

/// A file in the project root decides, whatever is in the `.tx` directory;
/// and a missing file is reported only where both places have none.
pub proof fn lemma_project_root_first(at_root: YamlProbe, at_tx_directory: YamlProbe)
    ensures
        !(at_root is NotAFile) ==> first_outcome(at_root, at_tx_directory) == first_outcome(
            at_root,
            YamlProbe::NotAFile,
        ),
        first_outcome(at_root, at_tx_directory) == Err::<
            (YamlLocation, TransifexYaml),
            TxYamlLoadError,
        >(TxYamlLoadError::FileNotFound) <==> at_root is NotAFile && at_tx_directory is NotAFile,
{
}

} // verus!
