//! From `transifex.yaml` to `.tx/config`.
//!
//! A project that is translated on Transifex through its GitHub integration
//! describes itself in a `transifex.yaml` file: a list of filters, each
//! naming a source file and the template for the names of its translations.
//! The Transifex client reads a `.tx/config` file instead, with one section
//! for each resource. This library makes the second of the first
//! ([`yaml_file::TransifexYaml::to_tx_config`]) and finds the translated
//! files that a filter names among the entries of a directory
//! ([`yaml_file::Filter::match_target_files`]).
//!
//! It reads no file and lists no directory: the caller hands over what it
//! read and listed.

pub mod engine;
pub mod load;
pub mod path;
pub mod pattern;
pub mod template;
pub mod tx_config_file;
pub mod yaml_file;

pub use load::{load_tx_yaml_file, try_laod_transifex_yaml_file, TxYamlLoadError};
pub use pattern::{create_filter_pattern, CompileError, FilterPattern};
pub use tx_config_file::{TxConfig, TxConfigSectionMain, TxConfigSectionResource};
pub use yaml_file::{Filter, MatchError, Settings, TransifexYaml, TxResourceLookupEntry};
