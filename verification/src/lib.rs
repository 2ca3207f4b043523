//! Companion tool core for a competitive-bot tournament platform.
//!
//! The verified library holds the decision logic of the tool: which external
//! version-control commands to issue, how to interpret their results, the
//! staleness checks for the tool binary and the project scaffold, and the
//! state machine that orchestrates the scaffold synchronization sequence.
//! Process execution, file access and network traffic live outside the
//! library and hand it plain values.

pub mod api;
pub mod cli;
pub mod config;
pub mod parse;
pub mod runner;
pub mod sync;
pub mod update;
pub mod version;

use vstd::prelude::*;

verus! {

use crate::config::{Config, Lang};

/// Name of the project marker / configuration file at the project root.
pub fn config_file_name() -> (r: &'static str)
    ensures
        r@ == "mm-config.toml"@,
{
    "mm-config.toml"
}

/// Name of the file holding the saved authentication token.
pub fn token_file_name() -> (r: &'static str)
    ensures
        r@ == ".mm-token.txt"@,
{
    ".mm-token.txt"
}

/// A directory is the project root exactly when the marker file is among
/// its entries.
pub fn is_project_root(entries: &Vec<String>) -> (r: bool)
    ensures
        r == exists|i: int| 0 <= i < entries@.len() && entries@[i]@ == "mm-config.toml"@,
{
    let mut i: usize = 0;
    while i < entries.len()
        invariant
            0 <= i <= entries@.len(),
            forall|j: int| 0 <= j < i ==> entries@[j]@ != "mm-config.toml"@,
        decreases entries@.len() - i,
    {
        if crate::parse::str_eq(entries[i].as_str(), "mm-config.toml") {
            return true;
        }
        i += 1;
    }
    false
}

/// The strategy subtree of each language: the one part of the working tree
/// that synchronization must leave unchanged.
pub open spec fn strategy_rel_path_spec(lang: Lang) -> Seq<char> {
    match lang {
        Lang::Rust => "src/strategy"@,
        Lang::Python => "strategy"@,
        Lang::Java => "src/com/bot/strategy"@,
    }
}

/// Relative path of the protected strategy subtree for the configured
/// language.
pub fn strategy_path(config: &Config) -> (r: String)
    ensures
        r@ == strategy_rel_path_spec(config.language),
{
    String::from_str(
        match config.language {
            Lang::Rust => "src/strategy",
            Lang::Python => "strategy",
            Lang::Java => "src/com/bot/strategy",
        },
    )
}

/// Absolute path of the protected strategy subtree under the given project
/// root.
pub fn abs_strategy_path(root: &str, config: &Config) -> (r: String)
    ensures
        r@ == root@ + "/"@ + strategy_rel_path_spec(config.language),
{
    let p = strategy_path(config);
    String::from_str(root).concat("/").concat(p.as_str())
}

/// Name of a build or run script: the base name, with the batch extension
/// on Windows.
pub fn script_file_name(base: &str, windows: bool) -> (r: String)
    ensures
        windows ==> r@ == base@ + ".bat"@,
        !windows ==> r@ == base@,
{
    if windows {
        String::from_str(base).concat(".bat")
    } else {
        String::from_str(base)
    }
}

/// Name of the game-log file written for a local match, from a timestamp.
pub fn log_file_name(stamp: &str) -> (r: String)
    ensures
        r@ == "log-"@ + stamp@ + ".mmgl"@,
{
    String::from_str("log-").concat(stamp).concat(".mmgl")
}

} // verus!
