//! Project configuration: the bot language and the backend address.

use vstd::prelude::*;

verus! {

/// The closed set of supported bot languages. Each language selects a
/// strategy subtree and a template remote for the scaffold.
#[derive(Clone, Copy, Debug, PartialEq, Eq, Structural)]
pub enum Lang {
    Rust,
    Python,
    Java,
}

/// Configuration read from the project marker file: the bot language and
/// the base address of the tournament backend.
pub struct Config {
    pub language: Lang,
    pub api_url: String,
}

/// Lower-case name of each language, as written in the configuration file
/// and in submission requests.
pub open spec fn lang_name_spec(lang: Lang) -> Seq<char> {
    match lang {
        Lang::Rust => "rust"@,
        Lang::Python => "python"@,
        Lang::Java => "java"@,
    }
}

impl Lang {
    /// The language's lower-case name.
    pub fn name(&self) -> (r: &'static str)
        ensures
            r@ == lang_name_spec(*self),
    {
        match self {
            Lang::Rust => "rust",
            Lang::Python => "python",
            Lang::Java => "java",
        }
    }
}

} // verus!
