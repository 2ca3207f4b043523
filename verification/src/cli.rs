//! Plain images of the command-line options that reach the library's
//! logic. Argument parsing itself lives outside the library and converts
//! into these.

use vstd::prelude::*;

verus! {

/// Options of the match-running command.
#[derive(Clone, Copy, Debug)]
pub struct Run {
    /// Suppress bot output.
    pub quiet: bool,
}

/// Options of the version-switching subcommand.
#[derive(Clone, Copy, Debug)]
pub struct Switch {
    /// The requested version; prompted for interactively when absent.
    pub version: Option<crate::version::Version>,
}

/// The version-management subcommands.
#[derive(Clone, Copy, Debug)]
pub enum VersionCommands {
    List,
    Switch(Switch),
}

/// Options of the version-management command.
#[derive(Clone, Copy, Debug)]
pub struct Version {
    pub command: VersionCommands,
}

} // verus!
