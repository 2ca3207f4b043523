//! Bot version management: parsing a requested version, resolving
//! "latest", and validating a switch against the backend's listing.

use vstd::prelude::*;

verus! {

use crate::parse::{str_eq, parse_u32, is_u32_numeral, digits_of, numeral_value};

/// A requested bot version: a concrete number, or the latest submitted.
#[derive(Clone, Copy, Debug, PartialEq, Eq, Structural)]
pub enum Version {
    Number(u32),
    Latest,
}

/// Parses a requested version: the word "latest", or a decimal number.
/// Anything else is rejected with a message naming the input.
pub fn parse_version(s: &str) -> (r: Result<Version, String>)
    ensures
        s@ == "latest"@ ==> r == Ok::<Version, String>(Version::Latest),
        s@ != "latest"@ && is_u32_numeral(s@) ==> r == Ok::<Version, String>(
            Version::Number(numeral_value(digits_of(s@)) as u32),
        ),
        s@ != "latest"@ && !is_u32_numeral(s@) ==> (r matches Err(m) && m@ == "Invalid version: '"@
            + s@ + "'. Expected a number or 'latest'"@),
{
    if str_eq(s, "latest") {
        return Ok(Version::Latest);
    }
    match parse_u32(s) {
        Some(n) => Ok(Version::Number(n)),
        None => Err(
            String::from_str("Invalid version: '").concat(s).concat(
                "'. Expected a number or 'latest'",
            ),
        ),
    }
}

/// Whether a submitted version compiled.
#[derive(Clone, Copy, Debug, PartialEq, Eq, Structural)]
pub enum CompileStatus {
    Success,
    Failure,
}

impl CompileStatus {
    /// The status's name as the backend writes it.
    pub fn name(&self) -> (r: &'static str)
        ensures
            *self is Success ==> r@ == "success"@,
            *self is Failure ==> r@ == "failure"@,
    {
        match self {
            CompileStatus::Success => "success",
            CompileStatus::Failure => "failure",
        }
    }
}

/// One submitted bot version, as the backend lists it.
pub struct VersionEntry {
    pub version_number: u32,
    pub language: String,
    pub compile_status: CompileStatus,
    pub compiled_at: String,
    pub submitted_at: String,
}

/// The backend's versions listing: every submitted version, and the one
/// currently competing, if any.
pub struct VersionList {
    pub versions: Vec<VersionEntry>,
    pub active_version: Option<u32>,
}

/// Errors of version resolution and switching.
#[derive(Clone, Copy, Debug, PartialEq, Eq, Structural)]
pub enum VersionError {
    /// "latest" was requested but nothing has been submitted.
    NoVersions,
    /// The requested version is not among the submitted ones.
    NotFound(u32),
    /// The requested version exists but did not compile.
    NotCompiled(u32),
}

/// The highest submitted version number: what "latest" resolves to.
pub fn max_version(versions: &Vec<VersionEntry>) -> (r: Option<u32>)
    ensures
        versions@.len() == 0 ==> r is None,
        versions@.len() > 0 ==> (r matches Some(m) && (exists|i: int|
            0 <= i < versions@.len() && #[trigger] versions@[i].version_number == m) && (forall|
            i: int,
        |
            0 <= i < versions@.len() ==> #[trigger] versions@[i].version_number <= m)),
{
    if versions.len() == 0 {
        return None;
    }
    let mut m: u32 = versions[0].version_number;
    let mut i: usize = 1;
    while i < versions.len()
        invariant
            1 <= i <= versions@.len(),
            exists|j: int| 0 <= j < i && #[trigger] versions@[j].version_number == m,
            forall|j: int| 0 <= j < i ==> #[trigger] versions@[j].version_number <= m,
        decreases versions@.len() - i,
    {
        if versions[i].version_number > m {
            m = versions[i].version_number;
        }
        i += 1;
    }
    Some(m)
}

/// Resolves a requested version to a concrete number: a number stands for
/// itself; "latest" resolves to the highest submitted version, and fails
/// when nothing has been submitted.
pub fn resolve_version(requested: &Version, versions: &Vec<VersionEntry>) -> (r: Result<
    u32,
    VersionError,
>)
    ensures
        (*requested matches Version::Number(n) ==> r == Ok::<u32, VersionError>(n)),
        *requested == Version::Latest && versions@.len() == 0 ==> r == Err::<u32, VersionError>(
            VersionError::NoVersions,
        ),
        *requested == Version::Latest && versions@.len() > 0 ==> (r matches Ok(m) && (exists|
            i: int,
        |
            0 <= i < versions@.len() && #[trigger] versions@[i].version_number == m) && (forall|
            i: int,
        |
            0 <= i < versions@.len() ==> #[trigger] versions@[i].version_number <= m)),
{
    match requested {
        Version::Number(n) => Ok(*n),
        Version::Latest => match max_version(versions) {
            Some(m) => Ok(m),
            None => Err(VersionError::NoVersions),
        },
    }
}

/// Whether a switch to version `v` is allowed: the first listed entry with
/// that number must exist and have compiled successfully.
pub fn validate_switch(versions: &Vec<VersionEntry>, v: u32) -> (r: Result<(), VersionError>)
    ensures
        (forall|i: int| 0 <= i < versions@.len() ==> #[trigger] versions@[i].version_number != v)
            ==> r == Err::<(), VersionError>(VersionError::NotFound(v)),
        forall|i: int|
            (0 <= i < versions@.len() && #[trigger] versions@[i].version_number == v && (forall|
                j: int,
            | 0 <= j < i ==> versions@[j].version_number != v)) ==> r == (
            if versions@[i].compile_status is Success {
                Ok::<(), VersionError>(())
            } else {
                Err::<(), VersionError>(VersionError::NotCompiled(v))
            }),
{
    let mut i: usize = 0;
    while i < versions.len()
        invariant
            0 <= i <= versions@.len(),
            forall|j: int| 0 <= j < i ==> #[trigger] versions@[j].version_number != v,
        decreases versions@.len() - i,
    {
        if versions[i].version_number == v {
            if matches!(versions[i].compile_status, CompileStatus::Success) {
                return Ok(());
            } else {
                return Err(VersionError::NotCompiled(v));
            }
        }
        i += 1;
    }
    Err(VersionError::NotFound(v))
}

} // verus!
