//! The update checker: decides whether the tool binary and the project
//! scaffold are stale relative to their remote sources, from the captured
//! output of external tool invocations.

use vstd::prelude::*;

verus! {

use crate::config::{Config, Lang};
use crate::parse::{first_token, first_token_spec, parse_u32, str_eq, trim, trim_spec,
    digits_of, is_u32_numeral, numeral_value};
use crate::runner::RunOutput;

/// Errors of the update and synchronization subsystem.
#[derive(Debug)]
pub enum UpdateError {
    /// The external tool could not be started; carries the runner's
    /// description of the failure.
    ToolInvocation(String),
    /// The tool ran but exited non-zero; carries its error stream verbatim
    /// for display.
    ToolExit(String),
    /// The tool's output did not have the expected shape.
    Parse,
}

/// The commit identifier baked into the tool binary at build time,
/// injected once at process start and immutable for the process lifetime.
pub struct BuildIdentity {
    pub commit_hash: String,
}

/// The commit identifier this binary was built from.
pub fn get_current_cli_hash(build: &BuildIdentity) -> (r: &str)
    ensures
        r@ == build.commit_hash@,
{
    build.commit_hash.as_str()
}

/// Remote source repository of the tool itself.
pub fn cli_repo_url() -> (r: &'static str)
    ensures
        r@ == "https://github.com/mechmania/cli"@,
{
    "https://github.com/mechmania/cli"
}

/// Template remote of the scaffold for each language.
pub open spec fn starterpack_url_spec(lang: Lang) -> Seq<char> {
    match lang {
        Lang::Rust => "https://github.com/mechmania/rust-starterpack"@,
        Lang::Python => "https://github.com/mechmania/python-starterpack"@,
        Lang::Java => "https://github.com/mechmania/java-starterpack"@,
    }
}

/// Template remote of the scaffold for the configured language.
pub fn get_starterpack_url(config: &Config) -> (r: &'static str)
    ensures
        r@ == starterpack_url_spec(config.language),
{
    match config.language {
        Lang::Rust => "https://github.com/mechmania/rust-starterpack",
        Lang::Python => "https://github.com/mechmania/python-starterpack",
        Lang::Java => "https://github.com/mechmania/java-starterpack",
    }
}

/// Arguments of the remote head query: resolve the current head commit of
/// the tool's source repository without cloning.
pub fn ls_remote_args() -> (args: Vec<String>)
    ensures
        args@.len() == 3,
        args@[0]@ == "ls-remote"@,
        args@[1]@ == "https://github.com/mechmania/cli"@,
        args@[2]@ == "HEAD"@,
{
    let mut v: Vec<String> = Vec::new();
    v.push(String::from_str("ls-remote"));
    v.push(String::from_str(cli_repo_url()));
    v.push(String::from_str("HEAD"));
    v
}

/// Arguments of the self-update invocation of the package manager:
/// install the tool from its source repository.
pub fn cargo_install_args() -> (args: Vec<String>)
    ensures
        args@.len() == 3,
        args@[0]@ == "install"@,
        args@[1]@ == "--git"@,
        args@[2]@ == "https://github.com/mechmania/cli"@,
{
    let mut v: Vec<String> = Vec::new();
    v.push(String::from_str("install"));
    v.push(String::from_str("--git"));
    v.push(String::from_str(cli_repo_url()));
    v
}

/// Arguments that register the template remote under the name "upstream".
/// The invocation is idempotent by design: its outcome is deliberately
/// ignored, so a remote that already exists is tolerated.
pub fn remote_add_args(config: &Config) -> (args: Vec<String>)
    ensures
        args@.len() == 4,
        args@[0]@ == "remote"@,
        args@[1]@ == "add"@,
        args@[2]@ == "upstream"@,
        args@[3]@ == starterpack_url_spec(config.language),
{
    let mut v: Vec<String> = Vec::new();
    v.push(String::from_str("remote"));
    v.push(String::from_str("add"));
    v.push(String::from_str("upstream"));
    v.push(String::from_str(get_starterpack_url(config)));
    v
}

/// Arguments that fetch the template remote's main branch.
pub fn fetch_args() -> (args: Vec<String>)
    ensures
        args@.len() == 3,
        args@[0]@ == "fetch"@,
        args@[1]@ == "upstream"@,
        args@[2]@ == "main"@,
{
    let mut v: Vec<String> = Vec::new();
    v.push(String::from_str("fetch"));
    v.push(String::from_str("upstream"));
    v.push(String::from_str("main"));
    v
}

/// Arguments that count the commits on the template branch that the local
/// head lacks.
pub fn rev_list_args() -> (args: Vec<String>)
    ensures
        args@.len() == 3,
        args@[0]@ == "rev-list"@,
        args@[1]@ == "--count"@,
        args@[2]@ == "HEAD..upstream/main"@,
{
    let mut v: Vec<String> = Vec::new();
    v.push(String::from_str("rev-list"));
    v.push(String::from_str("--count"));
    v.push(String::from_str("HEAD..upstream/main"));
    v
}

/// The ahead count read from the commit-count query's output: the decimal
/// numeral in its trimmed standard output, if it is one.
pub open spec fn ahead_count_of(stdout: Seq<char>) -> Option<nat> {
    let t = trim_spec(stdout);
    if is_u32_numeral(t) {
        Some(numeral_value(digits_of(t)))
    } else {
        None
    }
}

/// The scaffold staleness decision: stale exactly when the ahead count is
/// positive; undecided when the output is not a numeral.
pub open spec fn scaffold_stale_of(stdout: Seq<char>) -> Option<bool> {
    match ahead_count_of(stdout) {
        Some(n) => Some(n > 0),
        None => None,
    }
}

/// A zero ahead count means the scaffold is current; any positive count
/// means it is stale.
pub proof fn lemma_stale_iff_ahead(stdout: Seq<char>, n: nat)
    requires
        ahead_count_of(stdout) == Some(n),
    ensures
        scaffold_stale_of(stdout) == Some(n > 0),
        n == 0 ==> scaffold_stale_of(stdout) == Some(false),
        n > 0 ==> scaffold_stale_of(stdout) == Some(true),
{
}

/// Idempotence of the staleness check: two queries that observe the same
/// remote state (the same ahead count) decide alike, even when the tool's
/// raw output differs textually.
pub proof fn lemma_scaffold_stale_idempotent(stdout1: Seq<char>, stdout2: Seq<char>)
    requires
        ahead_count_of(stdout1) == ahead_count_of(stdout2),
    ensures
        scaffold_stale_of(stdout1) == scaffold_stale_of(stdout2),
{
}

/// Reads the remote head commit identifier out of the head query's
/// captured output: the first whitespace-separated token of its standard
/// output.
pub fn get_remote_cli_hash(out: &RunOutput) -> (r: Result<String, UpdateError>)
    ensures
        !out.success ==> (r matches Err(UpdateError::ToolExit(d)) && d@ == out.stderr@),
        out.success && first_token_spec(out.stdout@).len() == 0 ==> (r matches Err(e) && e is
            Parse),
        out.success && first_token_spec(out.stdout@).len() > 0 ==> (r matches Ok(h) && h@
            == first_token_spec(out.stdout@)),
{
    if !out.success {
        return Err(UpdateError::ToolExit(out.stderr.clone()));
    }
    let tok = first_token(out.stdout.as_str());
    if tok.unicode_len() == 0 {
        return Err(UpdateError::Parse);
    }
    Ok(String::from_str(tok))
}

/// Decides whether the tool binary is stale: its build-time commit differs
/// from the remote head. Undecidable (an error) when the head query failed
/// or its output held no identifier.
pub fn has_cli_updates(build: &BuildIdentity, ls_remote: &RunOutput) -> (r: Result<
    bool,
    UpdateError,
>)
    ensures
        !ls_remote.success ==> (r matches Err(UpdateError::ToolExit(d)) && d@
            == ls_remote.stderr@),
        ls_remote.success && first_token_spec(ls_remote.stdout@).len() == 0 ==> (r matches Err(e)
            && e is Parse),
        ls_remote.success && first_token_spec(ls_remote.stdout@).len() > 0 ==> (r matches Ok(b)
            && b == (build.commit_hash@ != first_token_spec(ls_remote.stdout@))),
{
    match get_remote_cli_hash(ls_remote) {
        Ok(h) => Ok(!str_eq(build.commit_hash.as_str(), h.as_str())),
        Err(e) => Err(e),
    }
}

/// Decides whether the scaffold is stale, from the captured outputs of the
/// fetch and the commit-count query (the registration step that precedes
/// them has its outcome deliberately ignored). Stale exactly when the
/// count of commits on the template branch missing from the local head is
/// positive.
pub fn has_upstream_changes(fetch: &RunOutput, rev_list: &RunOutput) -> (r: Result<
    bool,
    UpdateError,
>)
    ensures
        !fetch.success ==> (r matches Err(UpdateError::ToolExit(d)) && d@ == fetch.stderr@),
        fetch.success && !rev_list.success ==> (r matches Err(UpdateError::ToolExit(d)) && d@
            == rev_list.stderr@),
        fetch.success && rev_list.success ==> match scaffold_stale_of(rev_list.stdout@) {
            Some(stale) => (r matches Ok(b) && b == stale),
            None => (r matches Err(e) && e is Parse),
        },
{
    if !fetch.success {
        return Err(UpdateError::ToolExit(fetch.stderr.clone()));
    }
    if !rev_list.success {
        return Err(UpdateError::ToolExit(rev_list.stderr.clone()));
    }
    let t = trim(rev_list.stdout.as_str());
    match parse_u32(t) {
        Some(count) => Ok(count > 0),
        None => Err(UpdateError::Parse),
    }
}

/// Fail-fast join of the two independent staleness checks: the combined
/// decision exists only when both checks succeeded; a single failure
/// aborts the whole decision even when the other check succeeded, the
/// tool-side failure taking precedence.
pub fn check_both(cli: Result<bool, UpdateError>, scaffold: Result<bool, UpdateError>) -> (r:
    Result<(bool, bool), UpdateError>)
    ensures
        (cli matches Err(e) ==> r == Err::<(bool, bool), UpdateError>(e)),
        cli is Ok ==> (scaffold matches Err(e) ==> r == Err::<(bool, bool), UpdateError>(e)),
        (cli matches Ok(c) ==> (scaffold matches Ok(s) ==> r == Ok::<(bool, bool), UpdateError>(
            (c, s),
        ))),
{
    let c = match cli {
        Ok(c) => c,
        Err(e) => return Err(e),
    };
    let s = match scaffold {
        Ok(s) => s,
        Err(e) => return Err(e),
    };
    Ok((c, s))
}

/// Combined update check: whether anything at all is stale. Fail-fast, as
/// [`check_both`] is.
pub fn check_all_updates(cli: Result<bool, UpdateError>, scaffold: Result<bool, UpdateError>) -> (r:
    Result<bool, UpdateError>)
    ensures
        (cli matches Err(e) ==> r == Err::<bool, UpdateError>(e)),
        cli is Ok ==> (scaffold matches Err(e) ==> r == Err::<bool, UpdateError>(e)),
        (cli matches Ok(c) ==> (scaffold matches Ok(s) ==> r == Ok::<bool, UpdateError>(c
            || s))),
{
    match check_both(cli, scaffold) {
        Ok((c, s)) => Ok(c || s),
        Err(e) => Err(e),
    }
}

/// Reports the self-update invocation's outcome: failure is fatal to the
/// update command only and carries the error stream.
pub fn update_cli_outcome(out: &RunOutput) -> (r: Result<(), UpdateError>)
    ensures
        out.success ==> r is Ok,
        !out.success ==> (r matches Err(UpdateError::ToolExit(d)) && d@ == out.stderr@),
{
    if out.success {
        Ok(())
    } else {
        Err(UpdateError::ToolExit(out.stderr.clone()))
    }
}

} // verus!
