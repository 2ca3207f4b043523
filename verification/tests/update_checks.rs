use mm_cli::config::{Config, Lang};
use mm_cli::runner::RunOutput;
use mm_cli::update::{
    cargo_install_args, check_all_updates, check_both, cli_repo_url, fetch_args,
    get_current_cli_hash, get_remote_cli_hash, get_starterpack_url, has_cli_updates,
    has_upstream_changes, ls_remote_args, remote_add_args, rev_list_args, update_cli_outcome,
    BuildIdentity, UpdateError,
};

fn out(success: bool, stdout: &str, stderr: &str) -> RunOutput {
    RunOutput {
        success,
        stdout: String::from(stdout),
        stderr: String::from(stderr),
    }
}

fn config(language: Lang) -> Config {
    Config {
        language,
        api_url: String::from("https://api.example.test"),
    }
}

#[test]
fn scaffold_current_when_ahead_count_zero() {
    let fetch = out(true, "", "");
    let rev = out(true, "0\n", "");
    assert!(matches!(has_upstream_changes(&fetch, &rev), Ok(false)));
}

#[test]
fn scaffold_stale_when_ahead_count_positive() {
    let fetch = out(true, "", "");
    assert!(matches!(
        has_upstream_changes(&fetch, &out(true, "3\n", "")),
        Ok(true)
    ));
    assert!(matches!(
        has_upstream_changes(&fetch, &out(true, "  1  \n", "")),
        Ok(true)
    ));
}

#[test]
fn scaffold_check_is_idempotent() {
    let r1 = has_upstream_changes(&out(true, "", ""), &out(true, "2\n", ""));
    let r2 = has_upstream_changes(&out(true, "", ""), &out(true, "2\n", ""));
    assert_eq!(r1.unwrap(), r2.unwrap());
}

#[test]
fn scaffold_check_fails_on_fetch_error() {
    let fetch = out(false, "", "no route to host");
    let rev = out(true, "0\n", "");
    match has_upstream_changes(&fetch, &rev) {
        Err(UpdateError::ToolExit(d)) => assert_eq!(d, "no route to host"),
        other => panic!("unexpected result: {:?}", other),
    }
}

#[test]
fn scaffold_check_fails_on_rev_list_error() {
    let fetch = out(true, "", "");
    let rev = out(false, "", "bad revision");
    match has_upstream_changes(&fetch, &rev) {
        Err(UpdateError::ToolExit(d)) => assert_eq!(d, "bad revision"),
        other => panic!("unexpected result: {:?}", other),
    }
}

#[test]
fn scaffold_check_fails_on_non_numeric_count() {
    let fetch = out(true, "", "");
    let rev = out(true, "lots\n", "");
    assert!(matches!(
        has_upstream_changes(&fetch, &rev),
        Err(UpdateError::Parse)
    ));
}

#[test]
fn remote_hash_is_first_token() {
    let o = out(true, "4f2a9c\tHEAD\n", "");
    assert_eq!(get_remote_cli_hash(&o).unwrap(), "4f2a9c");
}

#[test]
fn remote_hash_fails_on_tool_error() {
    let o = out(false, "", "could not resolve host");
    match get_remote_cli_hash(&o) {
        Err(UpdateError::ToolExit(d)) => assert_eq!(d, "could not resolve host"),
        other => panic!("unexpected result: {:?}", other),
    }
}

#[test]
fn remote_hash_skips_leading_whitespace() {
    let o = out(true, "  \n\t 9a8b7c\trefs/heads/main\n", "");
    assert_eq!(get_remote_cli_hash(&o).unwrap(), "9a8b7c");
}

#[test]
fn scaffold_count_tolerates_leading_zeros() {
    let fetch = out(true, "", "");
    assert!(matches!(
        has_upstream_changes(&fetch, &out(true, "0007\n", "")),
        Ok(true)
    ));
    assert!(matches!(
        has_upstream_changes(&fetch, &out(true, "000\n", "")),
        Ok(false)
    ));
}

#[test]
fn remote_hash_fails_on_empty_response() {
    let o = out(true, "  \n", "");
    assert!(matches!(get_remote_cli_hash(&o), Err(UpdateError::Parse)));
}

#[test]
fn cli_stale_when_hashes_differ() {
    let build = BuildIdentity {
        commit_hash: String::from("aaa111"),
    };
    let o = out(true, "bbb222\tHEAD\n", "");
    assert!(matches!(has_cli_updates(&build, &o), Ok(true)));
}

#[test]
fn cli_current_when_hashes_match() {
    let build = BuildIdentity {
        commit_hash: String::from("aaa111"),
    };
    let o = out(true, "aaa111\tHEAD\n", "");
    assert!(matches!(has_cli_updates(&build, &o), Ok(false)));
}

#[test]
fn current_cli_hash_is_the_injected_one() {
    let build = BuildIdentity {
        commit_hash: String::from("deadbeef"),
    };
    assert_eq!(get_current_cli_hash(&build), "deadbeef");
}

#[test]
fn join_fails_when_cli_check_fails_even_if_scaffold_succeeded() {
    let r = check_both(
        Err(UpdateError::ToolExit(String::from("network down"))),
        Ok(false),
    );
    match r {
        Err(UpdateError::ToolExit(d)) => assert_eq!(d, "network down"),
        other => panic!("unexpected result: {:?}", other),
    }
    let r = check_all_updates(
        Err(UpdateError::ToolExit(String::from("network down"))),
        Ok(true),
    );
    assert!(matches!(r, Err(UpdateError::ToolExit(_))));
}

#[test]
fn join_fails_when_scaffold_check_fails() {
    let r = check_both(Ok(true), Err(UpdateError::Parse));
    assert!(matches!(r, Err(UpdateError::Parse)));
}

#[test]
fn join_combines_two_successes() {
    assert!(matches!(check_both(Ok(true), Ok(false)), Ok((true, false))));
    assert!(matches!(check_all_updates(Ok(false), Ok(false)), Ok(false)));
    assert!(matches!(check_all_updates(Ok(false), Ok(true)), Ok(true)));
    assert!(matches!(check_all_updates(Ok(true), Ok(false)), Ok(true)));
}

#[test]
fn self_update_outcome_follows_exit_status() {
    assert!(update_cli_outcome(&out(true, "", "")).is_ok());
    match update_cli_outcome(&out(false, "", "compile error")) {
        Err(UpdateError::ToolExit(d)) => assert_eq!(d, "compile error"),
        other => panic!("unexpected result: {:?}", other),
    }
}

#[test]
fn head_query_arguments_are_exact() {
    assert_eq!(cli_repo_url(), "https://github.com/mechmania/cli");
    assert_eq!(
        ls_remote_args(),
        vec!["ls-remote", "https://github.com/mechmania/cli", "HEAD"]
    );
    assert_eq!(
        cargo_install_args(),
        vec!["install", "--git", "https://github.com/mechmania/cli"]
    );
}

#[test]
fn scaffold_query_arguments_are_exact() {
    assert_eq!(
        remote_add_args(&config(Lang::Rust)),
        vec![
            "remote",
            "add",
            "upstream",
            "https://github.com/mechmania/rust-starterpack"
        ]
    );
    assert_eq!(fetch_args(), vec!["fetch", "upstream", "main"]);
    assert_eq!(
        rev_list_args(),
        vec!["rev-list", "--count", "HEAD..upstream/main"]
    );
}

#[test]
fn starterpack_url_follows_language() {
    assert_eq!(
        get_starterpack_url(&config(Lang::Rust)),
        "https://github.com/mechmania/rust-starterpack"
    );
    assert_eq!(
        get_starterpack_url(&config(Lang::Python)),
        "https://github.com/mechmania/python-starterpack"
    );
    assert_eq!(
        get_starterpack_url(&config(Lang::Java)),
        "https://github.com/mechmania/java-starterpack"
    );
}
