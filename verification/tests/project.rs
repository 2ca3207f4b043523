use mm_cli::api::{
    classify_status, make_submission_payload, status_is_success, submission_finished,
    validate_credentials, ApiErrorKind, CompilationStatus, LoginError,
};
use mm_cli::cli::{Run, Switch, Version as VersionCommand, VersionCommands};
use mm_cli::config::{Config, Lang};
use mm_cli::version::Version;
use mm_cli::{
    abs_strategy_path, config_file_name, is_project_root, log_file_name, script_file_name,
    strategy_path, token_file_name,
};

fn config(language: Lang) -> Config {
    Config {
        language,
        api_url: String::from("https://api.example.test"),
    }
}

#[test]
fn marker_file_names() {
    assert_eq!(config_file_name(), "mm-config.toml");
    assert_eq!(token_file_name(), ".mm-token.txt");
}

#[test]
fn project_root_detected_by_marker_entry() {
    let entries = vec![
        String::from("src"),
        String::from("mm-config.toml"),
        String::from("README.md"),
    ];
    assert!(is_project_root(&entries));
    let entries = vec![String::from("src"), String::from("Cargo.toml")];
    assert!(!is_project_root(&entries));
    assert!(!is_project_root(&Vec::new()));
}

#[test]
fn strategy_path_follows_language() {
    assert_eq!(strategy_path(&config(Lang::Rust)), "src/strategy");
    assert_eq!(strategy_path(&config(Lang::Python)), "strategy");
    assert_eq!(strategy_path(&config(Lang::Java)), "src/com/bot/strategy");
}

#[test]
fn absolute_strategy_path_joins_root() {
    assert_eq!(
        abs_strategy_path("/home/team/bot", &config(Lang::Rust)),
        "/home/team/bot/src/strategy"
    );
    assert_eq!(
        abs_strategy_path("/work", &config(Lang::Python)),
        "/work/strategy"
    );
}

#[test]
fn language_names() {
    assert_eq!(Lang::Rust.name(), "rust");
    assert_eq!(Lang::Python.name(), "python");
    assert_eq!(Lang::Java.name(), "java");
}

#[test]
fn script_names_carry_the_batch_extension_on_windows() {
    assert_eq!(script_file_name("build", false), "build");
    assert_eq!(script_file_name("build", true), "build.bat");
    assert_eq!(script_file_name("run", true), "run.bat");
}

#[test]
fn log_names_embed_the_timestamp() {
    assert_eq!(log_file_name("20240101_120000"), "log-20240101_120000.mmgl");
}

#[test]
fn success_statuses_are_the_two_hundreds() {
    assert!(status_is_success(200));
    assert!(status_is_success(204));
    assert!(!status_is_success(199));
    assert!(!status_is_success(300));
    assert!(!status_is_success(404));
}

#[test]
fn failing_statuses_classify_by_code() {
    assert_eq!(classify_status(400), ApiErrorKind::BadRequest);
    assert_eq!(classify_status(401), ApiErrorKind::Unauthorized);
    assert_eq!(classify_status(500), ApiErrorKind::ServerError);
    assert_eq!(classify_status(404), ApiErrorKind::Other);
    assert_eq!(classify_status(503), ApiErrorKind::Other);
}

#[test]
fn credentials_must_be_nonempty() {
    assert_eq!(
        validate_credentials("", "secret"),
        Err(LoginError::EmptyTeamName)
    );
    assert_eq!(
        validate_credentials("team", ""),
        Err(LoginError::EmptyPassword)
    );
    assert_eq!(validate_credentials("team", "secret"), Ok(()));
}

#[test]
fn submission_payload_encodes_the_archive() {
    let payload = make_submission_payload(&config(Lang::Python), &b"hello".to_vec());
    assert_eq!(payload.language, "python");
    assert_eq!(payload.data, "aGVsbG8=");
}

#[test]
fn submission_payload_of_empty_archive_is_empty() {
    let payload = make_submission_payload(&config(Lang::Rust), &Vec::new());
    assert_eq!(payload.language, "rust");
    assert_eq!(payload.data, "");
}

#[test]
fn polling_stops_once_compilation_finished() {
    assert!(!submission_finished(&CompilationStatus::Pending));
    assert!(submission_finished(&CompilationStatus::Success));
    assert!(submission_finished(&CompilationStatus::Failure));
}

#[test]
fn command_option_images_carry_their_fields() {
    let run = Run { quiet: true };
    assert!(run.quiet);
    let switch = Switch {
        version: Some(Version::Latest),
    };
    let cmd = VersionCommand {
        command: VersionCommands::Switch(switch),
    };
    match cmd.command {
        VersionCommands::Switch(s) => assert_eq!(s.version, Some(Version::Latest)),
        VersionCommands::List => panic!("unexpected subcommand"),
    }
}
