use mm_cli::version::{
    max_version, parse_version, resolve_version, validate_switch, CompileStatus, Version,
    VersionEntry, VersionError, VersionList,
};

fn entry(number: u32, status: CompileStatus) -> VersionEntry {
    VersionEntry {
        version_number: number,
        language: String::from("rust"),
        compile_status: status,
        compiled_at: String::from("2024-01-01T00:00:00Z"),
        submitted_at: String::from("2024-01-01T00:00:00Z"),
    }
}

#[test]
fn parse_version_accepts_latest() {
    assert_eq!(parse_version("latest"), Ok(Version::Latest));
}

#[test]
fn parse_version_accepts_numbers() {
    assert_eq!(parse_version("7"), Ok(Version::Number(7)));
    assert_eq!(parse_version("0"), Ok(Version::Number(0)));
    assert_eq!(parse_version("+12"), Ok(Version::Number(12)));
    assert_eq!(parse_version("4294967295"), Ok(Version::Number(u32::MAX)));
}

#[test]
fn parse_version_rejects_everything_else() {
    assert_eq!(
        parse_version("newest"),
        Err(String::from(
            "Invalid version: 'newest'. Expected a number or 'latest'"
        ))
    );
    assert!(parse_version("").is_err());
    assert!(parse_version("-3").is_err());
    assert!(parse_version("1.5").is_err());
    assert!(parse_version("4294967296").is_err());
    assert!(parse_version(" 7").is_err());
    assert!(parse_version("+").is_err());
    assert!(parse_version("Latest").is_err());
}

#[test]
fn parse_version_tolerates_leading_zeros() {
    assert_eq!(parse_version("007"), Ok(Version::Number(7)));
    assert_eq!(parse_version("+0"), Ok(Version::Number(0)));
}

#[test]
fn compile_status_names() {
    assert_eq!(CompileStatus::Success.name(), "success");
    assert_eq!(CompileStatus::Failure.name(), "failure");
}

#[test]
fn max_version_finds_the_highest() {
    let versions = vec![
        entry(3, CompileStatus::Success),
        entry(9, CompileStatus::Failure),
        entry(5, CompileStatus::Success),
    ];
    assert_eq!(max_version(&versions), Some(9));
    assert_eq!(max_version(&Vec::new()), None);
}

#[test]
fn resolve_number_stands_for_itself() {
    let versions = vec![entry(1, CompileStatus::Success)];
    assert_eq!(
        resolve_version(&Version::Number(42), &versions),
        Ok(42)
    );
}

#[test]
fn resolve_latest_takes_the_highest() {
    let versions = vec![
        entry(2, CompileStatus::Success),
        entry(8, CompileStatus::Success),
        entry(4, CompileStatus::Failure),
    ];
    assert_eq!(resolve_version(&Version::Latest, &versions), Ok(8));
}

#[test]
fn resolve_latest_fails_without_versions() {
    assert_eq!(
        resolve_version(&Version::Latest, &Vec::new()),
        Err(VersionError::NoVersions)
    );
}

#[test]
fn switch_requires_an_existing_version() {
    let versions = vec![entry(1, CompileStatus::Success)];
    assert_eq!(
        validate_switch(&versions, 2),
        Err(VersionError::NotFound(2))
    );
}

#[test]
fn switch_requires_successful_compilation() {
    let versions = vec![
        entry(1, CompileStatus::Success),
        entry(2, CompileStatus::Failure),
    ];
    assert_eq!(validate_switch(&versions, 1), Ok(()));
    assert_eq!(
        validate_switch(&versions, 2),
        Err(VersionError::NotCompiled(2))
    );
}

#[test]
fn versions_listing_holds_the_active_version() {
    let list = VersionList {
        versions: vec![entry(1, CompileStatus::Success)],
        active_version: Some(1),
    };
    assert_eq!(list.active_version, Some(1));
    assert_eq!(list.versions.len(), 1);
}
