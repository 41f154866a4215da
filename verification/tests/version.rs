use xcrelease::version::{
    get_current_version, increment_version, update_project_version, version_query, parse_version, select_release_version,
    VersionErrorKind, VersionLookup,
};

#[test]
fn test_increment_major() {
    assert_eq!(increment_version("1.2.3", true, false, false).unwrap(), "2.0.0");
}

#[test]
fn test_increment_minor() {
    assert_eq!(increment_version("1.2.3", false, true, false).unwrap(), "1.3.0");
}

#[test]
fn test_increment_patch() {
    assert_eq!(increment_version("1.2.3", false, false, true).unwrap(), "1.2.4");
}

#[test]
fn test_invalid_version_format() {
    assert!(increment_version("1.2", true, false, false).is_err());
}

#[test]
fn major_takes_precedence_over_minor_and_patch() {
    assert_eq!(increment_version("1.2.3", true, true, true).unwrap(), "2.0.0");
    assert_eq!(increment_version("1.2.3", false, true, true).unwrap(), "1.3.0");
}

#[test]
fn no_flag_leaves_version_unchanged() {
    assert_eq!(increment_version("1.2.3.4", false, false, false).unwrap(), "1.2.3.4");
    assert_eq!(increment_version("007.1.2", false, false, false).unwrap(), "007.1.2");
}

#[test]
fn fields_after_the_third_are_ignored() {
    assert_eq!(increment_version("1.2.3.beta", false, false, true).unwrap(), "1.2.4");
}

#[test]
fn leading_zeros_and_plus_sign_are_read_as_numbers() {
    assert_eq!(increment_version("01.+2.009", false, false, true).unwrap(), "1.2.10");
    assert_eq!(increment_version("9.99.999", false, true, false).unwrap(), "9.100.0");
}

#[test]
fn large_numbers_are_bumped() {
    assert_eq!(increment_version("4294967294.0.0", true, false, false).unwrap(), "4294967295.0.0");
}

#[test]
fn each_error_kind() {
    let e = increment_version("1.2", true, false, false).unwrap_err();
    assert_eq!(e.kind, VersionErrorKind::NotThreeParts);
    assert_eq!(e.text, "1.2");
    assert_eq!(e.message(), "Version format is not x.y.z: 1.2");

    let e = increment_version("a.2.3", false, false, true).unwrap_err();
    assert_eq!(e.kind, VersionErrorKind::InvalidMajor);
    assert_eq!(e.message(), "Invalid major version: a");

    let e = increment_version("1.-2.3", false, false, true).unwrap_err();
    assert_eq!(e.kind, VersionErrorKind::InvalidMinor);
    assert_eq!(e.message(), "Invalid minor version: -2");

    let e = increment_version("1.2.", false, false, true).unwrap_err();
    assert_eq!(e.kind, VersionErrorKind::InvalidPatch);
    assert_eq!(e.message(), "Invalid patch version: ");

    let e = increment_version("1.2.4294967296", true, false, false).unwrap_err();
    assert_eq!(e.kind, VersionErrorKind::InvalidPatch);
    assert_eq!(e.text, "4294967296");

    let e = increment_version("1.+.3", false, false, false).unwrap_err();
    assert_eq!(e.kind, VersionErrorKind::InvalidMinor);
}

#[test]
fn parse_version_reads_numbers() {
    assert_eq!(parse_version("10.20.30").unwrap(), (10, 20, 30));
    assert_eq!(parse_version("4294967295.0.1").unwrap(), (4294967295, 0, 1));
    assert!(parse_version("").is_err());
    assert!(parse_version("1..3").is_err());
}

#[test]
fn bumped_version_parses_back_and_is_greater() {
    for (flags, expected) in [
        ((true, false, false), (4, 0, 0)),
        ((false, true, false), (3, 8, 0)),
        ((false, false, true), (3, 7, 10)),
    ] {
        let bumped = increment_version("3.7.9", flags.0, flags.1, flags.2).unwrap();
        let numbers = parse_version(&bumped).unwrap();
        assert_eq!(numbers, expected);
        assert!(numbers > (3, 7, 9));
    }
}

#[test]
fn explicit_version_wins() {
    let r = select_release_version("1.2.3", true, false, false, Some("5.0".to_string())).unwrap();
    assert_eq!(r.version, "5.0");
    assert!(r.update_project);
    let r = select_release_version("not a version", false, false, false, Some("x".to_string())).unwrap();
    assert_eq!(r.version, "x");
}

#[test]
fn requested_increment_is_applied() {
    let r = select_release_version("1.2.3", false, true, false, None).unwrap();
    assert_eq!(r.version, "1.3.0");
    assert!(r.update_project);
    assert!(select_release_version("1.2", false, true, false, None).is_err());
}

#[test]
fn without_request_current_version_is_released() {
    let r = select_release_version("1.2", false, false, false, None).unwrap();
    assert_eq!(r.version, "1.2");
    assert!(!r.update_project);
}

#[test]
fn dry_run_version_is_placeholder() {
    match get_current_version(true) {
        VersionLookup::Known(v) => assert_eq!(v, "1.0.0"),
        VersionLookup::Query(_) => panic!("a dry run asks no tool"),
    }
    match get_current_version(false) {
        VersionLookup::Query(p) => {
            assert_eq!(p.program, "xcrun");
            assert_eq!(p.args, vec!["agvtool", "what-version", "-terse"]);
            assert!(p.current_dir.is_none());
        }
        VersionLookup::Known(_) => panic!("the project is asked"),
    }
}

#[test]
fn project_version_update() {
    let u = update_project_version("2.0.0", false);
    assert_eq!(u.message, "Updating project version to: 2.0.0");
    let p = u.command.unwrap();
    assert_eq!(p.program, "xcrun");
    assert_eq!(p.args, vec!["agvtool", "new-version", "-all", "2.0.0"]);
    let u = update_project_version("2.0.0", true);
    assert_eq!(u.message, "DRY RUN: Would update project version to: 2.0.0");
    assert!(u.command.is_none());
    let q = version_query();
    assert_eq!(q.program, "xcrun");
    assert_eq!(q.args, vec!["agvtool", "what-version", "-terse"]);
}
