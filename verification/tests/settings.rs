use xcrelease::settings::{parse_deployment_config, validate_config};

#[test]
fn reads_settings_with_defaults() {
    let c = parse_deployment_config(
        "APP_NAME=MyApp\nAPPLE_ID=email@example.com\nTEAM_ID=XXXXXXXXXX\nACCOUNT_TOKEN=xxxx-xxxx\nSCHEME=MyApp\nEXPORT_METHOD=developer-id\n",
        false,
    );
    assert_eq!(c.app_name, "MyApp");
    assert_eq!(c.apple_id, "email@example.com");
    assert_eq!(c.team_id, "XXXXXXXXXX");
    assert_eq!(c.account_token, "xxxx-xxxx");
    assert_eq!(c.scheme, "MyApp");
    assert_eq!(c.export_method, "developer-id");
    assert_eq!(c.archive_folder, "./archives");
    assert_eq!(c.release_folder, "./releases");
    assert_eq!(c.export_options_plist, "ExportOptions.plist");
    assert_eq!(c.version, None);
    assert_eq!(c.zip_name, None);
    assert_eq!(c.sparkle_host, None);
    assert!(!c.dry_run);
}

#[test]
fn empty_file_gives_defaults() {
    let c = parse_deployment_config("", true);
    assert_eq!(c.app_name, "");
    assert_eq!(c.export_method, "");
    assert!(c.dry_run);
}

#[test]
fn comments_blank_lines_and_lines_without_equals_are_skipped() {
    let c = parse_deployment_config(
        "# APP_NAME=Commented\n\n   \n  #SCHEME=x\nnot a setting\nAPP_NAME=Real\n",
        false,
    );
    assert_eq!(c.app_name, "Real");
    assert_eq!(c.scheme, "");
}

#[test]
fn keys_and_values_are_trimmed_and_split_at_first_equals() {
    let c = parse_deployment_config("  APP_NAME =  My App \r\nVERSION= 1.2.3\nZIP_NAME=a=b\n", false);
    assert_eq!(c.app_name, "My App");
    assert_eq!(c.version.as_deref(), Some("1.2.3"));
    assert_eq!(c.zip_name.as_deref(), Some("a=b"));
}

#[test]
fn later_setting_overrides_earlier() {
    let c = parse_deployment_config("SCHEME=First\nSCHEME=Second\n", false);
    assert_eq!(c.scheme, "Second");
}

#[test]
fn references_are_replaced_once() {
    let c = parse_deployment_config(
        "BASE=/srv\nSPARKLE_HOST=${BASE}/updates/${NAME}\nNAME=${BASE}\nAPP_NAME=${MISSING}-x\nZIP_NAME=${BASE\n",
        false,
    );
    // NAME's raw value is substituted, not rescanned.
    assert_eq!(c.sparkle_host.as_deref(), Some("/srv/updates/${BASE}"));
    assert_eq!(c.app_name, "${MISSING}-x");
    assert_eq!(c.zip_name.as_deref(), Some("${BASE"));
}

#[test]
fn reference_uses_last_raw_value() {
    let c = parse_deployment_config("X=a\nTEAM_ID=${X}${X}\nX=b\n", false);
    assert_eq!(c.team_id, "bb");
}

#[test]
fn validation_lists_missing_settings_in_order() {
    let c = parse_deployment_config("APP_NAME=A\nTEAM_ID=T\n", false);
    let errors = validate_config(&c).unwrap_err();
    assert_eq!(
        errors,
        vec![
            "SCHEME is required in .deployment file",
            "APPLE_ID is required in .deployment file",
            "ACCOUNT_TOKEN is required in .deployment file",
            "EXPORT_METHOD is required in .deployment file",
        ]
    );
}

#[test]
fn validation_flags_empty_export_method() {
    let c = parse_deployment_config(
        "APP_NAME=A\nSCHEME=S\nAPPLE_ID=I\nTEAM_ID=T\nACCOUNT_TOKEN=K\nEXPORT_METHOD=\n",
        false,
    );
    assert_eq!(validate_config(&c).unwrap_err(), vec!["EXPORT_METHOD is required in .deployment file"]);
}

#[test]
fn validation_passes_with_required_settings() {
    let c = parse_deployment_config("APP_NAME=A\nSCHEME=S\nAPPLE_ID=I\nTEAM_ID=T\nACCOUNT_TOKEN=K\nEXPORT_METHOD=app-store\n", false);
    assert!(validate_config(&c).is_ok());
}

#[test]
fn unset_export_method_is_refused() {
    let c = parse_deployment_config("APP_NAME=A\nSCHEME=S\nAPPLE_ID=I\nTEAM_ID=T\nACCOUNT_TOKEN=K\n", false);
    assert_eq!(validate_config(&c).unwrap_err(), vec!["EXPORT_METHOD is required in .deployment file"]);
}
