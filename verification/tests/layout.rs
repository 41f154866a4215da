use xcrelease::command::{CommandExecutor, CommandParams, Execution};
use xcrelease::dmg::{appearance_script, dmg_next, dmg_step, mount_point, mounted_dir, DmgLayout, DmgStage, MountTargets};
use xcrelease::release::{dmg_name, export_options_plist, release_command, release_next, ReleaseLayout, ReleaseStage};
use xcrelease::settings::parse_deployment_config;
use xcrelease::sync::{appcast_for_sync, is_release_artifact, sync_target, upload_command, SyncLayout};
use xcrelease::text::trim_str;

#[test]
fn command_params_keep_arguments_in_order() {
    let p = CommandParams::new("hdiutil", &["create", "-size", "50m"]);
    assert_eq!(p.program, "hdiutil");
    assert_eq!(p.args, vec!["create", "-size", "50m"]);
    assert!(p.current_dir.is_none());
}

#[test]
fn dry_run_shows_and_does_not_run() {
    let p = CommandParams::new("cp", &["-R", "a", "b/"]);
    match CommandExecutor::new(true).plan(&p, false) {
        Execution::Show { line, output } => {
            assert_eq!(line, "  Command: cp -R a b/");
            assert_eq!(output, "");
        }
        Execution::Run => panic!("dry run must not run"),
    }
    match CommandExecutor::new(true).plan(&p, true) {
        Execution::Show { line, output } => {
            assert_eq!(line, "  Command (with output): cp -R a b/");
            assert_eq!(output, "mock output for dry run");
        }
        Execution::Run => panic!("dry run must not run"),
    }
    assert!(matches!(CommandExecutor::new(false).plan(&p, false), Execution::Run));
}

#[test]
fn dry_run_line_with_directory_and_without_arguments() {
    let mut p = CommandParams::new("make", &[]);
    assert_eq!(p.dry_run_line(false), "  Command: make ");
    p.current_dir = Some("/tmp".to_string());
    assert_eq!(p.dry_run_line(false), "  Command: (cd /tmp && make )");
}

#[test]
fn failure_message_shows_exit_code() {
    let p = CommandParams::new("xcodebuild", &["archive"]);
    assert_eq!(p.failure_message(Some(65)), "Command 'xcodebuild' failed with exit code: Some(65)");
    assert_eq!(p.failure_message(Some(-2147483648)), "Command 'xcodebuild' failed with exit code: Some(-2147483648)");
    assert_eq!(p.failure_message(None), "Command 'xcodebuild' failed with exit code: None");
    assert_eq!(p.failure_message(Some(0)), format!("Command 'xcodebuild' failed with exit code: {:?}", Some(0)));
}

#[test]
fn dmg_name_drops_every_trailing_extension() {
    let mut c = parse_deployment_config("APP_NAME=Run IT\nZIP_NAME=RunIT.dmg.dmg\n", false);
    assert_eq!(dmg_name(&c), "RunIT");
    c.zip_name = Some(".dmgX".to_string());
    assert_eq!(dmg_name(&c), ".dmgX");
    c.zip_name = Some(".dmg".to_string());
    assert_eq!(dmg_name(&c), "");
    c.zip_name = None;
    assert_eq!(dmg_name(&c), "Run IT");
}

#[test]
fn release_layout_paths() {
    let c = parse_deployment_config("APP_NAME=App\nZIP_NAME=AppZip.dmg\n", false);
    let l = ReleaseLayout::new(&c, "1.2.3");
    assert_eq!(l.archive_file, "./archives/App-1.2.3.xcarchive");
    assert_eq!(l.release_dir, "./releases/1.2.3");
    assert_eq!(l.app_path, "./releases/1.2.3/App.app");
    assert_eq!(l.dmg_name, "AppZip");
    assert_eq!(l.all_folder, "./releases/all");
    assert_eq!(l.version_dmg_name, "1.2.3_AppZip.dmg");
    assert_eq!(l.appcast_dmg_path, "./releases/all/1.2.3_AppZip.dmg");
}

#[test]
fn export_options_hold_method_and_team() {
    let c = parse_deployment_config("EXPORT_METHOD=developer-id\nTEAM_ID=ABC\n", false);
    let plist = export_options_plist(&c);
    assert!(plist.starts_with("<?xml version=\"1.0\" encoding=\"UTF-8\"?>\n"));
    assert!(plist.contains("    <key>method</key>\n    <string>developer-id</string>\n"));
    assert!(plist.contains("    <key>teamID</key>\n    <string>ABC</string>\n</dict>\n</plist>"));
    assert!(plist.ends_with("</plist>"));
}

#[test]
fn dmg_layout_names() {
    let l = DmgLayout::new("Run IT", "1.0", "out", "RunIT");
    assert_eq!(l.volume_name, "Run IT 1.0");
    assert_eq!(l.temp_dmg, "temp-RunIT.dmg");
    assert_eq!(l.final_dmg_path, "out/RunIT.dmg");
    let t = MountTargets::new("/Volumes/Run IT 1.0");
    assert_eq!(t.app_destination, "/Volumes/Run IT 1.0/");
    assert_eq!(t.applications_link, "/Volumes/Run IT 1.0/Applications");
}

#[test]
fn mount_point_is_read_from_hdiutil_output() {
    let out = "/dev/disk4          \tGUID_partition_scheme\n/dev/disk4s1        \tApple_HFS                      \t/Volumes/Run IT 1.0\r\n";
    assert_eq!(mount_point(out).as_deref(), Some("/Volumes/Run IT 1.0"));
    assert_eq!(mount_point("/dev/disk4s2 Apple_HFS /Volumes/A\n/Volumes/B").as_deref(), Some("/Volumes/A"));
    assert_eq!(mount_point("no mount here\n"), None);
    assert_eq!(mount_point(""), None);
    assert_eq!(mount_point("x /Volumes/last\r").as_deref(), Some("/Volumes/last\r"));
}

#[test]
fn appearance_script_names_volume_and_app() {
    let s = appearance_script("Run IT 1.0", "Run IT");
    assert!(s.contains("tell disk \"Run IT 1.0\"\n"));
    assert!(s.contains("set position of item \"Run IT.app\" of container window to {125, 150}"));
    assert!(s.contains("set the bounds of container window to {400, 100, 900, 440}"));
}

#[test]
fn sync_layout_and_targets() {
    let l = SyncLayout::new("./releases");
    assert_eq!(l.all_dir, "./releases/all");
    assert_eq!(l.sync_dir, "./releases/sync");
    assert_eq!(l.source_appcast, "./releases/all/appcast.xml");
    assert_eq!(l.dest_appcast, "./releases/sync/appcast.xml");

    let t = sync_target("s", "1.2.3_App_x.dmg");
    assert_eq!(t.subdir.as_deref(), Some("s/1.2.3"));
    assert_eq!(t.dest, "s/1.2.3/App_x.dmg");
    let t = sync_target("s", "App.delta");
    assert_eq!(t.subdir, None);
    assert_eq!(t.dest, "s/App.delta");

    assert!(is_release_artifact("dmg"));
    assert!(is_release_artifact("delta"));
    assert!(!is_release_artifact("zip"));
}

#[test]
fn upload_only_with_server_path() {
    assert!(upload_command(&None, "r/sync", "App").is_none());
    let p = upload_command(&Some("user@host:/srv".to_string()), "r/sync", "App").unwrap();
    assert_eq!(p.program, "rsync");
    assert_eq!(p.args, vec!["-qchazP", "r/sync/", "user@host:/srv/App"]);
}

#[test]
fn appcast_underscores_become_slashes() {
    let s = appcast_for_sync("<enclosure url=\"https://x/1.2.3_App.dmg\"/>__");
    assert_eq!(s, "<enclosure url=\"https://x/1.2.3/App.dmg\"/>//");
    assert_eq!(appcast_for_sync("no change"), "no change");
    assert_eq!(appcast_for_sync("ü_ß"), "ü/ß");
}

#[test]
fn trim_matches_std() {
    for s in ["  a b \t", "\u{3000}x\u{85}", "", "   ", "\r\nline\r\n", "\u{200b}z"] {
        assert_eq!(trim_str(s), s.trim());
    }
}

#[test]
fn template_lists_required_settings() {
    let t = xcrelease::template::handle_template();
    for key in ["APP_NAME=", "APPLE_ID=", "TEAM_ID=", "ACCOUNT_TOKEN=", "SCHEME=", "EXPORT_METHOD="] {
        assert!(t.contains(key));
    }
    let c = xcrelease::settings::parse_deployment_config(&t, false);
    assert!(xcrelease::settings::validate_config(&c).is_ok());
}


#[test]
fn dmg_steps_in_order_with_commands() {
    let l = DmgLayout::new("Run IT", "1.0", "out", "RunIT");
    let expected: [(DmgStage, &str, Vec<String>); 7] = [
        (DmgStage::CreateImage, "hdiutil", vec!["create".into(), "-size".into(), "50m".into(), "-fs".into(), "HFS+".into(), "-volname".into(), "Run IT 1.0".into(), "temp-RunIT.dmg".into()]),
        (DmgStage::Attach, "hdiutil", vec!["attach".into(), "-readwrite".into(), "-noverify".into(), "-noautoopen".into(), "temp-RunIT.dmg".into()]),
        (DmgStage::CopyApp, "cp", vec!["-R".into(), "a/Run IT.app".into(), "/Volumes/V/".into()]),
        (DmgStage::LinkApplications, "ln", vec!["-s".into(), "/Applications".into(), "/Volumes/V/Applications".into()]),
        (DmgStage::SetAppearance, "osascript", vec!["-e".into(), appearance_script("Run IT 1.0", "Run IT")]),
        (DmgStage::Detach, "hdiutil", vec!["detach".into(), "/Volumes/V".into()]),
        (DmgStage::Convert, "hdiutil", vec!["convert".into(), "temp-RunIT.dmg".into(), "-format".into(), "UDZO".into(), "-o".into(), "out/RunIT.dmg".into()]),
    ];
    let mut stage = DmgStage::CreateImage;
    for (want, program, args) in expected.iter() {
        assert_eq!(stage, *want);
        let step = dmg_step(stage, "a/Run IT.app", "Run IT", &l, "/Volumes/V").unwrap();
        assert_eq!(step.command.program, *program);
        assert_eq!(&step.command.args, args);
        assert_eq!(step.reads_output, stage == DmgStage::Attach);
        assert_eq!(step.may_fail, stage == DmgStage::SetAppearance);
        stage = dmg_next(stage, true);
    }
    assert_eq!(stage, DmgStage::Finished);
    assert!(dmg_step(DmgStage::Finished, "a", "b", &l, "m").is_none());
}

#[test]
fn dmg_failure_stops_except_appearance() {
    assert_eq!(dmg_next(DmgStage::CreateImage, false), DmgStage::Failed);
    assert_eq!(dmg_next(DmgStage::Convert, false), DmgStage::Failed);
    assert_eq!(dmg_next(DmgStage::SetAppearance, false), DmgStage::Detach);
    assert_eq!(dmg_next(DmgStage::Failed, true), DmgStage::Failed);
    assert_eq!(dmg_next(DmgStage::Finished, false), DmgStage::Finished);
}

#[test]
fn dry_run_mount_is_placeholder() {
    assert_eq!(mounted_dir(true, "mock output for dry run").as_deref(), Some("/Volumes/mock-mount"));
    assert_eq!(mounted_dir(false, "x /Volumes/A\n").as_deref(), Some("/Volumes/A"));
    assert_eq!(mounted_dir(false, "mock output for dry run"), None);
}

#[test]
fn release_steps_in_order_with_commands() {
    let c = parse_deployment_config(
        "APP_NAME=App\nSCHEME=S\nAPPLE_ID=me@x\nTEAM_ID=T1\nACCOUNT_TOKEN=tok\nEXPORT_METHOD=developer-id\n",
        false,
    );
    let dmg = "./releases/1.0/App.dmg";
    let mut stage = ReleaseStage::Archive;
    let mut seen = Vec::new();
    while stage != ReleaseStage::Finished {
        seen.push((stage, release_command(stage, &c, "1.0", dmg).map(|p| (p.program, p.args))));
        stage = release_next(stage, true);
    }
    let s = |v: &[&str]| v.iter().map(|x| x.to_string()).collect::<Vec<_>>();
    assert_eq!(seen, vec![
        (ReleaseStage::Archive, Some(("xcodebuild".to_string(), s(&["archive", "-configuration", "Release", "-scheme", "S", "-archivePath", "./archives/App-1.0.xcarchive"])))),
        (ReleaseStage::Export, Some(("xcodebuild".to_string(), s(&["-exportArchive", "-archivePath", "./archives/App-1.0.xcarchive", "-exportPath", "./releases/1.0", "-exportOptionsPlist", "ExportOptions.plist"])))),
        (ReleaseStage::BuildImage, None),
        (ReleaseStage::Notarize, Some(("xcrun".to_string(), s(&["notarytool", "submit", dmg, "--apple-id", "me@x", "--team-id", "T1", "--password", "tok", "--wait"])))),
        (ReleaseStage::Staple, Some(("xcrun".to_string(), s(&["stapler", "staple", dmg])))),
        (ReleaseStage::CopyImage, Some(("cp".to_string(), s(&[dmg, "./releases/all/1.0_App.dmg"])))),
        (ReleaseStage::GenerateAppcast, Some(("generate_appcast".to_string(), s(&["./releases/all"])))),
        (ReleaseStage::Sync, None),
    ]);
}

#[test]
fn release_failure_stops() {
    for stage in [ReleaseStage::Archive, ReleaseStage::BuildImage, ReleaseStage::Sync] {
        assert_eq!(release_next(stage, false), ReleaseStage::Failed);
    }
    assert_eq!(release_next(ReleaseStage::Failed, true), ReleaseStage::Failed);
    assert_eq!(release_next(ReleaseStage::Finished, false), ReleaseStage::Finished);
}
