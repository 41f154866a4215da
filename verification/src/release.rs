//! The files of a release: where the archive, the exported app and the
//! disk images go, and the export options the export is made with.
use vstd::prelude::*;

use crate::command::{runs, words_of, CommandParams};
use crate::settings::ReleaseConfig;
use crate::text::{chars_of, occurs_at, push_all, push_str, slice_chars, string_of, matches_at};

verus! {

broadcast use vstd::string::group_string_axioms;

/// `s` ends with `suffix`.
pub open spec fn ends_with(s: Seq<char>, suffix: Seq<char>) -> bool {
    matches_at(s, suffix, s.len() - suffix.len())
}

/// `s` with `suffix` removed from its end as often as it occurs there, as
/// `str::trim_end_matches` does with a non-empty string pattern.
pub open spec fn trim_end_matches(s: Seq<char>, suffix: Seq<char>) -> Seq<char>
    decreases s.len(),
{
    if suffix.len() > 0 && ends_with(s, suffix) {
        trim_end_matches(s.take(s.len() - suffix.len()), suffix)
    } else {
        s
    }
}

/// The name the disk image is given: `ZIP_NAME` without any trailing
/// `.dmg`, or the application's name where `ZIP_NAME` is not set.
pub open spec fn dmg_base_name(zip_name: Option<Seq<char>>, app_name: Seq<char>) -> Seq<char> {
    match zip_name {
        Some(z) => trim_end_matches(z, ".dmg"@),
        None => app_name,
    }
}

/// `s` with every trailing `.dmg` removed.
fn trim_dmg_suffix(s: &[char]) -> (out: Vec<char>)
    ensures
        out@ == trim_end_matches(s@, ".dmg"@),
{
    let suffix = chars_of(".dmg");
    proof {
        reveal_strlit(".dmg");
    }
    let m = suffix.len();
    let mut end = s.len();
    assert(s@.take(end as int) =~= s@);
    while end >= m && occurs_at(s, suffix.as_slice(), end - m)
        invariant
            end <= s@.len(),
            m == 4,
            suffix@ == ".dmg"@,
            trim_end_matches(s@, ".dmg"@) == trim_end_matches(s@.take(end as int), ".dmg"@),
        decreases end,
    {
        proof {
            reveal_strlit(".dmg");
            let t = s@.take(end as int);
            assert(matches_at(s@, ".dmg"@, end - 4));
            assert(".dmg"@.len() == 4);
            assert forall|k: int| 0 <= k < 4 implies t[t.len() - 4 + k] == ".dmg"@[k] by {
                assert(t[end - 4 + k] == s@[end - 4 + k]);
                assert(s@[end - 4 + k] == ".dmg"@[k]);
            }
            assert(matches_at(t, ".dmg"@, t.len() - 4));
            assert(t.take(t.len() - 4) =~= s@.take(end - 4));
        }
        end -= m;
    }
    proof {
        let t = s@.take(end as int);
        if end >= 4 && matches_at(t, ".dmg"@, t.len() - 4) {
            assert forall|k: int| 0 <= k < 4 implies s@[end - 4 + k] == ".dmg"@[k] by {
                assert(t[end - 4 + k] == s@[end - 4 + k]);
            }
        }
        assert(s@.subrange(0, end as int) =~= t);
    }
    slice_chars(s, 0, end)
}

/// The name the disk image is given.
pub fn dmg_name(config: &ReleaseConfig) -> (name: String)
    ensures
        name@ == dmg_base_name(config@.zip_name, config@.app_name),
        config@.zip_name is None ==> name@ == config@.app_name,
        config@.zip_name matches Some(z) ==> !ends_with(name@, ".dmg"@) && (!ends_with(
            z,
            ".dmg"@,
        ) ==> name@ == z) && exists|k: nat| z == name@ + dmg_suffixes(k),
{
    proof {
        match config@.zip_name {
            Some(z) => {
                lemma_dmg_name_from_zip_name(z, config@.app_name);
            },
            None => {},
        }
    }
    match &config.zip_name {
        Some(z) => {
            let cs = chars_of(z.as_str());
            let t = trim_dmg_suffix(cs.as_slice());
            string_of(t.as_slice())
        },
        None => config.app_name.clone(),
    }
}

/// Where the files of the release of `version` go.
pub struct ReleaseLayout {
    /// The Xcode archive.
    pub archive_file: String,
    /// The folder the app is exported to.
    pub release_dir: String,
    /// The exported app bundle.
    pub app_path: String,
    /// The base name of the disk image.
    pub dmg_name: String,
    /// The folder the appcast is generated in.
    pub all_folder: String,
    /// The disk image's name in that folder.
    pub version_dmg_name: String,
    /// The disk image's path in that folder.
    pub appcast_dmg_path: String,
}

impl ReleaseLayout {
    pub open spec fn archive_file_of(c: crate::settings::ReleaseConfigView, version: Seq<char>) -> Seq<char> {
        c.archive_folder + "/"@ + c.app_name + "-"@ + version + ".xcarchive"@
    }

    pub open spec fn release_dir_of(c: crate::settings::ReleaseConfigView, version: Seq<char>) -> Seq<char> {
        c.release_folder + "/"@ + version
    }

    pub open spec fn all_folder_of(c: crate::settings::ReleaseConfigView) -> Seq<char> {
        c.release_folder + "/all"@
    }

    /// The layout of the release of `version` under `config`.
    pub fn new(config: &ReleaseConfig, version: &str) -> (l: ReleaseLayout)
        ensures
            l.archive_file@ == Self::archive_file_of(config@, version@),
            l.release_dir@ == Self::release_dir_of(config@, version@),
            l.app_path@ == Self::release_dir_of(config@, version@) + "/"@ + config@.app_name
                + ".app"@,
            l.dmg_name@ == dmg_base_name(config@.zip_name, config@.app_name),
            l.all_folder@ == Self::all_folder_of(config@),
            l.version_dmg_name@ == version@ + "_"@ + l.dmg_name@ + ".dmg"@,
            l.appcast_dmg_path@ == Self::all_folder_of(config@) + "/"@ + version@ + "_"@
                + l.dmg_name@ + ".dmg"@,
            l.archive_file@ == config@.archive_folder + "/"@ + config@.app_name + "-"@ + version@
                + ".xcarchive"@,
            l.release_dir@ == config@.release_folder + "/"@ + version@,
            l.app_path@ == config@.release_folder + "/"@ + version@ + "/"@ + config@.app_name
                + ".app"@,
            l.all_folder@ == config@.release_folder + "/all"@,
            l.appcast_dmg_path@ == config@.release_folder + "/all"@ + "/"@ + version@ + "_"@
                + l.dmg_name@ + ".dmg"@,
    {
        let mut archive: Vec<char> = Vec::new();
        push_str(&mut archive, config.archive_folder.as_str());
        push_str(&mut archive, "/");
        push_str(&mut archive, config.app_name.as_str());
        push_str(&mut archive, "-");
        push_str(&mut archive, version);
        push_str(&mut archive, ".xcarchive");

        let mut release: Vec<char> = Vec::new();
        push_str(&mut release, config.release_folder.as_str());
        push_str(&mut release, "/");
        push_str(&mut release, version);

        let mut app: Vec<char> = Vec::new();
        push_all(&mut app, release.as_slice());
        push_str(&mut app, "/");
        push_str(&mut app, config.app_name.as_str());
        push_str(&mut app, ".app");

        let dmg = dmg_name(config);

        let mut all: Vec<char> = Vec::new();
        push_str(&mut all, config.release_folder.as_str());
        push_str(&mut all, "/all");

        let mut versioned: Vec<char> = Vec::new();
        push_str(&mut versioned, version);
        push_str(&mut versioned, "_");
        push_str(&mut versioned, dmg.as_str());
        push_str(&mut versioned, ".dmg");

        let mut appcast: Vec<char> = Vec::new();
        push_all(&mut appcast, all.as_slice());
        push_str(&mut appcast, "/");
        push_all(&mut appcast, versioned.as_slice());

        ReleaseLayout {
            archive_file: string_of(archive.as_slice()),
            release_dir: string_of(release.as_slice()),
            app_path: string_of(app.as_slice()),
            dmg_name: dmg,
            all_folder: string_of(all.as_slice()),
            version_dmg_name: string_of(versioned.as_slice()),
            appcast_dmg_path: string_of(appcast.as_slice()),
        }
    }
}

/// The text of the export options property list before the export method.
pub open spec fn plist_head() -> Seq<char> {
    "<?xml version=\"1.0\" encoding=\"UTF-8\"?>\n<!DOCTYPE plist PUBLIC \"-//Apple//DTD PLIST 1.0//EN\" \"http://www.apple.com/DTDs/PropertyList-1.0.dtd\">\n<plist version=\"1.0\">\n<dict>\n    <key>method</key>\n    <string>"@
}

/// The text of the export options property list between the export method and the team.
pub open spec fn plist_middle() -> Seq<char> {
    "</string>\n    <key>uploadBitcode</key>\n    <true/>\n    <key>uploadSymbols</key>\n    <true/>\n    <key>teamID</key>\n    <string>"@
}

/// The text of the export options property list after the team.
pub open spec fn plist_tail() -> Seq<char> {
    "</string>\n</dict>\n</plist>"@
}

/// The export options property list for `config`: its export method and its team.
pub fn export_options_plist(config: &ReleaseConfig) -> (content: String)
    ensures
        content@ == plist_head() + config@.export_method + plist_middle() + config@.team_id
            + plist_tail(),
        content@ == "<?xml version=\"1.0\" encoding=\"UTF-8\"?>\n<!DOCTYPE plist PUBLIC \"-//Apple//DTD PLIST 1.0//EN\" \"http://www.apple.com/DTDs/PropertyList-1.0.dtd\">\n<plist version=\"1.0\">\n<dict>\n    <key>method</key>\n    <string>"@ + config@.export_method
            + "</string>\n    <key>uploadBitcode</key>\n    <true/>\n    <key>uploadSymbols</key>\n    <true/>\n    <key>teamID</key>\n    <string>"@ + config@.team_id
            + "</string>\n</dict>\n</plist>"@,
{
    let mut out: Vec<char> = Vec::new();
    push_str(
        &mut out,
        "<?xml version=\"1.0\" encoding=\"UTF-8\"?>\n<!DOCTYPE plist PUBLIC \"-//Apple//DTD PLIST 1.0//EN\" \"http://www.apple.com/DTDs/PropertyList-1.0.dtd\">\n<plist version=\"1.0\">\n<dict>\n    <key>method</key>\n    <string>",
    );
    push_str(&mut out, config.export_method.as_str());
    push_str(
        &mut out,
        "</string>\n    <key>uploadBitcode</key>\n    <true/>\n    <key>uploadSymbols</key>\n    <true/>\n    <key>teamID</key>\n    <string>",
    );
    push_str(&mut out, config.team_id.as_str());
    push_str(&mut out, "</string>\n</dict>\n</plist>");
    string_of(out.as_slice())
}

} // verus!

verus! {

proof fn lemma_trim_end_matches_done(s: Seq<char>, suffix: Seq<char>)
    requires
        suffix.len() > 0,
    ensures
        !ends_with(trim_end_matches(s, suffix), suffix),
        trim_end_matches(trim_end_matches(s, suffix), suffix) == trim_end_matches(s, suffix),
    decreases s.len(),
{
    if ends_with(s, suffix) {
        lemma_trim_end_matches_done(s.take(s.len() - suffix.len()), suffix);
    }
}

/// The disk image's base name never ends in `.dmg`, and trimming it again
/// changes nothing.
pub proof fn lemma_dmg_name_without_extension(zip_name: Seq<char>)
    ensures
        !ends_with(trim_end_matches(zip_name, ".dmg"@), ".dmg"@),
        trim_end_matches(trim_end_matches(zip_name, ".dmg"@), ".dmg"@) == trim_end_matches(
            zip_name,
            ".dmg"@,
        ),
{
    reveal_strlit(".dmg");
    lemma_trim_end_matches_done(zip_name, ".dmg"@);
}

} // verus!

verus! {

/// The steps of a release after the version is settled, in the order they run.
#[derive(Clone, Copy, Debug, PartialEq, Eq)]
pub enum ReleaseStage {
    /// `xcodebuild archive`.
    Archive,
    /// `xcodebuild -exportArchive`.
    Export,
    /// Build the disk image (the steps of `DmgStage`).
    BuildImage,
    /// `xcrun notarytool submit … --wait`.
    Notarize,
    /// `xcrun stapler staple`.
    Staple,
    /// `cp` of the stapled image into the appcast folder.
    CopyImage,
    /// `generate_appcast`.
    GenerateAppcast,
    /// Fill the sync folder and upload it.
    Sync,
    /// All steps succeeded.
    Finished,
    /// A step failed; nothing more runs.
    Failed,
}

/// The step after `s` when `s` went well.
pub open spec fn release_successor(s: ReleaseStage) -> ReleaseStage {
    match s {
        ReleaseStage::Archive => ReleaseStage::Export,
        ReleaseStage::Export => ReleaseStage::BuildImage,
        ReleaseStage::BuildImage => ReleaseStage::Notarize,
        ReleaseStage::Notarize => ReleaseStage::Staple,
        ReleaseStage::Staple => ReleaseStage::CopyImage,
        ReleaseStage::CopyImage => ReleaseStage::GenerateAppcast,
        ReleaseStage::GenerateAppcast => ReleaseStage::Sync,
        ReleaseStage::Sync => ReleaseStage::Finished,
        ReleaseStage::Finished => ReleaseStage::Finished,
        ReleaseStage::Failed => ReleaseStage::Failed,
    }
}

/// The step after `stage`, given whether it succeeded: a failure stops the
/// release; `Finished` and `Failed` are final.
pub fn release_next(stage: ReleaseStage, ok: bool) -> (next: ReleaseStage)
    ensures
        stage == ReleaseStage::Finished || stage == ReleaseStage::Failed ==> next == stage,
        stage != ReleaseStage::Finished && stage != ReleaseStage::Failed ==> next == if ok {
            release_successor(stage)
        } else {
            ReleaseStage::Failed
        },
{
    match stage {
        ReleaseStage::Finished => ReleaseStage::Finished,
        ReleaseStage::Failed => ReleaseStage::Failed,
        _ => if !ok {
            ReleaseStage::Failed
        } else {
            match stage {
                ReleaseStage::Archive => ReleaseStage::Export,
                ReleaseStage::Export => ReleaseStage::BuildImage,
                ReleaseStage::BuildImage => ReleaseStage::Notarize,
                ReleaseStage::Notarize => ReleaseStage::Staple,
                ReleaseStage::Staple => ReleaseStage::CopyImage,
                ReleaseStage::CopyImage => ReleaseStage::GenerateAppcast,
                ReleaseStage::GenerateAppcast => ReleaseStage::Sync,
                _ => ReleaseStage::Finished,
            }
        },
    }
}

/// The command `stage` runs for the release of `version` under `c`, with the
/// disk image at `dmg_path`; none for the steps that are no single command.
pub open spec fn release_command_of(
    stage: ReleaseStage,
    c: crate::settings::ReleaseConfigView,
    version: Seq<char>,
    dmg_path: Seq<char>,
) -> Option<(Seq<char>, Seq<Seq<char>>)> {
    let archive = ReleaseLayout::archive_file_of(c, version);
    let release_dir = ReleaseLayout::release_dir_of(c, version);
    let dmg = dmg_base_name(c.zip_name, c.app_name);
    match stage {
        ReleaseStage::Archive => Some(
            (
                "xcodebuild"@,
                seq![
                    "archive"@,
                    "-configuration"@,
                    "Release"@,
                    "-scheme"@,
                    c.scheme,
                    "-archivePath"@,
                    archive,
                ],
            ),
        ),
        ReleaseStage::Export => Some(
            (
                "xcodebuild"@,
                seq![
                    "-exportArchive"@,
                    "-archivePath"@,
                    archive,
                    "-exportPath"@,
                    release_dir,
                    "-exportOptionsPlist"@,
                    c.export_options_plist,
                ],
            ),
        ),
        ReleaseStage::Notarize => Some(
            (
                "xcrun"@,
                seq![
                    "notarytool"@,
                    "submit"@,
                    dmg_path,
                    "--apple-id"@,
                    c.apple_id,
                    "--team-id"@,
                    c.team_id,
                    "--password"@,
                    c.account_token,
                    "--wait"@,
                ],
            ),
        ),
        ReleaseStage::Staple => Some(("xcrun"@, seq!["stapler"@, "staple"@, dmg_path])),
        ReleaseStage::CopyImage => Some(
            (
                "cp"@,
                seq![
                    dmg_path,
                    ReleaseLayout::all_folder_of(c) + "/"@ + version + "_"@ + dmg + ".dmg"@,
                ],
            ),
        ),
        ReleaseStage::GenerateAppcast => Some(
            ("generate_appcast"@, seq![ReleaseLayout::all_folder_of(c)]),
        ),
        _ => None,
    }
}

/// The command `stage` runs for the release of `version` under `config`,
/// with the disk image at `dmg_path`.
pub fn release_command(stage: ReleaseStage, config: &ReleaseConfig, version: &str, dmg_path: &str) -> (r:
    Option<CommandParams>)
    ensures
        match release_command_of(stage, config@, version@, dmg_path@) {
            Some((program, args)) => r matches Some(p) && runs(p, program, args),
            None => r is None,
        },
{
    let layout = ReleaseLayout::new(config, version);
    match stage {
        ReleaseStage::Archive => {
            let args: [&str; 7] = [
                "archive",
                "-configuration",
                "Release",
                "-scheme",
                config.scheme.as_str(),
                "-archivePath",
                layout.archive_file.as_str(),
            ];
            let p = CommandParams::new("xcodebuild", &args);
            assert(words_of(p.args@) =~= seq![
                "archive"@,
                "-configuration"@,
                "Release"@,
                "-scheme"@,
                config@.scheme,
                "-archivePath"@,
                layout.archive_file@,
            ]);
            Some(p)
        },
        ReleaseStage::Export => {
            let args: [&str; 7] = [
                "-exportArchive",
                "-archivePath",
                layout.archive_file.as_str(),
                "-exportPath",
                layout.release_dir.as_str(),
                "-exportOptionsPlist",
                config.export_options_plist.as_str(),
            ];
            let p = CommandParams::new("xcodebuild", &args);
            assert(words_of(p.args@) =~= seq![
                "-exportArchive"@,
                "-archivePath"@,
                layout.archive_file@,
                "-exportPath"@,
                layout.release_dir@,
                "-exportOptionsPlist"@,
                config@.export_options_plist,
            ]);
            Some(p)
        },
        ReleaseStage::Notarize => {
            let args: [&str; 10] = [
                "notarytool",
                "submit",
                dmg_path,
                "--apple-id",
                config.apple_id.as_str(),
                "--team-id",
                config.team_id.as_str(),
                "--password",
                config.account_token.as_str(),
                "--wait",
            ];
            let p = CommandParams::new("xcrun", &args);
            assert(words_of(p.args@) =~= seq![
                "notarytool"@,
                "submit"@,
                dmg_path@,
                "--apple-id"@,
                config@.apple_id,
                "--team-id"@,
                config@.team_id,
                "--password"@,
                config@.account_token,
                "--wait"@,
            ]);
            Some(p)
        },
        ReleaseStage::Staple => {
            let args: [&str; 3] = ["stapler", "staple", dmg_path];
            let p = CommandParams::new("xcrun", &args);
            assert(words_of(p.args@) =~= seq!["stapler"@, "staple"@, dmg_path@]);
            Some(p)
        },
        ReleaseStage::CopyImage => {
            let args: [&str; 2] = [dmg_path, layout.appcast_dmg_path.as_str()];
            let p = CommandParams::new("cp", &args);
            assert(words_of(p.args@) =~= seq![dmg_path@, layout.appcast_dmg_path@]);
            Some(p)
        },
        ReleaseStage::GenerateAppcast => {
            let args: [&str; 1] = [layout.all_folder.as_str()];
            let p = CommandParams::new("generate_appcast", &args);
            assert(words_of(p.args@) =~= seq![layout.all_folder@]);
            Some(p)
        },
        _ => None,
    }
}

/// With every step succeeding, the release runs its steps in order and
/// finishes; a failed step is final.
pub proof fn lemma_release_order()
    ensures
        release_successor(ReleaseStage::Archive) == ReleaseStage::Export,
        release_successor(ReleaseStage::Export) == ReleaseStage::BuildImage,
        release_successor(ReleaseStage::BuildImage) == ReleaseStage::Notarize,
        release_successor(ReleaseStage::Notarize) == ReleaseStage::Staple,
        release_successor(ReleaseStage::Staple) == ReleaseStage::CopyImage,
        release_successor(ReleaseStage::CopyImage) == ReleaseStage::GenerateAppcast,
        release_successor(ReleaseStage::GenerateAppcast) == ReleaseStage::Sync,
        release_successor(ReleaseStage::Sync) == ReleaseStage::Finished,
        release_successor(ReleaseStage::Failed) == ReleaseStage::Failed,
{
}

} // verus!

verus! {

/// `k` copies of `.dmg`.
pub open spec fn dmg_suffixes(k: nat) -> Seq<char>
    decreases k,
{
    if k == 0 {
        Seq::empty()
    } else {
        dmg_suffixes((k - 1) as nat) + ".dmg"@
    }
}

proof fn lemma_trim_dmg_count(s: Seq<char>) -> (k: nat)
    ensures
        s == trim_end_matches(s, ".dmg"@) + dmg_suffixes(k),
    decreases s.len(),
{
    reveal_strlit(".dmg");
    if ends_with(s, ".dmg"@) {
        let t = s.take(s.len() - 4);
        let k = lemma_trim_dmg_count(t);
        let r = trim_end_matches(t, ".dmg"@);
        assert forall|j: int| 0 <= j < 4 implies s[s.len() - 4 + j] == ".dmg"@[j] by {}
        assert(s =~= t + ".dmg"@);
        assert(dmg_suffixes(k + 1) == dmg_suffixes(k) + ".dmg"@);
        assert(s =~= r + dmg_suffixes(k + 1));
        k + 1
    } else {
        assert(s =~= s + dmg_suffixes(0));
        0
    }
}

/// The image is named after `ZIP_NAME` whenever that is set: the name is
/// `ZIP_NAME` with some number of trailing `.dmg` removed and ends in no
/// `.dmg`, so a `ZIP_NAME` not ending in `.dmg` is taken as it is; the
/// application's name is used only where `ZIP_NAME` is unset.
pub proof fn lemma_dmg_name_from_zip_name(z: Seq<char>, app_name: Seq<char>)
    ensures
        !ends_with(z, ".dmg"@) ==> dmg_base_name(Some(z), app_name) == z,
        !ends_with(dmg_base_name(Some(z), app_name), ".dmg"@),
        exists|k: nat| z == dmg_base_name(Some(z), app_name) + dmg_suffixes(k),
        dmg_base_name(None, app_name) == app_name,
{
    reveal_strlit(".dmg");
    lemma_dmg_name_without_extension(z);
    let k = lemma_trim_dmg_count(z);
    assert(z == dmg_base_name(Some(z), app_name) + dmg_suffixes(k));
}

/// The files of a release lie where the configuration says: the archive in
/// the archive folder, named `<app>-<version>.xcarchive`; the export folder
/// `<release folder>/<version>` with the app bundle in it; and the appcast
/// folder `all` beside it in the same release folder.
pub proof fn lemma_release_paths(c: crate::settings::ReleaseConfigView, version: Seq<char>)
    ensures
        ReleaseLayout::archive_file_of(c, version) == c.archive_folder + "/"@ + c.app_name + "-"@
            + version + ".xcarchive"@,
        ReleaseLayout::release_dir_of(c, version) == c.release_folder + "/"@ + version,
        ReleaseLayout::all_folder_of(c) == c.release_folder + "/all"@,
        ReleaseLayout::release_dir_of(c, version).take(c.release_folder.len() as int)
            == c.release_folder,
        ReleaseLayout::all_folder_of(c).take(c.release_folder.len() as int) == c.release_folder,
{
    assert(ReleaseLayout::release_dir_of(c, version).take(c.release_folder.len() as int)
        =~= c.release_folder);
    assert(ReleaseLayout::all_folder_of(c).take(c.release_folder.len() as int)
        =~= c.release_folder);
}

/// Each release step runs its command on the configured values: the archive
/// and export use the scheme, the archive path and the export folder
/// `<release folder>/<version>`; notarization sends the image with the Apple
/// ID, team and token; the image is stapled, copied into
/// `<release folder>/all` as `<version>_<name>.dmg`, and the appcast is
/// generated there.
pub proof fn lemma_release_commands(
    c: crate::settings::ReleaseConfigView,
    version: Seq<char>,
    dmg_path: Seq<char>,
)
    ensures
        release_command_of(ReleaseStage::Archive, c, version, dmg_path) == Some(
            (
                "xcodebuild"@,
                seq![
                    "archive"@,
                    "-configuration"@,
                    "Release"@,
                    "-scheme"@,
                    c.scheme,
                    "-archivePath"@,
                    c.archive_folder + "/"@ + c.app_name + "-"@ + version + ".xcarchive"@,
                ],
            ),
        ),
        release_command_of(ReleaseStage::Export, c, version, dmg_path) == Some(
            (
                "xcodebuild"@,
                seq![
                    "-exportArchive"@,
                    "-archivePath"@,
                    c.archive_folder + "/"@ + c.app_name + "-"@ + version + ".xcarchive"@,
                    "-exportPath"@,
                    c.release_folder + "/"@ + version,
                    "-exportOptionsPlist"@,
                    c.export_options_plist,
                ],
            ),
        ),
        release_command_of(ReleaseStage::Notarize, c, version, dmg_path) == Some(
            (
                "xcrun"@,
                seq![
                    "notarytool"@,
                    "submit"@,
                    dmg_path,
                    "--apple-id"@,
                    c.apple_id,
                    "--team-id"@,
                    c.team_id,
                    "--password"@,
                    c.account_token,
                    "--wait"@,
                ],
            ),
        ),
        release_command_of(ReleaseStage::Staple, c, version, dmg_path) == Some(
            ("xcrun"@, seq!["stapler"@, "staple"@, dmg_path]),
        ),
        release_command_of(ReleaseStage::CopyImage, c, version, dmg_path) == Some(
            (
                "cp"@,
                seq![
                    dmg_path,
                    c.release_folder + "/all"@ + "/"@ + version + "_"@ + dmg_base_name(
                        c.zip_name,
                        c.app_name,
                    ) + ".dmg"@,
                ],
            ),
        ),
        release_command_of(ReleaseStage::GenerateAppcast, c, version, dmg_path) == Some(
            ("generate_appcast"@, seq![c.release_folder + "/all"@]),
        ),
        release_command_of(ReleaseStage::BuildImage, c, version, dmg_path) is None,
        release_command_of(ReleaseStage::Sync, c, version, dmg_path) is None,
{
}

/// The export options ask for the export method and team of the
/// configuration, and to upload both bitcode and symbols.
pub proof fn lemma_export_options_text(method: Seq<char>, team: Seq<char>)
    ensures
        plist_head() + method + plist_middle() + team + plist_tail() == "<?xml version=\"1.0\" encoding=\"UTF-8\"?>\n<!DOCTYPE plist PUBLIC \"-//Apple//DTD PLIST 1.0//EN\" \"http://www.apple.com/DTDs/PropertyList-1.0.dtd\">\n<plist version=\"1.0\">\n<dict>\n    <key>method</key>\n    <string>"@ + method + "</string>\n    <key>uploadBitcode</key>\n    <true/>\n    <key>uploadSymbols</key>\n    <true/>\n    <key>teamID</key>\n    <string>"@ + team + "</string>\n</dict>\n</plist>"@,
        ({
            let content = plist_head() + method + plist_middle() + team + plist_tail();
            let at = plist_head().len() as int + method.len();
            &&& content.subrange(at + 14, at + 50) == "<key>uploadBitcode</key>\n    <true/>"@
            &&& content.subrange(at + 55, at + 91) == "<key>uploadSymbols</key>\n    <true/>"@
            &&& content.subrange(at + 96, at + 126) == "<key>teamID</key>\n    <string>"@
            &&& content.subrange(at + 126, at + 126 + team.len() as int) == team
        }),
{
    let content = plist_head() + method + plist_middle() + team + plist_tail();
    let at = plist_head().len() as int + method.len();
    let m = plist_middle();
    reveal_strlit("</string>\n    <key>uploadBitcode</key>\n    <true/>\n    <key>uploadSymbols</key>\n    <true/>\n    <key>teamID</key>\n    <string>");
    reveal_strlit("<key>uploadBitcode</key>\n    <true/>");
    reveal_strlit("<key>uploadSymbols</key>\n    <true/>");
    reveal_strlit("<key>teamID</key>\n    <string>");
    assert(m.len() == 126);
    assert(content.subrange(at + 14, at + 50) =~= m.subrange(14, 50));
    assert(content.subrange(at + 55, at + 91) =~= m.subrange(55, 91));
    assert(content.subrange(at + 96, at + 126) =~= m.subrange(96, 126));
    assert(content.subrange(at + 126, at + 126 + team.len() as int) =~= team);
    assert(m.subrange(14, 50) =~= "<key>uploadBitcode</key>\n    <true/>"@);
    assert(m.subrange(55, 91) =~= "<key>uploadSymbols</key>\n    <true/>"@);
    assert(m.subrange(96, 126) =~= "<key>teamID</key>\n    <string>"@);
}

} // verus!
