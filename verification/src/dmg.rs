//! The disk image of a release: its names, where `hdiutil` mounted it, and
//! the Finder script that arranges its window.
use vstd::prelude::*;

use crate::command::{runs, words_of, CommandParams};
use crate::text::{
    chars_of, find_seq, find_seq_from, lemma_find_seq, lemma_find_seq_first, lines, lines_of,
    matches_at, push_all, push_str, seqs_of, slice_chars, string_of,
};

verus! {

broadcast use vstd::string::group_string_axioms;

/// The names a disk image is made under.
pub struct DmgLayout {
    /// The name of the mounted volume.
    pub volume_name: String,
    /// The writable image the content is copied into first.
    pub temp_dmg: String,
    /// The compressed image that is the result.
    pub final_dmg_path: String,
}

impl DmgLayout {
    /// The names for the disk image of `app_name` at `version`, named
    /// `dmg_name` and written to `output_dir`.
    pub fn new(app_name: &str, version: &str, output_dir: &str, dmg_name: &str) -> (l: DmgLayout)
        ensures
            l.volume_name@ == app_name@ + " "@ + version@,
            l.temp_dmg@ == "temp-"@ + dmg_name@ + ".dmg"@,
            l.final_dmg_path@ == output_dir@ + "/"@ + dmg_name@ + ".dmg"@,
    {
        let mut volume: Vec<char> = Vec::new();
        push_str(&mut volume, app_name);
        push_str(&mut volume, " ");
        push_str(&mut volume, version);
        let mut temp: Vec<char> = Vec::new();
        push_str(&mut temp, "temp-");
        push_str(&mut temp, dmg_name);
        push_str(&mut temp, ".dmg");
        let mut fin: Vec<char> = Vec::new();
        push_str(&mut fin, output_dir);
        push_str(&mut fin, "/");
        push_str(&mut fin, dmg_name);
        push_str(&mut fin, ".dmg");
        DmgLayout {
            volume_name: string_of(volume.as_slice()),
            temp_dmg: string_of(temp.as_slice()),
            final_dmg_path: string_of(fin.as_slice()),
        }
    }
}

/// The first of `ls` that contains `p`.
pub open spec fn first_line_with(ls: Seq<Seq<char>>, p: Seq<char>) -> Option<Seq<char>>
    decreases ls.len(),
{
    if ls.len() == 0 {
        None
    } else if find_seq(ls[0], p) is Some {
        Some(ls[0])
    } else {
        first_line_with(ls.drop_first(), p)
    }
}

/// Where `hdiutil attach` says it mounted the image: in the first line of its
/// `output` that contains `/Volumes/`, the text from that occurrence on.
pub open spec fn mount_point_of(output: Seq<char>) -> Option<Seq<char>> {
    match first_line_with(lines(output), "/Volumes/"@) {
        Some(line) => Some(line.skip(find_seq(line, "/Volumes/"@)->0)),
        None => None,
    }
}

/// Where `hdiutil attach` says it mounted the image, if it says so.
pub fn mount_point(output: &str) -> (r: Option<String>)
    ensures
        r.deep_view() == mount_point_of(output@),
{
    let cs = chars_of(output);
    let ls = lines_of(cs.as_slice());
    let marker = chars_of("/Volumes/");
    let ghost sl = seqs_of(ls@);
    let n = ls.len();
    let mut i: usize = 0;
    assert(sl.skip(0) =~= sl);
    while i < n
        invariant
            i <= n,
            n == ls@.len(),
            sl == seqs_of(ls@),
            sl == lines(output@),
            marker@ == "/Volumes/"@,
            first_line_with(sl, "/Volumes/"@) == first_line_with(sl.skip(i as int), "/Volumes/"@),
        decreases n - i,
    {
        let line = ls[i].as_slice();
        assert(sl.skip(i as int)[0] == line@);
        assert(line@.skip(0) =~= line@);
        match find_seq_from(line, marker.as_slice(), 0) {
            Some(k) => {
                let rest = slice_chars(line, k, line.len());
                assert(rest@ =~= line@.skip(k as int));
                assert(sl.skip(i as int).len() > 0);
                assert(first_line_with(sl.skip(i as int), "/Volumes/"@) == Some(line@));
                return Some(string_of(rest.as_slice()));
            },
            None => {
                assert(sl.skip(i as int).drop_first() =~= sl.skip(i + 1));
            },
        }
        i += 1;
    }
    None
}

/// A mount point starts with `/Volumes/`.
pub proof fn lemma_mount_point_in_volumes(output: Seq<char>)
    ensures
        mount_point_of(output) matches Some(m) ==> matches_prefix(m, "/Volumes/"@),
{
    match first_line_with(lines(output), "/Volumes/"@) {
        Some(line) => {
            lemma_first_line_with(lines(output), "/Volumes/"@);
            lemma_find_seq(line, "/Volumes/"@);
            let k = find_seq(line, "/Volumes/"@)->0;
            let m = line.skip(k);
            assert forall|j: int| 0 <= j < "/Volumes/"@.len() implies m[j] == "/Volumes/"@[j] by {
                assert(m[j] == line[k + j]);
            }
        },
        None => {},
    }
}

/// `s` starts with `p`.
pub open spec fn matches_prefix(s: Seq<char>, p: Seq<char>) -> bool {
    p.len() <= s.len() && forall|j: int| 0 <= j < p.len() ==> s[j] == p[j]
}

/// The line `first_line_with` picks contains the pattern.
proof fn lemma_first_line_with(ls: Seq<Seq<char>>, p: Seq<char>)
    ensures
        first_line_with(ls, p) matches Some(l) ==> find_seq(l, p) is Some,
    decreases ls.len(),
{
    if ls.len() > 0 && find_seq(ls[0], p) is None {
        lemma_first_line_with(ls.drop_first(), p);
    }
}

/// Where the app is copied to and where the link to `/Applications` is made
/// in the image mounted at `mount_dir`.
pub struct MountTargets {
    pub app_destination: String,
    pub applications_link: String,
}

impl MountTargets {
    pub fn new(mount_dir: &str) -> (t: MountTargets)
        ensures
            t.app_destination@ == mount_dir@ + "/"@,
            t.applications_link@ == mount_dir@ + "/Applications"@,
    {
        let mut dest: Vec<char> = Vec::new();
        push_str(&mut dest, mount_dir);
        push_str(&mut dest, "/");
        let mut link: Vec<char> = Vec::new();
        push_str(&mut link, mount_dir);
        push_str(&mut link, "/Applications");
        MountTargets {
            app_destination: string_of(dest.as_slice()),
            applications_link: string_of(link.as_slice()),
        }
    }
}

/// The Finder script before the volume name.
pub open spec fn script_head() -> Seq<char> {
    "\n        tell application \"Finder\"\n            tell disk \""@
}

/// The Finder script between the volume name and the application's name.
pub open spec fn script_middle() -> Seq<char> {
    "\"\n                open\n                set current view of container window to icon view\n                set toolbar visible of container window to false\n                set statusbar visible of container window to false\n                set the bounds of container window to {400, 100, 900, 440}\n                set viewOptions to the icon view options of container window\n                set arrangement of viewOptions to not arranged\n                set icon size of viewOptions to 72\n                set position of item \""@
}

/// The Finder script after the application's name.
pub open spec fn script_tail() -> Seq<char> {
    ".app\" of container window to {125, 150}\n                set position of item \"Applications\" of container window to {375, 150}\n                update without registering applications\n                delay 1\n                close\n            end tell\n        end tell\n    "@
}

/// The AppleScript that lays out the window of the volume `volume_name`,
/// with the bundle of `app_name` beside the link to `/Applications`.
pub fn appearance_script(volume_name: &str, app_name: &str) -> (script: String)
    ensures
        script@ == script_head() + volume_name@ + script_middle() + app_name@ + script_tail(),
        script@ == "\n        tell application \"Finder\"\n            tell disk \""@ + volume_name@
            + "\"\n                open\n                set current view of container window to icon view\n                set toolbar visible of container window to false\n                set statusbar visible of container window to false\n                set the bounds of container window to {400, 100, 900, 440}\n                set viewOptions to the icon view options of container window\n                set arrangement of viewOptions to not arranged\n                set icon size of viewOptions to 72\n                set position of item \""@
            + app_name@ + ".app\" of container window to {125, 150}\n                set position of item \"Applications\" of container window to {375, 150}\n                update without registering applications\n                delay 1\n                close\n            end tell\n        end tell\n    "@,
{
    let mut out: Vec<char> = Vec::new();
    push_str(&mut out, "\n        tell application \"Finder\"\n            tell disk \"");
    push_str(&mut out, volume_name);
    push_str(
        &mut out,
        "\"\n                open\n                set current view of container window to icon view\n                set toolbar visible of container window to false\n                set statusbar visible of container window to false\n                set the bounds of container window to {400, 100, 900, 440}\n                set viewOptions to the icon view options of container window\n                set arrangement of viewOptions to not arranged\n                set icon size of viewOptions to 72\n                set position of item \"",
    );
    push_str(&mut out, app_name);
    push_str(
        &mut out,
        ".app\" of container window to {125, 150}\n                set position of item \"Applications\" of container window to {375, 150}\n                update without registering applications\n                delay 1\n                close\n            end tell\n        end tell\n    ",
    );
    string_of(out.as_slice())
}

} // verus!

verus! {

/// The steps that build a disk image, in the order they run.
#[derive(Clone, Copy, Debug, PartialEq, Eq)]
pub enum DmgStage {
    /// `hdiutil create`: a writable image.
    CreateImage,
    /// `hdiutil attach`: mount it; its output tells where.
    Attach,
    /// `cp -R`: copy the app bundle in.
    CopyApp,
    /// `ln -s`: the link to `/Applications`.
    LinkApplications,
    /// `osascript`: arrange the Finder window; its failure is tolerated.
    SetAppearance,
    /// `hdiutil detach`: unmount it.
    Detach,
    /// `hdiutil convert`: the compressed image.
    Convert,
    /// All steps succeeded.
    Finished,
    /// A step failed; nothing more runs.
    Failed,
}

/// The step after `s` when `s` went well.
pub open spec fn dmg_successor(s: DmgStage) -> DmgStage {
    match s {
        DmgStage::CreateImage => DmgStage::Attach,
        DmgStage::Attach => DmgStage::CopyApp,
        DmgStage::CopyApp => DmgStage::LinkApplications,
        DmgStage::LinkApplications => DmgStage::SetAppearance,
        DmgStage::SetAppearance => DmgStage::Detach,
        DmgStage::Detach => DmgStage::Convert,
        DmgStage::Convert => DmgStage::Finished,
        DmgStage::Finished => DmgStage::Finished,
        DmgStage::Failed => DmgStage::Failed,
    }
}

/// The step after `stage`, given whether it succeeded: the next one in order
/// when it did, and also after a failed `SetAppearance`, whose failure is
/// tolerated; `Failed` after any other failed step. `Finished` and `Failed` are final.
pub fn dmg_next(stage: DmgStage, ok: bool) -> (next: DmgStage)
    ensures
        next == if stage == DmgStage::Finished || stage == DmgStage::Failed {
            stage
        } else if ok || stage == DmgStage::SetAppearance {
            dmg_successor(stage)
        } else {
            DmgStage::Failed
        },
{
    match stage {
        DmgStage::Finished => DmgStage::Finished,
        DmgStage::Failed => DmgStage::Failed,
        DmgStage::SetAppearance => DmgStage::Detach,
        _ => if !ok {
            DmgStage::Failed
        } else {
            match stage {
                DmgStage::CreateImage => DmgStage::Attach,
                DmgStage::Attach => DmgStage::CopyApp,
                DmgStage::CopyApp => DmgStage::LinkApplications,
                DmgStage::LinkApplications => DmgStage::SetAppearance,
                DmgStage::Detach => DmgStage::Convert,
                _ => DmgStage::Finished,
            }
        },
    }
}

/// A command of the disk image build.
pub struct DmgStep {
    pub command: CommandParams,
    /// Its output is read (to find the mount point).
    pub reads_output: bool,
    /// Its failure does not stop the build.
    pub may_fail: bool,
}

/// The command of `stage` for the image of the app bundle `app_path` of
/// `app_name`, with the names `layout` and mounted at `mount_dir`.
pub open spec fn dmg_command_of(
    stage: DmgStage,
    app_path: Seq<char>,
    app_name: Seq<char>,
    volume_name: Seq<char>,
    temp_dmg: Seq<char>,
    final_dmg_path: Seq<char>,
    mount_dir: Seq<char>,
) -> Option<(Seq<char>, Seq<Seq<char>>)> {
    match stage {
        DmgStage::CreateImage => Some(
            (
                "hdiutil"@,
                seq![
                    "create"@,
                    "-size"@,
                    "50m"@,
                    "-fs"@,
                    "HFS+"@,
                    "-volname"@,
                    volume_name,
                    temp_dmg,
                ],
            ),
        ),
        DmgStage::Attach => Some(
            (
                "hdiutil"@,
                seq!["attach"@, "-readwrite"@, "-noverify"@, "-noautoopen"@, temp_dmg],
            ),
        ),
        DmgStage::CopyApp => Some(("cp"@, seq!["-R"@, app_path, mount_dir + "/"@])),
        DmgStage::LinkApplications => Some(
            ("ln"@, seq!["-s"@, "/Applications"@, mount_dir + "/Applications"@]),
        ),
        DmgStage::SetAppearance => Some(
            (
                "osascript"@,
                seq![
                    "-e"@,
                    script_head() + volume_name + script_middle() + app_name + script_tail(),
                ],
            ),
        ),
        DmgStage::Detach => Some(("hdiutil"@, seq!["detach"@, mount_dir])),
        DmgStage::Convert => Some(
            (
                "hdiutil"@,
                seq!["convert"@, temp_dmg, "-format"@, "UDZO"@, "-o"@, final_dmg_path],
            ),
        ),
        DmgStage::Finished => None,
        DmgStage::Failed => None,
    }
}

/// The command `stage` runs; none for `Finished` and `Failed`. Only `Attach`
/// reads its output and only `SetAppearance` may fail.
pub fn dmg_step(
    stage: DmgStage,
    app_path: &str,
    app_name: &str,
    layout: &DmgLayout,
    mount_dir: &str,
) -> (r: Option<DmgStep>)
    ensures
        match dmg_command_of(
            stage,
            app_path@,
            app_name@,
            layout.volume_name@,
            layout.temp_dmg@,
            layout.final_dmg_path@,
            mount_dir@,
        ) {
            Some((program, args)) => r matches Some(step) && runs(step.command, program, args)
                && step.reads_output == (stage == DmgStage::Attach) && step.may_fail == (stage
                == DmgStage::SetAppearance),
            None => r is None,
        },
{
    let volume = layout.volume_name.as_str();
    let temp = layout.temp_dmg.as_str();
    let fin = layout.final_dmg_path.as_str();
    match stage {
        DmgStage::CreateImage => {
            let args: [&str; 8] = ["create", "-size", "50m", "-fs", "HFS+", "-volname", volume, temp];
            let command = CommandParams::new("hdiutil", &args);
            assert(words_of(command.args@) =~= seq![
                "create"@,
                "-size"@,
                "50m"@,
                "-fs"@,
                "HFS+"@,
                "-volname"@,
                volume@,
                temp@,
            ]);
            Some(DmgStep { command, reads_output: false, may_fail: false })
        },
        DmgStage::Attach => {
            let args: [&str; 5] = ["attach", "-readwrite", "-noverify", "-noautoopen", temp];
            let command = CommandParams::new("hdiutil", &args);
            assert(words_of(command.args@) =~= seq![
                "attach"@,
                "-readwrite"@,
                "-noverify"@,
                "-noautoopen"@,
                temp@,
            ]);
            Some(DmgStep { command, reads_output: true, may_fail: false })
        },
        DmgStage::CopyApp => {
            let targets = MountTargets::new(mount_dir);
            let args: [&str; 3] = ["-R", app_path, targets.app_destination.as_str()];
            let command = CommandParams::new("cp", &args);
            assert(words_of(command.args@) =~= seq!["-R"@, app_path@, mount_dir@ + "/"@]);
            Some(DmgStep { command, reads_output: false, may_fail: false })
        },
        DmgStage::LinkApplications => {
            let targets = MountTargets::new(mount_dir);
            let args: [&str; 3] = ["-s", "/Applications", targets.applications_link.as_str()];
            let command = CommandParams::new("ln", &args);
            assert(words_of(command.args@) =~= seq![
                "-s"@,
                "/Applications"@,
                mount_dir@ + "/Applications"@,
            ]);
            Some(DmgStep { command, reads_output: false, may_fail: false })
        },
        DmgStage::SetAppearance => {
            let script = appearance_script(volume, app_name);
            let args: [&str; 2] = ["-e", script.as_str()];
            let command = CommandParams::new("osascript", &args);
            assert(words_of(command.args@) =~= seq!["-e"@, script@]);
            Some(DmgStep { command, reads_output: false, may_fail: true })
        },
        DmgStage::Detach => {
            let args: [&str; 2] = ["detach", mount_dir];
            let command = CommandParams::new("hdiutil", &args);
            assert(words_of(command.args@) =~= seq!["detach"@, mount_dir@]);
            Some(DmgStep { command, reads_output: false, may_fail: false })
        },
        DmgStage::Convert => {
            let args: [&str; 6] = ["convert", temp, "-format", "UDZO", "-o", fin];
            let command = CommandParams::new("hdiutil", &args);
            assert(words_of(command.args@) =~= seq![
                "convert"@,
                temp@,
                "-format"@,
                "UDZO"@,
                "-o"@,
                fin@,
            ]);
            Some(DmgStep { command, reads_output: false, may_fail: false })
        },
        DmgStage::Finished => None,
        DmgStage::Failed => None,
    }
}

/// Where the image is mounted: in a dry run, where nothing is mounted, the
/// placeholder `/Volumes/mock-mount`; otherwise what `hdiutil attach` printed.
pub fn mounted_dir(dry_run: bool, attach_output: &str) -> (r: Option<String>)
    ensures
        dry_run ==> (r matches Some(m) && m@ == "/Volumes/mock-mount"@),
        !dry_run ==> r.deep_view() == mount_point_of(attach_output@),
{
    if dry_run {
        Some(String::from_str("/Volumes/mock-mount"))
    } else {
        mount_point(attach_output)
    }
}

/// With every step succeeding, the build runs its seven commands in order and finishes.
pub proof fn lemma_dmg_order()
    ensures
        dmg_successor(DmgStage::CreateImage) == DmgStage::Attach,
        dmg_successor(DmgStage::Attach) == DmgStage::CopyApp,
        dmg_successor(DmgStage::CopyApp) == DmgStage::LinkApplications,
        dmg_successor(DmgStage::LinkApplications) == DmgStage::SetAppearance,
        dmg_successor(DmgStage::SetAppearance) == DmgStage::Detach,
        dmg_successor(DmgStage::Detach) == DmgStage::Convert,
        dmg_successor(DmgStage::Convert) == DmgStage::Finished,
        forall|s: DmgStage|
            s != DmgStage::Finished && s != DmgStage::Failed ==> (#[trigger] dmg_successor(s))
                != s,
{
}

} // verus!

verus! {

/// The Finder script opens the window of the volume `volume_name` in icon
/// view without toolbar or status bar, at bounds {400, 100, 900, 440}, icons
/// of size 72 not arranged, the bundle `<app_name>.app` at {125, 150} and the
/// link to `/Applications` at {375, 150}, then closes it.
pub proof fn lemma_appearance_script_text(volume_name: Seq<char>, app_name: Seq<char>)
    ensures
        script_head() + volume_name + script_middle() + app_name + script_tail() == "\n        tell application \"Finder\"\n            tell disk \""@ + volume_name
            + "\"\n                open\n                set current view of container window to icon view\n                set toolbar visible of container window to false\n                set statusbar visible of container window to false\n                set the bounds of container window to {400, 100, 900, 440}\n                set viewOptions to the icon view options of container window\n                set arrangement of viewOptions to not arranged\n                set icon size of viewOptions to 72\n                set position of item \""@
            + app_name + ".app\" of container window to {125, 150}\n                set position of item \"Applications\" of container window to {375, 150}\n                update without registering applications\n                delay 1\n                close\n            end tell\n        end tell\n    "@,
{
}

/// Each disk image step runs its command on the names of the image: the
/// writable image of 50 MB in HFS+ under the volume name, mounted read-write
/// without verification or opening, the bundle copied and `/Applications`
/// linked into the mount point, the Finder script run, the image detached
/// and converted to the compressed UDZO image at its final path.
pub proof fn lemma_dmg_commands(
    app_path: Seq<char>,
    app_name: Seq<char>,
    volume_name: Seq<char>,
    temp_dmg: Seq<char>,
    final_dmg_path: Seq<char>,
    mount_dir: Seq<char>,
)
    ensures
        dmg_command_of(DmgStage::CreateImage, app_path, app_name, volume_name, temp_dmg, final_dmg_path, mount_dir)
            == Some(("hdiutil"@, seq!["create"@, "-size"@, "50m"@, "-fs"@, "HFS+"@, "-volname"@, volume_name, temp_dmg])),
        dmg_command_of(DmgStage::Attach, app_path, app_name, volume_name, temp_dmg, final_dmg_path, mount_dir)
            == Some(("hdiutil"@, seq!["attach"@, "-readwrite"@, "-noverify"@, "-noautoopen"@, temp_dmg])),
        dmg_command_of(DmgStage::CopyApp, app_path, app_name, volume_name, temp_dmg, final_dmg_path, mount_dir)
            == Some(("cp"@, seq!["-R"@, app_path, mount_dir + "/"@])),
        dmg_command_of(DmgStage::LinkApplications, app_path, app_name, volume_name, temp_dmg, final_dmg_path, mount_dir)
            == Some(("ln"@, seq!["-s"@, "/Applications"@, mount_dir + "/Applications"@])),
        dmg_command_of(DmgStage::SetAppearance, app_path, app_name, volume_name, temp_dmg, final_dmg_path, mount_dir)
            == Some(("osascript"@, seq!["-e"@, "\n        tell application \"Finder\"\n            tell disk \""@ + volume_name
            + "\"\n                open\n                set current view of container window to icon view\n                set toolbar visible of container window to false\n                set statusbar visible of container window to false\n                set the bounds of container window to {400, 100, 900, 440}\n                set viewOptions to the icon view options of container window\n                set arrangement of viewOptions to not arranged\n                set icon size of viewOptions to 72\n                set position of item \""@
            + app_name + ".app\" of container window to {125, 150}\n                set position of item \"Applications\" of container window to {375, 150}\n                update without registering applications\n                delay 1\n                close\n            end tell\n        end tell\n    "@])),
        dmg_command_of(DmgStage::Detach, app_path, app_name, volume_name, temp_dmg, final_dmg_path, mount_dir)
            == Some(("hdiutil"@, seq!["detach"@, mount_dir])),
        dmg_command_of(DmgStage::Convert, app_path, app_name, volume_name, temp_dmg, final_dmg_path, mount_dir)
            == Some(("hdiutil"@, seq!["convert"@, temp_dmg, "-format"@, "UDZO"@, "-o"@, final_dmg_path])),
        dmg_command_of(DmgStage::Finished, app_path, app_name, volume_name, temp_dmg, final_dmg_path, mount_dir) is None,
        dmg_command_of(DmgStage::Failed, app_path, app_name, volume_name, temp_dmg, final_dmg_path, mount_dir) is None,
{
}

/// The mount point comes from the first line of the output that contains
/// `/Volumes/`: where line `i` is that line and `/Volumes/` first occurs in it
/// at `k`, the mount point is that line from `k` on.
pub proof fn lemma_mount_point_first_line(output: Seq<char>, i: int, k: int)
    requires
        0 <= i < lines(output).len(),
        forall|j: int, m: int| 0 <= j < i ==> !matches_at(lines(output)[j], "/Volumes/"@, m),
        matches_at(lines(output)[i], "/Volumes/"@, k),
        forall|m: int| 0 <= m < k ==> !matches_at(lines(output)[i], "/Volumes/"@, m),
    ensures
        mount_point_of(output) == Some(lines(output)[i].skip(k)),
{
    lemma_first_line_at(lines(output), "/Volumes/"@, i);
    lemma_find_seq_first(lines(output)[i], "/Volumes/"@, k);
}

proof fn lemma_first_line_at(ls: Seq<Seq<char>>, p: Seq<char>, i: int)
    requires
        0 <= i < ls.len(),
        forall|j: int, m: int| 0 <= j < i ==> !matches_at(ls[j], p, m),
        exists|m: int| matches_at(ls[i], p, m),
    ensures
        first_line_with(ls, p) == Some(ls[i]),
    decreases i,
{
    lemma_find_seq(ls[0], p);
    if i > 0 {
        let t = ls.drop_first();
        assert forall|j: int, m: int| 0 <= j < i - 1 implies !matches_at(t[j], p, m) by {
            assert(t[j] == ls[j + 1]);
        }
        assert(t[i - 1] == ls[i]);
        lemma_first_line_at(t, p, i - 1);
        assert(find_seq(ls[0], p) is None);
    } else {
        let m = choose|m: int| matches_at(ls[i], p, m);
        assert(matches_at(ls[0], p, m));
    }
}

} // verus!
