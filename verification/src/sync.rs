//! The folder that is mirrored to the update server: which files go there,
//! under which names, and the appcast rewritten for that layout.
use vstd::prelude::*;

use crate::command::CommandParams;
use crate::text::{
    chars_eq, chars_of, find_char, find_char_from, lemma_find_char, lemma_find_char_first, push_all,
    push_range, push_str, string_of,
};

verus! {

broadcast use vstd::string::group_string_axioms;

/// The folders and appcast files of the sync step under `work_dir`.
pub struct SyncLayout {
    /// The folder the release files are collected in.
    pub all_dir: String,
    /// The folder that is mirrored to the server.
    pub sync_dir: String,
    /// The appcast as it is generated.
    pub source_appcast: String,
    /// The appcast as it is published.
    pub dest_appcast: String,
}

impl SyncLayout {
    pub fn new(work_dir: &str) -> (l: SyncLayout)
        ensures
            l.all_dir@ == work_dir@ + "/all"@,
            l.sync_dir@ == work_dir@ + "/sync"@,
            l.source_appcast@ == work_dir@ + "/all"@ + "/appcast.xml"@,
            l.dest_appcast@ == work_dir@ + "/sync"@ + "/appcast.xml"@,
    {
        let mut all: Vec<char> = Vec::new();
        push_str(&mut all, work_dir);
        push_str(&mut all, "/all");
        let mut sync: Vec<char> = Vec::new();
        push_str(&mut sync, work_dir);
        push_str(&mut sync, "/sync");
        let mut source: Vec<char> = Vec::new();
        push_all(&mut source, all.as_slice());
        push_str(&mut source, "/appcast.xml");
        let mut dest: Vec<char> = Vec::new();
        push_all(&mut dest, sync.as_slice());
        push_str(&mut dest, "/appcast.xml");
        SyncLayout {
            all_dir: string_of(all.as_slice()),
            sync_dir: string_of(sync.as_slice()),
            source_appcast: string_of(source.as_slice()),
            dest_appcast: string_of(dest.as_slice()),
        }
    }
}

/// A file with this extension is published: disk images and delta updates.
pub fn is_release_artifact(extension: &str) -> (b: bool)
    ensures
        b == (extension@ == "dmg"@ || extension@ == "delta"@),
{
    let e = chars_of(extension);
    let dmg = chars_of("dmg");
    let delta = chars_of("delta");
    chars_eq(e.as_slice(), dmg.as_slice()) || chars_eq(e.as_slice(), delta.as_slice())
}

/// Where a published file goes in the sync folder.
pub struct SyncTarget {
    /// The folder to create first, if any.
    pub subdir: Option<String>,
    /// The path the file is copied to.
    pub dest: String,
}

/// Where the file `filename` goes in `sync_dir`: a name with an underscore
/// is split at its first one into a folder and the name inside it; any other
/// name goes to the top of the folder.
pub open spec fn sync_dest_of(sync_dir: Seq<char>, filename: Seq<char>) -> (Option<Seq<char>>, Seq<char>) {
    match find_char(filename, '_') {
        Some(p) => (
            Some(sync_dir + "/"@ + filename.take(p)),
            sync_dir + "/"@ + filename.take(p) + "/"@ + filename.skip(p + 1),
        ),
        None => (None, sync_dir + "/"@ + filename),
    }
}

/// Where the file `filename` goes in `sync_dir`.
pub fn sync_target(sync_dir: &str, filename: &str) -> (t: SyncTarget)
    ensures
        (t.subdir.deep_view(), t.dest@) == sync_dest_of(sync_dir@, filename@),
        (forall|i: int| 0 <= i < filename@.len() ==> filename@[i] != '_') ==> (t.subdir is None
            && t.dest@ == sync_dir@ + "/"@ + filename@),
        forall|p: int|
            0 <= p < filename@.len() && filename@[p] == '_' && (forall|j: int|
                0 <= j < p ==> filename@[j] != '_') ==> (t.subdir.deep_view() == Some(
                sync_dir@ + "/"@ + filename@.take(p),
            ) && t.dest@ == sync_dir@ + "/"@ + filename@.take(p) + "/"@ + filename@.skip(p + 1)),
{
    proof {
        lemma_sync_destination(sync_dir@, filename@);
    }
    let f = chars_of(filename);
    let fs = f.as_slice();
    let n = fs.len();
    assert(f@.skip(0) =~= f@);
    match find_char_from(fs, '_', 0) {
        Some(p) => {
            let mut sub: Vec<char> = Vec::new();
            push_str(&mut sub, sync_dir);
            push_str(&mut sub, "/");
            push_range(&mut sub, f.as_slice(), 0, p);
            let mut dest: Vec<char> = Vec::new();
            push_all(&mut dest, sub.as_slice());
            push_str(&mut dest, "/");
            push_range(&mut dest, fs, p + 1, n);
            assert(f@.subrange(0, p as int) =~= f@.take(p as int));
            assert(f@.subrange(p + 1, f@.len() as int) =~= f@.skip(p + 1));
            SyncTarget { subdir: Some(string_of(sub.as_slice())), dest: string_of(dest.as_slice()) }
        },
        None => {
            let mut dest: Vec<char> = Vec::new();
            push_str(&mut dest, sync_dir);
            push_str(&mut dest, "/");
            push_all(&mut dest, f.as_slice());
            SyncTarget { subdir: None, dest: string_of(dest.as_slice()) }
        },
    }
}

/// The command that mirrors `sync_dir` to `<sparkle_path>/<app_name>` on the
/// update server, where a server path is configured.
pub fn upload_command(sparkle_path: &Option<String>, sync_dir: &str, app_name: &str) -> (r: Option<
    CommandParams,
>)
    ensures
        sparkle_path is None ==> r is None,
        sparkle_path matches Some(path) ==> (r matches Some(p) && p.program@ == "rsync"@
            && p.current_dir is None && p.args@.len() == 3 && p.args@[0]@ == "-qchazP"@
            && p.args@[1]@ == sync_dir@ + "/"@ && p.args@[2]@ == path@ + "/"@ + app_name@),
{
    match sparkle_path {
        Some(path) => {
            let mut remote: Vec<char> = Vec::new();
            push_str(&mut remote, path.as_str());
            push_str(&mut remote, "/");
            push_str(&mut remote, app_name);
            let mut source: Vec<char> = Vec::new();
            push_str(&mut source, sync_dir);
            push_str(&mut source, "/");
            let remote_path = string_of(remote.as_slice());
            let sync_source = string_of(source.as_slice());
            let args: [&str; 3] = ["-qchazP", sync_source.as_str(), remote_path.as_str()];
            Some(CommandParams::new("rsync", &args))
        },
        None => None,
    }
}

/// `s` with every underscore replaced by a slash.
pub open spec fn slashes_for_underscores(s: Seq<char>) -> Seq<char> {
    s.map_values(|c: char| if c == '_' { '/' } else { c })
}

/// `regex::Regex::replace_all` with the regex `_` and the replacement `/`:
/// every match of the one-character pattern `_`, that is every underscore,
/// is replaced by the literal `/` (it holds no `$` to expand). The pattern `_`
/// is valid regex syntax, so compiling it does not fail.
#[verifier::external_body]
fn regex_replace_underscores(content: &str) -> (out: String)
    ensures
        out@ == slashes_for_underscores(content@),
{
    regex::Regex::new("_").unwrap().replace_all(content, "/").into_owned()
}

/// The appcast as it is published: the generated one with every underscore
/// replaced by a slash, so that `VERSION_name.dmg` becomes `VERSION/name.dmg`.
pub fn appcast_for_sync(content: &str) -> (out: String)
    ensures
        out@ == slashes_for_underscores(content@),
{
    regex_replace_underscores(content)
}

} // verus!

verus! {

/// The published appcast has the generated one's length, holds no underscore,
/// and keeps every other character in place.
pub proof fn lemma_appcast_without_underscores(s: Seq<char>)
    ensures
        slashes_for_underscores(s).len() == s.len(),
        forall|i: int| 0 <= i < s.len() ==> #[trigger] slashes_for_underscores(s)[i] != '_',
        forall|i: int|
            0 <= i < s.len() && s[i] != '_' ==> #[trigger] slashes_for_underscores(s)[i] == s[i],
{
}

} // verus!

verus! {

/// A file name without underscores goes to the top of the sync folder as it
/// is; one with underscores is split at the first: the part before names a
/// folder of the sync folder, and the file goes in it under the rest of its name.
pub proof fn lemma_sync_destination(sync_dir: Seq<char>, filename: Seq<char>)
    ensures
        (forall|i: int| 0 <= i < filename.len() ==> filename[i] != '_') ==> sync_dest_of(
            sync_dir,
            filename,
        ) == (None::<Seq<char>>, sync_dir + "/"@ + filename),
        forall|p: int|
            0 <= p < filename.len() && #[trigger] filename[p] == '_' && (forall|j: int|
                0 <= j < p ==> filename[j] != '_') ==> sync_dest_of(sync_dir, filename) == (
                Some(sync_dir + "/"@ + filename.take(p)),
                sync_dir + "/"@ + filename.take(p) + "/"@ + filename.skip(p + 1),
            ),
{
    lemma_find_char(filename, '_');
    assert forall|p: int|
        0 <= p < filename.len() && #[trigger] filename[p] == '_' && (forall|j: int|
            0 <= j < p ==> filename[j] != '_') implies sync_dest_of(sync_dir, filename) == (
        Some(sync_dir + "/"@ + filename.take(p)),
        sync_dir + "/"@ + filename.take(p) + "/"@ + filename.skip(p + 1),
    ) by {
        lemma_find_char_first(filename, '_', p);
    }
}

} // verus!
