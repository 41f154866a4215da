//! Semantic version strings of the form `x.y.z`: reading them, bumping one
//! component, and choosing the version a release is made under.
use vstd::prelude::*;

use crate::command::{runs, words_of, CommandParams};
use crate::decimal::{decimal, decimal_chars, parse_u32, parse_u32_chars};
use crate::text::{
    chars_of, find_char, lemma_find_char, push_all, push_str, seqs_of, split, split_chars, string_of,
};

verus! {

broadcast use vstd::string::group_string_axioms;

/// Why a version string was refused.
#[derive(Clone, Copy, Debug, PartialEq, Eq)]
pub enum VersionErrorKind {
    /// It has fewer than three dot-separated fields.
    NotThreeParts,
    /// Its first field is no `u32`.
    InvalidMajor,
    /// Its second field is no `u32`.
    InvalidMinor,
    /// Its third field is no `u32`.
    InvalidPatch,
}

/// A refused version string: the reason, and the text it concerns (the whole
/// version for `NotThreeParts`, else the offending field).
#[derive(Debug)]
pub struct VersionError {
    pub kind: VersionErrorKind,
    pub text: String,
}

/// The message the error is reported with.
pub open spec fn error_message(kind: VersionErrorKind, text: Seq<char>) -> Seq<char> {
    match kind {
        VersionErrorKind::NotThreeParts => "Version format is not x.y.z: "@ + text,
        VersionErrorKind::InvalidMajor => "Invalid major version: "@ + text,
        VersionErrorKind::InvalidMinor => "Invalid minor version: "@ + text,
        VersionErrorKind::InvalidPatch => "Invalid patch version: "@ + text,
    }
}

impl VersionError {
    /// The message the error is reported with.
    pub fn message(&self) -> (m: String)
        ensures
            m@ == error_message(self.kind, self.text@),
    {
        let mut m = match self.kind {
            VersionErrorKind::NotThreeParts => String::from_str("Version format is not x.y.z: "),
            VersionErrorKind::InvalidMajor => String::from_str("Invalid major version: "),
            VersionErrorKind::InvalidMinor => String::from_str("Invalid minor version: "),
            VersionErrorKind::InvalidPatch => String::from_str("Invalid patch version: "),
        };
        m.append(self.text.as_str());
        m
    }
}

/// Why `v` is no `x.y.z` version, if it is none: fewer than three
/// dot-separated fields, or a first, second or third field that is no `u32`.
/// Fields after the third are not looked at.
pub open spec fn version_failure(v: Seq<char>) -> Option<(VersionErrorKind, Seq<char>)> {
    let parts = split(v, '.');
    if parts.len() < 3 {
        Some((VersionErrorKind::NotThreeParts, v))
    } else if parse_u32(parts[0]) is None {
        Some((VersionErrorKind::InvalidMajor, parts[0]))
    } else if parse_u32(parts[1]) is None {
        Some((VersionErrorKind::InvalidMinor, parts[1]))
    } else if parse_u32(parts[2]) is None {
        Some((VersionErrorKind::InvalidPatch, parts[2]))
    } else {
        None
    }
}

/// The major, minor and patch numbers of a well-formed version `v`.
pub open spec fn version_numbers(v: Seq<char>) -> (u32, u32, u32) {
    let parts = split(v, '.');
    (parse_u32(parts[0])->0, parse_u32(parts[1])->0, parse_u32(parts[2])->0)
}

/// `v` with the requested component increased: the major number (minor and
/// patch reset to zero) before the minor number (patch reset to zero) before
/// the patch number; `v` itself where no component is requested.
pub open spec fn bumped_version(v: Seq<char>, major: bool, minor: bool, patch: bool) -> Seq<char> {
    let (a, b, c) = version_numbers(v);
    if major {
        decimal((a + 1) as nat) + ".0.0"@
    } else if minor {
        decimal(a as nat) + "."@ + decimal((b + 1) as nat) + ".0"@
    } else if patch {
        decimal(a as nat) + "."@ + decimal(b as nat) + "."@ + decimal((c + 1) as nat)
    } else {
        v
    }
}

/// The component to be increased is already `u32::MAX`.
pub open spec fn bump_overflows(v: Seq<char>, major: bool, minor: bool, patch: bool) -> bool {
    &&& version_failure(v) is None
    &&& {
        let (a, b, c) = version_numbers(v);
        if major {
            a == u32::MAX
        } else if minor {
            b == u32::MAX
        } else if patch {
            c == u32::MAX
        } else {
            false
        }
    }
}

/// Reads the major, minor and patch numbers of `version`.
pub fn parse_version(version: &str) -> (r: Result<(u32, u32, u32), VersionError>)
    ensures
        match r {
            Ok(t) => version_failure(version@) is None && t == version_numbers(version@),
            Err(e) => version_failure(version@) == Some((e.kind, e.text@)),
        },
{
    let cs = chars_of(version);
    let parts = split_chars(cs.as_slice(), '.');
    let ghost ps = split(version@, '.');
    if parts.len() < 3 {
        return Err(VersionError { kind: VersionErrorKind::NotThreeParts, text: String::from_str(version) });
    }
    assert(ps[0] == parts@[0]@ && ps[1] == parts@[1]@ && ps[2] == parts@[2]@);
    let a = match parse_u32_chars(parts[0].as_slice()) {
        Some(a) => a,
        None => {
            return Err(
                VersionError { kind: VersionErrorKind::InvalidMajor, text: string_of(parts[0].as_slice()) },
            );
        },
    };
    let b = match parse_u32_chars(parts[1].as_slice()) {
        Some(b) => b,
        None => {
            return Err(
                VersionError { kind: VersionErrorKind::InvalidMinor, text: string_of(parts[1].as_slice()) },
            );
        },
    };
    let c = match parse_u32_chars(parts[2].as_slice()) {
        Some(c) => c,
        None => {
            return Err(
                VersionError { kind: VersionErrorKind::InvalidPatch, text: string_of(parts[2].as_slice()) },
            );
        },
    };
    Ok((a, b, c))
}

/// Increments a semantic version string: the major number (minor and patch
/// reset to zero) if `major`, else the minor number (patch reset to zero) if
/// `minor`, else the patch number if `patch`; with none of them the version
/// comes back unchanged. A version with fewer than three dot-separated fields,
/// or whose first three fields are not all `u32` numbers, is refused.
pub fn increment_version(current_version: &str, major: bool, minor: bool, patch: bool) -> (r: Result<
    String,
    VersionError,
>)
    requires
        !bump_overflows(current_version@, major, minor, patch),
    ensures
        match r {
            Ok(s) => version_failure(current_version@) is None && s@ == bumped_version(
                current_version@,
                major,
                minor,
                patch,
            ),
            Err(e) => version_failure(current_version@) == Some((e.kind, e.text@)),
        },
{
    let (a, b, c) = match parse_version(current_version) {
        Ok(t) => t,
        Err(e) => return Err(e),
    };
    if major {
        let mut out = decimal_chars(a + 1);
        push_str(&mut out, ".0.0");
        Ok(string_of(out.as_slice()))
    } else if minor {
        let mut out = decimal_chars(a);
        push_str(&mut out, ".");
        let d = decimal_chars(b + 1);
        push_all(&mut out, d.as_slice());
        push_str(&mut out, ".0");
        Ok(string_of(out.as_slice()))
    } else if patch {
        let mut out = decimal_chars(a);
        push_str(&mut out, ".");
        let d = decimal_chars(b);
        push_all(&mut out, d.as_slice());
        push_str(&mut out, ".");
        let e = decimal_chars(c + 1);
        push_all(&mut out, e.as_slice());
        Ok(string_of(out.as_slice()))
    } else {
        Ok(String::from_str(current_version))
    }
}

/// The version a release is made under, and whether the project must be set to it.
pub struct ReleaseVersion {
    pub version: String,
    pub update_project: bool,
}

/// Chooses the version to release from the project's current version: an
/// explicit version wins; else a requested increment is applied; in both
/// cases the project is to be set to the new version. With neither, the
/// current version is released as it is.
pub fn select_release_version(
    current_version: &str,
    major: bool,
    minor: bool,
    patch: bool,
    ver: Option<String>,
) -> (r: Result<ReleaseVersion, VersionError>)
    requires
        ver is None ==> !bump_overflows(current_version@, major, minor, patch),
    ensures
        match ver {
            Some(explicit) => r matches Ok(rv) && rv.version == explicit && rv.update_project,
            None => if major || minor || patch {
                match r {
                    Ok(rv) => version_failure(current_version@) is None && rv.version@
                        == bumped_version(current_version@, major, minor, patch)
                        && rv.update_project,
                    Err(e) => version_failure(current_version@) == Some((e.kind, e.text@)),
                }
            } else {
                r matches Ok(rv) && rv.version@ == current_version@ && !rv.update_project
            },
        },
{
    match ver {
        Some(explicit) => Ok(ReleaseVersion { version: explicit, update_project: true }),
        None => {
            if major || minor || patch {
                match increment_version(current_version, major, minor, patch) {
                    Ok(v) => Ok(ReleaseVersion { version: v, update_project: true }),
                    Err(e) => Err(e),
                }
            } else {
                Ok(ReleaseVersion { version: String::from_str(current_version), update_project: false })
            }
        },
    }
}

/// Setting the project to a new version: the line to print, and the command
/// to run, if any.
pub struct VersionUpdate {
    pub message: String,
    pub command: Option<CommandParams>,
}

/// How the project is set to `version`: with `xcrun agvtool new-version -all
/// <version>`, announced as such; in a dry run nothing runs and the line says
/// what would be done.
pub fn update_project_version(version: &str, dry_run: bool) -> (u: VersionUpdate)
    ensures
        dry_run ==> u.message@ == "DRY RUN: Would update project version to: "@ + version@
            && u.command is None,
        !dry_run ==> u.message@ == "Updating project version to: "@ + version@,
        !dry_run ==> (u.command matches Some(p) && runs(
            p,
            "xcrun"@,
            seq!["agvtool"@, "new-version"@, "-all"@, version@],
        )),
{
    if dry_run {
        let mut m = String::from_str("DRY RUN: Would update project version to: ");
        m.append(version);
        VersionUpdate { message: m, command: None }
    } else {
        let mut m = String::from_str("Updating project version to: ");
        m.append(version);
        let args: [&str; 4] = ["agvtool", "new-version", "-all", version];
        let p = CommandParams::new("xcrun", &args);
        assert(words_of(p.args@) =~= seq!["agvtool"@, "new-version"@, "-all"@, version@]);
        VersionUpdate { message: m, command: Some(p) }
    }
}

/// Where the project's current version comes from.
pub enum VersionLookup {
    /// The version is known without asking the project.
    Known(String),
    /// The version is what this command prints, trimmed.
    Query(CommandParams),
}

/// The command that prints the Xcode project's version: `xcrun agvtool what-version -terse`.
pub fn version_query() -> (p: CommandParams)
    ensures
        runs(p, "xcrun"@, seq!["agvtool"@, "what-version"@, "-terse"@]),
{
    let args: [&str; 3] = ["agvtool", "what-version", "-terse"];
    let p = CommandParams::new("xcrun", &args);
    assert(words_of(p.args@) =~= seq!["agvtool"@, "what-version"@, "-terse"@]);
    p
}

/// How the current version of the Xcode project is found: in a dry run the
/// placeholder `1.0.0`; otherwise by running `xcrun agvtool what-version -terse`.
pub fn get_current_version(dry_run: bool) -> (r: VersionLookup)
    ensures
        dry_run ==> (r matches VersionLookup::Known(v) && v@ == "1.0.0"@),
        !dry_run ==> (r matches VersionLookup::Query(p) && runs(
            p,
            "xcrun"@,
            seq!["agvtool"@, "what-version"@, "-terse"@],
        )),
{
    if dry_run {
        VersionLookup::Known(String::from_str("1.0.0"))
    } else {
        VersionLookup::Query(version_query())
    }
}

} // verus!

verus! {

/// `s` holds no dot.
pub open spec fn no_dot(s: Seq<char>) -> bool {
    forall|i: int| 0 <= i < s.len() ==> s[i] != '.'
}

proof fn lemma_split_no_dot(x: Seq<char>)
    requires
        no_dot(x),
    ensures
        split(x, '.') == seq![x],
{
    lemma_find_char(x, '.');
}

proof fn lemma_split_dot(x: Seq<char>, rest: Seq<char>)
    requires
        no_dot(x),
    ensures
        split(x + seq!['.'] + rest, '.') == seq![x] + split(rest, '.'),
{
    let s = x + seq!['.'] + rest;
    lemma_find_char(s, '.');
    assert(s[x.len() as int] == '.');
    assert forall|j: int| 0 <= j < x.len() implies s[j] != '.' by {
        assert(s[j] == x[j]);
    }
    assert(find_char(s, '.') == Some(x.len() as int));
    assert(s.take(x.len() as int) =~= x);
    assert(s.skip(x.len() as int + 1) =~= rest);
}

proof fn lemma_decimal_no_dot(n: nat)
    ensures
        no_dot(decimal(n)),
        parse_u32(decimal(n)) == (if n <= u32::MAX {
            Some(n as u32)
        } else {
            parse_u32(decimal(n))
        }),
{
    crate::decimal::lemma_decimal_digits(n);
    let s = decimal(n);
    assert forall|i: int| 0 <= i < s.len() implies s[i] != '.' by {
        assert(crate::decimal::is_digit(s[i]));
    }
    if n <= u32::MAX {
        crate::decimal::lemma_parse_decimal(n as u32);
    }
}

proof fn lemma_zero()
    ensures
        decimal(0) == seq!['0'],
        parse_u32(seq!['0']) == Some(0u32),
{
    crate::decimal::lemma_parse_decimal(0);
    assert(decimal(0) =~= seq!['0']);
}

/// A bumped version is itself a well-formed `x.y.z` version, and its numbers
/// are the old ones with the requested one increased and the lower ones reset:
/// `(a + 1, 0, 0)` for a major bump, `(a, b + 1, 0)` for a minor bump and
/// `(a, b, c + 1)` for a patch bump.
pub proof fn lemma_bumped_version_well_formed(v: Seq<char>, major: bool, minor: bool, patch: bool)
    requires
        version_failure(v) is None,
        !bump_overflows(v, major, minor, patch),
        major || minor || patch,
    ensures
        version_failure(bumped_version(v, major, minor, patch)) is None,
        ({
            let (a, b, c) = version_numbers(v);
            let n = version_numbers(bumped_version(v, major, minor, patch));
            if major {
                n == ((a + 1) as u32, 0u32, 0u32)
            } else if minor {
                n == (a, (b + 1) as u32, 0u32)
            } else {
                n == (a, b, (c + 1) as u32)
            }
        }),
{
    let (a, b, c) = version_numbers(v);
    let w = bumped_version(v, major, minor, patch);
    lemma_zero();
    let zero = seq!['0'];
    assert(no_dot(zero));
    if major {
        reveal_strlit(".0.0");
        let x = decimal((a + 1) as nat);
        lemma_decimal_no_dot((a + 1) as nat);
        let r = zero + seq!['.'] + zero;
        assert(w =~= x + seq!['.'] + r);
        lemma_split_dot(x, r);
        lemma_split_dot(zero, zero);
        lemma_split_no_dot(zero);
        assert(split(w, '.') =~= seq![x, zero, zero]);
    } else if minor {
        reveal_strlit(".");
        reveal_strlit(".0");
        let x = decimal(a as nat);
        let y = decimal((b + 1) as nat);
        lemma_decimal_no_dot(a as nat);
        lemma_decimal_no_dot((b + 1) as nat);
        let r = y + seq!['.'] + zero;
        assert(w =~= x + seq!['.'] + r);
        lemma_split_dot(x, r);
        lemma_split_dot(y, zero);
        lemma_split_no_dot(zero);
        assert(split(w, '.') =~= seq![x, y, zero]);
    } else {
        reveal_strlit(".");
        let x = decimal(a as nat);
        let y = decimal(b as nat);
        let z = decimal((c + 1) as nat);
        lemma_decimal_no_dot(a as nat);
        lemma_decimal_no_dot(b as nat);
        lemma_decimal_no_dot((c + 1) as nat);
        let r = y + seq!['.'] + z;
        assert(w =~= x + seq!['.'] + r);
        lemma_split_dot(x, r);
        lemma_split_dot(y, z);
        lemma_split_no_dot(z);
        assert(split(w, '.') =~= seq![x, y, z]);
    }
}

/// The version order: major number first, then minor, then patch.
pub open spec fn version_less(x: (u32, u32, u32), y: (u32, u32, u32)) -> bool {
    ||| x.0 < y.0
    ||| (x.0 == y.0 && x.1 < y.1)
    ||| (x.0 == y.0 && x.1 == y.1 && x.2 < y.2)
}

/// Bumping a version makes it strictly greater in the version order.
pub proof fn lemma_bump_increases(v: Seq<char>, major: bool, minor: bool, patch: bool)
    requires
        version_failure(v) is None,
        !bump_overflows(v, major, minor, patch),
        major || minor || patch,
    ensures
        version_less(version_numbers(v), version_numbers(bumped_version(v, major, minor, patch))),
{
    lemma_bumped_version_well_formed(v, major, minor, patch);
}

} // verus!
