//! The `.deployment` file: `KEY=VALUE` lines with `${NAME}` references
//! between values, read into a release configuration and checked for the
//! settings a release needs.
use vstd::prelude::*;

use crate::command::words_of;
use crate::text::{
    chars_eq, chars_of, find_char, find_char_from, find_seq, find_seq_from, is_whitespace,
    lemma_find_char, lemma_find_char_first, lemma_find_seq, lemma_find_seq_first, lines, lines_of,
    matches_at, push_all, push_range, seqs_of, slice_chars, string_of, trim, trim_chars, trim_end,
    trim_start,
};

verus! {

broadcast use vstd::string::group_string_axioms;

/// A setting as a key and its raw value.
pub type Entry = (Seq<char>, Seq<char>);

/// The setting a line of the file makes, if any: blank lines, lines whose
/// first non-blank character is `#` and lines without `=` make none; else
/// the key is the trimmed text before the first `=` and the value the trimmed
/// text after it.
pub open spec fn parse_line(line: Seq<char>) -> Option<Entry> {
    let t = trim(line);
    if t.len() == 0 || t[0] == '#' {
        None
    } else {
        match find_char(t, '=') {
            None => None,
            Some(p) => Some((trim(t.take(p)), trim(t.skip(p + 1)))),
        }
    }
}

/// The settings the lines `ls` make, in order.
pub open spec fn entries_of_lines(ls: Seq<Seq<char>>) -> Seq<Entry>
    decreases ls.len(),
{
    if ls.len() == 0 {
        Seq::empty()
    } else {
        let rest = entries_of_lines(ls.drop_last());
        match parse_line(ls.last()) {
            Some(e) => rest.push(e),
            None => rest,
        }
    }
}

/// The settings a file's `content` makes, in the order of its lines.
pub open spec fn assignments(content: Seq<char>) -> Seq<Entry> {
    entries_of_lines(lines(content))
}

/// The raw value of `key`: that of its last setting.
pub open spec fn lookup(entries: Seq<Entry>, key: Seq<char>) -> Option<Seq<char>>
    decreases entries.len(),
{
    if entries.len() == 0 {
        None
    } else if entries.last().0 == key {
        Some(entries.last().1)
    } else {
        lookup(entries.drop_last(), key)
    }
}

/// The characters that open a reference.
pub open spec fn reference_open() -> Seq<char> {
    seq!['$', '{']
}

/// `s` with its `${NAME}` references resolved against the raw values of
/// `vars`, scanning left to right: each reference to a known name is replaced
/// by that name's raw value and the scan goes on after it, so a value brought
/// in is not scanned again; a reference to an unknown name is kept as it is; an
/// opening `${` with no later `}` ends the scan.
pub open spec fn substitute(s: Seq<char>, vars: Seq<Entry>) -> Seq<char>
    decreases s.len(),
{
    match find_seq(s, reference_open()) {
        None => s,
        Some(p) => {
            proof {
                lemma_find_seq(s, reference_open());
            }
            match find_char(s.skip(p), '}') {
                None => s,
                Some(k) => {
                    proof {
                        lemma_find_char(s.skip(p), '}');
                    }
                    let e = p + k;
                    let name = s.subrange(p + 2, e);
                    match lookup(vars, name) {
                        Some(value) => s.take(p) + value + substitute(s.skip(e + 1), vars),
                        None => s.take(e + 1) + substitute(s.skip(e + 1), vars),
                    }
                },
            }
        },
    }
}

/// The value of `key` after its references are resolved.
pub open spec fn setting(entries: Seq<Entry>, key: Seq<char>) -> Option<Seq<char>> {
    match lookup(entries, key) {
        Some(raw) => Some(substitute(raw, entries)),
        None => None,
    }
}

/// The value of `key`, or `default` where it is not set.
pub open spec fn setting_or(entries: Seq<Entry>, key: Seq<char>, default: Seq<char>) -> Seq<char> {
    match setting(entries, key) {
        Some(v) => v,
        None => default,
    }
}

/// The configuration of a release.
#[derive(Debug)]
pub struct ReleaseConfig {
    pub app_name: String,
    pub version: Option<String>,
    pub archive_folder: String,
    pub scheme: String,
    pub release_folder: String,
    pub apple_id: String,
    pub team_id: String,
    pub account_token: String,
    pub export_method: String,
    pub zip_name: Option<String>,
    pub export_options_plist: String,
    pub sparkle_host: Option<String>,
    pub dry_run: bool,
}

/// A release configuration as character sequences.
pub struct ReleaseConfigView {
    pub app_name: Seq<char>,
    pub version: Option<Seq<char>>,
    pub archive_folder: Seq<char>,
    pub scheme: Seq<char>,
    pub release_folder: Seq<char>,
    pub apple_id: Seq<char>,
    pub team_id: Seq<char>,
    pub account_token: Seq<char>,
    pub export_method: Seq<char>,
    pub zip_name: Option<Seq<char>>,
    pub export_options_plist: Seq<char>,
    pub sparkle_host: Option<Seq<char>>,
    pub dry_run: bool,
}

impl View for ReleaseConfig {
    type V = ReleaseConfigView;

    open spec fn view(&self) -> ReleaseConfigView {
        ReleaseConfigView {
            app_name: self.app_name@,
            version: self.version.deep_view(),
            archive_folder: self.archive_folder@,
            scheme: self.scheme@,
            release_folder: self.release_folder@,
            apple_id: self.apple_id@,
            team_id: self.team_id@,
            account_token: self.account_token@,
            export_method: self.export_method@,
            zip_name: self.zip_name.deep_view(),
            export_options_plist: self.export_options_plist@,
            sparkle_host: self.sparkle_host.deep_view(),
            dry_run: self.dry_run,
        }
    }
}

/// The configuration a `.deployment` file's `content` describes: each field
/// the resolved value of its key, with `./archives` and `./releases` for an
/// unset `ARCHIVE_FOLDER` and `RELEASE_FOLDER`, the empty text for an unset
/// required key (`APP_NAME`, `SCHEME`, `APPLE_ID`, `TEAM_ID`, `ACCOUNT_TOKEN`,
/// `EXPORT_METHOD`), so that validation refuses it, no value for unset
/// optional ones, and `ExportOptions.plist` as the export options file.
pub open spec fn config_from(content: Seq<char>, dry_run: bool) -> ReleaseConfigView {
    let e = assignments(content);
    ReleaseConfigView {
        app_name: setting_or(e, "APP_NAME"@, Seq::empty()),
        version: setting(e, "VERSION"@),
        archive_folder: setting_or(e, "ARCHIVE_FOLDER"@, "./archives"@),
        scheme: setting_or(e, "SCHEME"@, Seq::empty()),
        release_folder: setting_or(e, "RELEASE_FOLDER"@, "./releases"@),
        apple_id: setting_or(e, "APPLE_ID"@, Seq::empty()),
        team_id: setting_or(e, "TEAM_ID"@, Seq::empty()),
        account_token: setting_or(e, "ACCOUNT_TOKEN"@, Seq::empty()),
        export_method: setting_or(e, "EXPORT_METHOD"@, Seq::empty()),
        zip_name: setting(e, "ZIP_NAME"@),
        export_options_plist: "ExportOptions.plist"@,
        sparkle_host: setting(e, "SPARKLE_HOST"@),
        dry_run: dry_run,
    }
}

/// Settings as character vectors.
pub open spec fn entries_view(v: Seq<(Vec<char>, Vec<char>)>) -> Seq<Entry> {
    v.map_values(|e: (Vec<char>, Vec<char>)| (e.0@, e.1@))
}

fn parse_line_chars(line: &[char]) -> (r: Option<(Vec<char>, Vec<char>)>)
    ensures
        match r {
            Some(e) => parse_line(line@) == Some((e.0@, e.1@)),
            None => parse_line(line@) is None,
        },
{
    let t = trim_chars(line);
    if t.len() == 0 || t[0] == '#' {
        return None;
    }
    match find_char_from(t.as_slice(), '=', 0) {
        None => {
            assert(t@.skip(0) =~= t@);
            None
        },
        Some(p) => {
            assert(t@.skip(0) =~= t@);
            let k = slice_chars(t.as_slice(), 0, p);
            let v = slice_chars(t.as_slice(), p + 1, t.len());
            assert(k@ =~= t@.take(p as int));
            assert(v@ =~= t@.skip(p + 1));
            Some((trim_chars(k.as_slice()), trim_chars(v.as_slice())))
        },
    }
}

/// The settings `content` makes, in order.
fn assignments_chars(content: &[char]) -> (out: Vec<(Vec<char>, Vec<char>)>)
    ensures
        entries_view(out@) == assignments(content@),
{
    let ls = lines_of(content);
    let ghost sl = seqs_of(ls@);
    let mut out: Vec<(Vec<char>, Vec<char>)> = Vec::new();
    let n = ls.len();
    let mut i: usize = 0;
    assert(sl.take(0) =~= Seq::<Seq<char>>::empty());
    while i < n
        invariant
            i <= n,
            n == ls@.len(),
            sl == seqs_of(ls@),
            entries_view(out@) == entries_of_lines(sl.take(i as int)),
        decreases n - i,
    {
        assert(sl.take(i + 1).drop_last() =~= sl.take(i as int));
        assert(sl.take(i + 1).last() == ls@[i as int]@);
        match parse_line_chars(ls[i].as_slice()) {
            Some(e) => {
                assert(entries_view(out@.push(e)) =~= entries_view(out@).push((e.0@, e.1@)));
                out.push(e);
            },
            None => {},
        }
        i += 1;
    }
    assert(sl.take(n as int) =~= sl);
    out
}

/// The position of the last setting of `key`.
fn lookup_index(entries: &Vec<(Vec<char>, Vec<char>)>, key: &[char]) -> (r: Option<usize>)
    ensures
        match r {
            Some(i) => i < entries@.len() && lookup(entries_view(entries@), key@) == Some(
                entries@[i as int].1@,
            ),
            None => lookup(entries_view(entries@), key@) is None,
        },
{
    let ghost ev = entries_view(entries@);
    let mut i = entries.len();
    assert(ev.take(i as int) =~= ev);
    while i > 0
        invariant
            i <= entries@.len(),
            ev == entries_view(entries@),
            lookup(ev, key@) == lookup(ev.take(i as int), key@),
        decreases i,
    {
        let ghost pre = ev.take(i as int);
        assert(pre.last() == (entries@[i - 1].0@, entries@[i - 1].1@));
        assert(pre.drop_last() =~= ev.take(i - 1));
        if chars_eq(entries[i - 1].0.as_slice(), key) {
            return Some(i - 1);
        }
        i -= 1;
    }
    None
}

/// `s` with its references resolved against `vars`.
fn perform_variable_substitution(s: &[char], vars: &Vec<(Vec<char>, Vec<char>)>) -> (out: Vec<char>)
    ensures
        out@ == substitute(s@, entries_view(vars@)),
{
    let ghost ev = entries_view(vars@);
    let mut open: Vec<char> = Vec::new();
    open.push('$');
    open.push('{');
    assert(open@ =~= reference_open());
    let n = s.len();
    let mut out: Vec<char> = Vec::new();
    let mut i: usize = 0;
    assert(s@.skip(0) =~= s@);
    loop
        invariant
            i <= n,
            n == s@.len(),
            open@ == reference_open(),
            ev == entries_view(vars@),
            substitute(s@, ev) == out@ + substitute(s@.skip(i as int), ev),
        decreases n - i,
    {
        let ghost t = s@.skip(i as int);
        match find_seq_from(s, open.as_slice(), i) {
            None => {
                push_range(&mut out, s, i, n);
                assert(s@.subrange(i as int, n as int) =~= t);
                return out;
            },
            Some(p) => {
                proof {
                    lemma_find_seq(t, reference_open());
                    assert(t.skip(p - i) =~= s@.skip(p as int));
                    lemma_find_char(s@.skip(p as int), '}');
                }
                match find_char_from(s, '}', p) {
                    None => {
                        push_range(&mut out, s, i, n);
                        assert(s@.subrange(i as int, n as int) =~= t);
                        return out;
                    },
                    Some(e) => {
                        proof {
                            assert(s@[p as int] == '$');
                            assert(s@[p + 1] == '{');
                            assert(s@.skip(p as int)[e - p] == '}');
                            assert(s@.skip(p as int)[0] == '$');
                            assert(s@.skip(p as int)[1] == '{');
                        }
                        let name = slice_chars(s, p + 2, e);
                        assert(t.subrange(p - i + 2, e - i) =~= name@);
                        assert(t.skip(e - i + 1) =~= s@.skip(e + 1));
                        match lookup_index(vars, name.as_slice()) {
                            Some(k) => {
                                push_range(&mut out, s, i, p);
                                assert(s@.subrange(i as int, p as int) =~= t.take(p - i));
                                push_all(&mut out, vars[k].1.as_slice());
                            },
                            None => {
                                push_range(&mut out, s, i, e + 1);
                                assert(s@.subrange(i as int, e + 1) =~= t.take(e - i + 1));
                            },
                        }
                        i = e + 1;
                    },
                }
            },
        }
    }
}

/// The value of `key` after its references are resolved.
fn setting_value(entries: &Vec<(Vec<char>, Vec<char>)>, key: &str) -> (r: Option<String>)
    ensures
        r.deep_view() == setting(entries_view(entries@), key@),
{
    let k = chars_of(key);
    match lookup_index(entries, k.as_slice()) {
        Some(i) => {
            let v = perform_variable_substitution(entries[i].1.as_slice(), entries);
            Some(string_of(v.as_slice()))
        },
        None => None,
    }
}

/// The value of `key` after its references are resolved, or `default`.
fn setting_value_or(entries: &Vec<(Vec<char>, Vec<char>)>, key: &str, default: &str) -> (r: String)
    ensures
        r@ == setting_or(entries_view(entries@), key@, default@),
{
    match setting_value(entries, key) {
        Some(v) => v,
        None => String::from_str(default),
    }
}

/// Reads a `.deployment` file's content into a release configuration.
/// Lines are `KEY=VALUE`; blank lines, lines starting with `#` and lines
/// without `=` are skipped; a later line for a key overrides an earlier one;
/// `${NAME}` in a value is replaced by the raw value of `NAME`.
pub fn parse_deployment_config(content: &str, dry_run: bool) -> (c: ReleaseConfig)
    ensures
        c@ == config_from(content@, dry_run),
        c.app_name@ == setting_or(assignments(content@), "APP_NAME"@, Seq::empty()),
        c.version.deep_view() == setting(assignments(content@), "VERSION"@),
        c.archive_folder@ == setting_or(assignments(content@), "ARCHIVE_FOLDER"@, "./archives"@),
        c.scheme@ == setting_or(assignments(content@), "SCHEME"@, Seq::empty()),
        c.release_folder@ == setting_or(assignments(content@), "RELEASE_FOLDER"@, "./releases"@),
        c.apple_id@ == setting_or(assignments(content@), "APPLE_ID"@, Seq::empty()),
        c.team_id@ == setting_or(assignments(content@), "TEAM_ID"@, Seq::empty()),
        c.account_token@ == setting_or(assignments(content@), "ACCOUNT_TOKEN"@, Seq::empty()),
        c.export_method@ == setting_or(assignments(content@), "EXPORT_METHOD"@, Seq::empty()),
        c.zip_name.deep_view() == setting(assignments(content@), "ZIP_NAME"@),
        c.export_options_plist@ == "ExportOptions.plist"@,
        c.sparkle_host.deep_view() == setting(assignments(content@), "SPARKLE_HOST"@),
        c.dry_run == dry_run,
{
    let cs = chars_of(content);
    let e = assignments_chars(cs.as_slice());
    proof {
        reveal_strlit("");
        assert(""@ =~= Seq::<char>::empty());
    }
    ReleaseConfig {
        app_name: setting_value_or(&e, "APP_NAME", ""),
        version: setting_value(&e, "VERSION"),
        archive_folder: setting_value_or(&e, "ARCHIVE_FOLDER", "./archives"),
        scheme: setting_value_or(&e, "SCHEME", ""),
        release_folder: setting_value_or(&e, "RELEASE_FOLDER", "./releases"),
        apple_id: setting_value_or(&e, "APPLE_ID", ""),
        team_id: setting_value_or(&e, "TEAM_ID", ""),
        account_token: setting_value_or(&e, "ACCOUNT_TOKEN", ""),
        export_method: setting_value_or(&e, "EXPORT_METHOD", ""),
        zip_name: setting_value(&e, "ZIP_NAME"),
        export_options_plist: String::from_str("ExportOptions.plist"),
        sparkle_host: setting_value(&e, "SPARKLE_HOST"),
        dry_run,
    }
}

/// `message`, where `field` is empty.
pub open spec fn missing(field: Seq<char>, message: Seq<char>) -> Seq<Seq<char>> {
    if field.len() == 0 {
        seq![message]
    } else {
        Seq::empty()
    }
}

/// The complaints about required settings that are empty, in this order:
/// `APP_NAME`, `SCHEME`, `APPLE_ID`, `TEAM_ID`, `ACCOUNT_TOKEN`, `EXPORT_METHOD`.
pub open spec fn config_errors(c: ReleaseConfigView) -> Seq<Seq<char>> {
    missing(c.app_name, "APP_NAME is required in .deployment file"@) + missing(
        c.scheme,
        "SCHEME is required in .deployment file"@,
    ) + missing(c.apple_id, "APPLE_ID is required in .deployment file"@) + missing(
        c.team_id,
        "TEAM_ID is required in .deployment file"@,
    ) + missing(c.account_token, "ACCOUNT_TOKEN is required in .deployment file"@) + missing(
        c.export_method,
        "EXPORT_METHOD is required in .deployment file"@,
    )
}

fn complain_if_empty(errors: &mut Vec<String>, field: &String, message: &str)
    ensures
        words_of(final(errors)@) == words_of(old(errors)@) + missing(field@, message@),
{
    if field.as_str().unicode_len() == 0 {
        let ghost before = errors@;
        errors.push(String::from_str(message));
        assert(words_of(errors@) =~= words_of(before) + seq![message@]);
    } else {
        assert(words_of(errors@) =~= words_of(errors@) + Seq::<Seq<char>>::empty());
    }
}

/// Checks that the settings a release needs are not empty: `Ok` where all are
/// set, else the complaints about those that are empty, in order.
pub fn validate_config(config: &ReleaseConfig) -> (r: Result<(), Vec<String>>)
    ensures
        match r {
            Ok(()) => config_errors(config@).len() == 0,
            Err(errors) => errors@.len() > 0 && words_of(errors@) == config_errors(config@),
        },
{
    let mut errors: Vec<String> = Vec::new();
    assert(words_of(errors@) =~= Seq::<Seq<char>>::empty());
    complain_if_empty(&mut errors, &config.app_name, "APP_NAME is required in .deployment file");
    complain_if_empty(&mut errors, &config.scheme, "SCHEME is required in .deployment file");
    complain_if_empty(&mut errors, &config.apple_id, "APPLE_ID is required in .deployment file");
    complain_if_empty(&mut errors, &config.team_id, "TEAM_ID is required in .deployment file");
    complain_if_empty(
        &mut errors,
        &config.account_token,
        "ACCOUNT_TOKEN is required in .deployment file",
    );
    complain_if_empty(
        &mut errors,
        &config.export_method,
        "EXPORT_METHOD is required in .deployment file",
    );
    assert(words_of(errors@) =~= config_errors(config@));
    if errors.len() == 0 {
        Ok(())
    } else {
        Err(errors)
    }
}

} // verus!

verus! {

/// No line after index `i` of `ls` sets `key`.
pub open spec fn not_set_after(ls: Seq<Seq<char>>, i: int, key: Seq<char>) -> bool {
    forall|j: int|
        i < j < ls.len() ==> !(#[trigger] parse_line(ls[j]) matches Some(e) && e.0 == key)
}

proof fn lemma_last_line_wins(ls: Seq<Seq<char>>, i: int, key: Seq<char>, value: Seq<char>)
    requires
        0 <= i < ls.len(),
        parse_line(ls[i]) == Some((key, value)),
        not_set_after(ls, i, key),
    ensures
        lookup(entries_of_lines(ls), key) == Some(value),
    decreases ls.len(),
{
    let last = ls.len() - 1;
    let shorter = ls.drop_last();
    let rest = entries_of_lines(shorter);
    assert(ls.last() == ls[last]);
    if i < last {
        assert(shorter[i] == ls[i]);
        assert forall|j: int| i < j < shorter.len() implies !(#[trigger] parse_line(shorter[j]) matches Some(e) && e.0 == key) by {
            assert(shorter[j] == ls[j]);
            assert(parse_line(ls[j]) == parse_line(shorter[j]));
        }
        lemma_last_line_wins(shorter, i, key, value);
        match parse_line(ls[last]) {
            Some(e) => {
                assert(e.0 != key);
                assert(entries_of_lines(ls) == rest.push(e));
                assert(rest.push(e).drop_last() =~= rest);
            },
            None => {
                assert(entries_of_lines(ls) == rest);
            },
        }
    } else {
        assert(entries_of_lines(ls) == rest.push((key, value)));
    }
}

/// The value a key gets is the one on the last line of the file that sets it,
/// with its references resolved: a later setting overrides an earlier one.
pub proof fn lemma_last_setting_wins(content: Seq<char>, i: int, key: Seq<char>, value: Seq<char>)
    requires
        0 <= i < lines(content).len(),
        parse_line(lines(content)[i]) == Some((key, value)),
        not_set_after(lines(content), i, key),
    ensures
        lookup(assignments(content), key) == Some(value),
        setting(assignments(content), key) == Some(substitute(value, assignments(content))),
{
    lemma_last_line_wins(lines(content), i, key, value);
}

proof fn lemma_unset_lines(ls: Seq<Seq<char>>, key: Seq<char>)
    requires
        not_set_after(ls, -1, key),
    ensures
        lookup(entries_of_lines(ls), key) is None,
    decreases ls.len(),
{
    if ls.len() > 0 {
        let last = ls.len() - 1;
        let shorter = ls.drop_last();
        let rest = entries_of_lines(shorter);
        assert(ls.last() == ls[last]);
        assert forall|j: int| -1 < j < shorter.len() implies !(#[trigger] parse_line(shorter[j]) matches Some(e) && e.0 == key) by {
            assert(shorter[j] == ls[j]);
            assert(parse_line(ls[j]) == parse_line(shorter[j]));
        }
        lemma_unset_lines(shorter, key);
        match parse_line(ls[last]) {
            Some(e) => {
                assert(e.0 != key);
                assert(entries_of_lines(ls) == rest.push(e));
                assert(rest.push(e).drop_last() =~= rest);
            },
            None => {
                assert(entries_of_lines(ls) == rest);
            },
        }
    }
}

/// A key that no line of the file sets has no value, so its field takes its default.
pub proof fn lemma_unset_key_has_no_value(content: Seq<char>, key: Seq<char>)
    requires
        not_set_after(lines(content), -1, key),
    ensures
        setting(assignments(content), key) is None,
        forall|d: Seq<char>| setting_or(assignments(content), key, d) == d,
{
    lemma_unset_lines(lines(content), key);
}

/// Blank lines and lines whose first non-blank character is `#` set nothing.
pub proof fn lemma_comment_lines_ignored(ls: Seq<Seq<char>>, line: Seq<char>)
    requires
        trim(line).len() == 0 || trim(line)[0] == '#',
    ensures
        entries_of_lines(ls.push(line)) == entries_of_lines(ls),
{
    assert(ls.push(line).drop_last() =~= ls);
}

/// The reference `${name}` as text.
pub open spec fn reference(name: Seq<char>) -> Seq<char> {
    reference_open() + name + seq!['}']
}

/// `s` holds no character `c`.
pub open spec fn lacks(s: Seq<char>, c: char) -> bool {
    forall|i: int| 0 <= i < s.len() ==> s[i] != c
}

/// A text without `$` has no reference and is left as it is.
pub proof fn lemma_plain_text_unchanged(s: Seq<char>, vars: Seq<Entry>)
    requires
        lacks(s, '$'),
    ensures
        substitute(s, vars) == s,
{
    lemma_find_seq(s, reference_open());
    if find_seq(s, reference_open()) is Some {
        let p = find_seq(s, reference_open())->0;
        assert(s[p + 0] == reference_open()[0]);
    }
}

/// A reference to a known name is replaced by that name's raw value, which is
/// not scanned again; a reference to an unknown name is kept as it is. In both
/// cases the scan goes on after the reference.
pub proof fn lemma_reference_resolved(
    prefix: Seq<char>,
    name: Seq<char>,
    suffix: Seq<char>,
    vars: Seq<Entry>,
)
    requires
        lacks(prefix, '$'),
        lacks(name, '}'),
    ensures
        substitute(prefix + reference(name) + suffix, vars) == match lookup(vars, name) {
            Some(value) => prefix + value + substitute(suffix, vars),
            None => prefix + reference(name) + substitute(suffix, vars),
        },
{
    let s = prefix + reference(name) + suffix;
    let p = prefix.len() as int;
    let k = name.len() as int + 2;
    let e = p + k;
    let t = s.skip(p);
    lemma_reference_located(prefix, name, suffix);
    assert(t =~= reference(name) + suffix);
    lemma_closing_brace(name, suffix);
    assert(s.subrange(p + 2, e) =~= name);
    assert(s.take(p) =~= prefix);
    assert(s.skip(e + 1) =~= suffix);
    assert(s.take(e + 1) =~= prefix + reference(name));
}

proof fn lemma_reference_located(prefix: Seq<char>, name: Seq<char>, suffix: Seq<char>)
    requires
        lacks(prefix, '$'),
    ensures
        find_seq(prefix + reference(name) + suffix, reference_open()) == Some(prefix.len() as int),
{
    let s = prefix + reference(name) + suffix;
    let p = prefix.len() as int;
    let open = reference_open();
    assert(s[p] == '$');
    assert(s[p + 1] == '{');
    assert(matches_at(s, open, p));
    assert forall|j: int| 0 <= j < p implies !matches_at(s, open, j) by {
        assert(s[j] == prefix[j]);
        assert(s[j + 0] != open[0]);
    }
    lemma_find_seq_first(s, open, p);
}

proof fn lemma_closing_brace(name: Seq<char>, suffix: Seq<char>)
    requires
        lacks(name, '}'),
    ensures
        find_char(reference(name) + suffix, '}') == Some(name.len() as int + 2),
{
    let t = reference(name) + suffix;
    let k = name.len() as int + 2;
    assert(t[k] == '}');
    assert forall|j: int| 0 <= j < k implies t[j] != '}' by {
        if j >= 2 {
            assert(t[j] == name[j - 2]);
        }
    }
    lemma_find_char_first(t, '}', k);
}

/// With no settings to draw on, every reference stays as written: the text is unchanged.
pub proof fn lemma_no_settings_no_change(s: Seq<char>)
    ensures
        substitute(s, Seq::empty()) == s,
    decreases s.len(),
{
    match find_seq(s, reference_open()) {
        None => {},
        Some(p) => {
            lemma_find_seq(s, reference_open());
            match find_char(s.skip(p), '}') {
                None => {},
                Some(k) => {
                    lemma_find_char(s.skip(p), '}');
                    let e = p + k;
                    lemma_no_settings_no_change(s.skip(e + 1));
                    assert(s.take(e + 1) + s.skip(e + 1) =~= s);
                },
            }
        },
    }
}

/// A file that leaves any required key (`APP_NAME`, `SCHEME`, `APPLE_ID`,
/// `TEAM_ID`, `ACCOUNT_TOKEN`, `EXPORT_METHOD`) unset fails validation.
pub proof fn lemma_unset_required_key_refused(content: Seq<char>, key: Seq<char>, dry_run: bool)
    requires
        not_set_after(lines(content), -1, key),
        key == "APP_NAME"@ || key == "SCHEME"@ || key == "APPLE_ID"@ || key == "TEAM_ID"@
            || key == "ACCOUNT_TOKEN"@ || key == "EXPORT_METHOD"@,
    ensures
        config_errors(config_from(content, dry_run)).len() > 0,
{
    lemma_unset_key_has_no_value(content, key);
    let c = config_from(content, dry_run);
    assert(setting_or(assignments(content), key, Seq::empty()) == Seq::<char>::empty());
    lemma_valid_iff_required_set(c);
}

/// The configuration passes validation exactly when all six required settings are non-empty.
pub proof fn lemma_valid_iff_required_set(c: ReleaseConfigView)
    ensures
        config_errors(c).len() == 0 <==> (c.app_name.len() > 0 && c.scheme.len() > 0
            && c.apple_id.len() > 0 && c.team_id.len() > 0 && c.account_token.len() > 0
            && c.export_method.len() > 0),
{
}

} // verus!

verus! {

/// Each field of the configuration is read from its own key: the resolved
/// value of that key's last setting, or the field's default where the key is
/// unset (`./archives` for `ARCHIVE_FOLDER`, `./releases` for
/// `RELEASE_FOLDER`, empty for the other required keys, no value for the
/// optional ones).
pub proof fn lemma_fields_from_their_keys(content: Seq<char>, dry_run: bool)
    ensures
        ({
            let c = config_from(content, dry_run);
            let e = assignments(content);
            &&& c.app_name == setting_or(e, "APP_NAME"@, Seq::empty())
            &&& c.version == setting(e, "VERSION"@)
            &&& c.archive_folder == setting_or(e, "ARCHIVE_FOLDER"@, "./archives"@)
            &&& c.scheme == setting_or(e, "SCHEME"@, Seq::empty())
            &&& c.release_folder == setting_or(e, "RELEASE_FOLDER"@, "./releases"@)
            &&& c.apple_id == setting_or(e, "APPLE_ID"@, Seq::empty())
            &&& c.team_id == setting_or(e, "TEAM_ID"@, Seq::empty())
            &&& c.account_token == setting_or(e, "ACCOUNT_TOKEN"@, Seq::empty())
            &&& c.export_method == setting_or(e, "EXPORT_METHOD"@, Seq::empty())
            &&& c.zip_name == setting(e, "ZIP_NAME"@)
            &&& c.export_options_plist == "ExportOptions.plist"@
            &&& c.sparkle_host == setting(e, "SPARKLE_HOST"@)
            &&& c.dry_run == dry_run
        }),
{
}

/// Where the last line setting a key is `KEY=V`, the field read from that key
/// is `V` with its references resolved, whatever other keys the file sets.
pub proof fn lemma_field_is_last_setting(
    content: Seq<char>,
    i: int,
    key: Seq<char>,
    value: Seq<char>,
    dry_run: bool,
)
    requires
        0 <= i < lines(content).len(),
        parse_line(lines(content)[i]) == Some((key, value)),
        not_set_after(lines(content), i, key),
    ensures
        ({
            let c = config_from(content, dry_run);
            let v = substitute(value, assignments(content));
            &&& key == "APP_NAME"@ ==> c.app_name == v
            &&& key == "VERSION"@ ==> c.version == Some(v)
            &&& key == "ARCHIVE_FOLDER"@ ==> c.archive_folder == v
            &&& key == "SCHEME"@ ==> c.scheme == v
            &&& key == "RELEASE_FOLDER"@ ==> c.release_folder == v
            &&& key == "APPLE_ID"@ ==> c.apple_id == v
            &&& key == "TEAM_ID"@ ==> c.team_id == v
            &&& key == "ACCOUNT_TOKEN"@ ==> c.account_token == v
            &&& key == "EXPORT_METHOD"@ ==> c.export_method == v
            &&& key == "ZIP_NAME"@ ==> c.zip_name == Some(v)
            &&& key == "SPARKLE_HOST"@ ==> c.sparkle_host == Some(v)
        }),
{
    lemma_last_setting_wins(content, i, key, value);
}

/// The archive folder and the release folder are kept apart: a file that
/// never sets `ARCHIVE_FOLDER` keeps `./archives`, and one that never sets
/// `RELEASE_FOLDER` keeps `./releases`, whatever else it sets.
pub proof fn lemma_unset_folders_keep_defaults(content: Seq<char>, dry_run: bool)
    ensures
        not_set_after(lines(content), -1, "ARCHIVE_FOLDER"@) ==> config_from(
            content,
            dry_run,
        ).archive_folder == "./archives"@,
        not_set_after(lines(content), -1, "RELEASE_FOLDER"@) ==> config_from(
            content,
            dry_run,
        ).release_folder == "./releases"@,
{
    if not_set_after(lines(content), -1, "ARCHIVE_FOLDER"@) {
        lemma_unset_key_has_no_value(content, "ARCHIVE_FOLDER"@);
    }
    if not_set_after(lines(content), -1, "RELEASE_FOLDER"@) {
        lemma_unset_key_has_no_value(content, "RELEASE_FOLDER"@);
    }
}

} // verus!

verus! {

/// `s` has no whitespace at either end.
pub open spec fn has_trimmed_ends(s: Seq<char>) -> bool {
    s.len() == 0 || (!is_whitespace(s[0]) && !is_whitespace(s.last()))
}

/// `s` is made of whitespace only.
pub open spec fn all_whitespace(s: Seq<char>) -> bool {
    forall|i: int| 0 <= i < s.len() ==> is_whitespace(s[i])
}

proof fn lemma_trim_keeps_trimmed(s: Seq<char>)
    requires
        has_trimmed_ends(s),
    ensures
        trim(s) == s,
{
}

proof fn lemma_trim_start_skips(w: Seq<char>, x: Seq<char>)
    requires
        all_whitespace(w),
    ensures
        trim_start(w + x) == trim_start(x),
    decreases w.len(),
{
    if w.len() > 0 {
        assert((w + x).drop_first() =~= w.drop_first() + x);
        lemma_trim_start_skips(w.drop_first(), x);
    } else {
        assert(w + x =~= x);
    }
}

proof fn lemma_trim_end_skips(x: Seq<char>, w: Seq<char>)
    requires
        all_whitespace(w),
    ensures
        trim_end(x + w) == trim_end(x),
    decreases w.len(),
{
    if w.len() > 0 {
        assert((x + w).drop_last() =~= x + w.drop_last());
        lemma_trim_end_skips(x, w.drop_last());
    } else {
        assert(x + w =~= x);
    }
}

proof fn lemma_trim_start_append(x: Seq<char>, w: Seq<char>)
    requires
        all_whitespace(w),
    ensures
        trim_start(x + w) == if trim_start(x).len() > 0 {
            trim_start(x) + w
        } else {
            Seq::<char>::empty()
        },
    decreases x.len(),
{
    if x.len() == 0 {
        assert(x + w =~= w);
        lemma_trim_start_skips(w, Seq::empty());
        assert(w + Seq::<char>::empty() =~= w);
    } else if is_whitespace(x[0]) {
        assert((x + w).drop_first() =~= x.drop_first() + w);
        lemma_trim_start_append(x.drop_first(), w);
    }
}

/// Whitespace around a line does not change what it sets.
pub proof fn lemma_line_whitespace_ignored(before: Seq<char>, line: Seq<char>, after: Seq<char>)
    requires
        all_whitespace(before),
        all_whitespace(after),
    ensures
        parse_line(before + line + after) == parse_line(line),
{
    assert(before + line + after =~= before + (line + after));
    lemma_trim_start_skips(before, line + after);
    lemma_trim_start_append(line, after);
    if trim_start(line).len() > 0 {
        lemma_trim_end_skips(trim_start(line), after);
    }
}

/// A line `KEY=VALUE`, with a non-empty key that holds no `=` and does not
/// start with `#`, and with no whitespace at the ends of key or value, sets
/// exactly `KEY` to `VALUE`.
pub proof fn lemma_assignment_line(key: Seq<char>, value: Seq<char>)
    requires
        key.len() > 0,
        key[0] != '#',
        has_trimmed_ends(key),
        has_trimmed_ends(value),
        lacks(key, '='),
    ensures
        parse_line(key + seq!['='] + value) == Some((key, value)),
{
    let l = key + seq!['='] + value;
    assert(l[0] == key[0]);
    assert(!is_whitespace('='));
    if value.len() > 0 {
        assert(l.last() == value.last());
    } else {
        assert(l.last() == '=');
    }
    lemma_trim_keeps_trimmed(l);
    assert(l[key.len() as int] == '=');
    assert forall|j: int| 0 <= j < key.len() implies l[j] != '=' by {
        assert(l[j] == key[j]);
    }
    lemma_find_char_first(l, '=', key.len() as int);
    assert(l.take(key.len() as int) =~= key);
    assert(l.skip(key.len() as int + 1) =~= value);
    lemma_trim_keeps_trimmed(key);
    lemma_trim_keeps_trimmed(value);
}

} // verus!

verus! {

/// Validation names each empty required setting by its key, once, in the
/// order `APP_NAME`, `SCHEME`, `APPLE_ID`, `TEAM_ID`, `ACCOUNT_TOKEN`,
/// `EXPORT_METHOD`: with only `APP_NAME` empty the one complaint is about
/// `APP_NAME`, and with all six empty there are six complaints.
pub proof fn lemma_config_error_messages(c: ReleaseConfigView)
    ensures
        c.app_name.len() == 0 && c.scheme.len() > 0 && c.apple_id.len() > 0 && c.team_id.len() > 0
            && c.account_token.len() > 0 && c.export_method.len() > 0 ==> config_errors(c) == seq![
            "APP_NAME is required in .deployment file"@,
        ],
        c.app_name.len() == 0 && c.scheme.len() == 0 && c.apple_id.len() == 0 && c.team_id.len()
            == 0 && c.account_token.len() == 0 && c.export_method.len() == 0 ==> config_errors(c)
            == seq![
            "APP_NAME is required in .deployment file"@,
            "SCHEME is required in .deployment file"@,
            "APPLE_ID is required in .deployment file"@,
            "TEAM_ID is required in .deployment file"@,
            "ACCOUNT_TOKEN is required in .deployment file"@,
            "EXPORT_METHOD is required in .deployment file"@,
        ],
{
    if c.app_name.len() == 0 && c.scheme.len() > 0 && c.apple_id.len() > 0 && c.team_id.len() > 0
        && c.account_token.len() > 0 && c.export_method.len() > 0 {
        assert(config_errors(c) =~= seq!["APP_NAME is required in .deployment file"@]);
    }
    if c.app_name.len() == 0 && c.scheme.len() == 0 && c.apple_id.len() == 0 && c.team_id.len()
        == 0 && c.account_token.len() == 0 && c.export_method.len() == 0 {
        assert(config_errors(c) =~= seq![
            "APP_NAME is required in .deployment file"@,
            "SCHEME is required in .deployment file"@,
            "APPLE_ID is required in .deployment file"@,
            "TEAM_ID is required in .deployment file"@,
            "ACCOUNT_TOKEN is required in .deployment file"@,
            "EXPORT_METHOD is required in .deployment file"@,
        ]);
    }
}

} // verus!
