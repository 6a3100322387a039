//! `recoil restore`: which restore is asked for, and the names restored
//! files and directories receive.

use vstd::prelude::*;

use std::path::Path;

use crate::utils::text::{
    chars_of, chars_end_with, chars_contain, has_infix, has_suffix, push_chars, push_text, same_text,
    strip, strip_chars, string_from_chars, Strip,
};

verus! {

/// The arguments of `recoil restore`.
#[derive(Debug, Clone)]
pub struct RestoreArgs {
    pub path: Option<String>,
    /// Restore version from specific date: YYYY-MM-DD HH:MM.
    pub date: Option<String>,
    /// Restore all available versions.
    pub all: bool,
    /// Show what would be restored without restoring.
    pub dry_run: bool,
    /// Custom output directory.
    pub output: Option<String>,
    /// Overwrite existing files without prompting.
    pub force: bool,
    /// Full root-mirror restoration (requires sudo).
    pub system: bool,
}

/// The restore that the arguments ask for, in order of precedence.
#[derive(Debug, Clone, PartialEq, Eq)]
pub enum RestoreMode {
    /// No path and no `--system`: show usage.
    Usage,
    /// `--system`: restore the whole root filesystem.
    System,
    /// `--date`: restore the version of that date.
    ByDate,
    /// `--all`: restore every version.
    AllVersions,
    /// `--dry-run`: show what would be restored.
    DryRun,
    /// Restore the path.
    Single,
}

pub open spec fn restore_mode(args: RestoreArgs) -> RestoreMode {
    if args.path is None && !args.system {
        RestoreMode::Usage
    } else if args.system {
        RestoreMode::System
    } else if args.date is Some {
        RestoreMode::ByDate
    } else if args.all {
        RestoreMode::AllVersions
    } else if args.dry_run {
        RestoreMode::DryRun
    } else {
        RestoreMode::Single
    }
}

/// Which restore the arguments ask for: `--system` restores the whole root
/// filesystem whether or not a path is given; without it, no path only
/// shows the usage; with a path, `--date` restores that version, then
/// `--all` every version, then `--dry-run` only shows what would be
/// restored, and otherwise the path itself is restored.
pub proof fn lemma_restore_mode(args: RestoreArgs)
    ensures
        args.system ==> restore_mode(args) == RestoreMode::System,
        restore_mode(args) == RestoreMode::System ==> args.system,
        restore_mode(args) == RestoreMode::Usage <==> (args.path is None && !args.system),
        !args.system && args.path is Some && args.date is Some ==> restore_mode(args)
            == RestoreMode::ByDate,
        !args.system && args.path is Some && args.date is None && args.all ==> restore_mode(args)
            == RestoreMode::AllVersions,
        !args.system && args.path is Some && args.date is None && !args.all && args.dry_run
            ==> restore_mode(args) == RestoreMode::DryRun,
        !args.system && args.path is Some && args.date is None && !args.all && !args.dry_run
            ==> restore_mode(args) == RestoreMode::Single,
{
}

impl RestoreArgs {
    /// The restore these arguments ask for.
    pub fn mode(&self) -> (m: RestoreMode)
        ensures
            m == restore_mode(*self),
    {
        if self.path.is_none() && !self.system {
            RestoreMode::Usage
        } else if self.system {
            RestoreMode::System
        } else if self.date.is_some() {
            RestoreMode::ByDate
        } else if self.all {
            RestoreMode::AllVersions
        } else if self.dry_run {
            RestoreMode::DryRun
        } else {
            RestoreMode::Single
        }
    }
}

// ── Path components, as `std::path::Path` reads them ─────────────────────────

/// What `Path::file_name` returns for a path.
pub uninterp spec fn path_file_name(p: Seq<char>) -> Option<Seq<char>>;

/// What `Path::parent` returns for a path.
pub uninterp spec fn path_parent(p: Seq<char>) -> Option<Seq<char>>;

pub open spec fn opt_text(o: Option<String>) -> Option<Seq<char>> {
    match o {
        Some(s) => Some(s@),
        None => None,
    }
}

/// Calls `Path::file_name`.
#[verifier::external_body]
fn file_name_of(p: &str) -> (r: Option<String>)
    ensures
        opt_text(r) == path_file_name(p@),
{
    let part = Path::new(p).file_name()?;
    Some(part.to_str()?.to_string())
}

/// Calls `Path::parent`.
#[verifier::external_body]
fn parent_of(p: &str) -> (r: Option<String>)
    ensures
        opt_text(r) == path_parent(p@),
{
    let part = Path::new(p).parent()?;
    Some(part.to_str()?.to_string())
}

/// `j` is the index of the last `.` of the file name `n`, and it does not
/// lead the name.
pub open spec fn splits_at(n: Seq<char>, j: int) -> bool {
    &&& 0 < j < n.len()
    &&& n[j] == '.'
    &&& forall|k: int| j < k < n.len() ==> n[k] != '.'
}

/// The stem of a file name, as `Path::file_stem` documents it: the whole
/// name when it holds no `.`, or when its only `.` leads it; otherwise the
/// part before the last `.`.
pub open spec fn name_stem(n: Seq<char>) -> Seq<char> {
    if exists|j: int| splits_at(n, j) {
        n.take(choose|j: int| splits_at(n, j))
    } else {
        n
    }
}

/// The extension of a file name, as `Path::extension` documents it: none
/// when the name holds no `.`, or when its only `.` leads it; otherwise the
/// part after the last `.`.
pub open spec fn name_extension(n: Seq<char>) -> Option<Seq<char>> {
    if exists|j: int| splits_at(n, j) {
        Some(n.skip((choose|j: int| splits_at(n, j)) + 1))
    } else {
        None
    }
}

/// The stem of a path's file name, `file` when it has none.
pub open spec fn stem_or_file(p: Seq<char>) -> Seq<char> {
    match path_file_name(p) {
        Some(n) => name_stem(n),
        None => "file"@,
    }
}

/// The path's extension with its dot, empty when it has none.
pub open spec fn dotted_extension(p: Seq<char>) -> Seq<char> {
    match path_file_name(p) {
        Some(n) => match name_extension(n) {
            Some(e) => "."@ + e,
            None => ""@,
        },
        None => ""@,
    }
}

pub open spec fn opt_chars(o: Option<Vec<char>>) -> Option<Seq<char>> {
    match o {
        Some(v) => Some(v@),
        None => None,
    }
}

proof fn lemma_split_unique(n: Seq<char>, a: int, b: int)
    requires
        splits_at(n, a),
        splits_at(n, b),
    ensures
        a == b,
{
    if a < b {
        assert(n[b] != '.');
    } else if b < a {
        assert(n[a] != '.');
    }
}

/// Splits a file name into its stem and extension.
fn split_file_name(n: &[char]) -> (r: (Vec<char>, Option<Vec<char>>))
    ensures
        r.0@ == name_stem(n@),
        opt_chars(r.1) == name_extension(n@),
{
    let len = n.len();
    let mut j: usize = len;
    while j > 0 && n[j - 1] != '.'
        invariant
            j <= len,
            len == n@.len(),
            forall|k: int| j <= k < len ==> n@[k] != '.',
        decreases j,
    {
        j = j - 1;
    }
    if j <= 1 {
        assert forall|d: int| !splits_at(n@, d) by {
            if splits_at(n@, d) {
                assert(n@[d] == '.');
            }
        }
        assert(n@.subrange(0, len as int) =~= n@);
        return (crate::utils::text::copy_range(n, 0, len), None);
    }
    let d = j - 1;
    assert(splits_at(n@, d as int));
    proof {
        let c = choose|k: int| splits_at(n@, k);
        lemma_split_unique(n@, c, d as int);
    }
    let stem = crate::utils::text::copy_range(n, 0, d);
    let ext = crate::utils::text::copy_range(n, d + 1, len);
    assert(stem@ =~= n@.take(d as int));
    assert(ext@ =~= n@.skip(d + 1));
    (stem, Some(ext))
}

fn push_stem(out: &mut Vec<char>, path: &str)
    ensures
        final(out)@ == old(out)@ + stem_or_file(path@),
{
    match file_name_of(path) {
        Some(name) => {
            let v = chars_of(name.as_str());
            let (stem, _) = split_file_name(&v);
            push_chars(out, &stem);
        },
        None => push_text(out, "file"),
    }
}

fn push_extension(out: &mut Vec<char>, path: &str)
    ensures
        final(out)@ == old(out)@ + dotted_extension(path@),
{
    match file_name_of(path) {
        Some(name) => {
            let v = chars_of(name.as_str());
            let (_, ext) = split_file_name(&v);
            match ext {
                Some(e) => {
                    push_text(out, ".");
                    push_chars(out, &e);
                    assert(old(out)@ + "."@ + e@ =~= old(out)@ + ("."@ + e@));
                },
                None => push_text(out, ""),
            }
        },
        None => push_text(out, ""),
    }
}

/// The file's name, `file` when it has none.
pub fn file_label(path: &str) -> (s: String)
    ensures
        s@ == (match path_file_name(path@) {
            Some(n) => n,
            None => "file"@,
        }),
{
    match file_name_of(path) {
        Some(n) => n,
        None => String::from_str("file"),
    }
}

/// The name a file restored beside an existing one receives:
/// `<stem>-restored<.ext>`.
pub fn restored_file_name(path: &str) -> (s: String)
    ensures
        s@ == stem_or_file(path@) + "-restored"@ + dotted_extension(path@),
{
    let mut out: Vec<char> = Vec::new();
    push_stem(&mut out, path);
    push_text(&mut out, "-restored");
    push_extension(&mut out, path);
    string_from_chars(&out)
}

/// The name of one restored version: `<stem><suffix><.ext>`.
pub fn versioned_file_name(path: &str, suffix: &str) -> (s: String)
    ensures
        s@ == stem_or_file(path@) + suffix@ + dotted_extension(path@),
{
    let mut out: Vec<char> = Vec::new();
    push_stem(&mut out, path);
    push_text(&mut out, suffix);
    push_extension(&mut out, path);
    string_from_chars(&out)
}

/// `-`, space and `:` are dropped from a date to make it compact.
pub open spec fn date_separator(c: char) -> bool {
    c == '-' || c == ' ' || c == ':'
}

/// The characters of `s` that are not date separators.
pub open spec fn without_separators(s: Seq<char>) -> Seq<char>
    decreases s.len(),
{
    if s.len() == 0 {
        seq![]
    } else if date_separator(s.last()) {
        without_separators(s.drop_last())
    } else {
        without_separators(s.drop_last()).push(s.last())
    }
}

/// The first eight characters of a date without separators, e.g.
/// `20260510` for `2026-05-10 14:00`.
pub open spec fn compact_date(date: Seq<char>) -> Seq<char> {
    let d = without_separators(date);
    if d.len() <= 8 {
        d
    } else {
        d.take(8)
    }
}

fn compact_date_of(date: &str) -> (r: Vec<char>)
    ensures
        r@ == compact_date(date@),
{
    let v = chars_of(date);
    let mut d: Vec<char> = Vec::new();
    let mut i: usize = 0;
    assert(v@.take(0) =~= seq![]);
    while i < v.len()
        invariant
            i <= v@.len(),
            v@ == date@,
            d@ == without_separators(v@.take(i as int)),
        decreases v@.len() - i,
    {
        assert(v@.take(i + 1).drop_last() =~= v@.take(i as int));
        let c = v[i];
        if !(c == '-' || c == ' ' || c == ':') {
            d.push(c);
        }
        i = i + 1;
    }
    assert(v@.take(v@.len() as int) =~= v@);
    if d.len() <= 8 {
        d
    } else {
        let mut r: Vec<char> = Vec::new();
        let mut k: usize = 0;
        while k < 8
            invariant
                k <= 8,
                8 < d@.len(),
                r@ == d@.take(k as int),
            decreases 8 - k,
        {
            r.push(d[k]);
            assert(r@ =~= d@.take(k + 1));
            k = k + 1;
        }
        r
    }
}

/// Where the version of `date` is restored: beside the file itself, as
/// `<parent>/<stem>-restored-<compact date><.ext>` (the parent is `.` when
/// the path has none).
pub fn dated_restore_location(path: &str, date: &str) -> (s: String)
    ensures
        s@ == (match path_parent(path@) {
            Some(p) => p,
            None => "."@,
        }) + "/"@ + stem_or_file(path@) + "-restored-"@ + compact_date(date@) + dotted_extension(path@),
{
    let mut out: Vec<char> = Vec::new();
    match parent_of(path) {
        Some(p) => push_text(&mut out, p.as_str()),
        None => push_text(&mut out, "."),
    }
    push_text(&mut out, "/");
    push_stem(&mut out, path);
    push_text(&mut out, "-restored-");
    let compact = compact_date_of(date);
    push_chars(&mut out, &compact);
    push_extension(&mut out, path);
    string_from_chars(&out)
}

/// The path is taken for a directory when it ends in `/` or holds no `.`.
pub fn looks_like_directory(display: &str) -> (r: bool)
    ensures
        r == (has_suffix(display@, "/"@) || !has_infix(display@, "."@)),
{
    let v = chars_of(display);
    let slash = chars_of("/");
    let dot = chars_of(".");
    chars_end_with(&v, &slash) || !chars_contain(&v, &dot)
}

/// Where a directory is restored: the path without trailing `/`, then
/// `-restored-<day>`.
pub fn restored_directory_path(display: &str, day: &str) -> (s: String)
    ensures
        s@ == crate::utils::text::strip_end(display@, Strip::Only('/')) + "-restored-"@ + day@,
{
    let v = chars_of(display);
    let n = v.len();
    let mut b: usize = n;
    assert(v@.subrange(0, n as int) =~= v@);
    while b > 0 && v[b - 1] == '/'
        invariant
            b <= n,
            n == v@.len(),
            crate::utils::text::strip_end(v@, Strip::Only('/')) == crate::utils::text::strip_end(
                v@.subrange(0, b as int),
                Strip::Only('/'),
            ),
        decreases b,
    {
        assert(v@.subrange(0, b as int).drop_last() =~= v@.subrange(0, b - 1));
        b = b - 1;
    }
    let mut out = crate::utils::text::copy_range(&v, 0, b);
    push_text(&mut out, "-restored-");
    push_text(&mut out, day);
    string_from_chars(&out)
}

/// The answer to "File already exists at target location".
#[derive(Debug, Clone, Copy, PartialEq, Eq, Structural)]
pub enum ConflictChoice {
    Overwrite,
    RestoreWithNewName,
    Cancel,
}

/// `1` overwrites, `3` cancels, anything else restores under a new name;
/// surrounding white space is ignored.
pub fn conflict_choice(answer: &str) -> (c: ConflictChoice)
    ensures
        c == (if strip(answer@, Strip::Space) == "1"@ {
            ConflictChoice::Overwrite
        } else if strip(answer@, Strip::Space) == "3"@ {
            ConflictChoice::Cancel
        } else {
            ConflictChoice::RestoreWithNewName
        }),
{
    let v = chars_of(answer);
    let t = strip_chars(&v, Strip::Space);
    let ts = string_from_chars(&t);
    if same_text(ts.as_str(), "1") {
        ConflictChoice::Overwrite
    } else if same_text(ts.as_str(), "3") {
        ConflictChoice::Cancel
    } else {
        ConflictChoice::RestoreWithNewName
    }
}

/// Lookup of a path in the shadow layer; every path is reported found
/// until the mirror exists.
pub fn simulate_vault_lookup(_path: &str) -> (found: bool)
    ensures
        found,
{
    true
}

} // verus!
