//! Distribution detection from the text of `/etc/os-release`.

use vstd::prelude::*;

use crate::utils::text::{
    chars_of, char_is_space, copy_range, has_prefix, is_space, join_path, joined, same_text, string_from_chars,
    strip, strip_chars, text_starts_with, Strip,
};

verus! {

/// All recognised Linux distributions plus a generic fallback.
/// The shadow directory name is derived from this value.
#[derive(Debug, Clone, PartialEq, Eq)]
pub enum Distro {
    Debian,
    Ubuntu,
    Arch,
    Manjaro,
    Fedora,
    CentOs,
    Rhel,
    AlmaLinux,
    RockyLinux,
    OpenSuse,
    Gentoo,
    Void,
    Alpine,
    Mint,
    PopOs,
    ElementaryOs,
    Kali,
    Parrot,
    /// Generic fallback carrying the PRETTY_NAME value.
    Unknown(String),
}

/// The dot-prefixed hidden shadow directory name of each distribution.
pub open spec fn shadow_dir_name_of(d: Distro) -> Seq<char> {
    match d {
        Distro::Debian => ".recoil-debian"@,
        Distro::Ubuntu => ".recoil-ubuntu"@,
        Distro::Arch => ".recoil-arch"@,
        Distro::Manjaro => ".recoil-manjaro"@,
        Distro::Fedora => ".recoil-fedora"@,
        Distro::CentOs => ".recoil-centos"@,
        Distro::Rhel => ".recoil-rhel"@,
        Distro::AlmaLinux => ".recoil-alma"@,
        Distro::RockyLinux => ".recoil-rocky"@,
        Distro::OpenSuse => ".recoil-opensuse"@,
        Distro::Gentoo => ".recoil-gentoo"@,
        Distro::Void => ".recoil-void"@,
        Distro::Alpine => ".recoil-alpine"@,
        Distro::Mint => ".recoil-mint"@,
        Distro::PopOs => ".recoil-pop"@,
        Distro::ElementaryOs => ".recoil-elementary"@,
        Distro::Kali => ".recoil-kali"@,
        Distro::Parrot => ".recoil-parrot"@,
        Distro::Unknown(_) => ".recoil-linux"@,
    }
}

/// The human-readable name of each distribution.
pub open spec fn display_name_of(d: Distro) -> Seq<char> {
    match d {
        Distro::Debian => "Debian GNU/Linux"@,
        Distro::Ubuntu => "Ubuntu"@,
        Distro::Arch => "Arch Linux"@,
        Distro::Manjaro => "Manjaro Linux"@,
        Distro::Fedora => "Fedora Linux"@,
        Distro::CentOs => "CentOS Linux"@,
        Distro::Rhel => "Red Hat Enterprise Linux"@,
        Distro::AlmaLinux => "AlmaLinux"@,
        Distro::RockyLinux => "Rocky Linux"@,
        Distro::OpenSuse => "openSUSE"@,
        Distro::Gentoo => "Gentoo Linux"@,
        Distro::Void => "Void Linux"@,
        Distro::Alpine => "Alpine Linux"@,
        Distro::Mint => "Linux Mint"@,
        Distro::PopOs => "Pop!_OS"@,
        Distro::ElementaryOs => "elementary OS"@,
        Distro::Kali => "Kali Linux"@,
        Distro::Parrot => "Parrot OS"@,
        Distro::Unknown(n) => n@,
    }
}

impl Distro {
    /// Dot-prefixed hidden shadow directory name.
    /// The leading dot makes the directory invisible to standard `ls`.
    pub fn shadow_dir_name(&self) -> (r: String)
        ensures
            r@ == shadow_dir_name_of(*self),
    {
        match self {
            Distro::Debian => String::from_str(".recoil-debian"),
            Distro::Ubuntu => String::from_str(".recoil-ubuntu"),
            Distro::Arch => String::from_str(".recoil-arch"),
            Distro::Manjaro => String::from_str(".recoil-manjaro"),
            Distro::Fedora => String::from_str(".recoil-fedora"),
            Distro::CentOs => String::from_str(".recoil-centos"),
            Distro::Rhel => String::from_str(".recoil-rhel"),
            Distro::AlmaLinux => String::from_str(".recoil-alma"),
            Distro::RockyLinux => String::from_str(".recoil-rocky"),
            Distro::OpenSuse => String::from_str(".recoil-opensuse"),
            Distro::Gentoo => String::from_str(".recoil-gentoo"),
            Distro::Void => String::from_str(".recoil-void"),
            Distro::Alpine => String::from_str(".recoil-alpine"),
            Distro::Mint => String::from_str(".recoil-mint"),
            Distro::PopOs => String::from_str(".recoil-pop"),
            Distro::ElementaryOs => String::from_str(".recoil-elementary"),
            Distro::Kali => String::from_str(".recoil-kali"),
            Distro::Parrot => String::from_str(".recoil-parrot"),
            Distro::Unknown(_) => String::from_str(".recoil-linux"),
        }
    }

    /// Absolute path of the shadow directory root, e.g. `/.recoil-debian`.
    pub fn shadow_path(&self) -> (r: String)
        ensures
            r@ == joined("/"@, shadow_dir_name_of(*self)),
    {
        let name = self.shadow_dir_name();
        join_path("/", name.as_str())
    }

    /// Human-readable display name for terminal output.
    pub fn display_name(&self) -> (r: String)
        ensures
            r@ == display_name_of(*self),
    {
        match self {
            Distro::Debian => String::from_str("Debian GNU/Linux"),
            Distro::Ubuntu => String::from_str("Ubuntu"),
            Distro::Arch => String::from_str("Arch Linux"),
            Distro::Manjaro => String::from_str("Manjaro Linux"),
            Distro::Fedora => String::from_str("Fedora Linux"),
            Distro::CentOs => String::from_str("CentOS Linux"),
            Distro::Rhel => String::from_str("Red Hat Enterprise Linux"),
            Distro::AlmaLinux => String::from_str("AlmaLinux"),
            Distro::RockyLinux => String::from_str("Rocky Linux"),
            Distro::OpenSuse => String::from_str("openSUSE"),
            Distro::Gentoo => String::from_str("Gentoo Linux"),
            Distro::Void => String::from_str("Void Linux"),
            Distro::Alpine => String::from_str("Alpine Linux"),
            Distro::Mint => String::from_str("Linux Mint"),
            Distro::PopOs => String::from_str("Pop!_OS"),
            Distro::ElementaryOs => String::from_str("elementary OS"),
            Distro::Kali => String::from_str("Kali Linux"),
            Distro::Parrot => String::from_str("Parrot OS"),
            Distro::Unknown(n) => n.clone(),
        }
    }
}


/// Every shadow directory is a dot-prefixed `.recoil-` directory directly
/// under `/`.
pub proof fn lemma_shadow_path_is_hidden_under_root(d: Distro)
    ensures
        has_prefix(shadow_dir_name_of(d), ".recoil-"@),
        has_prefix(joined("/"@, shadow_dir_name_of(d)), "/.recoil-"@),
{
    reveal_strlit(".recoil-");
    reveal_strlit("/.recoil-");
    reveal_strlit("/");
    let name = shadow_dir_name_of(d);
    match d {
        Distro::Debian => { reveal_strlit(".recoil-debian"); },
        Distro::Ubuntu => { reveal_strlit(".recoil-ubuntu"); },
        Distro::Arch => { reveal_strlit(".recoil-arch"); },
        Distro::Manjaro => { reveal_strlit(".recoil-manjaro"); },
        Distro::Fedora => { reveal_strlit(".recoil-fedora"); },
        Distro::CentOs => { reveal_strlit(".recoil-centos"); },
        Distro::Rhel => { reveal_strlit(".recoil-rhel"); },
        Distro::AlmaLinux => { reveal_strlit(".recoil-alma"); },
        Distro::RockyLinux => { reveal_strlit(".recoil-rocky"); },
        Distro::OpenSuse => { reveal_strlit(".recoil-opensuse"); },
        Distro::Gentoo => { reveal_strlit(".recoil-gentoo"); },
        Distro::Void => { reveal_strlit(".recoil-void"); },
        Distro::Alpine => { reveal_strlit(".recoil-alpine"); },
        Distro::Mint => { reveal_strlit(".recoil-mint"); },
        Distro::PopOs => { reveal_strlit(".recoil-pop"); },
        Distro::ElementaryOs => { reveal_strlit(".recoil-elementary"); },
        Distro::Kali => { reveal_strlit(".recoil-kali"); },
        Distro::Parrot => { reveal_strlit(".recoil-parrot"); },
        Distro::Unknown(_) => { reveal_strlit(".recoil-linux"); },
    }
    assert(name.subrange(0, 8) =~= ".recoil-"@);
    let p = joined("/"@, name);
    assert(p =~= "/"@ + name);
    assert(p.subrange(0, 9) =~= "/.recoil-"@);
}

/// Distinct distributions have distinct shadow directories; only the
/// generic fallback, whatever its pretty name, uses `.recoil-linux`.
pub proof fn lemma_shadow_dir_names_distinct(d1: Distro, d2: Distro)
    ensures
        shadow_dir_name_of(d1) == shadow_dir_name_of(d2) ==> d1 == d2 || (d1 is Unknown && d2 is Unknown),
        d1 is Unknown <==> shadow_dir_name_of(d1) == ".recoil-linux"@,
{
    reveal_strlit(".recoil-debian");
    reveal_strlit(".recoil-ubuntu");
    reveal_strlit(".recoil-arch");
    reveal_strlit(".recoil-manjaro");
    reveal_strlit(".recoil-fedora");
    reveal_strlit(".recoil-centos");
    reveal_strlit(".recoil-rhel");
    reveal_strlit(".recoil-alma");
    reveal_strlit(".recoil-rocky");
    reveal_strlit(".recoil-opensuse");
    reveal_strlit(".recoil-gentoo");
    reveal_strlit(".recoil-void");
    reveal_strlit(".recoil-alpine");
    reveal_strlit(".recoil-mint");
    reveal_strlit(".recoil-pop");
    reveal_strlit(".recoil-elementary");
    reveal_strlit(".recoil-kali");
    reveal_strlit(".recoil-parrot");
    reveal_strlit(".recoil-linux");
    let n1 = shadow_dir_name_of(d1);
    let n2 = shadow_dir_name_of(d2);
    if n1 == n2 {
        assert(n1.len() == n2.len());
        assert(n1[8] == n2[8]);
        assert(n1[9] == n2[9]);
        assert(n1[10] == n2[10]);
        assert(n1[n1.len() - 1] == n2[n2.len() - 1]);
    }
    let linux = ".recoil-linux"@;
    if n1 == linux {
        assert(n1.len() == linux.len());
        assert(n1[8] == linux[8]);
        assert(n1[9] == linux[9]);
        assert(n1[10] == linux[10]);
        assert(n1[n1.len() - 1] == linux[linux.len() - 1]);
    }
}

// ── /etc/os-release parser ───────────────────────────────────────────────────

/// The state of splitting `s` at every `sep`: the pieces already closed by a
/// separator, and the piece still open at the end.
pub open spec fn split_state(s: Seq<char>, sep: char) -> (Seq<Seq<char>>, Seq<char>)
    decreases s.len(),
{
    if s.len() == 0 {
        (seq![], seq![])
    } else {
        let (done, open) = split_state(s.drop_last(), sep);
        if s.last() == sep {
            (done.push(open), seq![])
        } else {
            (done, open.push(s.last()))
        }
    }
}

/// The lines of `s`: the pieces between `'\n'` characters. A trailing
/// `'\r'` or an empty last piece is harmless here, as every line is trimmed
/// and empty lines are skipped.
pub open spec fn lines_of(s: Seq<char>) -> Seq<Seq<char>> {
    split_state(s, '\n').0.push(split_state(s, '\n').1)
}

/// `j` is the index of the first `c` in `s`.
pub open spec fn is_first(s: Seq<char>, c: char, j: int) -> bool {
    &&& 0 <= j < s.len()
    &&& s[j] == c
    &&& forall|k: int| 0 <= k < j ==> s[k] != c
}

/// The key and value of one `KEY=value` line: the line is trimmed, blank
/// lines and `#` comments give nothing, the key is everything before the
/// first `=`, and the value is everything after it with surrounding double
/// quotes, then single quotes, removed.
pub open spec fn line_entry(line: Seq<char>) -> Option<(Seq<char>, Seq<char>)> {
    let t = strip(line, Strip::Space);
    if t.len() == 0 || t[0] == '#' {
        None
    } else if exists|j: int| is_first(t, '=', j) {
        let j = choose|j: int| is_first(t, '=', j);
        Some((t.take(j), strip(strip(t.skip(j + 1), Strip::Only('"')), Strip::Only('\''))))
    } else {
        None
    }
}

/// The value of `key` in `lines`: the last line that sets it wins.
pub open spec fn lookup(lines: Seq<Seq<char>>, key: Seq<char>) -> Option<Seq<char>>
    decreases lines.len(),
{
    if lines.len() == 0 {
        None
    } else {
        match line_entry(lines.last()) {
            Some(e) => if e.0 == key {
                Some(e.1)
            } else {
                lookup(lines.drop_last(), key)
            },
            None => lookup(lines.drop_last(), key),
        }
    }
}

/// The value that `src` gives `key`.
pub open spec fn release_value(src: Seq<char>, key: Seq<char>) -> Option<Seq<char>> {
    lookup(lines_of(src), key)
}

/// The state of splitting `s` into white-space separated words: the words
/// already ended by white space, and the word still open at the end.
pub open spec fn words_state(s: Seq<char>) -> (Seq<Seq<char>>, Seq<char>)
    decreases s.len(),
{
    if s.len() == 0 {
        (seq![], seq![])
    } else {
        let (done, open) = words_state(s.drop_last());
        if is_space(s.last()) {
            if open.len() > 0 {
                (done.push(open), seq![])
            } else {
                (done, seq![])
            }
        } else {
            (done, open.push(s.last()))
        }
    }
}

/// The white-space separated words of `s` (`str::split_whitespace`).
pub open spec fn words(s: Seq<char>) -> Seq<Seq<char>> {
    let (done, open) = words_state(s);
    if open.len() > 0 {
        done.push(open)
    } else {
        done
    }
}

/// What `str::to_lowercase` returns for a text.
pub uninterp spec fn lowercase(s: Seq<char>) -> Seq<char>;

/// Calls `str::to_lowercase`; the result is `lowercase` of the argument.
#[verifier::external_body]
fn to_lowercase(s: &str) -> (r: String)
    ensures
        r@ == lowercase(s@),
{
    s.to_lowercase()
}

/// The texts held by a sequence of strings.
pub open spec fn texts(v: Seq<String>) -> Seq<Seq<char>> {
    v.map_values(|s: String| s@)
}

/// The texts of `ws`, each lower-cased.
pub open spec fn lowercase_all(ws: Seq<Seq<char>>) -> Seq<Seq<char>> {
    ws.map_values(|w: Seq<char>| lowercase(w))
}

pub open spec fn opt_text(o: Option<Vec<char>>) -> Option<Seq<char>> {
    match o {
        Some(v) => Some(v@),
        None => None,
    }
}

/// The identifying fields of an `os-release` file.
pub struct OsRelease {
    pub id: String,
    pub id_like: Vec<String>,
    pub pretty_name: String,
}

/// `ID`, lower-cased; empty when absent.
pub open spec fn release_id(src: Seq<char>) -> Seq<char> {
    lowercase(release_value(src, "ID"@).unwrap_or(seq![]))
}

/// The words of `ID_LIKE`, each lower-cased; none when absent.
pub open spec fn release_id_like(src: Seq<char>) -> Seq<Seq<char>> {
    match release_value(src, "ID_LIKE"@) {
        Some(v) => lowercase_all(words(v)),
        None => seq![],
    }
}

/// `PRETTY_NAME`; `Linux` when absent.
pub open spec fn release_pretty_name(src: Seq<char>) -> Seq<char> {
    release_value(src, "PRETTY_NAME"@).unwrap_or("Linux"@)
}

proof fn lemma_first_unique(s: Seq<char>, c: char, j1: int, j2: int)
    requires
        is_first(s, c, j1),
        is_first(s, c, j2),
    ensures
        j1 == j2,
{
    if j1 < j2 {
        assert(s[j1] != c);
    } else if j2 < j1 {
        assert(s[j2] != c);
    }
}

/// The entry of one line, as `line_entry` describes it.
fn entry_of_line(line: &[char]) -> (r: Option<(Vec<char>, Vec<char>)>)
    ensures
        match r {
            Some(e) => line_entry(line@) == Some((e.0@, e.1@)),
            None => line_entry(line@) is None,
        },
{
    let t = strip_chars(line, Strip::Space);
    if t.len() == 0 || t[0] == '#' {
        return None;
    }
    let n = t.len();
    let mut j: usize = 0;
    while j < n && t[j] != '='
        invariant
            j <= n,
            n == t@.len(),
            forall|k: int| 0 <= k < j ==> t@[k] != '=',
        decreases n - j,
    {
        j = j + 1;
    }
    if j == n {
        assert(!exists|k: int| is_first(t@, '=', k));
        return None;
    }
    assert(is_first(t@, '=', j as int));
    proof {
        let c = choose|k: int| is_first(t@, '=', k);
        lemma_first_unique(t@, '=', c, j as int);
    }
    let key = copy_range(&t, 0, j);
    let rest = copy_range(&t, j + 1, n);
    let unquoted = strip_chars(&rest, Strip::Only('"'));
    let value = strip_chars(&unquoted, Strip::Only('\''));
    assert(key@ =~= t@.take(j as int));
    assert(rest@ =~= t@.skip(j + 1));
    Some((key, value))
}

/// Takes one line into the three looked-up values.
fn take_line(
    line: &[char],
    id: &mut Option<Vec<char>>,
    like: &mut Option<Vec<char>>,
    pretty: &mut Option<Vec<char>>,
)
    ensures
        opt_text(*final(id)) == (match line_entry(line@) {
            Some(e) => if e.0 == "ID"@ { Some(e.1) } else { opt_text(*old(id)) },
            None => opt_text(*old(id)),
        }),
        opt_text(*final(like)) == (match line_entry(line@) {
            Some(e) => if e.0 == "ID_LIKE"@ { Some(e.1) } else { opt_text(*old(like)) },
            None => opt_text(*old(like)),
        }),
        opt_text(*final(pretty)) == (match line_entry(line@) {
            Some(e) => if e.0 == "PRETTY_NAME"@ { Some(e.1) } else { opt_text(*old(pretty)) },
            None => opt_text(*old(pretty)),
        }),
{
    proof {
        reveal_strlit("ID");
        reveal_strlit("ID_LIKE");
        reveal_strlit("PRETTY_NAME");
        assert("ID"@.len() == 2);
        assert("ID_LIKE"@.len() == 7);
        assert("PRETTY_NAME"@.len() == 11);
    }
    match entry_of_line(line) {
        Some((key, value)) => {
            let k = string_from_chars(&key);
            if same_text(k.as_str(), "ID") {
                *id = Some(value);
            } else if same_text(k.as_str(), "ID_LIKE") {
                *like = Some(value);
            } else if same_text(k.as_str(), "PRETTY_NAME") {
                *pretty = Some(value);
            }
        },
        None => {},
    }
}

/// Lower-cases each white-space separated word of `v`.
fn lowercase_words(v: &[char]) -> (r: Vec<String>)
    ensures
        texts(r@) == lowercase_all(words(v@)),
{
    let n = v.len();
    let mut out: Vec<String> = Vec::new();
    let mut start: usize = 0;
    let mut i: usize = 0;
    let ghost mut done: Seq<Seq<char>> = seq![];
    assert(v@.take(0) =~= seq![]);
    while i < n
        invariant
            start <= i <= n,
            n == v@.len(),
            words_state(v@.take(i as int)) == (done, v@.subrange(start as int, i as int)),
            texts(out@) == lowercase_all(done),
        decreases n - i,
    {
        assert(v@.take(i + 1).drop_last() =~= v@.take(i as int));
        if char_is_space(v[i]) {
            if i > start {
                let w = copy_range(v, start, i);
                let ws = string_from_chars(&w);
                let lw = to_lowercase(ws.as_str());
                let ghost before = out@;
                out.push(lw);
                proof {
                    assert(texts(out@) =~= texts(before).push(lw@)) by {
                        assert(out@ =~= before.push(lw));
                    }
                    assert(lowercase_all(done.push(w@)) =~= lowercase_all(done).push(lowercase(w@)));
                    done = done.push(w@);
                }
            }
            start = i + 1;
            assert(v@.subrange(start as int, i + 1) =~= seq![]);
        } else {
            assert(v@.subrange(start as int, i + 1) =~= v@.subrange(start as int, i as int).push(v@[i as int]));
        }
        i = i + 1;
    }
    assert(v@.take(n as int) =~= v@);
    if n > start {
        let w = copy_range(v, start, n);
        let ws = string_from_chars(&w);
        let lw = to_lowercase(ws.as_str());
        let ghost before = out@;
        out.push(lw);
        assert(out@ =~= before.push(lw));
        assert(texts(out@) =~= texts(before).push(lw@));
        assert(lowercase_all(done.push(w@)) =~= lowercase_all(done).push(lowercase(w@)));
    }
    out
}

impl OsRelease {
    /// Parses the text of an `os-release` file.
    pub fn parse(src: &str) -> (rel: OsRelease)
        ensures
            rel.id@ == release_id(src@),
            texts(rel.id_like@) == release_id_like(src@),
            rel.pretty_name@ == release_pretty_name(src@),
    {
        let v = chars_of(src);
        let n = v.len();
        let mut id: Option<Vec<char>> = None;
        let mut like: Option<Vec<char>> = None;
        let mut pretty: Option<Vec<char>> = None;
        let mut start: usize = 0;
        let mut i: usize = 0;
        let ghost mut done: Seq<Seq<char>> = seq![];
        assert(v@.take(0) =~= seq![]);
        while i < n
            invariant
                start <= i <= n,
                n == v@.len(),
                split_state(v@.take(i as int), '\n') == (done, v@.subrange(start as int, i as int)),
                opt_text(id) == lookup(done, "ID"@),
                opt_text(like) == lookup(done, "ID_LIKE"@),
                opt_text(pretty) == lookup(done, "PRETTY_NAME"@),
            decreases n - i,
        {
            assert(v@.take(i + 1).drop_last() =~= v@.take(i as int));
            if v[i] == '\n' {
                let line = copy_range(&v, start, i);
                take_line(&line, &mut id, &mut like, &mut pretty);
                proof {
                    assert(done.push(line@).drop_last() =~= done);
                    done = done.push(line@);
                }
                start = i + 1;
                assert(v@.subrange(start as int, i + 1) =~= seq![]);
            } else {
                assert(v@.subrange(start as int, i + 1) =~= v@.subrange(start as int, i as int).push(
                    v@[i as int],
                ));
            }
            i = i + 1;
        }
        assert(v@.take(n as int) =~= v@);
        let line = copy_range(&v, start, n);
        take_line(&line, &mut id, &mut like, &mut pretty);
        assert(done.push(line@).drop_last() =~= done);
        assert(lines_of(v@) == done.push(line@));
        let id_text = match id {
            Some(x) => string_from_chars(&x),
            None => String::new(),
        };
        let id_lower = to_lowercase(id_text.as_str());
        let id_like = match like {
            Some(x) => lowercase_words(&x),
            None => Vec::new(),
        };
        assert(like is None ==> texts(id_like@) =~= seq![]);
        let pretty_name = match pretty {
            Some(x) => string_from_chars(&x),
            None => String::from_str("Linux"),
        };
        OsRelease { id: id_lower, id_like, pretty_name }
    }

    /// `candidate` is the `ID` or one of the `ID_LIKE` words.
    pub fn matches_id(&self, candidate: &str) -> (r: bool)
        ensures
            r == names_id(self.id@, texts(self.id_like@), candidate@),
    {
        if same_text(self.id.as_str(), candidate) {
            return true;
        }
        let mut i: usize = 0;
        while i < self.id_like.len()
            invariant
                i <= self.id_like@.len(),
                forall|k: int| 0 <= k < i ==> texts(self.id_like@)[k] != candidate@,
            decreases self.id_like@.len() - i,
        {
            if same_text(self.id_like[i].as_str(), candidate) {
                assert(texts(self.id_like@)[i as int] == candidate@);
                return true;
            }
            i = i + 1;
        }
        false
    }
}

/// `c` is the `ID` or one of the `ID_LIKE` words.
pub open spec fn names_id(id: Seq<char>, id_like: Seq<Seq<char>>, c: Seq<char>) -> bool {
    id == c || exists|k: int| 0 <= k < id_like.len() && id_like[k] == c
}


/// The distribution named by an `ID` value itself.
pub open spec fn distro_of_id(id: Seq<char>) -> Option<Distro> {
    if id == "debian"@ { Some(Distro::Debian) }
    else if id == "ubuntu"@ { Some(Distro::Ubuntu) }
    else if id == "linuxmint"@ { Some(Distro::Mint) }
    else if id == "pop"@ { Some(Distro::PopOs) }
    else if id == "elementary"@ { Some(Distro::ElementaryOs) }
    else if id == "kali"@ { Some(Distro::Kali) }
    else if id == "parrot"@ { Some(Distro::Parrot) }
    else if id == "arch"@ { Some(Distro::Arch) }
    else if id == "manjaro"@ { Some(Distro::Manjaro) }
    else if id == "fedora"@ { Some(Distro::Fedora) }
    else if id == "centos"@ { Some(Distro::CentOs) }
    else if id == "rhel"@ { Some(Distro::Rhel) }
    else if id == "almalinux"@ { Some(Distro::AlmaLinux) }
    else if id == "rocky"@ { Some(Distro::RockyLinux) }
    else if id == "gentoo"@ { Some(Distro::Gentoo) }
    else if id == "void"@ { Some(Distro::Void) }
    else if id == "alpine"@ { Some(Distro::Alpine) }
    else if has_prefix(id, "opensuse"@) { Some(Distro::OpenSuse) }
    else { None }
}

/// `d` is the distribution that the release fields `id`, `id_like` and
/// `pretty` describe: a known `ID` decides; otherwise the `ID_LIKE` fallback
/// chain (debian, ubuntu, arch, fedora or rhel) applies; otherwise the
/// generic fallback carries the pretty name.
pub open spec fn describes(id: Seq<char>, id_like: Seq<Seq<char>>, pretty: Seq<char>, d: Distro) -> bool {
    match distro_of_id(id) {
        Some(k) => d == k,
        None => if names_id(id, id_like, "debian"@) {
            d == Distro::Debian
        } else if names_id(id, id_like, "ubuntu"@) {
            d == Distro::Ubuntu
        } else if names_id(id, id_like, "arch"@) {
            d == Distro::Arch
        } else if names_id(id, id_like, "fedora"@) || names_id(id, id_like, "rhel"@) {
            d == Distro::Fedora
        } else {
            d matches Distro::Unknown(n) && n@ == pretty
        },
    }
}

/// An `ID` naming a supported distribution decides it, whatever `ID_LIKE`
/// says, and so its shadow directory, as the supported-distributions table
/// gives them; an `ID` beginning with `opensuse` is openSUSE.
pub proof fn lemma_known_ids_decide(id: Seq<char>, id_like: Seq<Seq<char>>, pretty: Seq<char>, d: Distro)
    requires
        describes(id, id_like, pretty, d),
    ensures
        id == "debian"@ ==> d == Distro::Debian && shadow_dir_name_of(d) == ".recoil-debian"@,
        id == "ubuntu"@ ==> d == Distro::Ubuntu && shadow_dir_name_of(d) == ".recoil-ubuntu"@,
        id == "linuxmint"@ ==> d == Distro::Mint && shadow_dir_name_of(d) == ".recoil-mint"@,
        id == "pop"@ ==> d == Distro::PopOs && shadow_dir_name_of(d) == ".recoil-pop"@,
        id == "elementary"@ ==> d == Distro::ElementaryOs && shadow_dir_name_of(d) == ".recoil-elementary"@,
        id == "kali"@ ==> d == Distro::Kali && shadow_dir_name_of(d) == ".recoil-kali"@,
        id == "parrot"@ ==> d == Distro::Parrot && shadow_dir_name_of(d) == ".recoil-parrot"@,
        id == "arch"@ ==> d == Distro::Arch && shadow_dir_name_of(d) == ".recoil-arch"@,
        id == "manjaro"@ ==> d == Distro::Manjaro && shadow_dir_name_of(d) == ".recoil-manjaro"@,
        id == "fedora"@ ==> d == Distro::Fedora && shadow_dir_name_of(d) == ".recoil-fedora"@,
        id == "centos"@ ==> d == Distro::CentOs && shadow_dir_name_of(d) == ".recoil-centos"@,
        id == "rhel"@ ==> d == Distro::Rhel && shadow_dir_name_of(d) == ".recoil-rhel"@,
        id == "almalinux"@ ==> d == Distro::AlmaLinux && shadow_dir_name_of(d) == ".recoil-alma"@,
        id == "rocky"@ ==> d == Distro::RockyLinux && shadow_dir_name_of(d) == ".recoil-rocky"@,
        id == "gentoo"@ ==> d == Distro::Gentoo && shadow_dir_name_of(d) == ".recoil-gentoo"@,
        id == "void"@ ==> d == Distro::Void && shadow_dir_name_of(d) == ".recoil-void"@,
        id == "alpine"@ ==> d == Distro::Alpine && shadow_dir_name_of(d) == ".recoil-alpine"@,
        has_prefix(id, "opensuse"@) ==> d == Distro::OpenSuse && shadow_dir_name_of(d) == ".recoil-opensuse"@,
{
    reveal_strlit("debian");
    reveal_strlit("ubuntu");
    reveal_strlit("linuxmint");
    reveal_strlit("pop");
    reveal_strlit("elementary");
    reveal_strlit("kali");
    reveal_strlit("parrot");
    reveal_strlit("arch");
    reveal_strlit("manjaro");
    reveal_strlit("fedora");
    reveal_strlit("centos");
    reveal_strlit("rhel");
    reveal_strlit("almalinux");
    reveal_strlit("rocky");
    reveal_strlit("gentoo");
    reveal_strlit("void");
    reveal_strlit("alpine");
    reveal_strlit("opensuse");
    if id == "ubuntu"@ {
        assert("ubuntu"@[0] != "debian"@[0]);
    }
    if id == "linuxmint"@ {
        assert("linuxmint"@.len() != "debian"@.len());
        assert("linuxmint"@.len() != "ubuntu"@.len());
    }
    if id == "pop"@ {
        assert("pop"@.len() != "debian"@.len());
        assert("pop"@.len() != "ubuntu"@.len());
        assert("pop"@.len() != "linuxmint"@.len());
    }
    if id == "elementary"@ {
        assert("elementary"@.len() != "debian"@.len());
        assert("elementary"@.len() != "ubuntu"@.len());
        assert("elementary"@.len() != "linuxmint"@.len());
        assert("elementary"@.len() != "pop"@.len());
    }
    if id == "kali"@ {
        assert("kali"@.len() != "debian"@.len());
        assert("kali"@.len() != "ubuntu"@.len());
        assert("kali"@.len() != "linuxmint"@.len());
        assert("kali"@.len() != "pop"@.len());
        assert("kali"@.len() != "elementary"@.len());
    }
    if id == "parrot"@ {
        assert("parrot"@[0] != "debian"@[0]);
        assert("parrot"@[0] != "ubuntu"@[0]);
        assert("parrot"@.len() != "linuxmint"@.len());
        assert("parrot"@.len() != "pop"@.len());
        assert("parrot"@.len() != "elementary"@.len());
        assert("parrot"@.len() != "kali"@.len());
    }
    if id == "arch"@ {
        assert("arch"@.len() != "debian"@.len());
        assert("arch"@.len() != "ubuntu"@.len());
        assert("arch"@.len() != "linuxmint"@.len());
        assert("arch"@.len() != "pop"@.len());
        assert("arch"@.len() != "elementary"@.len());
        assert("arch"@[0] != "kali"@[0]);
        assert("arch"@.len() != "parrot"@.len());
    }
    if id == "manjaro"@ {
        assert("manjaro"@.len() != "debian"@.len());
        assert("manjaro"@.len() != "ubuntu"@.len());
        assert("manjaro"@.len() != "linuxmint"@.len());
        assert("manjaro"@.len() != "pop"@.len());
        assert("manjaro"@.len() != "elementary"@.len());
        assert("manjaro"@.len() != "kali"@.len());
        assert("manjaro"@.len() != "parrot"@.len());
        assert("manjaro"@.len() != "arch"@.len());
    }
    if id == "fedora"@ {
        assert("fedora"@[0] != "debian"@[0]);
        assert("fedora"@[0] != "ubuntu"@[0]);
        assert("fedora"@.len() != "linuxmint"@.len());
        assert("fedora"@.len() != "pop"@.len());
        assert("fedora"@.len() != "elementary"@.len());
        assert("fedora"@.len() != "kali"@.len());
        assert("fedora"@[0] != "parrot"@[0]);
        assert("fedora"@.len() != "arch"@.len());
        assert("fedora"@.len() != "manjaro"@.len());
    }
    if id == "centos"@ {
        assert("centos"@[0] != "debian"@[0]);
        assert("centos"@[0] != "ubuntu"@[0]);
        assert("centos"@.len() != "linuxmint"@.len());
        assert("centos"@.len() != "pop"@.len());
        assert("centos"@.len() != "elementary"@.len());
        assert("centos"@.len() != "kali"@.len());
        assert("centos"@[0] != "parrot"@[0]);
        assert("centos"@.len() != "arch"@.len());
        assert("centos"@.len() != "manjaro"@.len());
        assert("centos"@[0] != "fedora"@[0]);
    }
    if id == "rhel"@ {
        assert("rhel"@.len() != "debian"@.len());
        assert("rhel"@.len() != "ubuntu"@.len());
        assert("rhel"@.len() != "linuxmint"@.len());
        assert("rhel"@.len() != "pop"@.len());
        assert("rhel"@.len() != "elementary"@.len());
        assert("rhel"@[0] != "kali"@[0]);
        assert("rhel"@.len() != "parrot"@.len());
        assert("rhel"@[0] != "arch"@[0]);
        assert("rhel"@.len() != "manjaro"@.len());
        assert("rhel"@.len() != "fedora"@.len());
        assert("rhel"@.len() != "centos"@.len());
    }
    if id == "almalinux"@ {
        assert("almalinux"@.len() != "debian"@.len());
        assert("almalinux"@.len() != "ubuntu"@.len());
        assert("almalinux"@[0] != "linuxmint"@[0]);
        assert("almalinux"@.len() != "pop"@.len());
        assert("almalinux"@.len() != "elementary"@.len());
        assert("almalinux"@.len() != "kali"@.len());
        assert("almalinux"@.len() != "parrot"@.len());
        assert("almalinux"@.len() != "arch"@.len());
        assert("almalinux"@.len() != "manjaro"@.len());
        assert("almalinux"@.len() != "fedora"@.len());
        assert("almalinux"@.len() != "centos"@.len());
        assert("almalinux"@.len() != "rhel"@.len());
    }
    if id == "rocky"@ {
        assert("rocky"@.len() != "debian"@.len());
        assert("rocky"@.len() != "ubuntu"@.len());
        assert("rocky"@.len() != "linuxmint"@.len());
        assert("rocky"@.len() != "pop"@.len());
        assert("rocky"@.len() != "elementary"@.len());
        assert("rocky"@.len() != "kali"@.len());
        assert("rocky"@.len() != "parrot"@.len());
        assert("rocky"@.len() != "arch"@.len());
        assert("rocky"@.len() != "manjaro"@.len());
        assert("rocky"@.len() != "fedora"@.len());
        assert("rocky"@.len() != "centos"@.len());
        assert("rocky"@.len() != "rhel"@.len());
        assert("rocky"@.len() != "almalinux"@.len());
    }
    if id == "gentoo"@ {
        assert("gentoo"@[0] != "debian"@[0]);
        assert("gentoo"@[0] != "ubuntu"@[0]);
        assert("gentoo"@.len() != "linuxmint"@.len());
        assert("gentoo"@.len() != "pop"@.len());
        assert("gentoo"@.len() != "elementary"@.len());
        assert("gentoo"@.len() != "kali"@.len());
        assert("gentoo"@[0] != "parrot"@[0]);
        assert("gentoo"@.len() != "arch"@.len());
        assert("gentoo"@.len() != "manjaro"@.len());
        assert("gentoo"@[0] != "fedora"@[0]);
        assert("gentoo"@[0] != "centos"@[0]);
        assert("gentoo"@.len() != "rhel"@.len());
        assert("gentoo"@.len() != "almalinux"@.len());
        assert("gentoo"@.len() != "rocky"@.len());
    }
    if id == "void"@ {
        assert("void"@.len() != "debian"@.len());
        assert("void"@.len() != "ubuntu"@.len());
        assert("void"@.len() != "linuxmint"@.len());
        assert("void"@.len() != "pop"@.len());
        assert("void"@.len() != "elementary"@.len());
        assert("void"@[0] != "kali"@[0]);
        assert("void"@.len() != "parrot"@.len());
        assert("void"@[0] != "arch"@[0]);
        assert("void"@.len() != "manjaro"@.len());
        assert("void"@.len() != "fedora"@.len());
        assert("void"@.len() != "centos"@.len());
        assert("void"@[0] != "rhel"@[0]);
        assert("void"@.len() != "almalinux"@.len());
        assert("void"@.len() != "rocky"@.len());
        assert("void"@.len() != "gentoo"@.len());
    }
    if id == "alpine"@ {
        assert("alpine"@[0] != "debian"@[0]);
        assert("alpine"@[0] != "ubuntu"@[0]);
        assert("alpine"@.len() != "linuxmint"@.len());
        assert("alpine"@.len() != "pop"@.len());
        assert("alpine"@.len() != "elementary"@.len());
        assert("alpine"@.len() != "kali"@.len());
        assert("alpine"@[0] != "parrot"@[0]);
        assert("alpine"@.len() != "arch"@.len());
        assert("alpine"@.len() != "manjaro"@.len());
        assert("alpine"@[0] != "fedora"@[0]);
        assert("alpine"@[0] != "centos"@[0]);
        assert("alpine"@.len() != "rhel"@.len());
        assert("alpine"@.len() != "almalinux"@.len());
        assert("alpine"@.len() != "rocky"@.len());
        assert("alpine"@[0] != "gentoo"@[0]);
        assert("alpine"@.len() != "void"@.len());
    }
    if has_prefix(id, "opensuse"@) {
        assert(id.subrange(0, 8) == "opensuse"@);
        assert(id.len() >= 8 && "debian"@.len() < 8);
        assert(id.len() >= 8 && "ubuntu"@.len() < 8);
        assert(id[0] == "opensuse"@[0] && "opensuse"@[0] != "linuxmint"@[0]);
        assert(id.len() >= 8 && "pop"@.len() < 8);
        assert(id[0] == "opensuse"@[0] && "opensuse"@[0] != "elementary"@[0]);
        assert(id.len() >= 8 && "kali"@.len() < 8);
        assert(id.len() >= 8 && "parrot"@.len() < 8);
        assert(id.len() >= 8 && "arch"@.len() < 8);
        assert(id.len() >= 8 && "manjaro"@.len() < 8);
        assert(id.len() >= 8 && "fedora"@.len() < 8);
        assert(id.len() >= 8 && "centos"@.len() < 8);
        assert(id.len() >= 8 && "rhel"@.len() < 8);
        assert(id[0] == "opensuse"@[0] && "opensuse"@[0] != "almalinux"@[0]);
        assert(id.len() >= 8 && "rocky"@.len() < 8);
        assert(id.len() >= 8 && "gentoo"@.len() < 8);
        assert(id.len() >= 8 && "void"@.len() < 8);
        assert(id.len() >= 8 && "alpine"@.len() < 8);
    }
}

/// For an `ID` that names no supported distribution, `ID_LIKE` decides in
/// the order debian, ubuntu, arch, then fedora or rhel (the ID itself also
/// counts); with no match the generic fallback carries the pretty name and
/// uses `.recoil-linux`.
pub proof fn lemma_id_like_fallback(id: Seq<char>, id_like: Seq<Seq<char>>, pretty: Seq<char>, d: Distro)
    requires
        describes(id, id_like, pretty, d),
        distro_of_id(id) is None,
    ensures
        (exists|k: int| 0 <= k < id_like.len() && id_like[k] == "debian"@) ==> d == Distro::Debian,
        (exists|k: int| 0 <= k < id_like.len() && id_like[k] == "ubuntu"@) && !(exists|k: int|
            0 <= k < id_like.len() && id_like[k] == "debian"@) ==> d == Distro::Ubuntu,
        d is Unknown ==> forall|k: int|
            0 <= k < id_like.len() ==> id_like[k] != "debian"@ && id_like[k] != "ubuntu"@ && id_like[k]
                != "arch"@ && id_like[k] != "fedora"@ && id_like[k] != "rhel"@,
        d matches Distro::Unknown(n) ==> n@ == pretty && shadow_dir_name_of(d) == ".recoil-linux"@,
{
}

/// The distribution that a parsed `os-release` describes.
pub fn map_to_distro(rel: &OsRelease) -> (d: Distro)
    ensures
        describes(rel.id@, texts(rel.id_like@), rel.pretty_name@, d),
{
    let id = rel.id.as_str();
    if same_text(id, "debian") { Distro::Debian }
    else if same_text(id, "ubuntu") { Distro::Ubuntu }
    else if same_text(id, "linuxmint") { Distro::Mint }
    else if same_text(id, "pop") { Distro::PopOs }
    else if same_text(id, "elementary") { Distro::ElementaryOs }
    else if same_text(id, "kali") { Distro::Kali }
    else if same_text(id, "parrot") { Distro::Parrot }
    else if same_text(id, "arch") { Distro::Arch }
    else if same_text(id, "manjaro") { Distro::Manjaro }
    else if same_text(id, "fedora") { Distro::Fedora }
    else if same_text(id, "centos") { Distro::CentOs }
    else if same_text(id, "rhel") { Distro::Rhel }
    else if same_text(id, "almalinux") { Distro::AlmaLinux }
    else if same_text(id, "rocky") { Distro::RockyLinux }
    else if same_text(id, "gentoo") { Distro::Gentoo }
    else if same_text(id, "void") { Distro::Void }
    else if same_text(id, "alpine") { Distro::Alpine }
    else if text_starts_with(id, "opensuse") { Distro::OpenSuse }
    else if rel.matches_id("debian") { Distro::Debian }
    else if rel.matches_id("ubuntu") { Distro::Ubuntu }
    else if rel.matches_id("arch") { Distro::Arch }
    else if rel.matches_id("fedora") || rel.matches_id("rhel") { Distro::Fedora }
    else { Distro::Unknown(rel.pretty_name.clone()) }
}

/// The distribution that the text of an `os-release` file describes
/// (the computation behind detecting the running distribution).
pub fn distro_from_os_release(src: &str) -> (d: Distro)
    ensures
        describes(release_id(src@), release_id_like(src@), release_pretty_name(src@), d),
{
    map_to_distro(&OsRelease::parse(src))
}

} // verus!
