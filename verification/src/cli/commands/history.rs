//! `recoil history`: the system chronology, filtered and limited.
//!
//! Until the chronology database exists, the history is a fixed demo set.

use vstd::prelude::*;

use crate::utils::text::{
    decimal, has_infix, has_prefix, push_decimal, push_text, string_from_chars, text_contains,
    text_starts_with, same_text,
};

verus! {

/// The arguments of `recoil history`.
#[derive(Debug, Clone)]
pub struct HistoryArgs {
    /// Show last N entries (default: 30).
    pub limit: Option<u32>,
    /// Full-text search across command and type.
    pub search: Option<String>,
    /// Filter by date: YYYY-MM-DD.
    pub date: Option<String>,
    /// Filter by month: YYYY-MM.
    pub month: Option<String>,
    /// Filter by event type.
    pub event_type: Option<String>,
    /// Show only recovered items.
    pub recovered: bool,
    /// Show only items currently in the vault.
    pub in_recoil: bool,
    /// Show aggregate statistics.
    pub stats: bool,
    /// Export history: csv / xlsx / json / txt.
    pub export: Option<String>,
    /// Show all entries without limit.
    pub all: bool,
}

/// One row of the chronology.
#[derive(Debug, Clone, Copy)]
pub struct HistoryEntry {
    pub id: u32,
    pub dt: &'static str,
    pub etype: &'static str,
    pub cmd: &'static str,
    pub tag: &'static str,
}

/// The number of events the chronology reports in total.
pub const TOTAL_ENTRIES: u32 = 1847;

/// Default number of rows shown.
pub const DEFAULT_LIMIT: u32 = 30;

pub open spec fn demo_history() -> Seq<HistoryEntry> {
    seq![
        HistoryEntry { id: 1847, dt: "2026-05-16 04:12:45", etype: "delete", cmd: "rm -rf ./temp-build", tag: "→ Protected" },
        HistoryEntry { id: 1846, dt: "2026-05-16 03:58:22", etype: "git", cmd: "git clone https://github.com/user/zainium-kernel.git", tag: "" },
        HistoryEntry { id: 1845, dt: "2026-05-16 03:45:10", etype: "build", cmd: "cargo build --release", tag: "" },
        HistoryEntry { id: 1844, dt: "2026-05-16 03:30:55", etype: "download", cmd: "wget https://example.com/dataset.zip", tag: "" },
        HistoryEntry { id: 1843, dt: "2026-05-16 02:15:40", etype: "delete", cmd: "rm -rf ~/old-project", tag: "→ Recovered" },
        HistoryEntry { id: 1842, dt: "2026-05-16 01:50:18", etype: "package", cmd: "sudo pacman -S linux-headers", tag: "" },
        HistoryEntry { id: 1841, dt: "2026-05-15 23:45:12", etype: "delete", cmd: "rm -rf ./build-cache", tag: "→ Recovered" },
        HistoryEntry { id: 1840, dt: "2026-05-15 22:30:55", etype: "download", cmd: "curl -L -O https://releases.ubuntu.com/iso.tar.gz", tag: "" },
    ]
}

/// The chronology shown until the database exists, newest first.
pub fn demo_entries() -> (v: Vec<HistoryEntry>)
    ensures
        v@ == demo_history(),
{
    let mut v: Vec<HistoryEntry> = Vec::new();
    v.push(HistoryEntry { id: 1847, dt: "2026-05-16 04:12:45", etype: "delete", cmd: "rm -rf ./temp-build", tag: "→ Protected" });
    v.push(HistoryEntry { id: 1846, dt: "2026-05-16 03:58:22", etype: "git", cmd: "git clone https://github.com/user/zainium-kernel.git", tag: "" });
    v.push(HistoryEntry { id: 1845, dt: "2026-05-16 03:45:10", etype: "build", cmd: "cargo build --release", tag: "" });
    v.push(HistoryEntry { id: 1844, dt: "2026-05-16 03:30:55", etype: "download", cmd: "wget https://example.com/dataset.zip", tag: "" });
    v.push(HistoryEntry { id: 1843, dt: "2026-05-16 02:15:40", etype: "delete", cmd: "rm -rf ~/old-project", tag: "→ Recovered" });
    v.push(HistoryEntry { id: 1842, dt: "2026-05-16 01:50:18", etype: "package", cmd: "sudo pacman -S linux-headers", tag: "" });
    v.push(HistoryEntry { id: 1841, dt: "2026-05-15 23:45:12", etype: "delete", cmd: "rm -rf ./build-cache", tag: "→ Recovered" });
    v.push(HistoryEntry { id: 1840, dt: "2026-05-15 22:30:55", etype: "download", cmd: "curl -L -O https://releases.ubuntu.com/iso.tar.gz", tag: "" });
    assert(v@ =~= demo_history());
    v
}

/// The filters of `args` keep `e`: `--recovered` keeps recovered items,
/// `--in-recoil` items in the vault, `--type` that event type, `--search`
/// entries whose command or type contains the text, `--date` entries of
/// that day and `--month` entries of that month (by prefix of the
/// timestamp).
pub open spec fn keeps(args: HistoryArgs, e: HistoryEntry) -> bool {
    &&& args.recovered ==> has_infix(e.tag@, "Recovered"@)
    &&& args.in_recoil ==> has_infix(e.tag@, "In Recoil"@)
    &&& (args.event_type matches Some(t) ==> e.etype@ == t@)
    &&& (args.search matches Some(s) ==> has_infix(e.cmd@, s@) || has_infix(e.etype@, s@))
    &&& (args.date matches Some(d) ==> has_prefix(e.dt@, d@))
    &&& (args.month matches Some(m) ==> has_prefix(e.dt@, m@))
}

/// The entries of `es` that `args` keeps, in order.
pub open spec fn kept(args: HistoryArgs, es: Seq<HistoryEntry>) -> Seq<HistoryEntry>
    decreases es.len(),
{
    if es.len() == 0 {
        seq![]
    } else if keeps(args, es.last()) {
        kept(args, es.drop_last()).push(es.last())
    } else {
        kept(args, es.drop_last())
    }
}

/// How many rows are shown: all with `--all`, else the `--limit`, else 30.
pub open spec fn row_limit(args: HistoryArgs) -> nat {
    if args.all {
        usize::MAX as nat
    } else {
        match args.limit {
            Some(l) => l as nat,
            None => DEFAULT_LIMIT as nat,
        }
    }
}

/// The first `n` of `s`, or all of `s` when it is shorter.
pub open spec fn at_most(s: Seq<HistoryEntry>, n: nat) -> Seq<HistoryEntry> {
    if n < s.len() {
        s.take(n as int)
    } else {
        s
    }
}

/// Decides `keeps`.
pub fn entry_kept(args: &HistoryArgs, e: &HistoryEntry) -> (r: bool)
    ensures
        r == keeps(*args, *e),
{
    if args.recovered && !text_contains(e.tag, "Recovered") {
        return false;
    }
    if args.in_recoil && !text_contains(e.tag, "In Recoil") {
        return false;
    }
    match &args.event_type {
        Some(t) => {
            if !same_text(e.etype, t.as_str()) {
                return false;
            }
        },
        None => {},
    }
    match &args.search {
        Some(s) => {
            if !text_contains(e.cmd, s.as_str()) && !text_contains(e.etype, s.as_str()) {
                return false;
            }
        },
        None => {},
    }
    match &args.date {
        Some(d) => {
            if !text_starts_with(e.dt, d.as_str()) {
                return false;
            }
        },
        None => {},
    }
    match &args.month {
        Some(m) => {
            if !text_starts_with(e.dt, m.as_str()) {
                return false;
            }
        },
        None => {},
    }
    true
}

/// The rows `recoil history` shows from `entries`: those the filters keep,
/// in order, at most the row limit.
pub fn select_history(args: &HistoryArgs, entries: &[HistoryEntry]) -> (rows: Vec<HistoryEntry>)
    ensures
        rows@ == at_most(kept(*args, entries@), row_limit(*args)),
{
    let limit: usize = if args.all {
        usize::MAX
    } else {
        match args.limit {
            Some(l) => l as usize,
            None => DEFAULT_LIMIT as usize,
        }
    };
    let mut rows: Vec<HistoryEntry> = Vec::new();
    let mut i: usize = 0;
    assert(entries@.take(0) =~= seq![]);
    while i < entries.len()
        invariant
            i <= entries@.len(),
            limit == row_limit(*args),
            rows@ == at_most(kept(*args, entries@.take(i as int)), limit as nat),
        decreases entries@.len() - i,
    {
        let e = entries[i];
        assert(entries@.take(i + 1).drop_last() =~= entries@.take(i as int));
        let keep = entry_kept(args, &e);
        if keep && rows.len() < limit {
            rows.push(e);
        }
        proof {
            let before = kept(*args, entries@.take(i as int));
            if keep {
                assert(kept(*args, entries@.take(i + 1)) == before.push(e));
                if (limit as nat) < before.len() {
                    assert(before.push(e).take(limit as int) =~= before.take(limit as int));
                } else if (limit as nat) == before.len() {
                    assert(before.push(e).take(limit as int) =~= before);
                }
            }
        }
        i = i + 1;
    }
    assert(entries@.take(entries@.len() as int) =~= entries@);
    rows
}

/// The line above the table, describing the filter in force.
pub open spec fn filter_header(args: HistoryArgs, total: u32) -> Seq<char> {
    if args.search is Some {
        "Search results for \""@ + args.search->0@ + "\" (14 matches found)"@
    } else if args.date is Some {
        "Showing entries for date: "@ + args.date->0@
    } else if args.month is Some {
        "Showing entries for month: "@ + args.month->0@
    } else if args.event_type is Some {
        "Showing all '"@ + args.event_type->0@ + "' operations"@
    } else if args.recovered {
        "Showing only recovered items"@
    } else if args.in_recoil {
        "Showing items currently stored in Recoil"@
    } else if args.all {
        "Showing all "@ + decimal(total as nat) + " entries"@
    } else if args.limit is Some {
        "Showing last "@ + decimal(args.limit->0 as nat) + " entries (out of "@ + decimal(total as nat)
            + ")"@
    } else {
        "Showing last 30 entries (out of "@ + decimal(total as nat) + ")"@
    }
}

/// The line above the table, describing the filter in force.
pub fn build_filter_header(args: &HistoryArgs, total: u32) -> (s: String)
    ensures
        s@ == filter_header(*args, total),
{
    let mut out: Vec<char> = Vec::new();
    if let Some(s) = &args.search {
        push_text(&mut out, "Search results for \"");
        push_text(&mut out, s.as_str());
        push_text(&mut out, "\" (14 matches found)");
    } else if let Some(d) = &args.date {
        push_text(&mut out, "Showing entries for date: ");
        push_text(&mut out, d.as_str());
    } else if let Some(m) = &args.month {
        push_text(&mut out, "Showing entries for month: ");
        push_text(&mut out, m.as_str());
    } else if let Some(t) = &args.event_type {
        push_text(&mut out, "Showing all '");
        push_text(&mut out, t.as_str());
        push_text(&mut out, "' operations");
    } else if args.recovered {
        push_text(&mut out, "Showing only recovered items");
    } else if args.in_recoil {
        push_text(&mut out, "Showing items currently stored in Recoil");
    } else if args.all {
        push_text(&mut out, "Showing all ");
        push_decimal(&mut out, total as u64);
        push_text(&mut out, " entries");
    } else if let Some(l) = args.limit {
        push_text(&mut out, "Showing last ");
        push_decimal(&mut out, l as u64);
        push_text(&mut out, " entries (out of ");
        push_decimal(&mut out, total as u64);
        push_text(&mut out, ")");
    } else {
        push_text(&mut out, "Showing last 30 entries (out of ");
        push_decimal(&mut out, total as u64);
        push_text(&mut out, ")");
    }
    string_from_chars(&out)
}

/// The file extension of an export format: csv, json and txt keep their
/// name, anything else is xlsx.
pub open spec fn export_extension(format: Seq<char>) -> Seq<char> {
    if format == "csv"@ {
        "csv"@
    } else if format == "json"@ {
        "json"@
    } else if format == "txt"@ {
        "txt"@
    } else {
        "xlsx"@
    }
}

/// The name of the export file: `Recoil-History-<stamp>.<extension>`.
pub fn export_file_name(format: &str, stamp: &str) -> (name: String)
    ensures
        name@ == "Recoil-History-"@ + stamp@ + "."@ + export_extension(format@),
{
    let ext = if same_text(format, "csv") {
        "csv"
    } else if same_text(format, "json") {
        "json"
    } else if same_text(format, "txt") {
        "txt"
    } else {
        "xlsx"
    };
    let mut out: Vec<char> = Vec::new();
    push_text(&mut out, "Recoil-History-");
    push_text(&mut out, stamp);
    push_text(&mut out, ".");
    push_text(&mut out, ext);
    string_from_chars(&out)
}

} // verus!
