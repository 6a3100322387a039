//! Shared terminal symbols and text formatting.

use vstd::prelude::*;

use crate::utils::text::{decimal, push_decimal, push_text, string_from_chars};

verus! {

// ── Symbols — never appear as literals in command files ───────────────────────

pub const SYM_OK: &'static str = "✓";
pub const SYM_ERR: &'static str = "✗";
pub const SYM_WARN: &'static str = "⚠";
pub const SYM_INFO: &'static str = "→";
pub const SYM_PASS: &'static str = "••••••••••••••••••••";
pub const SEP_LINE: &'static str = "────────────────────────────────────────────────────────────";

/// `n unit ago`, with the unit made plural unless `n` is one.
pub open spec fn ago_phrase(n: nat, unit: Seq<char>) -> Seq<char> {
    decimal(n) + " "@ + unit + (if n == 1 { ""@ } else { "s"@ }) + " ago"@
}

/// How long ago `secs` seconds is: `just now` under a minute, then whole
/// minutes under an hour, whole hours under a day, and whole days.
pub open spec fn ago_text(secs: u64) -> Seq<char> {
    if secs < 60 {
        "just now"@
    } else if secs < 3600 {
        ago_phrase((secs / 60) as nat, "minute"@)
    } else if secs < 86400 {
        ago_phrase((secs / 3600) as nat, "hour"@)
    } else {
        ago_phrase((secs / 86400) as nat, "day"@)
    }
}

fn push_ago(out: &mut Vec<char>, n: u64, unit: &str)
    ensures
        final(out)@ == old(out)@ + ago_phrase(n as nat, unit@),
{
    push_decimal(out, n);
    push_text(out, " ");
    push_text(out, unit);
    if n == 1 {
        push_text(out, "");
    } else {
        push_text(out, "s");
    }
    push_text(out, " ago");
}

/// Format a duration in seconds as a human-readable "ago" string.
pub fn format_ago(secs: u64) -> (s: String)
    ensures
        s@ == ago_text(secs),
{
    let mut out: Vec<char> = Vec::new();
    if secs < 60 {
        push_text(&mut out, "just now");
    } else if secs < 3600 {
        push_ago(&mut out, secs / 60, "minute");
    } else if secs < 86400 {
        push_ago(&mut out, secs / 3600, "hour");
    } else {
        push_ago(&mut out, secs / 86400, "day");
    }
    string_from_chars(&out)
}

} // verus!
