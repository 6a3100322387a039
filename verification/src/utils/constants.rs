//! Project-wide strings, names and thresholds.

use vstd::prelude::*;

verus! {

/// The universal header printed at the top of every command output.
pub const RECOIL_HEADER: &'static str = "Recoil v1.0.0 — Immutable System Safety Net for Linux";

/// Application version.
pub const RECOIL_VERSION: &'static str = "1.0.0";

/// Config schema version. Increment on breaking schema changes.
pub const CONFIG_VERSION: &'static str = "1";

/// Encrypted config location before the shadow layer exists.
pub const BOOTSTRAP_CONFIG_DIR: &'static str = "/etc/recoil";

// ── Shadow layer subdirectory and file names ────────────────────────────────

pub const DIR_ROOT_MIRROR: &'static str = "root-mirror";
pub const DIR_VERSIONS: &'static str = "versions";
pub const DIR_VAULT: &'static str = "vault";
pub const DIR_LOGS: &'static str = "logs";
pub const DIR_DB: &'static str = "db";
pub const DIR_RECOIL_B: &'static str = "recoil-b";
pub const DIR_RECOIL_ETC: &'static str = "recoil-etc";

pub const FILE_CONFIG: &'static str = ".config";
pub const FILE_LOCK_STATE: &'static str = ".lock_state";
pub const FILE_RECOIL_CTL: &'static str = "recoil-ctl";

// ── Root filesystem paths mirrored into the shadow layer ────────────────────
//
// bin, sbin, lib and lib64 are listed explicitly: on merged-/usr systems they
// are symlinks on the live filesystem, but in the mirror they are always
// independent directories, so the mirror is recoverable whatever the state
// of /usr.

/// Top-level directories mirrored into the shadow layer.
pub const MIRROR_PATHS: [&'static str; 12] = [
    "usr", "boot", "etc", "root", "home", "var", "opt", "srv", "bin", "sbin", "lib", "lib64",
];

/// Top-level directories never mirrored: runtime virtual filesystems.
pub const VIRTUAL_PATHS: [&'static str; 7] = ["dev", "proc", "sys", "run", "tmp", "mnt", "media"];

// ── Safety thresholds ────────────────────────────────────────────────────────

/// Minimum free disk space required before setup proceeds (64 MiB).
pub const MIN_FREE_BYTES: u64 = 67108864;

/// Minimum master password length, in bytes, enforced at setup.
pub const MIN_PASSWORD_LEN: usize = 8;

// ── Rate-limiter tiers ───────────────────────────────────────────────────────

/// Tier 1 — 3 consecutive failures → 20-minute lockout.
pub const TIER1_ATTEMPTS: u32 = 3;
pub const TIER1_LOCK_SEC: u64 = 1200;

/// Tier 2 — 15 failures within any 60-minute span (the last hour before a
/// failure) → 3-hour lockout.
pub const TIER2_ATTEMPTS: u32 = 15;
pub const TIER2_WINDOW: u64 = 3600;
pub const TIER2_LOCK_SEC: u64 = 10800;

/// Tier 3 — 50 failures within any 24-hour span (the last 24 hours before a
/// failure) → permanent lock.
pub const TIER3_ATTEMPTS: u32 = 50;
pub const TIER3_WINDOW: u64 = 86400;

} // verus!
