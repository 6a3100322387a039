//! The error type of the whole library.

use vstd::prelude::*;

use crate::utils::text::{decimal, push_decimal, push_text, string_from_chars};

verus! {

/// Unified error type for the entire Recoil codebase.
///
/// `AuthFailed` intentionally carries no diagnostic detail. Distinguishing
/// between a wrong password, tampered ciphertext, and a truncated file
/// would help an attacker narrow their approach. All three return the
/// same variant with the same message.
#[derive(Debug, Clone)]
pub enum RecoilError {
    // ── I/O and system ─────────────────────────────────────────────────
    /// An operating-system I/O failure, with its description.
    Io(String),
    PermissionDenied,
    NotInitialised,
    // ── Authentication ──────────────────────────────────────────────────
    AuthFailed,
    RateLimited { minutes: u64 },
    HardLocked,
    // ── Configuration ───────────────────────────────────────────────────
    Config(String),
    Serialisation(String),
    // ── Cryptography ────────────────────────────────────────────────────
    Crypto(String),
    // ── OS and filesystem detection ─────────────────────────────────────
    OsDetection(String),
    FsDetection(String),
    // ── Shadow layer ────────────────────────────────────────────────────
    Shadow(String),
    ShadowNotInitialised,
    // ── Vault ───────────────────────────────────────────────────────────
    Vault(String),
    NotInVault { path: String },
    // ── Chronology engine ───────────────────────────────────────────────
    Chronology(String),
    // ── Interception layer ──────────────────────────────────────────────
    Interceptor(String),
    // ── Daemon ──────────────────────────────────────────────────────────
    Daemon(String),
    // ── General ─────────────────────────────────────────────────────────
    Other(String),
}

/// The user-facing message of each error.
pub open spec fn error_message(e: RecoilError) -> Seq<char> {
    match e {
        RecoilError::Io(s) => "I/O error: "@ + s@,
        RecoilError::PermissionDenied => "This command requires root — run with sudo"@,
        RecoilError::NotInitialised =>
            "Recoil is not initialised on this system — run 'sudo recoil setup' first"@,
        RecoilError::AuthFailed => "Incorrect password"@,
        RecoilError::RateLimited { minutes } => "Vault locked — too many failed attempts. Try again in "@
            + decimal(minutes as nat) + " minute(s)"@,
        RecoilError::HardLocked =>
            "Vault permanently locked due to repeated failed attempts. Manual reset required"@,
        RecoilError::Config(s) => "Configuration error: "@ + s@,
        RecoilError::Serialisation(s) => "Serialisation error: "@ + s@,
        RecoilError::Crypto(s) => "Cryptographic error: "@ + s@,
        RecoilError::OsDetection(s) => "OS detection failed: "@ + s@,
        RecoilError::FsDetection(s) => "Filesystem detection failed: "@ + s@,
        RecoilError::Shadow(s) => "Shadow layer error: "@ + s@,
        RecoilError::ShadowNotInitialised =>
            "Shadow layer not initialised — run 'sudo recoil setup' first"@,
        RecoilError::Vault(s) => "Vault error: "@ + s@,
        RecoilError::NotInVault { path } => "Path not found in vault: "@ + path@,
        RecoilError::Chronology(s) => "Chronology database error: "@ + s@,
        RecoilError::Interceptor(s) => "Interceptor error: "@ + s@,
        RecoilError::Daemon(s) => "Daemon error: "@ + s@,
        RecoilError::Other(s) => s@,
    }
}

impl RecoilError {
    /// The user-facing message of this error.
    pub fn message(&self) -> (r: String)
        ensures
            r@ == error_message(*self),
    {
        let mut out: Vec<char> = Vec::new();
        match self {
            RecoilError::Io(s) => {
                push_text(&mut out, "I/O error: ");
                push_text(&mut out, s.as_str());
            },
            RecoilError::PermissionDenied => {
                push_text(&mut out, "This command requires root — run with sudo");
            },
            RecoilError::NotInitialised => {
                push_text(
                    &mut out,
                    "Recoil is not initialised on this system — run 'sudo recoil setup' first",
                );
            },
            RecoilError::AuthFailed => {
                push_text(&mut out, "Incorrect password");
            },
            RecoilError::RateLimited { minutes } => {
                push_text(&mut out, "Vault locked — too many failed attempts. Try again in ");
                push_decimal(&mut out, *minutes);
                push_text(&mut out, " minute(s)");
            },
            RecoilError::HardLocked => {
                push_text(
                    &mut out,
                    "Vault permanently locked due to repeated failed attempts. Manual reset required",
                );
            },
            RecoilError::Config(s) => {
                push_text(&mut out, "Configuration error: ");
                push_text(&mut out, s.as_str());
            },
            RecoilError::Serialisation(s) => {
                push_text(&mut out, "Serialisation error: ");
                push_text(&mut out, s.as_str());
            },
            RecoilError::Crypto(s) => {
                push_text(&mut out, "Cryptographic error: ");
                push_text(&mut out, s.as_str());
            },
            RecoilError::OsDetection(s) => {
                push_text(&mut out, "OS detection failed: ");
                push_text(&mut out, s.as_str());
            },
            RecoilError::FsDetection(s) => {
                push_text(&mut out, "Filesystem detection failed: ");
                push_text(&mut out, s.as_str());
            },
            RecoilError::Shadow(s) => {
                push_text(&mut out, "Shadow layer error: ");
                push_text(&mut out, s.as_str());
            },
            RecoilError::ShadowNotInitialised => {
                push_text(&mut out, "Shadow layer not initialised — run 'sudo recoil setup' first");
            },
            RecoilError::Vault(s) => {
                push_text(&mut out, "Vault error: ");
                push_text(&mut out, s.as_str());
            },
            RecoilError::NotInVault { path } => {
                push_text(&mut out, "Path not found in vault: ");
                push_text(&mut out, path.as_str());
            },
            RecoilError::Chronology(s) => {
                push_text(&mut out, "Chronology database error: ");
                push_text(&mut out, s.as_str());
            },
            RecoilError::Interceptor(s) => {
                push_text(&mut out, "Interceptor error: ");
                push_text(&mut out, s.as_str());
            },
            RecoilError::Daemon(s) => {
                push_text(&mut out, "Daemon error: ");
                push_text(&mut out, s.as_str());
            },
            RecoilError::Other(s) => {
                push_text(&mut out, s.as_str());
            },
        }
        string_from_chars(&out)
    }
}

} // verus!
