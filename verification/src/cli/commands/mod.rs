//! Arguments of every command, and the decisions each command takes.

pub mod history;
pub mod restore;
pub mod setup;
pub mod status;
pub mod unlock;
pub mod verify;

use vstd::prelude::*;

verus! {

/// The arguments of `recoil vault`.
#[derive(Debug, Clone)]
pub struct VaultArgs {
    pub subcommand: VaultSubcmd,
}

/// The vault operations.
#[derive(Debug, Clone)]
pub enum VaultSubcmd {
    /// Encrypt a file into the vault.
    Encrypt { file: String },
    /// Decrypt and restore a .rvb file.
    Decrypt { file: String, output: Option<String> },
    /// Decrypt to RAM and open — temp file wiped after viewing.
    View { file: String },
    /// Securely delete a .rvb file (3-pass overwrite).
    Delete { file: String },
    /// List all encrypted files in the vault.
    List,
    /// Export entire vault as an encrypted .vbk archive.
    Backup { output: Option<String> },
    /// Restore from a .vbk backup archive.
    Restore { file: String },
    /// Verify AES-GCM authentication tag on every .rvb file.
    Integrity,
    /// Show vault statistics and health.
    Status,
    /// Lock the vault (indefinite or timed).
    Lock { minutes: Option<u64> },
    /// Unlock the vault.
    Unlock,
    /// Change the vault master password.
    ChangePassword,
    /// Permanently destroy all vault contents.
    Purge,
}

/// The arguments of `recoil daemon`.
#[derive(Debug, Clone)]
pub struct DaemonArgs {
    pub subcommand: DaemonSubcmd,
}

/// The daemon operations.
#[derive(Debug, Clone, Copy, PartialEq, Eq, Structural)]
pub enum DaemonSubcmd {
    Start,
    Stop,
    Status,
    Install,
    Uninstall,
}

/// The arguments of `recoil config`.
#[derive(Debug, Clone)]
pub struct ConfigArgs {
    pub subcommand: ConfigSubcmd,
}

/// The configuration operations.
#[derive(Debug, Clone, Copy, PartialEq, Eq, Structural)]
pub enum ConfigSubcmd {
    /// Display current configuration.
    Show,
    /// Change the master password.
    ChangePassword,
    /// Export configuration as JSON.
    Export,
}

/// The arguments of `recoil provenance`.
#[derive(Debug, Clone)]
pub struct ProvenanceArgs {
    /// File or binary to inspect.
    pub path: String,
    pub password: Option<String>,
}

/// The arguments of `recoil tui`.
#[derive(Debug, Clone)]
pub struct TuiArgs {
    pub password: Option<String>,
}

} // verus!
