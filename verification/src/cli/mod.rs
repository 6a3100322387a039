//! The command-line interface: the commands and their arguments, the
//! password verification protocol, and each command's decisions.

pub mod auth;
pub mod commands;
pub mod display;

use vstd::prelude::*;

use crate::cli::commands::history::HistoryArgs;
use crate::cli::commands::restore::RestoreArgs;
use crate::cli::commands::setup::SetupArgs;
use crate::cli::commands::status::StatusArgs;
use crate::cli::commands::unlock::UnlockArgs;
use crate::cli::commands::verify::VerifyArgs;
use crate::cli::commands::{DaemonArgs, ProvenanceArgs, TuiArgs, VaultArgs};

verus! {

/// A parsed command line.
#[derive(Debug, Clone)]
pub struct Cli {
    pub command: Command,
}

/// The commands of `recoil`.
#[derive(Debug, Clone)]
pub enum Command {
    /// First-time initialisation — creates shadow layer and root mirror
    Setup(SetupArgs),
    /// Show system protection status
    Status(StatusArgs),
    /// View and search the complete system chronology
    History(HistoryArgs),
    /// Restore files or directories from vault or root mirror
    Restore(RestoreArgs),
    /// Shadow layer structural integrity verification
    Verify(VerifyArgs),
    /// Authenticated shadow layer unlock (chattr -i)
    Unlock(UnlockArgs),
    /// Show the complete lifecycle record for any file or binary
    Provenance(ProvenanceArgs),
    /// Per-file AES-256-GCM vault operations
    Vault(VaultArgs),
    /// Background daemon management
    Daemon(DaemonArgs),
    /// Interactive terminal user interface
    Tui(TuiArgs),
}

} // verus!
