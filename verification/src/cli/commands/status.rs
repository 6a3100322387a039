//! `recoil status`: the plain-text status report.

use vstd::prelude::*;

use crate::config::RecoilConfig;
use crate::utils::fs_detect::{fs_display_name, supports_reflink};
use crate::utils::os_detect::shadow_dir_name_of;
use crate::utils::text::{push_text, string_from_chars};

verus! {

/// The arguments of `recoil status`.
#[derive(Debug, Clone)]
pub struct StatusArgs {
    /// Show full stats and last 5 actions (requires password).
    pub verbose: bool,
    /// Minimal one-line output.
    pub short: bool,
    /// Export status report as plain text to PATH.
    pub txt: Option<String>,
}

impl StatusArgs {
    /// `--verbose` and `--txt` need the master password; the basic view does
    /// not.
    pub fn needs_password(&self) -> (r: bool)
        ensures
            r == (self.verbose || self.txt is Some),
    {
        self.verbose || self.txt.is_some()
    }
}

/// The plain-text status report generated at `generated`.
pub open spec fn txt_report(cfg: RecoilConfig, generated: Seq<char>) -> Seq<char> {
    "Recoil Status Report\nGenerated: "@ + generated + "\n\nProtection Status  : Active\nShadow Layer       : "@
        + shadow_dir_name_of(cfg.distro) + "\nFilesystem         : "@ + fs_display_name(cfg.filesystem)
        + " "@ + (if supports_reflink(cfg.filesystem) { "(CoW supported)"@ } else { ""@ })
        + "\nMilestone 1        : "@ + (if cfg.milestone1_complete { "Complete"@ } else { "In Progress"@ })
        + "\nMilestone 2        : "@ + (if cfg.milestone2_complete { "Complete"@ } else { "Planned"@ })
        + "\n"@
}

/// The plain-text status report generated at `generated`.
pub fn build_txt_report(cfg: &RecoilConfig, generated: &str) -> (s: String)
    ensures
        s@ == txt_report(*cfg, generated@),
{
    let mut out: Vec<char> = Vec::new();
    push_text(&mut out, "Recoil Status Report\nGenerated: ");
    push_text(&mut out, generated);
    push_text(&mut out, "\n\nProtection Status  : Active\nShadow Layer       : ");
    let name = cfg.distro.shadow_dir_name();
    push_text(&mut out, name.as_str());
    push_text(&mut out, "\nFilesystem         : ");
    push_text(&mut out, cfg.filesystem.display_name());
    push_text(&mut out, " ");
    push_text(&mut out, cfg.filesystem.cow_note());
    push_text(&mut out, "\nMilestone 1        : ");
    push_text(&mut out, if cfg.milestone1_complete { "Complete" } else { "In Progress" });
    push_text(&mut out, "\nMilestone 2        : ");
    push_text(&mut out, if cfg.milestone2_complete { "Complete" } else { "Planned" });
    push_text(&mut out, "\n");
    string_from_chars(&out)
}

} // verus!
