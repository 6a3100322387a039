//! Root filesystem scanner for populating the shadow mirror. Not yet
//! implemented: a scan mirrors nothing and reports empty statistics.

use vstd::prelude::*;

use indicatif::MultiProgress;

use crate::error::RecoilError;
use crate::utils::fs_detect::LinkStrategy;
use crate::utils::text::{decimal, push_decimal, push_text, string_from_chars};

verus! {

#[verifier::external_type_specification]
#[verifier::external_body]
pub struct ExMultiProgress(MultiProgress);

/// Statistics collected by a single `scan_and_mirror` run.
#[derive(Debug, Clone, Copy, PartialEq, Eq, Structural)]
pub struct ScanResult {
    pub files_mirrored: u64,
    pub dirs_created: u64,
    pub symlinks_mirrored: u64,
    pub hard_links: u64,
    pub reflinks: u64,
    pub copies: u64,
    pub errors: u64,
}

pub open spec fn empty_scan() -> ScanResult {
    ScanResult {
        files_mirrored: 0,
        dirs_created: 0,
        symlinks_mirrored: 0,
        hard_links: 0,
        reflinks: 0,
        copies: 0,
        errors: 0,
    }
}

impl Default for ScanResult {
    fn default() -> (r: Self)
        ensures
            r == empty_scan(),
    {
        ScanResult {
            files_mirrored: 0,
            dirs_created: 0,
            symlinks_mirrored: 0,
            hard_links: 0,
            reflinks: 0,
            copies: 0,
            errors: 0,
        }
    }
}

impl ScanResult {
    /// Files, directories and symlinks mirrored together.
    pub fn total_entries(&self) -> (n: u64)
        requires
            self.files_mirrored + self.dirs_created + self.symlinks_mirrored <= u64::MAX,
        ensures
            n == self.files_mirrored + self.dirs_created + self.symlinks_mirrored,
    {
        self.files_mirrored + self.dirs_created + self.symlinks_mirrored
    }

    /// One line: `<files> files  <dirs> dirs  <errors> errors`.
    pub fn summarise(&self) -> (s: String)
        ensures
            s@ == decimal(self.files_mirrored as nat) + " files  "@ + decimal(self.dirs_created as nat)
                + " dirs  "@ + decimal(self.errors as nat) + " errors"@,
    {
        let mut out: Vec<char> = Vec::new();
        push_decimal(&mut out, self.files_mirrored);
        push_text(&mut out, " files  ");
        push_decimal(&mut out, self.dirs_created);
        push_text(&mut out, " dirs  ");
        push_decimal(&mut out, self.errors);
        push_text(&mut out, " errors");
        string_from_chars(&out)
    }
}

/// Walk `source_root` and mirror every entry into `mirror_root` using the
/// provided linking strategy, reporting progress via `multi` if supplied.
pub fn scan_and_mirror(
    _source_root: &str,
    _mirror_root: &str,
    _strategy: &LinkStrategy,
    _multi: Option<&MultiProgress>,
) -> (r: Result<ScanResult, RecoilError>)
    ensures
        r == Ok::<ScanResult, RecoilError>(empty_scan()),
{
    Ok(ScanResult::default())
}

} // verus!
