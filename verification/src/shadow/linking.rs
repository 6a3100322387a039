//! Filesystem-adaptive linking engine for the root mirror: reflink, then
//! hard link, then copy. Not yet implemented: a link is reported as a hard
//! link and nothing is touched.

use vstd::prelude::*;

use crate::error::RecoilError;
use crate::utils::fs_detect::LinkStrategy;

verus! {

/// Outcome of a single `link_file` call — used by the scanner to compile
/// mirror statistics.
#[derive(Debug, Clone, Copy, PartialEq, Eq, Structural)]
pub enum LinkOutcome {
    Reflink,
    HardLink,
    Copy,
}

/// Link `src` into `dst` using the provided strategy, falling back through
/// the chain if the preferred method is unavailable.
pub fn link_file(_src: &str, _dst: &str, _strategy: &LinkStrategy) -> (r: Result<
    LinkOutcome,
    RecoilError,
>)
    ensures
        r == Ok::<LinkOutcome, RecoilError>(LinkOutcome::HardLink),
{
    Ok(LinkOutcome::HardLink)
}

/// Apply the source file's permissions, ownership, and timestamps to the
/// destination.
pub fn preserve_metadata(_src: &str, _dst: &str) -> (r: Result<(), RecoilError>)
    ensures
        r is Ok,
{
    Ok(())
}

} // verus!
