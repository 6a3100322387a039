//! Kernel-level filesystem immutability management (FS_IOC_SETFLAGS).
//! Not yet implemented: every operation succeeds and changes nothing.

use vstd::prelude::*;

use crate::error::RecoilError;

verus! {

/// Apply the FS_IMMUTABLE_FL flag to a single path.
pub fn set_immutable(_path: &str) -> (r: Result<(), RecoilError>)
    ensures
        r is Ok,
{
    Ok(())
}

/// Clear the FS_IMMUTABLE_FL flag from a single path.
pub fn clear_immutable(_path: &str) -> (r: Result<(), RecoilError>)
    ensures
        r is Ok,
{
    Ok(())
}

/// Whether FS_IMMUTABLE_FL is currently set on the path; reported as not set.
pub fn is_immutable(_path: &str) -> (r: Result<bool, RecoilError>)
    ensures
        r == Ok::<bool, RecoilError>(false),
{
    Ok(false)
}

/// Apply FS_APPEND_FL to the audit log file.
pub fn set_append_only(_path: &str) -> (r: Result<(), RecoilError>)
    ensures
        r is Ok,
{
    Ok(())
}

/// Apply FS_IMMUTABLE_FL recursively to all entries under `root`,
/// contents before their directories.
pub fn set_immutable_recursive(_root: &str) -> (r: Result<(), RecoilError>)
    ensures
        r is Ok,
{
    Ok(())
}

} // verus!
