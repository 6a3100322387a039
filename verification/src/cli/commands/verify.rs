//! `recoil verify`: shadow layer structural integrity check (not yet
//! implemented).

use vstd::prelude::*;

verus! {

/// The arguments of `recoil verify` (none).
#[derive(Debug, Clone, Copy)]
pub struct VerifyArgs {}

} // verus!
