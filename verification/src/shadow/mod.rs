//! Shadow layer engine: immutability flags, linking into the mirror, and
//! the root filesystem scanner. The operations are not yet implemented and
//! report success without touching the filesystem.

pub mod immutable;
pub mod linking;
pub mod scanner;
