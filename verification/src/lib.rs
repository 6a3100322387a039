//! Recoil: an immutable root-filesystem safety net for Linux.
//!
//! The library holds the logic of the tool: distribution detection from
//! `/etc/os-release` text, filesystem classification, the encrypted
//! configuration envelope, the brute-force rate limiter, password policy,
//! and the decisions behind each command. Terminal and file I/O live in the
//! program around it.

pub mod cli;
pub mod config;
pub mod error;
pub mod security;
pub mod shadow;
pub mod utils;
