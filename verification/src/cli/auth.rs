//! Centralised password verification with rate-limiter integration.
//!
//! Every authenticated command goes through the same protocol: find the
//! configuration, refuse while the vault is locked, then allow up to three
//! password attempts, each failure recorded by the rate limiter.

use vstd::prelude::*;

use crate::config::ConfigManager;
use crate::error::RecoilError;
use crate::security::{failure_fits, failure_step, lemma_streak_of_three_locks, lock_check, LockState};
use crate::utils::constants::{BOOTSTRAP_CONFIG_DIR, FILE_CONFIG, TIER1_ATTEMPTS};
use crate::utils::os_detect::{shadow_dir_name_of, Distro};
use crate::utils::text::{join_path, joined};

verus! {

/// The shadow directory names searched for a configuration, in order: the
/// common distributions and the generic one first, then the remaining
/// distributions, so that every distribution's shadow layer is searched.
pub open spec fn searched_shadow_names() -> Seq<Seq<char>> {
    seq![
        ".recoil-debian"@,
        ".recoil-ubuntu"@,
        ".recoil-arch"@,
        ".recoil-fedora"@,
        ".recoil-kali"@,
        ".recoil-mint"@,
        ".recoil-pop"@,
        ".recoil-parrot"@,
        ".recoil-rocky"@,
        ".recoil-alma"@,
        ".recoil-void"@,
        ".recoil-alpine"@,
        ".recoil-linux"@,
        ".recoil-manjaro"@,
        ".recoil-centos"@,
        ".recoil-rhel"@,
        ".recoil-opensuse"@,
        ".recoil-gentoo"@,
        ".recoil-elementary"@,
    ]
}

/// The directories searched for a configuration, in order: each shadow
/// directory under `/`, then the bootstrap directory.
pub open spec fn searched_dirs() -> Seq<Seq<char>> {
    searched_shadow_names().map_values(|n: Seq<char>| joined("/"@, n)).push(BOOTSTRAP_CONFIG_DIR@)
}

/// The shadow directory of every distribution, `Distro::shadow_path`, is
/// among the searched locations, ahead of the bootstrap directory.
pub proof fn lemma_every_shadow_dir_is_searched(d: Distro)
    ensures
        exists|i: int|
            0 <= i < searched_shadow_names().len() && #[trigger] searched_dirs()[i] == joined(
                "/"@,
                shadow_dir_name_of(d),
            ),
{
    let k: int = match d {
        Distro::Debian => 0,
        Distro::Ubuntu => 1,
        Distro::Arch => 2,
        Distro::Fedora => 3,
        Distro::Kali => 4,
        Distro::Mint => 5,
        Distro::PopOs => 6,
        Distro::Parrot => 7,
        Distro::RockyLinux => 8,
        Distro::AlmaLinux => 9,
        Distro::Void => 10,
        Distro::Alpine => 11,
        Distro::Unknown(_) => 12,
        Distro::Manjaro => 13,
        Distro::CentOs => 14,
        Distro::Rhel => 15,
        Distro::OpenSuse => 16,
        Distro::Gentoo => 17,
        Distro::ElementaryOs => 18,
    };
    assert(searched_shadow_names()[k] == shadow_dir_name_of(d));
    assert(searched_dirs()[k] == joined("/"@, searched_shadow_names()[k]));
}

/// The configuration locations searched, in order: the shadow layer of
/// every distribution, then the bootstrap path.
pub fn config_candidates() -> (c: Vec<ConfigManager>)
    ensures
        c@.len() == searched_dirs().len(),
        forall|i: int| 0 <= i < c@.len() ==> #[trigger] c@[i].dir_of() == searched_dirs()[i],
{
    let names: [&str; 19] = [
        ".recoil-debian",
        ".recoil-ubuntu",
        ".recoil-arch",
        ".recoil-fedora",
        ".recoil-kali",
        ".recoil-mint",
        ".recoil-pop",
        ".recoil-parrot",
        ".recoil-rocky",
        ".recoil-alma",
        ".recoil-void",
        ".recoil-alpine",
        ".recoil-linux",
        ".recoil-manjaro",
        ".recoil-centos",
        ".recoil-rhel",
        ".recoil-opensuse",
        ".recoil-gentoo",
        ".recoil-elementary",
    ];
    assert(names@.map_values(|n: &str| n@) =~= searched_shadow_names());
    let mut c: Vec<ConfigManager> = Vec::new();
    let mut i: usize = 0;
    while i < 19
        invariant
            i <= 19,
            names@.map_values(|n: &str| n@) == searched_shadow_names(),
            c@.len() == i,
            forall|k: int| 0 <= k < i ==> #[trigger] c@[k].dir_of() == searched_dirs()[k],
        decreases 19 - i,
    {
        let shadow = join_path("/", names[i]);
        assert(names@.map_values(|n: &str| n@)[i as int] == names@[i as int]@);
        c.push(ConfigManager::from_shadow(shadow.as_str()));
        i = i + 1;
    }
    c.push(ConfigManager::bootstrap());
    c
}

/// Resolve the configuration manager from which of the searched locations
/// hold a configuration file (`present[i]` for `config_candidates()[i]`;
/// missing entries count as absent): the first that holds one, else
/// `NotInitialised`.
pub fn resolve_config_manager(present: &[bool]) -> (r: Result<ConfigManager, RecoilError>)
    ensures
        (match r {
            Ok(m) => exists|i: int|
                0 <= i < searched_dirs().len() && i < present@.len() && present@[i] && (forall|j: int|
                    0 <= j < i ==> !present@[j]) && m.dir_of() == #[trigger] searched_dirs()[i],
            Err(e) => e is NotInitialised && forall|i: int|
                0 <= i < searched_dirs().len() && i < present@.len() ==> !present@[i],
        }),
{
    let mut candidates = config_candidates();
    let n = candidates.len();
    let mut i: usize = 0;
    while i < n
        invariant
            i <= n,
            n == candidates@.len(),
            n == searched_dirs().len(),
            forall|k: int| 0 <= k < n ==> #[trigger] candidates@[k].dir_of() == searched_dirs()[k],
            forall|j: int| 0 <= j < i && j < present@.len() ==> !present@[j],
        decreases n - i,
    {
        if i < present.len() && present[i] {
            let m = candidates.swap_remove(i);
            assert(m.dir_of() == searched_dirs()[i as int]);
            return Ok(m);
        }
        i = i + 1;
    }
    Err(RecoilError::NotInitialised)
}

/// Rate-limiter state directory — the directory of the configuration file.
pub fn lock_state_dir(mgr: &ConfigManager) -> (d: String)
    ensures
        d@ == mgr.dir_of(),
        joined(d@, FILE_CONFIG@) == mgr.path_of(),
{
    String::from_str(mgr.dir())
}

/// What happens before any password is asked for.
#[derive(Debug, Clone)]
pub enum PasswordGate {
    /// The offline administrator recovery bypass: the password is asked
    /// once, with the rate limiter left aside, even on a locked vault.
    Recovery,
    /// The vault is locked: verification is refused with this error.
    Refuse(RecoilError),
    /// Prompt for the password, the rate limiter applied.
    Prompt,
}

/// Decides what precedes the password prompt at `now`: with `recovery`
/// (`RECOIL_RECOVERY=1`) the administrator bypass, whatever the lock;
/// otherwise a lock in force refuses with its error, and an open vault
/// prompts.
pub fn password_gate(lock: &LockState, now: u64, recovery: bool) -> (g: PasswordGate)
    ensures
        recovery ==> g == PasswordGate::Recovery,
        !recovery ==> (match lock_check(lock@, now) {
            Err(e) => g == PasswordGate::Refuse(e),
            Ok(_) => g == PasswordGate::Prompt,
        }),
{
    if recovery {
        return PasswordGate::Recovery;
    }
    match lock.check_at(now) {
        Err(e) => PasswordGate::Refuse(e),
        Ok(()) => PasswordGate::Prompt,
    }
}

/// Password attempts allowed in one verification.
pub const MAX_PASSWORD_ATTEMPTS: usize = 3;

/// What happens after a wrong password.
#[derive(Debug, Clone)]
pub enum AttemptOutcome {
    /// Prompt again; this many attempts remain.
    Retry { remaining: usize },
    /// Verification ends with this error.
    Stop(RecoilError),
}

/// Records the wrong password of attempt `attempt` (counted from 0) at
/// `now`, then decides: a lock now in force ends verification with its
/// error; otherwise the next attempt follows while attempts remain, and
/// verification fails with `AuthFailed` when none do.
pub fn after_failed_attempt(lock: &mut LockState, attempt: usize, now: u64) -> (r: AttemptOutcome)
    requires
        failure_fits(old(lock)@, now),
        attempt < MAX_PASSWORD_ATTEMPTS,
    ensures
        final(lock)@ == failure_step(old(lock)@, now),
        (match lock_check(final(lock)@, now) {
            Err(e) => r == AttemptOutcome::Stop(e),
            Ok(_) => if attempt + 1 < MAX_PASSWORD_ATTEMPTS {
                r == AttemptOutcome::Retry { remaining: (MAX_PASSWORD_ATTEMPTS - attempt - 1) as usize }
            } else {
                r == AttemptOutcome::Stop(RecoilError::AuthFailed)
            },
        }),
        old(lock).consecutive + 1 >= TIER1_ATTEMPTS ==> (r matches AttemptOutcome::Stop(e) && (
        e is RateLimited || e is HardLocked)),
{
    lock.on_failure_at(now);
    proof {
        if old(lock).consecutive + 1 >= TIER1_ATTEMPTS {
            lemma_streak_of_three_locks(old(lock)@, now);
        }
    }
    match lock.check_at(now) {
        Err(e) => AttemptOutcome::Stop(e),
        Ok(()) => {
            if attempt + 1 < MAX_PASSWORD_ATTEMPTS {
                AttemptOutcome::Retry { remaining: MAX_PASSWORD_ATTEMPTS - attempt - 1 }
            } else {
                AttemptOutcome::Stop(RecoilError::AuthFailed)
            }
        },
    }
}

} // verus!
