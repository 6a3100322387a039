//! `recoil setup`: the preconditions of a first-time initialisation and the
//! master password policy.

use vstd::prelude::*;

use crate::security::{class_score, password_strength, strength_of, Strength};
use crate::utils::constants::{MIN_FREE_BYTES, MIN_PASSWORD_LEN};

verus! {

/// The arguments of `recoil setup`.
#[derive(Debug, Clone, Copy)]
pub struct SetupArgs {
    /// Reconfigure Recoil with a new master password.
    pub reset: bool,
    /// Force setup even if already initialised.
    pub force: bool,
    /// Show detailed technical output during setup.
    pub verbose: bool,
    /// Do not start the background service after setup.
    pub no_daemon: bool,
}

/// Whether setup may run, and which confirmations it must ask first.
#[derive(Debug, Clone, Copy, PartialEq, Eq, Structural)]
pub enum SetupGate {
    /// Not root: refuse.
    NeedsRoot,
    /// Already initialised and neither `--force` nor `--reset`: stop.
    AlreadyInitialised,
    /// Go on, after confirming a reset and/or a forced re-setup.
    Proceed { confirm_reset: bool, confirm_force: bool },
}

pub open spec fn setup_gate_of(is_root: bool, initialised: bool, args: SetupArgs) -> SetupGate {
    if !is_root {
        SetupGate::NeedsRoot
    } else if initialised && !args.force && !args.reset {
        SetupGate::AlreadyInitialised
    } else {
        SetupGate::Proceed { confirm_reset: args.reset, confirm_force: args.force && initialised }
    }
}

/// Setup needs root; it leaves an initialised system alone unless `--force`
/// or `--reset` is given; `--reset` always asks to confirm the reset, and
/// `--force` asks to confirm only on an initialised system. It needs 64 MiB
/// free and a master password of at least 8 bytes.
pub proof fn lemma_setup_preconditions(is_root: bool, initialised: bool, args: SetupArgs)
    ensures
        setup_gate_of(is_root, initialised, args) == SetupGate::NeedsRoot <==> !is_root,
        setup_gate_of(is_root, initialised, args) == SetupGate::AlreadyInitialised <==> (is_root
            && initialised && !args.force && !args.reset),
        setup_gate_of(is_root, initialised, args) matches SetupGate::Proceed { confirm_reset, confirm_force }
            ==> is_root && (initialised ==> args.force || args.reset) && confirm_reset == args.reset
            && confirm_force == (args.force && initialised),
        is_root && !initialised ==> setup_gate_of(is_root, initialised, args) is Proceed,
        MIN_FREE_BYTES == 64 * 1024 * 1024,
        MIN_PASSWORD_LEN == 8,
{
}

/// Whether setup may run: root is required; an initialised system is left
/// alone unless `--force` or `--reset` is given; `--reset` asks to confirm
/// the reset and `--force` on an initialised system asks to confirm.
pub fn setup_gate(is_root: bool, initialised: bool, args: &SetupArgs) -> (g: SetupGate)
    ensures
        g == setup_gate_of(is_root, initialised, *args),
{
    if !is_root {
        SetupGate::NeedsRoot
    } else if initialised && !args.force && !args.reset {
        SetupGate::AlreadyInitialised
    } else {
        SetupGate::Proceed { confirm_reset: args.reset, confirm_force: args.force && initialised }
    }
}

/// Setup needs at least `MIN_FREE_BYTES` available.
pub fn enough_free_space(available: u64) -> (r: bool)
    ensures
        r == (available >= MIN_FREE_BYTES),
{
    available >= MIN_FREE_BYTES
}

/// The verdict on a proposed master password.
#[derive(Debug, Clone, Copy, PartialEq, Eq, Structural)]
pub enum NewPassword {
    /// Shorter than the minimum length: refused.
    TooShort,
    /// Weak: accepted only if the user confirms.
    Weak,
    /// Moderate or strong: accepted.
    Acceptable(Strength),
}

/// Judges a proposed master password: under 8 bytes it is refused, a weak
/// one needs confirmation, others are accepted with their strength.
pub fn assess_new_password(pw: &str) -> (r: NewPassword)
    ensures
        r == (if (pw.len() as nat) < MIN_PASSWORD_LEN {
            NewPassword::TooShort
        } else if strength_of(pw.len() as nat, class_score(pw@)) == Strength::Weak {
            NewPassword::Weak
        } else {
            NewPassword::Acceptable(strength_of(pw.len() as nat, class_score(pw@)))
        }),
{
    if pw.len() < MIN_PASSWORD_LEN {
        return NewPassword::TooShort;
    }
    match password_strength(pw) {
        Strength::Weak => NewPassword::Weak,
        s => NewPassword::Acceptable(s),
    }
}


/// How many passwords setup accepts before giving up.
pub const NEW_PASSWORD_ROUNDS: usize = 3;

/// What happened in the current round of choosing the master password.
#[derive(Debug, Clone, Copy, PartialEq, Eq, Structural)]
pub enum NewPasswordEvent {
    /// A password was entered, judged so.
    Entered(NewPassword),
    /// The user answered whether to keep a weak password.
    KeepWeak(bool),
    /// The confirmation was entered; whether it matches.
    Confirmed(bool),
}

/// What setup does next while choosing the master password.
#[derive(Debug, Clone, Copy, PartialEq, Eq, Structural)]
pub enum NewPasswordAction {
    /// Ask for a new password, in the next round.
    AskPassword,
    /// Warn that the password is weak and ask whether to keep it.
    AskKeepWeak,
    /// Ask to enter the password again.
    AskConfirmation,
    /// Use the password.
    Accept,
    /// The rounds are used up: setup fails.
    GiveUp,
}

/// The next round, or giving up after the last.
pub open spec fn next_round(round: nat) -> NewPasswordAction {
    if round + 1 < NEW_PASSWORD_ROUNDS {
        NewPasswordAction::AskPassword
    } else {
        NewPasswordAction::GiveUp
    }
}

/// A round of choosing the master password: a too short password, a weak
/// one the user does not keep, or a confirmation that does not match ends
/// the round; a moderate or strong password, or a weak one the user keeps,
/// goes on to the confirmation, and a matching confirmation accepts it.
pub open spec fn new_password_next(round: nat, event: NewPasswordEvent) -> NewPasswordAction {
    match event {
        NewPasswordEvent::Entered(NewPassword::TooShort) => next_round(round),
        NewPasswordEvent::Entered(NewPassword::Weak) => NewPasswordAction::AskKeepWeak,
        NewPasswordEvent::Entered(NewPassword::Acceptable(_)) => NewPasswordAction::AskConfirmation,
        NewPasswordEvent::KeepWeak(keep) => if keep {
            NewPasswordAction::AskConfirmation
        } else {
            next_round(round)
        },
        NewPasswordEvent::Confirmed(matches) => if matches {
            NewPasswordAction::Accept
        } else {
            next_round(round)
        },
    }
}

/// Decides what follows `event` in round `round` (counted from 0).
pub fn new_password_step(round: usize, event: NewPasswordEvent) -> (a: NewPasswordAction)
    requires
        round < NEW_PASSWORD_ROUNDS,
    ensures
        a == new_password_next(round as nat, event),
{
    let next = if round + 1 < NEW_PASSWORD_ROUNDS {
        NewPasswordAction::AskPassword
    } else {
        NewPasswordAction::GiveUp
    };
    match event {
        NewPasswordEvent::Entered(NewPassword::TooShort) => next,
        NewPasswordEvent::Entered(NewPassword::Weak) => NewPasswordAction::AskKeepWeak,
        NewPasswordEvent::Entered(NewPassword::Acceptable(_)) => NewPasswordAction::AskConfirmation,
        NewPasswordEvent::KeepWeak(keep) => if keep {
            NewPasswordAction::AskConfirmation
        } else {
            next
        },
        NewPasswordEvent::Confirmed(matches) => if matches {
            NewPasswordAction::Accept
        } else {
            next
        },
    }
}

} // verus!
