use recoil::cli::auth::{
    after_failed_attempt, config_candidates, lock_state_dir, password_gate, resolve_config_manager,
    AttemptOutcome, PasswordGate,
};
use recoil::cli::commands::history::{
    build_filter_header, demo_entries, export_file_name, select_history, HistoryArgs, TOTAL_ENTRIES,
};
use recoil::cli::commands::restore::{
    conflict_choice, dated_restore_location, file_label, looks_like_directory, restored_directory_path,
    restored_file_name, versioned_file_name, ConflictChoice, RestoreArgs, RestoreMode,
};
use recoil::cli::commands::setup::{
    assess_new_password, enough_free_space, new_password_step, setup_gate, NewPassword,
    NewPasswordAction, NewPasswordEvent, SetupArgs, SetupGate,
};
use recoil::cli::commands::status::{build_txt_report, StatusArgs};
use recoil::cli::commands::unlock::check_unlock_target;
use recoil::cli::display::format_ago;
use recoil::config::{ConfigManager, RecoilConfig, Timestamp};
use recoil::error::RecoilError;
use recoil::security::{LockState, Strength};
use recoil::utils::fs_detect::FilesystemType;
use recoil::utils::os_detect::Distro;

fn no_filters() -> HistoryArgs {
    HistoryArgs {
        limit: None,
        search: None,
        date: None,
        month: None,
        event_type: None,
        recovered: false,
        in_recoil: false,
        stats: false,
        export: None,
        all: false,
    }
}

#[test]
fn format_ago_units() {
    assert_eq!(format_ago(0), "just now");
    assert_eq!(format_ago(59), "just now");
    assert_eq!(format_ago(60), "1 minute ago");
    assert_eq!(format_ago(150), "2 minutes ago");
    assert_eq!(format_ago(3600), "1 hour ago");
    assert_eq!(format_ago(7200), "2 hours ago");
    assert_eq!(format_ago(86_400), "1 day ago");
    assert_eq!(format_ago(3 * 86_400 + 5), "3 days ago");
}

#[test]
fn history_filters_and_limits() {
    let all = demo_entries();
    assert_eq!(all.len(), 8);
    let rows = select_history(&no_filters(), &all);
    assert_eq!(rows.len(), 8);
    let mut a = no_filters();
    a.limit = Some(3);
    let rows = select_history(&a, &all);
    assert_eq!(rows.iter().map(|e| e.id).collect::<Vec<_>>(), vec![1847, 1846, 1845]);
    let mut a = no_filters();
    a.recovered = true;
    let rows = select_history(&a, &all);
    assert_eq!(rows.iter().map(|e| e.id).collect::<Vec<_>>(), vec![1843, 1841]);
    let mut a = no_filters();
    a.event_type = Some("download".to_string());
    let rows = select_history(&a, &all);
    assert_eq!(rows.iter().map(|e| e.id).collect::<Vec<_>>(), vec![1844, 1840]);
    let mut a = no_filters();
    a.search = Some("cargo".to_string());
    let rows = select_history(&a, &all);
    assert_eq!(rows.iter().map(|e| e.id).collect::<Vec<_>>(), vec![1845]);
    let mut a = no_filters();
    a.date = Some("2026-05-15".to_string());
    let rows = select_history(&a, &all);
    assert_eq!(rows.iter().map(|e| e.id).collect::<Vec<_>>(), vec![1841, 1840]);
    let mut a = no_filters();
    a.month = Some("2026-04".to_string());
    assert!(select_history(&a, &all).is_empty());
    a.month = Some("2026-05".to_string());
    assert_eq!(select_history(&a, &all).len(), 8);
    let mut a = no_filters();
    a.in_recoil = true;
    assert!(select_history(&a, &all).is_empty());
    let mut a = no_filters();
    a.limit = Some(0);
    assert!(select_history(&a, &all).is_empty());
}

#[test]
fn history_headers_and_export_names() {
    assert_eq!(build_filter_header(&no_filters(), TOTAL_ENTRIES), "Showing last 30 entries (out of 1847)");
    let mut a = no_filters();
    a.limit = Some(10);
    assert_eq!(build_filter_header(&a, TOTAL_ENTRIES), "Showing last 10 entries (out of 1847)");
    a.all = true;
    assert_eq!(build_filter_header(&a, TOTAL_ENTRIES), "Showing all 1847 entries");
    let mut a = no_filters();
    a.search = Some("rm".to_string());
    assert_eq!(build_filter_header(&a, TOTAL_ENTRIES), "Search results for \"rm\" (14 matches found)");
    let mut a = no_filters();
    a.event_type = Some("git".to_string());
    assert_eq!(build_filter_header(&a, TOTAL_ENTRIES), "Showing all 'git' operations");
    assert_eq!(export_file_name("csv", "20260516"), "Recoil-History-20260516.csv");
    assert_eq!(export_file_name("json", "x"), "Recoil-History-x.json");
    assert_eq!(export_file_name("pdf", "x"), "Recoil-History-x.xlsx");
}

#[test]
fn restore_modes_and_names() {
    let mut a = RestoreArgs {
        path: None,
        date: None,
        all: false,
        dry_run: false,
        output: None,
        force: false,
        system: false,
    };
    assert_eq!(a.mode(), RestoreMode::Usage);
    a.path = Some("/home/u/notes.txt".to_string());
    assert_eq!(a.mode(), RestoreMode::Single);
    a.dry_run = true;
    assert_eq!(a.mode(), RestoreMode::DryRun);
    a.all = true;
    assert_eq!(a.mode(), RestoreMode::AllVersions);
    a.date = Some("2026-05-10 14:00".to_string());
    assert_eq!(a.mode(), RestoreMode::ByDate);
    a.system = true;
    assert_eq!(a.mode(), RestoreMode::System);

    assert_eq!(file_label("/home/u/notes.txt"), "notes.txt");
    assert_eq!(file_label("/"), "file");
    assert_eq!(restored_file_name("/home/u/notes.txt"), "notes-restored.txt");
    assert_eq!(restored_file_name("/home/u/Makefile"), "Makefile-restored");
    assert_eq!(versioned_file_name("/a/b.tar.gz", "-v2"), "b.tar-v2.gz");
    // A leading dot is part of the stem; a trailing dot gives an empty
    // extension.
    assert_eq!(restored_file_name("/home/u/.bashrc"), ".bashrc-restored");
    assert_eq!(restored_file_name("/home/u/.config.bak"), ".config-restored.bak");
    assert_eq!(restored_file_name("/home/u/notes."), "notes-restored.");
    assert_eq!(restored_file_name("/home/u/dir/"), "dir-restored");
    assert_eq!(
        dated_restore_location("/home/u/notes.txt", "2026-05-10 14:00"),
        "/home/u/notes-restored-20260510.txt"
    );
    assert_eq!(dated_restore_location("notes", "2026-05-10"), "/notes-restored-20260510");
    assert!(looks_like_directory("/home/u/project/"));
    assert!(looks_like_directory("/home/u/project"));
    assert!(!looks_like_directory("/home/u/a.txt"));
    assert_eq!(restored_directory_path("/home/u/project//", "20260516"), "/home/u/project-restored-20260516");
    assert_eq!(conflict_choice(" 1\n"), ConflictChoice::Overwrite);
    assert_eq!(conflict_choice("3"), ConflictChoice::Cancel);
    assert_eq!(conflict_choice("2"), ConflictChoice::RestoreWithNewName);
    assert_eq!(conflict_choice(""), ConflictChoice::RestoreWithNewName);
}

#[test]
fn setup_gate_and_password_policy() {
    let plain = SetupArgs { reset: false, force: false, verbose: false, no_daemon: false };
    assert_eq!(setup_gate(false, false, &plain), SetupGate::NeedsRoot);
    assert_eq!(setup_gate(true, true, &plain), SetupGate::AlreadyInitialised);
    assert_eq!(
        setup_gate(true, false, &plain),
        SetupGate::Proceed { confirm_reset: false, confirm_force: false }
    );
    let force = SetupArgs { force: true, ..plain };
    assert_eq!(
        setup_gate(true, true, &force),
        SetupGate::Proceed { confirm_reset: false, confirm_force: true }
    );
    assert_eq!(
        setup_gate(true, false, &force),
        SetupGate::Proceed { confirm_reset: false, confirm_force: false }
    );
    let reset = SetupArgs { reset: true, ..plain };
    assert_eq!(
        setup_gate(true, true, &reset),
        SetupGate::Proceed { confirm_reset: true, confirm_force: false }
    );
    assert!(enough_free_space(64 * 1024 * 1024));
    assert!(!enough_free_space(64 * 1024 * 1024 - 1));
    assert_eq!(assess_new_password("Ab1!"), NewPassword::TooShort);
    assert_eq!(assess_new_password("abcdefgh"), NewPassword::Weak);
    assert_eq!(assess_new_password("Password1"), NewPassword::Acceptable(Strength::Moderate));
    assert_eq!(
        assess_new_password("V@ult_Key!2026#Sec"),
        NewPassword::Acceptable(Strength::Strong)
    );
}

#[test]
fn status_report_text() {
    let a = StatusArgs { verbose: false, short: true, txt: None };
    assert!(!a.needs_password());
    let a = StatusArgs { verbose: false, short: false, txt: Some("/tmp/r.txt".to_string()) };
    assert!(a.needs_password());
    let cfg = RecoilConfig::new_at(Distro::Debian, FilesystemType::Btrfs, Timestamp { secs: 0, nanos: 0 });
    let r = build_txt_report(&cfg, "2026-05-16 04:00:00 UTC");
    assert_eq!(
        r,
        "Recoil Status Report\nGenerated: 2026-05-16 04:00:00 UTC\n\nProtection Status  : Active\n\
         Shadow Layer       : .recoil-debian\nFilesystem         : btrfs (CoW supported)\n\
         Milestone 1        : In Progress\nMilestone 2        : Planned\n"
    );
}

#[test]
fn unlock_only_inside_shadow() {
    assert!(check_unlock_target("/.recoil-debian/vault/").is_ok());
    assert!(check_unlock_target("/.recoil-arch").is_ok());
    assert!(check_unlock_target("/.recoil-debian/a..b/x").is_ok());
    assert!(check_unlock_target("/tmp/.recoil-debian/vault").is_err());
    assert!(check_unlock_target("/.recoil-debian/../etc").is_err());
    // `..` is allowed while it stays inside the shadow directory.
    assert!(check_unlock_target("/.recoil-debian/vault/..").is_ok());
    assert!(check_unlock_target("/.recoil-debian/vault/../logs").is_ok());
    assert!(check_unlock_target("/.recoil-debian/./vault//x").is_ok());
    assert!(check_unlock_target("/.recoil-debian/..").is_err());
    assert!(check_unlock_target("/.recoil-debian/../.recoil-arch/vault").is_err());
    assert!(check_unlock_target("/.recoil-debian/vault/../../etc").is_err());
    assert!(check_unlock_target("").is_err());
    match check_unlock_target("/etc/passwd") {
        Err(RecoilError::Other(m)) => assert_eq!(m, "path outside shadow directory"),
        _ => panic!("expected a refusal"),
    }
}

#[test]
fn config_search_order() {
    let c = config_candidates();
    assert_eq!(c.len(), 20);
    assert_eq!(c[0].dir(), "/.recoil-debian");
    assert_eq!(c[12].dir(), "/.recoil-linux");
    assert_eq!(c[13].dir(), "/.recoil-manjaro");
    assert_eq!(c[18].dir(), "/.recoil-elementary");
    assert_eq!(c[19].dir(), "/etc/recoil");
    let mut present = vec![false; 20];
    assert!(matches!(resolve_config_manager(&present), Err(RecoilError::NotInitialised)));
    present[19] = true;
    assert_eq!(resolve_config_manager(&present).unwrap().path(), "/etc/recoil/.config");
    present[2] = true;
    let m = resolve_config_manager(&present).unwrap();
    assert_eq!(m.path(), "/.recoil-arch/.config");
    assert_eq!(lock_state_dir(&m), "/.recoil-arch");
    assert!(matches!(resolve_config_manager(&[]), Err(RecoilError::NotInitialised)));
    // The generic shadow layer is searched before the distributions added
    // after it.
    let mut present = vec![false; 20];
    present[12] = true;
    present[13] = true;
    assert_eq!(resolve_config_manager(&present).unwrap().path(), "/.recoil-linux/.config");
}

#[test]
fn every_distribution_shadow_config_is_found() {
    let all = [
        Distro::Debian, Distro::Ubuntu, Distro::Arch, Distro::Manjaro, Distro::Fedora,
        Distro::CentOs, Distro::Rhel, Distro::AlmaLinux, Distro::RockyLinux, Distro::OpenSuse,
        Distro::Gentoo, Distro::Void, Distro::Alpine, Distro::Mint, Distro::PopOs,
        Distro::ElementaryOs, Distro::Kali, Distro::Parrot, Distro::Unknown("X".into()),
    ];
    let c = config_candidates();
    for d in all {
        let expected = ConfigManager::from_shadow(&d.shadow_path());
        // Only this distribution's shadow configuration exists.
        let present: Vec<bool> = c.iter().map(|m| m.path() == expected.path()).collect();
        let m = resolve_config_manager(&present).unwrap();
        assert_eq!(m.path(), expected.path());
    }
}

#[test]
fn recovery_bypasses_the_lock() {
    let mut lock = LockState::default();
    let now = 6_000_000u64;
    assert!(matches!(password_gate(&lock, now, false), PasswordGate::Prompt));
    for _ in 0..3 {
        lock.on_failure_at(now);
    }
    assert!(matches!(
        password_gate(&lock, now, false),
        PasswordGate::Refuse(RecoilError::RateLimited { minutes: 20 })
    ));
    lock.hard_locked = true;
    assert!(matches!(password_gate(&lock, now, false), PasswordGate::Refuse(RecoilError::HardLocked)));
    assert!(matches!(password_gate(&lock, now, true), PasswordGate::Recovery));
}

#[test]
fn failed_attempts_stop_at_the_third() {
    let mut lock = LockState::default();
    let now = 5_000_000u64;
    match after_failed_attempt(&mut lock, 0, now) {
        AttemptOutcome::Retry { remaining } => assert_eq!(remaining, 2),
        other => panic!("unexpected {other:?}"),
    }
    match after_failed_attempt(&mut lock, 1, now) {
        AttemptOutcome::Retry { remaining } => assert_eq!(remaining, 1),
        other => panic!("unexpected {other:?}"),
    }
    match after_failed_attempt(&mut lock, 2, now) {
        AttemptOutcome::Stop(RecoilError::RateLimited { minutes }) => assert_eq!(minutes, 20),
        other => panic!("unexpected {other:?}"),
    }
    assert_eq!(lock.consecutive, 3);
}

#[test]
fn new_password_rounds() {
    assert_eq!(new_password_step(0, NewPasswordEvent::Entered(NewPassword::TooShort)), NewPasswordAction::AskPassword);
    assert_eq!(new_password_step(2, NewPasswordEvent::Entered(NewPassword::TooShort)), NewPasswordAction::GiveUp);
    assert_eq!(new_password_step(0, NewPasswordEvent::Entered(NewPassword::Weak)), NewPasswordAction::AskKeepWeak);
    assert_eq!(new_password_step(1, NewPasswordEvent::KeepWeak(true)), NewPasswordAction::AskConfirmation);
    assert_eq!(new_password_step(1, NewPasswordEvent::KeepWeak(false)), NewPasswordAction::AskPassword);
    assert_eq!(new_password_step(2, NewPasswordEvent::KeepWeak(false)), NewPasswordAction::GiveUp);
    assert_eq!(new_password_step(0, NewPasswordEvent::Entered(NewPassword::Acceptable(Strength::Strong))), NewPasswordAction::AskConfirmation);
    assert_eq!(new_password_step(2, NewPasswordEvent::Confirmed(true)), NewPasswordAction::Accept);
    assert_eq!(new_password_step(0, NewPasswordEvent::Confirmed(false)), NewPasswordAction::AskPassword);
    assert_eq!(new_password_step(2, NewPasswordEvent::Confirmed(false)), NewPasswordAction::GiveUp);
}
