use recoil::config::{open_config, seal_config_with, ConfigManager, RecoilConfig, Timestamp};
use recoil::error::RecoilError;
use recoil::security::{NONCE_LEN, SALT_LEN, TAG_LEN};
use recoil::utils::constants::CONFIG_VERSION;
use recoil::utils::fs_detect::{FilesystemType, LinkStrategy};
use recoil::utils::os_detect::Distro;
use std::path::Path;

fn sample_config() -> RecoilConfig {
    RecoilConfig::new(Distro::Debian, FilesystemType::Ext4)
}

#[test]
fn shadow_path_is_dot_prefixed() {
    let cfg = sample_config();
    assert!(cfg.shadow_dir.contains(".recoil-"), "shadow_dir must contain .recoil-");
}

#[test]
fn config_path_helpers_join_under_shadow_dir() {
    let cfg = sample_config();
    for path in [
        cfg.root_mirror(),
        cfg.versions_dir(),
        cfg.vault_dir(),
        cfg.logs_dir(),
        cfg.db_dir(),
        cfg.recoil_b(),
        cfg.recoil_etc(),
        cfg.config_path(),
        cfg.lock_state_path(),
    ] {
        assert!(
            Path::new(&path).starts_with(&cfg.shadow_dir),
            "{path:?} must live under {:?}",
            cfg.shadow_dir
        );
    }
}

// ── Further cases ────────────────────────────────────────────────────────────

#[test]
fn new_config_is_fresh() {
    let now = Timestamp { secs: 1_700_000_000, nanos: 5 };
    let cfg = RecoilConfig::new_at(Distro::Arch, FilesystemType::Btrfs, now);
    assert_eq!(cfg.version, CONFIG_VERSION);
    assert_eq!(cfg.created_at, now);
    assert_eq!(cfg.updated_at, now);
    assert_eq!(cfg.shadow_dir, "/.recoil-arch");
    assert_eq!(cfg.link_strategy, LinkStrategy::Reflink);
    assert!(!cfg.milestone1_complete && !cfg.milestone2_complete && !cfg.milestone5_complete);
    let cfg = RecoilConfig::new_at(Distro::Debian, FilesystemType::Ext4, now);
    assert_eq!(cfg.link_strategy, LinkStrategy::HardLink);
    assert_eq!(cfg.vault_dir(), "/.recoil-debian/vault");
    assert_eq!(cfg.config_path(), "/.recoil-debian/.config");
    assert_eq!(cfg.lock_state_path(), "/.recoil-debian/.lock_state");
    assert_eq!(cfg.root_mirror(), "/.recoil-debian/root-mirror");
}

#[test]
fn config_manager_locations() {
    let b = ConfigManager::bootstrap();
    assert_eq!(b.path(), "/etc/recoil/.config");
    assert_eq!(b.dir(), "/etc/recoil");
    let s = ConfigManager::from_shadow("/.recoil-fedora");
    assert_eq!(s.path(), "/.recoil-fedora/.config");
    assert_eq!(s.dir(), "/.recoil-fedora");
    // A trailing separator is not doubled.
    let t = ConfigManager::from_shadow("/.recoil-fedora/");
    assert_eq!(t.path(), "/.recoil-fedora/.config");
}

#[test]
fn truncated_config_blob_returns_config_error() {
    assert!(matches!(open_config(&[0u8; 4], "anything"), Err(RecoilError::Config(_))));
    assert!(matches!(open_config(&[], "anything"), Err(RecoilError::Config(_))));
    assert!(matches!(open_config(&[0u8; SALT_LEN], "anything"), Err(RecoilError::Config(_))));
}

#[test]
fn sealed_config_layout() {
    let salt = [5u8; SALT_LEN];
    let nonce = [6u8; NONCE_LEN];
    let json = br#"{"version":"1.0.0"}"#;
    let blob = seal_config_with(json, "layout-pass-42!", &salt, &nonce).unwrap();
    assert_eq!(blob.len(), SALT_LEN + NONCE_LEN + json.len() + TAG_LEN);
    assert_eq!(&blob[..SALT_LEN], &salt);
    assert_eq!(&blob[SALT_LEN..SALT_LEN + NONCE_LEN], &nonce);
    assert_ne!(&blob[SALT_LEN + NONCE_LEN..SALT_LEN + NONCE_LEN + json.len()], &json[..]);
}

#[test]
fn error_messages() {
    assert_eq!(RecoilError::AuthFailed.message(), "Incorrect password");
    assert_eq!(
        RecoilError::RateLimited { minutes: 20 }.message(),
        "Vault locked — too many failed attempts. Try again in 20 minute(s)"
    );
    assert_eq!(
        RecoilError::HardLocked.message(),
        "Vault permanently locked due to repeated failed attempts. Manual reset required"
    );
    assert_eq!(RecoilError::Io("disk full".to_string()).message(), "I/O error: disk full");
    assert_eq!(
        RecoilError::NotInVault { path: "/x".to_string() }.message(),
        "Path not found in vault: /x"
    );
    assert_eq!(RecoilError::Other("plain".to_string()).message(), "plain");
    assert_eq!(
        RecoilError::NotInitialised.message(),
        "Recoil is not initialised on this system — run 'sudo recoil setup' first"
    );
}
