use recoil::error::RecoilError;
use recoil::security::{
    decrypt, derive_key, encrypt, encrypt_with_nonce, generate_salt, password_strength, LockState,
    Strength, NONCE_LEN, SALT_LEN, TAG_LEN,
};

#[test]
fn encrypt_decrypt_roundtrip() {
    let key = derive_key("roundtrip-test-42!", &generate_salt().unwrap()).unwrap();
    let msg = b"sensitive system data - recoil test";
    let ct = encrypt(msg, &key).unwrap();
    let pt = decrypt(&ct, &key).unwrap();
    assert_eq!(pt, msg);
}

#[test]
fn tampered_ciphertext_returns_auth_failed() {
    let key = derive_key("tamper-test", &generate_salt().unwrap()).unwrap();
    let mut ct = encrypt(b"real data", &key).unwrap();
    ct[NONCE_LEN + 2] ^= 0xFF; // flip a bit inside the ciphertext
    assert!(matches!(decrypt(&ct, &key), Err(RecoilError::AuthFailed)));
}

#[test]
fn tier1_lock_activates_after_3_failures() {
    let mut s = LockState::default();
    for _ in 0..3 {
        s.on_failure();
    }
    assert!(matches!(s.check(), Err(RecoilError::RateLimited { .. })));
}

#[test]
fn success_resets_all_state() {
    let mut s = LockState::default();
    s.on_failure();
    s.on_failure();
    s.on_success();
    assert_eq!(s.consecutive, 0);
    assert!(s.check().is_ok());
}

#[test]
fn password_strength_classification() {
    assert_eq!(password_strength("abc"), Strength::Weak);
    assert_eq!(password_strength("Password1"), Strength::Moderate);
    assert_eq!(password_strength("V@ult_Key!2026#Sec"), Strength::Strong);
}

// ── Further cases ────────────────────────────────────────────────────────────

#[test]
fn encrypt_with_nonce_frames_nonce_first() {
    let key = derive_key("frame-test", &[1u8; SALT_LEN]).unwrap();
    // The derived key is not the password or the salt handed back.
    assert_ne!(&key.as_bytes()[..10], b"frame-test");
    assert_ne!(key.as_bytes(), &[1u8; 32]);
    let nonce = [9u8; NONCE_LEN];
    let out = encrypt_with_nonce(b"abc", &key, &nonce).unwrap();
    assert_eq!(out.len(), NONCE_LEN + 3 + TAG_LEN);
    assert_eq!(&out[..NONCE_LEN], &nonce);
    // The ciphertext is not the plaintext.
    assert_ne!(&out[NONCE_LEN..NONCE_LEN + 3], b"abc");
    assert_eq!(decrypt(&out, &key).unwrap(), b"abc");
    // A fresh nonce is drawn on every call.
    let a = encrypt(b"same", &key).unwrap();
    let b = encrypt(b"same", &key).unwrap();
    assert_ne!(a[..NONCE_LEN], b[..NONCE_LEN]);
}

#[test]
fn short_and_empty_inputs() {
    let key = derive_key("short", &[3u8; SALT_LEN]).unwrap();
    assert!(matches!(decrypt(&[0u8; NONCE_LEN + TAG_LEN - 1], &key), Err(RecoilError::AuthFailed)));
    assert!(matches!(decrypt(&[], &key), Err(RecoilError::AuthFailed)));
    // The shortest well-formed input is a nonce and a tag: an empty plaintext.
    let ct = encrypt(b"", &key).unwrap();
    assert_eq!(ct.len(), NONCE_LEN + TAG_LEN);
    assert_eq!(decrypt(&ct, &key).unwrap(), Vec::<u8>::new());
}

#[test]
fn lock_check_reports_minutes_rounded_up() {
    let mut s = LockState::default();
    let now = 1_000_000u64;
    s.on_failure_at(now);
    s.on_failure_at(now);
    assert!(s.check_at(now).is_ok());
    s.on_failure_at(now);
    assert_eq!(s.locked_until, now + 1200);
    assert!(matches!(s.check_at(now), Err(RecoilError::RateLimited { minutes: 20 })));
    assert!(matches!(s.check_at(now + 61), Err(RecoilError::RateLimited { minutes: 19 })));
    assert!(matches!(s.check_at(now + 1199), Err(RecoilError::RateLimited { minutes: 1 })));
    assert!(s.check_at(now + 1200).is_ok());
}

#[test]
fn fifteen_failures_in_an_hour_lock_for_three_hours() {
    let mut s = LockState::default();
    let start = 2_000_000u64;
    for i in 0..15u64 {
        s.on_failure_at(start + i * 60);
    }
    let last = start + 14 * 60;
    assert_eq!(s.locked_until, last + 10_800);
    assert!(matches!(s.check_at(last), Err(RecoilError::RateLimited { minutes: 180 })));
    assert!(!s.hard_locked);
}

#[test]
fn fifty_failures_in_a_day_hard_lock() {
    let mut s = LockState::default();
    let start = 3_000_000u64;
    for i in 0..50u64 {
        s.on_failure_at(start + i * 1000);
    }
    assert!(s.hard_locked);
    assert!(matches!(s.check_at(u64::MAX), Err(RecoilError::HardLocked)));
    s.on_failure_at(start + 60_000);
    assert!(s.hard_locked);
    assert_eq!(s.total_attempts, 51);
}

#[test]
fn failures_older_than_a_day_are_forgotten() {
    let mut s = LockState::default();
    s.on_failure_at(100_000);
    assert_eq!(s.recent_failures, vec![100_000]);
    s.on_failure_at(150_000);
    assert_eq!(s.recent_failures, vec![100_000, 150_000]);
    s.on_failure_at(100_000 + 86_401);
    assert_eq!(s.recent_failures, vec![150_000, 186_401]);
    assert_eq!(s.consecutive, 3);
    assert_eq!(s.total_attempts, 3);
}

#[test]
fn fifteen_failures_in_a_later_hour_lock_for_three_hours() {
    // One failure, then fifteen two hours later within fifteen seconds:
    // the fifteen fall inside one 60-minute span.
    let t0 = 1_000_000u64;
    let mut s = LockState::default();
    s.on_failure_at(t0);
    for i in 0..15u64 {
        s.on_failure_at(t0 + 7200 + i);
    }
    assert_eq!(s.locked_until, t0 + 7214 + 10_800);
    assert!(matches!(s.check_at(t0 + 7214), Err(RecoilError::RateLimited { minutes: 180 })));
    assert!(!s.hard_locked);
}

#[test]
fn fourteen_failures_in_an_hour_only_lock_for_twenty_minutes() {
    let t0 = 2_000_000u64;
    let mut s = LockState::default();
    for i in 0..14u64 {
        s.on_failure_at(t0 + i * 60);
    }
    let last = t0 + 13 * 60;
    assert_eq!(s.locked_until, last + 1200);
    // A fifteenth failure more than an hour after the first does not reach
    // the 3-hour tier.
    s.on_failure_at(t0 + 3601);
    assert_eq!(s.locked_until, t0 + 3601 + 1200);
}

#[test]
fn fifty_failures_across_midnight_lock_for_good() {
    // Fifty failures one second apart, whatever the clock reads.
    let mut s = LockState::default();
    for i in 0..50u64 {
        s.on_failure_at(86_380 + i);
    }
    assert!(s.hard_locked);
}

#[test]
fn attempts_remaining_counts_down_to_one() {
    let mut s = LockState::default();
    assert_eq!(s.attempts_remaining(), 3);
    s.on_failure_at(500_000);
    assert_eq!(s.attempts_remaining(), 2);
    s.on_failure_at(500_000);
    assert_eq!(s.attempts_remaining(), 1);
    s.on_failure_at(500_000);
    assert_eq!(s.attempts_remaining(), 1);
}

#[test]
fn password_strength_counts_bytes_and_classes() {
    // Eight bytes, two classes.
    assert_eq!(password_strength("abcdefg1"), Strength::Moderate);
    // Seven bytes is too short for moderate.
    assert_eq!(password_strength("abcdef1"), Strength::Weak);
    // Multi-byte characters count by their UTF-8 length: "éééé" is 8 bytes.
    assert_eq!(password_strength("éééé1"), Strength::Moderate);
    // Sixteen bytes with three classes.
    assert_eq!(password_strength("abcdefghijklmN1x"), Strength::Strong);
    // Sixteen bytes with two classes is only moderate.
    assert_eq!(password_strength("abcdefghijklmnop1"), Strength::Moderate);
    assert_eq!(password_strength(""), Strength::Weak);
}

#[test]
fn failures_can_be_recorded_until_the_counters_are_full() {
    let mut s = LockState::default();
    assert!(s.can_record_failure(1_000));
    assert!(!s.can_record_failure(u64::MAX));
    assert!(s.can_record_failure(u64::MAX - 10_800));
    s.consecutive = u32::MAX;
    assert!(!s.can_record_failure(1_000));
}
