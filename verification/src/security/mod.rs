//! Cryptographic core: key derivation, authenticated encryption, the
//! brute-force rate limiter and the password strength advisory.
//!
//! Key derivation: PBKDF2-HMAC-SHA512 at 600,000 iterations.
//! Encryption: AES-256-GCM with a fresh OS-random 96-bit nonce per call;
//! the output is `nonce (12 bytes) || ciphertext || tag (16 bytes)`.

use vstd::prelude::*;
use vstd::string::StringSliceAdditionalSpecFns;

use aes_gcm::aead::Aead;
use aes_gcm::{Aes256Gcm, Key, KeyInit, Nonce};
use hmac::Hmac;
use rand::rngs::OsRng;
use rand::RngCore;
use sha2::Sha512;
use std::time::{SystemTime, UNIX_EPOCH};

use crate::error::RecoilError;
use crate::utils::text::chars_of;
use crate::utils::constants::{
    TIER1_ATTEMPTS, TIER1_LOCK_SEC, TIER2_ATTEMPTS, TIER2_LOCK_SEC, TIER2_WINDOW, TIER3_ATTEMPTS,
    TIER3_WINDOW,
};

verus! {

pub const KDF_ITERS: u32 = 600000;
/// 256-bit AES key.
pub const KEY_LEN: usize = 32;
/// 96-bit GCM nonce.
pub const NONCE_LEN: usize = 12;
/// 256-bit random salt.
pub const SALT_LEN: usize = 32;
/// 128-bit GCM authentication tag.
pub const TAG_LEN: usize = 16;
/// The longest plaintext AES-GCM accepts, 2^36 bytes.
pub const PLAINTEXT_MAX: u64 = 68719476736;

// ── MasterKey ─────────────────────────────────────────────────────────────────

/// The 256-bit AES key derived from the master password.
///
/// It has no `Debug` form, so its bytes cannot reach log output or panic
/// messages through formatting.
#[derive(Clone)]
pub struct MasterKey([u8; KEY_LEN]);

impl View for MasterKey {
    type V = Seq<u8>;

    closed spec fn view(&self) -> Seq<u8> {
        self.0@
    }
}

impl MasterKey {
    /// The key bytes.
    pub fn as_bytes(&self) -> (r: &[u8; KEY_LEN])
        ensures
            r@ == self@,
    {
        &self.0
    }

    /// A key holds exactly `KEY_LEN` bytes.
    pub proof fn lemma_len(&self)
        ensures
            self@.len() == KEY_LEN,
    {
    }
}

// ── Outside primitives ────────────────────────────────────────────────────────

/// The 32-byte output of PBKDF2 with HMAC-SHA512 over `password`, `salt`
/// and `rounds` iterations.
pub uninterp spec fn pbkdf2_hmac_sha512(password: Seq<u8>, salt: Seq<u8>, rounds: u32) -> Seq<u8>;

/// The AES-256-GCM ciphertext with its 16-byte tag appended, for `key`,
/// `nonce`, no associated data, and `plaintext`.
pub uninterp spec fn aes256_gcm_seal(key: Seq<u8>, nonce: Seq<u8>, plaintext: Seq<u8>) -> Seq<u8>;

/// The plaintext that AES-256-GCM authenticates and recovers from
/// `ciphertext` (tag appended) under `key` and `nonce`, if any.
pub uninterp spec fn aes256_gcm_open(key: Seq<u8>, nonce: Seq<u8>, ciphertext: Seq<u8>) -> Option<
    Seq<u8>,
>;

/// `N` bytes from the operating system's random source, through
/// `RngCore::try_fill_bytes` on `rand::rngs::OsRng`; `None` when the source
/// fails. Nothing is stated of the bytes.
#[verifier::external_body]
pub(crate) fn os_random<const N: usize>() -> (r: Option<[u8; N]>) {
    let mut buf = [0u8; N];
    match OsRng.try_fill_bytes(&mut buf) {
        Ok(()) => Some(buf),
        Err(_) => None,
    }
}

/// Generate a fresh 32-byte cryptographically random salt. Fails with
/// `Crypto` only when the operating system's random source fails.
pub fn generate_salt() -> (r: Result<[u8; SALT_LEN], RecoilError>)
    ensures
        r matches Err(e) ==> e is Crypto,
{
    match os_random::<SALT_LEN>() {
        Some(salt) => Ok(salt),
        None => Err(RecoilError::Crypto(String::from_str("OS random source failed"))),
    }
}

/// Calls `pbkdf2::pbkdf2::<Hmac<Sha512>>` into a 32-byte buffer. The crate
/// fails only when the PRF rejects the password as a key, which HMAC never
/// does, so the result is always present and is `pbkdf2_hmac_sha512` of the
/// arguments.
#[verifier::external_body]
fn pbkdf2_sha512(password: &[u8], salt: &[u8; SALT_LEN], rounds: u32) -> (r: Option<[u8; KEY_LEN]>)
    ensures
        r is Some,
        r matches Some(k) ==> k@ == pbkdf2_hmac_sha512(password@, salt@, rounds),
{
    let mut key = [0u8; KEY_LEN];
    match pbkdf2::pbkdf2::<Hmac<Sha512>>(password, salt, rounds, &mut key) {
        Ok(()) => Some(key),
        Err(_) => None,
    }
}

/// Calls `Aead::encrypt` of `aes_gcm::Aes256Gcm` with no associated data.
/// The crate refuses only a plaintext longer than 2^36 bytes; otherwise the
/// result is `aes256_gcm_seal` of the arguments, 16 bytes longer than the
/// plaintext (the appended tag).
#[verifier::external_body]
fn aes_gcm_seal(key: &[u8; KEY_LEN], nonce: &[u8; NONCE_LEN], plaintext: &[u8]) -> (r: Option<Vec<u8>>)
    ensures
        r is Some <==> plaintext@.len() <= PLAINTEXT_MAX,
        r matches Some(c) ==> c@ == aes256_gcm_seal(key@, nonce@, plaintext@) && c@.len()
            == plaintext@.len() + TAG_LEN,
{
    let cipher = Aes256Gcm::new(Key::<Aes256Gcm>::from_slice(key));
    cipher.encrypt(Nonce::from_slice(nonce), plaintext).ok()
}

/// Calls `Aead::decrypt` of `aes_gcm::Aes256Gcm` with no associated data.
/// The result is `aes256_gcm_open` of the arguments. It also states the
/// correctness of the authenticated encryption: a ciphertext that
/// `aes256_gcm_seal` made from a plaintext under the same key and nonce
/// opens to that plaintext.
#[verifier::external_body]
fn aes_gcm_open(key: &[u8; KEY_LEN], nonce: &[u8; NONCE_LEN], ciphertext: &[u8]) -> (r: Option<Vec<u8>>)
    ensures
        (match r {
            Some(p) => aes256_gcm_open(key@, nonce@, ciphertext@) == Some(p@),
            None => aes256_gcm_open(key@, nonce@, ciphertext@) is None,
        }),
        r is None ==> forall|p: Seq<u8>|
            #![trigger aes256_gcm_seal(key@, nonce@, p)]
            p.len() <= PLAINTEXT_MAX ==> aes256_gcm_seal(key@, nonce@, p) != ciphertext@,
        r matches Some(q) ==> forall|p: Seq<u8>|
            #![trigger aes256_gcm_seal(key@, nonce@, p)]
            p.len() <= PLAINTEXT_MAX ==> (aes256_gcm_seal(key@, nonce@, p) == ciphertext@ ==> q@ == p),
{
    let cipher = Aes256Gcm::new(Key::<Aes256Gcm>::from_slice(key));
    cipher.decrypt(Nonce::from_slice(nonce), ciphertext).ok()
}

// ── Key derivation ────────────────────────────────────────────────────────────

/// Derive a 256-bit AES key from `password` and `salt` using
/// PBKDF2-HMAC-SHA512 at 600,000 iterations over the UTF-8 bytes of the
/// password. Always succeeds.
pub fn derive_key(password: &str, salt: &[u8; SALT_LEN]) -> (r: Result<MasterKey, RecoilError>)
    ensures
        r matches Ok(k) && k@ == pbkdf2_hmac_sha512(password.spec_bytes(), salt@, KDF_ITERS),
{
    match pbkdf2_sha512(password.as_bytes(), salt, KDF_ITERS) {
        Some(k) => Ok(MasterKey(k)),
        None => Err(RecoilError::Crypto(String::from_str("PBKDF2 failed"))),
    }
}

// ── AES-256-GCM ───────────────────────────────────────────────────────────────

/// The output of sealing `plaintext` under `key` with `nonce`:
/// `nonce || ciphertext || tag`.
pub open spec fn sealed_form(key: Seq<u8>, nonce: Seq<u8>, plaintext: Seq<u8>) -> Seq<u8> {
    nonce + aes256_gcm_seal(key, nonce, plaintext)
}

/// Encrypt `plaintext` under `key` with the given 12-byte `nonce` and
/// return `nonce || ciphertext || tag`. Fails with `Crypto` exactly when
/// the plaintext is longer than AES-GCM accepts.
pub fn encrypt_with_nonce(plaintext: &[u8], key: &MasterKey, nonce: &[u8; NONCE_LEN]) -> (r: Result<
    Vec<u8>,
    RecoilError,
>)
    ensures
        r is Ok <==> plaintext@.len() <= PLAINTEXT_MAX,
        r matches Ok(out) ==> out@ == sealed_form(key@, nonce@, plaintext@) && out@.len()
            == NONCE_LEN + plaintext@.len() + TAG_LEN,
        r matches Err(e) ==> e is Crypto,
{
    match aes_gcm_seal(&key.0, nonce, plaintext) {
        Some(ct) => {
            let mut out: Vec<u8> = Vec::new();
            let mut i: usize = 0;
            while i < NONCE_LEN
                invariant
                    i <= NONCE_LEN,
                    out@ == nonce@.subrange(0, i as int),
                decreases NONCE_LEN - i,
            {
                out.push(nonce[i]);
                assert(out@ =~= nonce@.subrange(0, i + 1));
                i = i + 1;
            }
            let mut j: usize = 0;
            while j < ct.len()
                invariant
                    j <= ct@.len(),
                    out@ == nonce@ + ct@.subrange(0, j as int),
                decreases ct@.len() - j,
            {
                out.push(ct[j]);
                assert(out@ =~= nonce@ + ct@.subrange(0, j + 1));
                j = j + 1;
            }
            assert(ct@.subrange(0, ct@.len() as int) =~= ct@);
            Ok(out)
        },
        None => Err(RecoilError::Crypto(String::from_str("AES-GCM encrypt: aead::Error"))),
    }
}

/// Encrypt `plaintext` and return `nonce (12 B) || ciphertext+tag`.
///
/// A fresh OS-random nonce is drawn for every call; whatever it is, the
/// result is what `encrypt_with_nonce` gives for it. Fails with `Crypto`
/// when the plaintext is longer than AES-GCM accepts or the random source
/// fails.
pub fn encrypt(plaintext: &[u8], key: &MasterKey) -> (r: Result<Vec<u8>, RecoilError>)
    ensures
        r matches Ok(out) ==> plaintext@.len() <= PLAINTEXT_MAX && exists|nonce: Seq<u8>|
            nonce.len() == NONCE_LEN && out@ == #[trigger] sealed_form(key@, nonce, plaintext@),
        r matches Ok(out) ==> out@.len() == NONCE_LEN + plaintext@.len() + TAG_LEN,
        plaintext@.len() > PLAINTEXT_MAX ==> r is Err,
        r matches Err(e) ==> e is Crypto,
{
    match os_random::<NONCE_LEN>() {
        Some(nonce) => encrypt_with_nonce(plaintext, key, &nonce),
        None => Err(RecoilError::Crypto(String::from_str("OS random source failed"))),
    }
}

/// Decrypt data produced by `encrypt()`.
///
/// Returns `Err(AuthFailed)` on any failure — wrong key, tampered
/// ciphertext, truncated data — with no diagnostic detail. Data that
/// `encrypt` produced under the same key decrypts to the plaintext it was made from.
pub fn decrypt(data: &[u8], key: &MasterKey) -> (r: Result<Vec<u8>, RecoilError>)
    ensures
        match r {
            Ok(p) => data@.len() >= NONCE_LEN + TAG_LEN && aes256_gcm_open(
                key@,
                data@.take(NONCE_LEN as int),
                data@.skip(NONCE_LEN as int),
            ) == Some(p@),
            Err(e) => e is AuthFailed && (data@.len() < NONCE_LEN + TAG_LEN || aes256_gcm_open(
                key@,
                data@.take(NONCE_LEN as int),
                data@.skip(NONCE_LEN as int),
            ) is None),
        },
        forall|nonce: Seq<u8>, p: Seq<u8>|
            #![trigger sealed_form(key@, nonce, p)]
            nonce.len() == NONCE_LEN && p.len() <= PLAINTEXT_MAX && data@.len() == NONCE_LEN + p.len()
                + TAG_LEN && data@ == sealed_form(key@, nonce, p) ==> (r matches Ok(q) && q@ == p),
{
    if data.len() < NONCE_LEN + TAG_LEN {
        return Err(RecoilError::AuthFailed);
    }
    let mut nonce = [0u8; NONCE_LEN];
    let mut i: usize = 0;
    while i < NONCE_LEN
        invariant
            i <= NONCE_LEN,
            data@.len() >= NONCE_LEN + TAG_LEN,
            nonce@.len() == NONCE_LEN,
            forall|k: int| 0 <= k < i ==> nonce@[k] == data@[k],
        decreases NONCE_LEN - i,
    {
        nonce[i] = data[i];
        i = i + 1;
    }
    assert(nonce@ =~= data@.take(NONCE_LEN as int));
    let (_, ciphertext) = data.split_at(NONCE_LEN);
    assert(ciphertext@ =~= data@.skip(NONCE_LEN as int));
    proof {
        assert forall|n: Seq<u8>, p: Seq<u8>|
            #![trigger sealed_form(key@, n, p)]
            n.len() == NONCE_LEN && p.len() <= PLAINTEXT_MAX && data@.len() == NONCE_LEN + p.len()
                + TAG_LEN && data@ == sealed_form(key@, n, p) implies n == nonce@
            && aes256_gcm_seal(key@, nonce@, p) == ciphertext@ by {
            assert(data@.take(NONCE_LEN as int) =~= n);
            assert(data@.skip(NONCE_LEN as int) =~= aes256_gcm_seal(key@, n, p));
        }
    }
    match aes_gcm_open(&key.0, &nonce, ciphertext) {
        Some(p) => Ok(p),
        None => Err(RecoilError::AuthFailed),
    }
}


// ── LockState — persistent rate limiter ──────────────────────────────────────

/// Serialisable rate-limiter state stored at `<shadow>/.lock_state`.
///
/// All timestamps are wall-clock Unix seconds — the state survives reboots
/// without resetting.
#[derive(Debug, Clone)]
pub struct LockState {
    /// Consecutive failures in the current streak.
    pub consecutive: u32,
    /// Times of the failed attempts of the last 24 hours, oldest first.
    pub recent_failures: Vec<u64>,
    /// Unix timestamp after which the vault is unlocked again. 0 = unlocked.
    pub locked_until: u64,
    /// Permanent hard lock — requires manual administrator reset.
    pub hard_locked: bool,
    /// All-time failed attempt counter for audit purposes.
    pub total_attempts: u32,
}

/// The rate limiter's state as the contracts see it.
#[verifier::ext_equal]
pub struct LockModel {
    pub consecutive: u32,
    pub recent: Seq<u64>,
    pub locked_until: u64,
    pub hard_locked: bool,
    pub total_attempts: u32,
}

impl View for LockState {
    type V = LockModel;

    open spec fn view(&self) -> LockModel {
        LockModel {
            consecutive: self.consecutive,
            recent: self.recent_failures@,
            locked_until: self.locked_until,
            hard_locked: self.hard_locked,
            total_attempts: self.total_attempts,
        }
    }
}

/// The state with no failure recorded.
pub open spec fn clear_lock_state() -> LockModel {
    LockModel { consecutive: 0, recent: seq![], locked_until: 0, hard_locked: false, total_attempts: 0 }
}

impl Default for LockState {
    fn default() -> (s: Self)
        ensures
            s@ == clear_lock_state(),
    {
        LockState {
            consecutive: 0,
            recent_failures: Vec::new(),
            locked_until: 0,
            hard_locked: false,
            total_attempts: 0,
        }
    }
}

/// `a - b`, or 0 when `b` is larger.
pub open spec fn elapsed(a: u64, b: u64) -> int {
    if a >= b { a - b } else { 0 }
}

/// Whole minutes, rounded up.
pub open spec fn minutes_up(secs: int) -> int {
    (secs + 59) / 60
}

/// Whether access is permitted at `now`: a hard lock refuses always; an
/// unexpired lock refuses with the minutes left, rounded up.
pub open spec fn lock_check(s: LockModel, now: u64) -> Result<(), RecoilError> {
    if s.hard_locked {
        Err(RecoilError::HardLocked)
    } else if now < s.locked_until {
        Err(RecoilError::RateLimited { minutes: minutes_up(s.locked_until - now) as u64 })
    } else {
        Ok(())
    }
}

/// The times of `times` at most `window` seconds before `now`, in order.
pub open spec fn within(times: Seq<u64>, now: u64, window: u64) -> Seq<u64>
    decreases times.len(),
{
    if times.len() == 0 {
        seq![]
    } else if elapsed(now, times.last()) <= window {
        within(times.drop_last(), now, window).push(times.last())
    } else {
        within(times.drop_last(), now, window)
    }
}

/// The state after one failed attempt at `now`: both failure counters grow
/// by one; the failure joins those of the last 24 hours; then the most
/// severe tier that applies is taken: 50 failures within the last 24 hours
/// lock for good, 15 within the last hour lock for 3 hours, and 3
/// consecutive failures lock for 20 minutes.
pub open spec fn failure_step(s: LockModel, now: u64) -> LockModel {
    let consecutive = (s.consecutive + 1) as u32;
    let total_attempts = (s.total_attempts + 1) as u32;
    let recent = within(s.recent, now, TIER3_WINDOW).push(now);
    let counted = LockModel {
        consecutive,
        recent,
        locked_until: s.locked_until,
        hard_locked: s.hard_locked,
        total_attempts,
    };
    if recent.len() >= TIER3_ATTEMPTS {
        LockModel { hard_locked: true, ..counted }
    } else if within(recent, now, TIER2_WINDOW).len() >= TIER2_ATTEMPTS {
        LockModel { locked_until: (now + TIER2_LOCK_SEC) as u64, ..counted }
    } else if consecutive >= TIER1_ATTEMPTS {
        LockModel { locked_until: (now + TIER1_LOCK_SEC) as u64, ..counted }
    } else {
        counted
    }
}

/// The counters can take one more failure, and a lock starting at `now`
/// can be dated.
pub open spec fn failure_fits(s: LockModel, now: u64) -> bool {
    &&& s.consecutive < u32::MAX
    &&& s.total_attempts < u32::MAX
    &&& now <= u64::MAX - TIER2_LOCK_SEC
}

/// The times of `times` at most `window` seconds before `now`.
fn times_within(times: &Vec<u64>, now: u64, window: u64) -> (r: Vec<u64>)
    ensures
        r@ == within(times@, now, window),
{
    let mut r: Vec<u64> = Vec::new();
    let mut i: usize = 0;
    assert(times@.take(0) =~= seq![]);
    while i < times.len()
        invariant
            i <= times@.len(),
            r@ == within(times@.take(i as int), now, window),
        decreases times@.len() - i,
    {
        assert(times@.take(i + 1).drop_last() =~= times@.take(i as int));
        let t = times[i];
        let e = if now >= t { now - t } else { 0 };
        if e <= window {
            r.push(t);
        }
        i = i + 1;
    }
    assert(times@.take(times@.len() as int) =~= times@);
    r
}

/// How many times of `times` are at most `window` seconds before `now`.
fn count_within(times: &Vec<u64>, now: u64, window: u64) -> (n: usize)
    ensures
        n == within(times@, now, window).len(),
{
    let mut n: usize = 0;
    let mut i: usize = 0;
    assert(times@.take(0) =~= seq![]);
    while i < times.len()
        invariant
            i <= times@.len(),
            n == within(times@.take(i as int), now, window).len(),
            n <= i,
        decreases times@.len() - i,
    {
        assert(times@.take(i + 1).drop_last() =~= times@.take(i as int));
        let t = times[i];
        let e = if now >= t { now - t } else { 0 };
        if e <= window {
            n = n + 1;
        }
        i = i + 1;
    }
    assert(times@.take(times@.len() as int) =~= times@);
    n
}

/// The time since the Unix epoch as whole seconds and the nanoseconds
/// within the second, from `SystemTime::now().duration_since(UNIX_EPOCH)`;
/// `None` when the clock reads before the epoch. Nothing is stated of the
/// reading but that the nanoseconds are below one billion, as
/// `Duration::subsec_nanos` documents.
#[verifier::external_body]
pub(crate) fn clock_since_epoch() -> (r: Option<(u64, u32)>)
    ensures
        r matches Some(t) ==> t.1 < 1_000_000_000,
{
    match SystemTime::now().duration_since(UNIX_EPOCH) {
        Ok(d) => Some((d.as_secs(), d.subsec_nanos())),
        Err(_) => None,
    }
}

/// The current Unix time in seconds; 0 when the clock reads before the
/// epoch.
pub(crate) fn unix_now() -> (now: u64) {
    match clock_since_epoch() {
        Some((secs, _)) => secs,
        None => 0,
    }
}

impl LockState {
    /// Whether the vault is locked at `now`.
    pub fn check_at(&self, now: u64) -> (r: Result<(), RecoilError>)
        ensures
            r == lock_check(self@, now),
    {
        if self.hard_locked {
            return Err(RecoilError::HardLocked);
        }
        if now < self.locked_until {
            let left = self.locked_until - now;
            let mins = left / 60 + if left % 60 == 0 { 0 } else { 1 };
            assert(mins == minutes_up(left as int));
            return Err(RecoilError::RateLimited { minutes: mins });
        }
        Ok(())
    }

    /// Check whether the vault is currently locked.
    /// Returns `Err` when locked, `Ok(())` when access should be permitted.
    pub fn check(&self) -> (r: Result<(), RecoilError>)
        ensures
            exists|now: u64| r == lock_check(self@, now),
            self.hard_locked ==> r == Err::<(), RecoilError>(RecoilError::HardLocked),
            !self.hard_locked && self.locked_until == 0 ==> r is Ok,
    {
        let now = unix_now();
        self.check_at(now)
    }

    /// Number of attempts remaining before the next lockout tier activates.
    pub fn attempts_remaining(&self) -> (n: u32)
        ensures
            n == (if self.consecutive < TIER1_ATTEMPTS { TIER1_ATTEMPTS - self.consecutive } else { 1 }),
    {
        if self.consecutive < TIER1_ATTEMPTS {
            TIER1_ATTEMPTS - self.consecutive
        } else {
            1
        }
    }

    /// Record a successful authentication and reset all counters.
    pub fn on_success(&mut self)
        ensures
            final(self)@ == clear_lock_state(),
    {
        *self = LockState::default();
    }

    /// Whether a failure at `now` can be recorded: the counters have room
    /// for one more, and a lock starting at `now` can be dated.
    pub fn can_record_failure(&self, now: u64) -> (r: bool)
        ensures
            r == failure_fits(self@, now),
    {
        self.consecutive < u32::MAX && self.total_attempts < u32::MAX && now <= u64::MAX - TIER2_LOCK_SEC
    }

    /// Record a failed authentication attempt at `now` and apply the
    /// appropriate tier.
    pub fn on_failure_at(&mut self, now: u64)
        requires
            failure_fits(old(self)@, now),
        ensures
            final(self)@ == failure_step(old(self)@, now),
    {
        let mut recent = times_within(&self.recent_failures, now, TIER3_WINDOW);
        recent.push(now);
        let day = recent.len();
        let hour = count_within(&recent, now, TIER2_WINDOW);
        self.consecutive = self.consecutive + 1;
        self.total_attempts = self.total_attempts + 1;
        self.recent_failures = recent;
        if day >= 50 {
            self.hard_locked = true;
            return;
        }
        if hour >= 15 {
            self.locked_until = now + TIER2_LOCK_SEC;
            return;
        }
        if self.consecutive >= TIER1_ATTEMPTS {
            self.locked_until = now + TIER1_LOCK_SEC;
        }
    }

    /// Record a failed authentication attempt at the current time and apply
    /// the appropriate tier. A clock reading later than
    /// `u64::MAX - TIER2_LOCK_SEC` is taken as that bound, so that a lock can
    /// always be dated.
    pub fn on_failure(&mut self)
        requires
            old(self).consecutive < u32::MAX,
            old(self).total_attempts < u32::MAX,
        ensures
            exists|now: u64|
                now <= u64::MAX - TIER2_LOCK_SEC && final(self)@ == #[trigger] failure_step(old(self)@, now),
    {
        let clock = unix_now();
        let now = if clock <= u64::MAX - TIER2_LOCK_SEC { clock } else { u64::MAX - TIER2_LOCK_SEC };
        self.on_failure_at(now);
    }
}

// ── Rate-limiter laws ─────────────────────────────────────────────────────────

/// The state after a failed attempt at each of `times`, in order.
pub open spec fn after_failures(s: LockModel, times: Seq<u64>) -> LockModel
    decreases times.len(),
{
    if times.len() == 0 {
        s
    } else {
        failure_step(after_failures(s, times.drop_last()), times.last())
    }
}

/// Failure times as a clock gives them: in order, datable, and few enough
/// for the 32-bit counters.
pub open spec fn clock_times(times: Seq<u64>) -> bool {
    &&& times.len() < u32::MAX
    &&& forall|i: int, j: int| 0 <= i <= j < times.len() ==> times[i] <= times[j]
    &&& forall|i: int| 0 <= i < times.len() ==> times[i] <= u64::MAX - TIER2_LOCK_SEC
}

proof fn lemma_within_len(times: Seq<u64>, now: u64, window: u64)
    ensures
        within(times, now, window).len() <= times.len(),
    decreases times.len(),
{
    if times.len() > 0 {
        lemma_within_len(times.drop_last(), now, window);
    }
}

/// Keeping the times within `window` of `later` from those within `window`
/// of an earlier `now` keeps the same times as from all of them, when no
/// time is after `now`.
proof fn lemma_within_again(times: Seq<u64>, now: u64, later: u64, window: u64)
    requires
        now <= later,
        forall|i: int| 0 <= i < times.len() ==> times[i] <= now,
    ensures
        within(within(times, now, window), later, window) == within(times, later, window),
    decreases times.len(),
{
    if times.len() > 0 {
        let rest = times.drop_last();
        assert forall|i: int| 0 <= i < rest.len() implies rest[i] <= now by {
            assert(rest[i] == times[i]);
        }
        lemma_within_again(rest, now, later, window);
        assert(times.last() == times[times.len() - 1]);
        let inner = within(rest, now, window);
        if elapsed(now, times.last()) <= window {
            assert(within(times, now, window) == inner.push(times.last()));
            assert(inner.push(times.last()).drop_last() =~= inner);
        }
    }
}

/// Of the times within a wide window, those within a narrower one are
/// those of all the times.
proof fn lemma_within_narrower(times: Seq<u64>, now: u64, narrow: u64, wide: u64)
    requires
        narrow <= wide,
    ensures
        within(within(times, now, wide), now, narrow) == within(times, now, narrow),
    decreases times.len(),
{
    if times.len() > 0 {
        let rest = times.drop_last();
        lemma_within_narrower(rest, now, narrow, wide);
        let inner = within(rest, now, wide);
        if elapsed(now, times.last()) <= wide {
            assert(inner.push(times.last()).drop_last() =~= inner);
        }
    }
}

/// When the last `k` of sorted times lie within `window` of `now`, at least
/// `k` times are kept.
proof fn lemma_within_keeps_last(times: Seq<u64>, now: u64, window: u64, k: int)
    requires
        0 <= k <= times.len(),
        forall|i: int, j: int| 0 <= i <= j < times.len() ==> times[i] <= times[j],
        forall|i: int| 0 <= i < times.len() ==> times[i] <= now,
        k > 0 ==> now - times[times.len() - k] <= window,
    ensures
        within(times, now, window).len() >= k,
    decreases times.len(),
{
    if times.len() > 0 {
        let rest = times.drop_last();
        let n = times.len();
        assert forall|i: int, j: int| 0 <= i <= j < rest.len() implies rest[i] <= rest[j] by {
            assert(rest[i] == times[i] && rest[j] == times[j]);
        }
        assert forall|i: int| 0 <= i < rest.len() implies rest[i] <= now by {
            assert(rest[i] == times[i]);
        }
        if k > 0 {
            assert(times.last() == times[n - 1]);
            assert(times[n - k] <= times[n - 1]);
            if k > 1 {
                assert(rest[rest.len() - (k - 1)] == times[n - k]);
            }
            lemma_within_keeps_last(rest, now, window, k - 1);
        } else {
            lemma_within_keeps_last(rest, now, window, 0);
        }
    }
}

/// Starting clear, the failures remembered after sorted failure times are
/// exactly those within 24 hours of the last one.
pub proof fn lemma_recent_failures(times: Seq<u64>)
    requires
        clock_times(times),
        times.len() >= 1,
    ensures
        after_failures(clear_lock_state(), times).recent == within(times, times.last(), TIER3_WINDOW),
    decreases times.len(),
{
    let rest = times.drop_last();
    let t = times.last();
    assert(t == times[times.len() - 1]);
    assert(within(times, t, TIER3_WINDOW) == within(rest, t, TIER3_WINDOW).push(t));
    if rest.len() == 0 {
        assert(after_failures(clear_lock_state(), rest) == clear_lock_state());
        assert(within(rest, t, TIER3_WINDOW) =~= seq![]);
    } else {
        assert(clock_times(rest));
        lemma_recent_failures(rest);
        let l = rest.last();
        assert(l == times[times.len() - 2]);
        assert forall|i: int| 0 <= i < rest.len() implies rest[i] <= l by {
            assert(rest[i] == times[i]);
        }
        lemma_within_again(rest, l, t, TIER3_WINDOW);
    }
}

/// A failure that brings the streak of consecutive failures to three (or
/// more) leaves the vault locked at that moment.
pub proof fn lemma_streak_of_three_locks(s: LockModel, now: u64)
    requires
        failure_fits(s, now),
        s.consecutive + 1 >= TIER1_ATTEMPTS,
    ensures
        lock_check(failure_step(s, now), now) is Err,
{
}

/// A hard lock is never lifted by further failures, and refuses access at
/// any time.
pub proof fn lemma_hard_lock_is_permanent(s: LockModel, now: u64, later: u64)
    requires
        s.hard_locked,
    ensures
        failure_step(s, now).hard_locked,
        lock_check(s, later) == Err::<(), RecoilError>(RecoilError::HardLocked),
{
}

/// After a success the vault is open at any time.
pub proof fn lemma_success_unlocks(now: u64)
    ensures
        lock_check(clear_lock_state(), now) is Ok,
{
}

/// The limits of the documented tiers and of key derivation: 3 consecutive
/// failures lock for 20 minutes, 15 within an hour for 3 hours, 50 within
/// 24 hours for good; keys take 600,000 PBKDF2 rounds.
pub proof fn lemma_documented_limits()
    ensures
        TIER1_ATTEMPTS == 3 && TIER1_LOCK_SEC == 20 * 60,
        TIER2_ATTEMPTS == 15 && TIER2_WINDOW == 60 * 60 && TIER2_LOCK_SEC == 3 * 60 * 60,
        TIER3_ATTEMPTS == 50 && TIER3_WINDOW == 24 * 60 * 60,
        KDF_ITERS == 600000,
        KEY_LEN == 32 && NONCE_LEN == 12 && SALT_LEN == 32 && TAG_LEN == 16,
{
}

/// Access is refused exactly while a hard lock holds or `locked_until` is
/// still ahead; a rate limit reports the minutes left, rounded up: the
/// reported minutes cover the time left, and one minute less would not.
pub proof fn lemma_lock_check_meaning(s: LockModel, now: u64)
    ensures
        lock_check(s, now) is Ok <==> !s.hard_locked && now >= s.locked_until,
        s.hard_locked ==> lock_check(s, now) == Err::<(), RecoilError>(RecoilError::HardLocked),
        lock_check(s, now) matches Err(RecoilError::RateLimited { minutes }) ==> !s.hard_locked && now
            < s.locked_until && minutes * 60 >= s.locked_until - now && (minutes - 1) * 60 < s.locked_until
            - now,
        !s.hard_locked && now < s.locked_until ==> lock_check(s, now) is Err && !(lock_check(s, now)
            == Err::<(), RecoilError>(RecoilError::HardLocked)),
{
    if !s.hard_locked && now < s.locked_until {
        let left = s.locked_until - now;
        assert(((left + 59) / 60) * 60 >= left && ((left + 59) / 60 - 1) * 60 < left) by (nonlinear_arith)
            requires
                left > 0,
        ;
    }
}

/// A lock that is not hard expires: from `locked_until` on, access is
/// permitted.
pub proof fn lemma_lock_expires(s: LockModel, now: u64)
    requires
        !s.hard_locked,
        now >= s.locked_until,
    ensures
        lock_check(s, now) is Ok,
{
}

/// Starting clear, every failure counts once in the streak and in the
/// all-time total, and no more failures are remembered than happened.
pub proof fn lemma_failures_counted(times: Seq<u64>)
    requires
        times.len() < u32::MAX,
    ensures
        after_failures(clear_lock_state(), times).consecutive == times.len(),
        after_failures(clear_lock_state(), times).total_attempts == times.len(),
        after_failures(clear_lock_state(), times).recent.len() <= times.len(),
    decreases times.len(),
{
    if times.len() > 0 {
        let rest = times.drop_last();
        lemma_failures_counted(rest);
        lemma_within_len(after_failures(clear_lock_state(), rest).recent, times.last(), TIER3_WINDOW);
    }
}

/// Starting clear, fewer than fifty failures never lock for good.
pub proof fn lemma_no_hard_lock_before_fifty(times: Seq<u64>)
    requires
        times.len() < TIER3_ATTEMPTS,
    ensures
        !after_failures(clear_lock_state(), times).hard_locked,
    decreases times.len(),
{
    if times.len() > 0 {
        let rest = times.drop_last();
        lemma_no_hard_lock_before_fifty(rest);
        lemma_failures_counted(rest);
        lemma_within_len(after_failures(clear_lock_state(), rest).recent, times.last(), TIER3_WINDOW);
    }
}

/// Fifty failures within any 24 hours lock the vault for good: starting
/// clear, when the last fifty of sorted failure times span at most 24
/// hours, the vault is hard locked at any later time.
pub proof fn lemma_fifty_failures_in_a_day_lock_for_good(times: Seq<u64>, later: u64)
    requires
        clock_times(times),
        times.len() >= TIER3_ATTEMPTS,
        times.last() - times[times.len() - TIER3_ATTEMPTS] <= TIER3_WINDOW,
    ensures
        after_failures(clear_lock_state(), times).hard_locked,
        lock_check(after_failures(clear_lock_state(), times), later) == Err::<(), RecoilError>(
            RecoilError::HardLocked,
        ),
{
    let t = times.last();
    assert(t == times[times.len() - 1]);
    lemma_recent_failures(times);
    lemma_within_keeps_last(times, t, TIER3_WINDOW, TIER3_ATTEMPTS as int);
}

/// Fifteen failures within any 60 minutes lock the vault for three hours
/// from the fifteenth, unless the 24-hour tier locks it for good: starting
/// clear, when the last fifteen of sorted failure times span at most an
/// hour. With fewer than fifty failures in all, the lock shows 180 minutes
/// at that moment.
pub proof fn lemma_fifteen_failures_in_an_hour_lock_for_three_hours(times: Seq<u64>)
    requires
        clock_times(times),
        times.len() >= TIER2_ATTEMPTS,
        times.last() - times[times.len() - TIER2_ATTEMPTS] <= TIER2_WINDOW,
    ensures
        after_failures(clear_lock_state(), times).hard_locked || after_failures(
            clear_lock_state(),
            times,
        ).locked_until == times.last() + TIER2_LOCK_SEC,
        lock_check(after_failures(clear_lock_state(), times), times.last()) is Err,
        times.len() < TIER3_ATTEMPTS ==> lock_check(after_failures(clear_lock_state(), times), times.last())
            == Err::<(), RecoilError>(RecoilError::RateLimited { minutes: 180 }),
{
    let t = times.last();
    assert(t == times[times.len() - 1]);
    lemma_recent_failures(times);
    lemma_within_narrower(times, t, TIER2_WINDOW, TIER3_WINDOW);
    lemma_within_keeps_last(times, t, TIER2_WINDOW, TIER2_ATTEMPTS as int);
    if times.len() < TIER3_ATTEMPTS {
        lemma_no_hard_lock_before_fifty(times);
    }
}

/// Starting clear, three failures (or more) leave the vault locked at the
/// moment of the last one.
pub proof fn lemma_three_failures_lock(times: Seq<u64>)
    requires
        clock_times(times),
        times.len() >= TIER1_ATTEMPTS,
    ensures
        lock_check(after_failures(clear_lock_state(), times), times.last()) is Err,
{
    let rest = times.drop_last();
    lemma_failures_counted(rest);
    assert(times.last() == times[times.len() - 1]);
    lemma_streak_of_three_locks(after_failures(clear_lock_state(), rest), times.last());
}


// ── Password strength ─────────────────────────────────────────────────────────

#[derive(Debug, Clone, Copy, PartialEq, Eq, Structural)]
pub enum Strength {
    Weak,
    Moderate,
    Strong,
}

/// What `char::is_uppercase` returns (the Unicode `Uppercase` property).
pub uninterp spec fn unicode_uppercase(c: char) -> bool;

/// What `char::is_lowercase` returns (the Unicode `Lowercase` property).
pub uninterp spec fn unicode_lowercase(c: char) -> bool;

/// What `char::is_alphanumeric` returns (Unicode `Alphabetic` or `Numeric`).
pub uninterp spec fn unicode_alphanumeric(c: char) -> bool;

/// Calls `char::is_uppercase`.
#[verifier::external_body]
fn is_uppercase(c: char) -> (r: bool)
    ensures
        r == unicode_uppercase(c),
{
    c.is_uppercase()
}

/// Calls `char::is_lowercase`.
#[verifier::external_body]
fn is_lowercase(c: char) -> (r: bool)
    ensures
        r == unicode_lowercase(c),
{
    c.is_lowercase()
}

/// Calls `char::is_alphanumeric`.
#[verifier::external_body]
fn is_alphanumeric(c: char) -> (r: bool)
    ensures
        r == unicode_alphanumeric(c),
{
    c.is_alphanumeric()
}

pub open spec fn has_upper(pw: Seq<char>) -> bool {
    exists|i: int| 0 <= i < pw.len() && unicode_uppercase(pw[i])
}

pub open spec fn has_lower(pw: Seq<char>) -> bool {
    exists|i: int| 0 <= i < pw.len() && unicode_lowercase(pw[i])
}

pub open spec fn has_digit(pw: Seq<char>) -> bool {
    exists|i: int| 0 <= i < pw.len() && '0' <= pw[i] && pw[i] <= '9'
}

pub open spec fn has_symbol(pw: Seq<char>) -> bool {
    exists|i: int| 0 <= i < pw.len() && !unicode_alphanumeric(pw[i])
}

pub open spec fn count(b: bool) -> nat {
    if b { 1 } else { 0 }
}

/// How many of the four character classes (upper case, lower case, ASCII
/// digit, non-alphanumeric) occur in the password.
pub open spec fn class_score(pw: Seq<char>) -> nat {
    count(has_upper(pw)) + count(has_lower(pw)) + count(has_digit(pw)) + count(has_symbol(pw))
}

/// Strong from 16 bytes with three classes, moderate from 8 bytes with two,
/// weak otherwise.
pub open spec fn strength_of(byte_len: nat, score: nat) -> Strength {
    if byte_len >= 16 && score >= 3 {
        Strength::Strong
    } else if byte_len >= 8 && score >= 2 {
        Strength::Moderate
    } else {
        Strength::Weak
    }
}

/// The score of a password is how many of the four character classes occur
/// in it: an upper-case letter, a lower-case letter, an ASCII digit, and a
/// character that is neither a letter nor a digit (a symbol).
pub proof fn lemma_class_score_counts_classes(pw: Seq<char>)
    ensures
        class_score(pw) == (if exists|i: int| 0 <= i < pw.len() && unicode_uppercase(pw[i]) { 1int } else { 0 })
            + (if exists|i: int| 0 <= i < pw.len() && unicode_lowercase(pw[i]) { 1int } else { 0 })
            + (if exists|i: int| 0 <= i < pw.len() && '0' <= pw[i] && pw[i] <= '9' { 1int } else { 0 })
            + (if exists|i: int| 0 <= i < pw.len() && !unicode_alphanumeric(pw[i]) { 1int } else { 0 }),
        class_score(pw) <= 4,
        (exists|i: int| 0 <= i < pw.len() && !unicode_alphanumeric(pw[i])) ==> class_score(pw) >= 1,
{
}

/// A password of at least 16 bytes with at least three classes is strong;
/// one of at least 8 bytes with at least two classes is at least moderate;
/// every other is weak. More bytes or more classes never weaken it.
pub proof fn lemma_strength_thresholds(byte_len: nat, score: nat, more_len: nat, more_score: nat)
    ensures
        strength_of(byte_len, score) == Strength::Strong <==> byte_len >= 16 && score >= 3,
        strength_of(byte_len, score) == Strength::Weak <==> !(byte_len >= 8 && score >= 2),
        strength_of(byte_len, score) == Strength::Moderate <==> (byte_len >= 8 && score >= 2 && !(
        byte_len >= 16 && score >= 3)),
        byte_len <= more_len && score <= more_score && strength_of(byte_len, score) != Strength::Weak
            ==> strength_of(more_len, more_score) != Strength::Weak,
        byte_len <= more_len && score <= more_score && strength_of(byte_len, score) == Strength::Strong
            ==> strength_of(more_len, more_score) == Strength::Strong,
{
}

/// Advisory password strength classification used by `recoil setup` to
/// display the `⚠ Password is relatively weak` warning. Does not block.
/// The length is counted in UTF-8 bytes.
pub fn password_strength(pw: &str) -> (r: Strength)
    ensures
        r == strength_of(pw.len() as nat, class_score(pw@)),
{
    let v = chars_of(pw);
    let mut upper = false;
    let mut lower = false;
    let mut digit = false;
    let mut symbol = false;
    let mut i: usize = 0;
    while i < v.len()
        invariant
            i <= v@.len(),
            v@ == pw@,
            upper == exists|k: int| 0 <= k < i && unicode_uppercase(v@[k]),
            lower == exists|k: int| 0 <= k < i && unicode_lowercase(v@[k]),
            digit == exists|k: int| 0 <= k < i && '0' <= v@[k] && v@[k] <= '9',
            symbol == exists|k: int| 0 <= k < i && !unicode_alphanumeric(v@[k]),
        decreases v@.len() - i,
    {
        let c = v[i];
        upper = upper || is_uppercase(c);
        lower = lower || is_lowercase(c);
        digit = digit || ('0' <= c && c <= '9');
        symbol = symbol || !is_alphanumeric(c);
        i = i + 1;
    }
    let score: usize = (if upper { 1 } else { 0 }) + (if lower { 1 } else { 0 }) + (if digit { 1 } else { 0 })
        + (if symbol { 1 } else { 0 });
    let len = pw.len();
    assert(score == class_score(pw@));
    if len >= 16 && score >= 3 {
        Strength::Strong
    } else if len >= 8 && score >= 2 {
        Strength::Moderate
    } else {
        Strength::Weak
    }
}

} // verus!
