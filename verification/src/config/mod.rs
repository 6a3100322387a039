//! The configuration schema, where its files live, and the encrypted
//! envelope they are stored in.
//!
//! On-disk layout of the configuration: `salt (32 B) || nonce (12 B) ||
//! ciphertext || tag`, the ciphertext holding the JSON of the schema.

use vstd::prelude::*;
use vstd::string::StringSliceAdditionalSpecFns;

use crate::error::RecoilError;
use crate::security::{
    aes256_gcm_open, clock_since_epoch, decrypt, derive_key, encrypt_with_nonce, generate_salt,
    os_random, pbkdf2_hmac_sha512,
    sealed_form, KDF_ITERS, NONCE_LEN, PLAINTEXT_MAX, SALT_LEN, TAG_LEN,
};
use crate::utils::constants::{
    BOOTSTRAP_CONFIG_DIR, CONFIG_VERSION, DIR_DB, DIR_LOGS, DIR_RECOIL_B, DIR_RECOIL_ETC,
    DIR_ROOT_MIRROR, DIR_VAULT, DIR_VERSIONS, FILE_CONFIG, FILE_LOCK_STATE,
};
use crate::utils::fs_detect::{supports_reflink, FilesystemType, LinkStrategy};
use crate::utils::os_detect::{shadow_dir_name_of, Distro};
use crate::utils::text::{has_prefix, join_path, joined, lemma_joined_extends};


verus! {

/// An instant in UTC: seconds since the Unix epoch and the nanoseconds
/// within that second.
#[derive(Debug, Clone, Copy, PartialEq, Eq, Structural)]
pub struct Timestamp {
    pub secs: i64,
    pub nanos: u32,
}

/// The current UTC time; the epoch when the clock reads before it.
pub(crate) fn utc_now() -> (t: Timestamp)
    ensures
        t.nanos < 1_000_000_000,
{
    match clock_since_epoch() {
        Some((secs, nanos)) => {
            let s: i64 = if secs <= 0x7fff_ffff_ffff_ffffu64 { secs as i64 } else { i64::MAX };
            Timestamp { secs: s, nanos }
        },
        None => Timestamp { secs: 0, nanos: 0 },
    }
}

/// Top-level configuration schema stored AES-256-GCM encrypted on disk.
#[derive(Debug, Clone)]
pub struct RecoilConfig {
    /// Schema version — increment on breaking changes.
    pub version: String,
    pub created_at: Timestamp,
    pub updated_at: Timestamp,
    /// Detected Linux distribution.
    pub distro: Distro,
    /// Detected root filesystem type.
    pub filesystem: FilesystemType,
    /// Absolute path of the shadow directory root.
    pub shadow_dir: String,
    /// Mirror linking strategy derived from the filesystem type.
    pub link_strategy: LinkStrategy,
    /// Milestone completion flags — updated as each milestone ships.
    pub milestone1_complete: bool,
    pub milestone2_complete: bool,
    pub milestone3_complete: bool,
    pub milestone4_complete: bool,
    pub milestone5_complete: bool,
}

/// A fresh configuration for `distro` and `filesystem` created at `now`:
/// the current schema version, the distribution's shadow directory under
/// `/`, the filesystem's linking strategy, and no milestone complete.
pub open spec fn fresh_config(
    cfg: RecoilConfig,
    distro: Distro,
    filesystem: FilesystemType,
    now: Timestamp,
) -> bool {
    &&& cfg.version@ == CONFIG_VERSION@
    &&& cfg.created_at == now
    &&& cfg.updated_at == now
    &&& cfg.distro == distro
    &&& cfg.filesystem == filesystem
    &&& cfg.shadow_dir@ == joined("/"@, shadow_dir_name_of(distro))
    &&& cfg.link_strategy == (if supports_reflink(filesystem) {
        LinkStrategy::Reflink
    } else {
        LinkStrategy::HardLink
    })
    &&& !cfg.milestone1_complete
    &&& !cfg.milestone2_complete
    &&& !cfg.milestone3_complete
    &&& !cfg.milestone4_complete
    &&& !cfg.milestone5_complete
}

impl RecoilConfig {
    /// Construct a new config from detected system properties, created at
    /// `now`.
    pub fn new_at(distro: Distro, filesystem: FilesystemType, now: Timestamp) -> (cfg: Self)
        ensures
            fresh_config(cfg, distro, filesystem, now),
    {
        let link_strategy = filesystem.link_strategy();
        let shadow_dir = distro.shadow_path();
        RecoilConfig {
            version: String::from_str(CONFIG_VERSION),
            created_at: now,
            updated_at: now,
            distro,
            filesystem,
            shadow_dir,
            link_strategy,
            milestone1_complete: false,
            milestone2_complete: false,
            milestone3_complete: false,
            milestone4_complete: false,
            milestone5_complete: false,
        }
    }

    /// Construct a new config from detected system properties, created now.
    pub fn new(distro: Distro, filesystem: FilesystemType) -> (cfg: Self)
        ensures
            exists|now: Timestamp| fresh_config(cfg, distro, filesystem, now),
    {
        let now = utc_now();
        Self::new_at(distro, filesystem, now)
    }

    // ── Convenience path helpers ─────────────────────────────────────────────

    pub fn root_mirror(&self) -> (p: String)
        ensures
            p@ == joined(self.shadow_dir@, DIR_ROOT_MIRROR@),
    {
        join_path(self.shadow_dir.as_str(), DIR_ROOT_MIRROR)
    }

    pub fn versions_dir(&self) -> (p: String)
        ensures
            p@ == joined(self.shadow_dir@, DIR_VERSIONS@),
    {
        join_path(self.shadow_dir.as_str(), DIR_VERSIONS)
    }

    pub fn vault_dir(&self) -> (p: String)
        ensures
            p@ == joined(self.shadow_dir@, DIR_VAULT@),
    {
        join_path(self.shadow_dir.as_str(), DIR_VAULT)
    }

    pub fn logs_dir(&self) -> (p: String)
        ensures
            p@ == joined(self.shadow_dir@, DIR_LOGS@),
    {
        join_path(self.shadow_dir.as_str(), DIR_LOGS)
    }

    pub fn db_dir(&self) -> (p: String)
        ensures
            p@ == joined(self.shadow_dir@, DIR_DB@),
    {
        join_path(self.shadow_dir.as_str(), DIR_DB)
    }

    pub fn recoil_b(&self) -> (p: String)
        ensures
            p@ == joined(self.shadow_dir@, DIR_RECOIL_B@),
    {
        join_path(self.shadow_dir.as_str(), DIR_RECOIL_B)
    }

    pub fn recoil_etc(&self) -> (p: String)
        ensures
            p@ == joined(self.shadow_dir@, DIR_RECOIL_ETC@),
    {
        join_path(self.shadow_dir.as_str(), DIR_RECOIL_ETC)
    }

    pub fn config_path(&self) -> (p: String)
        ensures
            p@ == joined(self.shadow_dir@, FILE_CONFIG@),
    {
        join_path(self.shadow_dir.as_str(), FILE_CONFIG)
    }

    pub fn lock_state_path(&self) -> (p: String)
        ensures
            p@ == joined(self.shadow_dir@, FILE_LOCK_STATE@),
    {
        join_path(self.shadow_dir.as_str(), FILE_LOCK_STATE)
    }
}

/// Every path that a configuration names for the shadow layer lies inside
/// its shadow directory.
pub proof fn lemma_paths_inside_shadow_dir(cfg: RecoilConfig)
    ensures
        has_prefix(joined(cfg.shadow_dir@, DIR_ROOT_MIRROR@), cfg.shadow_dir@),
        has_prefix(joined(cfg.shadow_dir@, DIR_VERSIONS@), cfg.shadow_dir@),
        has_prefix(joined(cfg.shadow_dir@, DIR_VAULT@), cfg.shadow_dir@),
        has_prefix(joined(cfg.shadow_dir@, DIR_LOGS@), cfg.shadow_dir@),
        has_prefix(joined(cfg.shadow_dir@, DIR_DB@), cfg.shadow_dir@),
        has_prefix(joined(cfg.shadow_dir@, DIR_RECOIL_B@), cfg.shadow_dir@),
        has_prefix(joined(cfg.shadow_dir@, DIR_RECOIL_ETC@), cfg.shadow_dir@),
        has_prefix(joined(cfg.shadow_dir@, FILE_CONFIG@), cfg.shadow_dir@),
        has_prefix(joined(cfg.shadow_dir@, FILE_LOCK_STATE@), cfg.shadow_dir@),
{
    reveal_strlit("root-mirror");
    reveal_strlit("versions");
    reveal_strlit("vault");
    reveal_strlit("logs");
    reveal_strlit("db");
    reveal_strlit("recoil-b");
    reveal_strlit("recoil-etc");
    reveal_strlit(".config");
    reveal_strlit(".lock_state");
    let d = cfg.shadow_dir@;
    lemma_joined_extends(d, DIR_ROOT_MIRROR@);
    lemma_joined_extends(d, DIR_VERSIONS@);
    lemma_joined_extends(d, DIR_VAULT@);
    lemma_joined_extends(d, DIR_LOGS@);
    lemma_joined_extends(d, DIR_DB@);
    lemma_joined_extends(d, DIR_RECOIL_B@);
    lemma_joined_extends(d, DIR_RECOIL_ETC@);
    lemma_joined_extends(d, FILE_CONFIG@);
    lemma_joined_extends(d, FILE_LOCK_STATE@);
}

// ── ConfigManager ─────────────────────────────────────────────────────────────

/// Where the encrypted configuration lives.
///
/// Two constructors handle the two stages of Recoil's lifecycle:
/// - `bootstrap()` — before the shadow layer exists, `/etc/recoil/.config`.
/// - `from_shadow()` — inside the shadow layer, `<shadow_dir>/.config`.
pub struct ConfigManager {
    dir: String,
    path: String,
}

impl ConfigManager {
    /// The directory holding the configuration file.
    pub closed spec fn dir_of(&self) -> Seq<char> {
        self.dir@
    }

    /// The path of the configuration file.
    pub closed spec fn path_of(&self) -> Seq<char> {
        self.path@
    }

    #[verifier::type_invariant]
    closed spec fn file_in_dir(&self) -> bool {
        self.path@ == joined(self.dir@, FILE_CONFIG@)
    }

    /// Pre-shadow bootstrap path — `/etc/recoil/.config`.
    pub fn bootstrap() -> (m: Self)
        ensures
            m.dir_of() == BOOTSTRAP_CONFIG_DIR@,
            m.path_of() == joined(BOOTSTRAP_CONFIG_DIR@, FILE_CONFIG@),
    {
        let dir = String::from_str(BOOTSTRAP_CONFIG_DIR);
        let path = join_path(BOOTSTRAP_CONFIG_DIR, FILE_CONFIG);
        ConfigManager { dir, path }
    }

    /// Shadow layer path — `<shadow_dir>/.config`.
    pub fn from_shadow(shadow_dir: &str) -> (m: Self)
        ensures
            m.dir_of() == shadow_dir@,
            m.path_of() == joined(shadow_dir@, FILE_CONFIG@),
    {
        let dir = String::from_str(shadow_dir);
        let path = join_path(shadow_dir, FILE_CONFIG);
        ConfigManager { dir, path }
    }

    pub fn path(&self) -> (p: &str)
        ensures
            p@ == self.path_of(),
            p@ == joined(self.dir_of(), FILE_CONFIG@),
    {
        proof {
            use_type_invariant(self);
        }
        self.path.as_str()
    }

    /// The directory holding the configuration file (and the rate-limiter
    /// state beside it).
    pub fn dir(&self) -> (d: &str)
        ensures
            d@ == self.dir_of(),
            self.path_of() == joined(d@, FILE_CONFIG@),
    {
        proof {
            use_type_invariant(self);
        }
        self.dir.as_str()
    }
}

// ── Encrypted envelope ────────────────────────────────────────────────────────

/// The key that `password` and `salt` derive.
pub open spec fn password_key(password: &str, salt: Seq<u8>) -> Seq<u8> {
    pbkdf2_hmac_sha512(password.spec_bytes(), salt, KDF_ITERS)
}

/// The stored form of `json` under `password`, for a given salt and nonce:
/// `salt || nonce || ciphertext || tag`.
pub open spec fn config_blob(json: Seq<u8>, password: &str, salt: Seq<u8>, nonce: Seq<u8>) -> Seq<u8> {
    salt + sealed_form(password_key(password, salt), nonce, json)
}

/// Encrypts the configuration `json` under `password` with the given salt
/// and nonce. Fails with `Crypto` exactly when the JSON is longer than
/// AES-GCM accepts.
pub fn seal_config_with(json: &[u8], password: &str, salt: &[u8; SALT_LEN], nonce: &[u8; NONCE_LEN]) -> (r:
    Result<Vec<u8>, RecoilError>)
    ensures
        r is Ok <==> json@.len() <= PLAINTEXT_MAX,
        r matches Ok(blob) ==> blob@ == config_blob(json@, password, salt@, nonce@) && blob@.len()
            == SALT_LEN + NONCE_LEN + json@.len() + TAG_LEN,
        r matches Err(e) ==> e is Crypto,
{
    let key = match derive_key(password, salt) {
        Ok(k) => k,
        Err(e) => {
            return Err(e);
        },
    };
    let encrypted = match encrypt_with_nonce(json, &key, nonce) {
        Ok(c) => c,
        Err(e) => {
            return Err(e);
        },
    };
    let mut blob: Vec<u8> = Vec::new();
    let mut i: usize = 0;
    while i < SALT_LEN
        invariant
            i <= SALT_LEN,
            blob@ == salt@.subrange(0, i as int),
        decreases SALT_LEN - i,
    {
        blob.push(salt[i]);
        assert(blob@ =~= salt@.subrange(0, i + 1));
        i = i + 1;
    }
    let mut j: usize = 0;
    while j < encrypted.len()
        invariant
            j <= encrypted@.len(),
            blob@ == salt@ + encrypted@.subrange(0, j as int),
        decreases encrypted@.len() - j,
    {
        blob.push(encrypted[j]);
        assert(blob@ =~= salt@ + encrypted@.subrange(0, j + 1));
        j = j + 1;
    }
    assert(encrypted@.subrange(0, encrypted@.len() as int) =~= encrypted@);
    Ok(blob)
}

/// Encrypts the configuration `json` under `password` with a fresh random
/// salt and nonce; whatever they are, the result is what
/// `seal_config_with` gives for them. A fresh salt on every save re-keys
/// the ciphertext. Fails with `Crypto` when the JSON is longer than AES-GCM
/// accepts or the random source fails.
pub fn seal_config(json: &[u8], password: &str) -> (r: Result<Vec<u8>, RecoilError>)
    ensures
        r is Ok ==> json@.len() <= PLAINTEXT_MAX,
        json@.len() > PLAINTEXT_MAX ==> r is Err,
        r matches Ok(blob) ==> exists|salt: Seq<u8>, nonce: Seq<u8>|
            salt.len() == SALT_LEN && nonce.len() == NONCE_LEN && blob@ == #[trigger] config_blob(
                json@,
                password,
                salt,
                nonce,
            ),
        r matches Ok(blob) ==> blob@.len() == SALT_LEN + NONCE_LEN + json@.len() + TAG_LEN,
        r matches Err(e) ==> e is Crypto,
{
    let salt = match generate_salt() {
        Ok(s) => s,
        Err(e) => {
            return Err(e);
        },
    };
    let nonce = match os_random::<NONCE_LEN>() {
        Some(n) => n,
        None => {
            return Err(RecoilError::Crypto(String::from_str("OS random source failed")));
        },
    };
    seal_config_with(json, password, &salt, &nonce)
}

/// Decrypts a stored configuration with `password`, giving back its JSON.
///
/// A blob shorter than the salt plus one byte is `Config` (corrupt or
/// truncated); every other failure — wrong password, tampering,
/// truncation — is `AuthFailed`. A blob that `seal_config` produced with the
/// same password opens to the JSON it sealed.
pub fn open_config(blob: &[u8], password: &str) -> (r: Result<Vec<u8>, RecoilError>)
    ensures
        blob@.len() < SALT_LEN + 1 <==> r matches Err(RecoilError::Config(_)),
        r matches Ok(json) ==> blob@.len() >= SALT_LEN + NONCE_LEN + TAG_LEN && aes256_gcm_open(
            password_key(password, blob@.take(SALT_LEN as int)),
            blob@.subrange(SALT_LEN as int, SALT_LEN + NONCE_LEN),
            blob@.skip(SALT_LEN + NONCE_LEN),
        ) == Some(json@),
        blob@.len() >= SALT_LEN + 1 && r is Err ==> (r matches Err(RecoilError::AuthFailed)) && (blob@.len()
            < SALT_LEN + NONCE_LEN + TAG_LEN || aes256_gcm_open(
            password_key(password, blob@.take(SALT_LEN as int)),
            blob@.subrange(SALT_LEN as int, SALT_LEN + NONCE_LEN),
            blob@.skip(SALT_LEN + NONCE_LEN),
        ) is None),
        forall|json: Seq<u8>, salt: Seq<u8>, nonce: Seq<u8>|
            #![trigger config_blob(json, password, salt, nonce)]
            salt.len() == SALT_LEN && nonce.len() == NONCE_LEN && json.len() <= PLAINTEXT_MAX
                && blob@.len() == SALT_LEN + NONCE_LEN + json.len() + TAG_LEN && blob@ == config_blob(
                json,
                password,
                salt,
                nonce,
            ) ==> (r matches Ok(out) && out@ == json),
{
    if blob.len() < SALT_LEN + 1 {
        return Err(RecoilError::Config(String::from_str("configuration file is corrupt or truncated")));
    }
    let mut salt = [0u8; SALT_LEN];
    let mut i: usize = 0;
    while i < SALT_LEN
        invariant
            i <= SALT_LEN,
            blob@.len() >= SALT_LEN + 1,
            salt@.len() == SALT_LEN,
            forall|k: int| 0 <= k < i ==> salt@[k] == blob@[k],
        decreases SALT_LEN - i,
    {
        salt[i] = blob[i];
        i = i + 1;
    }
    assert(salt@ =~= blob@.take(SALT_LEN as int));
    let (_, rest) = blob.split_at(SALT_LEN);
    assert(rest@ =~= blob@.skip(SALT_LEN as int));
    if rest.len() >= NONCE_LEN {
        assert(rest@.take(NONCE_LEN as int) =~= blob@.subrange(SALT_LEN as int, SALT_LEN + NONCE_LEN));
        assert(rest@.skip(NONCE_LEN as int) =~= blob@.skip(SALT_LEN + NONCE_LEN));
    }
    let key = match derive_key(password, &salt) {
        Ok(k) => k,
        Err(e) => {
            return Err(e);
        },
    };
    proof {
        assert forall|json: Seq<u8>, s: Seq<u8>, n: Seq<u8>|
            #![trigger config_blob(json, password, s, n)]
            s.len() == SALT_LEN && n.len() == NONCE_LEN && json.len() <= PLAINTEXT_MAX && blob@.len()
                == SALT_LEN + NONCE_LEN + json.len() + TAG_LEN && blob@ == config_blob(
                json,
                password,
                s,
                n,
            ) implies s == salt@ && rest@ == sealed_form(key@, n, json) by {
            assert(blob@.take(SALT_LEN as int) =~= s);
            assert(blob@.skip(SALT_LEN as int) =~= sealed_form(password_key(password, s), n, json));
        }
    }
    decrypt(rest, &key)
}

} // verus!
