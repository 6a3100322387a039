# recoil

Recoil is an immutable root-filesystem safety net for Linux. This crate is
its core, written in Verus. The functions in `src/` are proved against their
contracts, except the few small `external_body` wrappers that call the
outside crates, the clock and std's path and Unicode functions: their
contracts are trusted, not proved, and each says in its doc comment what it
claims of the function it calls.

## Layout

- `src/` — the verified library.
  - `utils/` — distribution detection from `/etc/os-release` text,
    filesystem classification by `statfs(2)` magic number, project constants,
    and character-level text helpers.
  - `security/` — PBKDF2-HMAC-SHA512 key derivation, AES-256-GCM framing
    (`nonce || ciphertext || tag`), the three-tier brute-force rate limiter
    over rolling windows (it remembers the failures of the last 24 hours)
    with its laws, and the password strength advisory.
  - `config/` — the configuration schema, where its files live, and the
    encrypted envelope (`salt || nonce || ciphertext || tag`).
  - `cli/` — the commands' arguments and the decisions behind them: the
    password retry protocol, history filtering, restore naming, setup
    preconditions, status reports.
  - `shadow/` — the shadow layer operations (not yet implemented; they
    report success).
- `app/` — the `recoil` program: command-line parsing, terminal output,
  prompts, file persistence (JSON through serde), and system queries.
- `tests/` — tests of the library on concrete values.

The outside crates that do the cryptography (`pbkdf2`, `hmac`, `sha2`,
`aes-gcm`, `rand`) are called from `src/` through those trusted wrappers.
