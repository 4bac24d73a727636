# auth_api

The verified core of a small authentication service (register, login,
refresh-token rotation, logout and logout from all devices) and the HTTP
service around it.

- `src/` is the library, checked by Verus:
  - `text` — decimal rendering and parsing of `i64`, lowercase hex.
  - `time` — instants and spans as integers; the clock, `humantime` and
    `chrono` arithmetic behind trusted wrappers.
  - `token` — fresh refresh tokens (UUID v4) and their SHA-256 digests.
  - `password` — Argon2 hashing and verification.
  - `jwt` — access-token claims, expiry, HS256 encoding and verification.
  - `validate`, `dto` — request bodies, their validation rules, and the
    text of failures as `validator` renders it.
  - `error` — the error type, its message, status and response text.
  - `auth_user` — bearer-token extraction and the revocation check.
  - `service` — the steps of each operation: every step takes what the
    previous storage or Redis call returned and says what to do next.
  - `laws` — properties spanning several steps.
- `app/` is the HTTP service (axum, sqlx, Redis) that carries out the steps.
- `tests/` exercises the library on concrete values.
