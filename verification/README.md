# openab

Kiro CLI access-token handling and the lifecycle-hook / sessions.db janitor
coordination lock, written in Verus.

- `src/` is the verified library: region validation, RFC 3339 expiry parsing
  and checks, the token records and the OIDC refresh request, the decision
  machine of a token fetch (`flow`), and the coordination-lock decisions.
- `app/` performs the I/O the library's decisions call for: the sqlite
  database, the OIDC HTTP call, `kiro-cli whoami`, environment variables and
  `flock(2)`.
- `tests/` runs the library on concrete values.
