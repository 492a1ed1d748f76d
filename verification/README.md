# login_guard

Login protection for a small multi-user server, verified with Verus.

- `src/auth/rbac.rs`: roles, what they may do, and the names they are stored under.
- `src/auth/password.rs`: the password policy, and hashing with Argon2id.
- `src/auth/attempts.rs`: the table of failed attempts.
- `src/auth/throttle.rs`: the progressive delay per username and the cap on
  concurrent verifications.
- `src/auth/throttle_laws.rs`: what the throttle promises of every run.
- `src/auth/extractor.rs`: from the `Authorization` header to trusted claims, step by
  step.
- `src/db/users.rs`, `src/db/admin.rs`: rows to be written, and the set-up of the
  first administrator.
- `src/clock.rs`: what is trusted of the standard library's time types.
- `app/`: the HTTP extractor, the shared throttle and the SQLite store around it.
