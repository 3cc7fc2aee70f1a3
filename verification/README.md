# Fleqtra

A small object-store service: users with Argon2-hashed passwords, HS256
access tokens, uploads stored on disk, object records in PostgreSQL.

- `src/` is the library, verified with Verus: token claims and their JSON
  text (`claims`), issuing and checking tokens (`jwt`), bearer
  authentication (`extractor`), password hashing (`password`), the answers
  of the HTTP endpoints (`endpoint`, `routes`, `upload`), the outcomes of the
  user store's queries (`users`), stored objects (`object`) and file
  locations (`storage`, `paths`).
- `app/` is the server: axum routing, PostgreSQL through deadpool, file I/O.
  It does the I/O and hands the results to the library.
- `tests/` runs the library on concrete values.
