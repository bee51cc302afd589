# na

A small REST API service (user registration, token issue, user listing) whose
decision logic is a Verus-verified library.

- `src/` — the verified library:
  - `config`: server settings, loading them from TOML text and environment
    variables (`NA__` prefix, `__` path separator), and the `host:port` bind address.
  - `errors`: API errors, the HTTP status and reason each is answered with, and
    their messages.
  - `handlers`: registration (password hashing), credential checks, token issue,
    listing parameters and the rendering of user records.
  - `middleware::jwt`: bearer-token authorization of requests.
  - `password`, `token`: the calls into `argon2`, `jsonwebtoken`, `chrono` and the clocks.
- `app/` — the actix-web server: HTTP routing, database access with diesel, file and
  environment reading, logging.
- `tests/` — tests of the library against the real outside crates.
