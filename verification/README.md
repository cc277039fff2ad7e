# meli_backend

The back end of a barber shop's web application: merchants register, their barbers
sign in, keep members and their balances, record appointments and look at orders and
top-ups.

- `src/` is the library, verified with Verus: session identifiers, session data and
  the in-memory session store, the commit and load steps of the session layer, the
  session cookie, the signed-in identity and permission checks, the permission lists
  stored with users, and the rules that decide each request (registration, sign-in,
  barbers, members, service types, paging and the columns of the order views).
  `src/laws.rs` states the properties that span several operations.
- `app/` is the HTTP server around it (axum, diesel on PostgreSQL): the session and
  authentication middleware, the session database, the handlers that read what the
  rules need, ask them, and write what they decided.
- `tests/` runs the library on concrete values.

The server reads `DATABASE_URL`, `RUST_LOG`, `DATABASE_ENCRYPTION_SAULT` (the password
salt), `MELI` (`PROD` or `DEV`) and `PROD_CROSS_ORIGIN` / `DEV_CROSS_ORIGIN` from the
environment or a `.env` file. `seed-super-user` as its first argument seeds a test
merchant instead of serving.

The server has no consumer API and no sign-in by user name: the `accounts` and
`consumers` tables those handlers read and write, and the permission codes they check,
are not part of this schema. Barbers sign in by cellphone number or email address.
