# music_server

The request logic of a self-hosted music server, verified with Verus.

The server keeps a library of artists, albums and tracks in PostgreSQL and
serves it over a JSON API: listings with paging, search, streaming, embedded
cover pictures, accounts with bcrypt-hashed passwords, session tokens,
playlists and favorites.

## Layout

- `src/` — the verified library.
  - `routes/` — one module per group of endpoints. An endpoint that talks to
    the database in several steps is a *step function*: given what the
    database has answered so far, it returns the next question to ask or the
    reply to send, and its contract states which one for every state of the
    answers. `routes()` in each module lists the module's routes.
  - `auth.rs` — the `Authorization: Bearer <token>` header, token expiry, and
    the authorization steps.
  - `grouping.rs` — distributing tracks under their albums or artists by
    foreign key.
  - `clock.rs`, `ids.rs`, `password.rs` — the calls into `chrono`, `nanoid`
    and `pwhash`, each behind a small trusted wrapper whose contract says
    what the crate's source shows.
  - `laws.rs` — properties across the endpoints, proved.
- `tests/` — tests on concrete values.
- `app/` — the Rocket server: it runs the step functions against the
  database with Diesel, reads files and ID3 tags, and writes the JSON.
