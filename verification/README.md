# factorioops

The verified core of a Factorio blueprint-sharing service, written in Verus.

- `src/` is the library, verified by Verus:
  - `ids`: user identifiers (ULIDs), their creation time and their text form;
  - `time`: timestamps, and whether chrono has a date for them;
  - `models`: users, password hashes, filters and pagination;
  - `passwords`: Argon2 hashing and verification of passwords, and parsing
    of PHC hash strings;
  - `query`: the BSON query documents sent to the user collection (built
    through `mongodb::bson::Document`), and the laws of how filters combine;
  - `user_store`: the listings behind lookups by id, username and email;
  - `db`: page limits, update and delete selectors, the collection a store
    uses and the client timeouts it sets;
  - `auth`: the login decision: a token only for a found user whose stored
    hash the password verifies against;
  - `error`: the service's errors and their messages.
- `app/` is the program around it (not verified): telemetry setup, the
  MongoDB store, and the HTTP API with its OpenAPI document.
- `tests/` runs the library on concrete values.

The service's own authentication crate (password hashing and the hash
string type) is not available here; the `argon2` and `password-hash` crates
stand in for it, in `src/passwords.rs`. The library hands a successful login
the access token it is given; token signing is not implemented, and `app/`
issues a fixed placeholder.
