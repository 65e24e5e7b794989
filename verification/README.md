# blog_backend

Authentication core of a blog backend, verified with Verus.

- `src/` — the verified library: password hashing (`auth::credential`), JWT
  claims, keys, signing and validation (`auth::claim`, `auth::key`,
  `auth::jwt_manager`), RSA key ids and the JWKS document
  (`auth::key_manager`), settings (`auth::settings`), request authorization
  (`auth::whitelist`, `auth::interceptor`), API messages (`proto`), the
  computed parts of database queries (`repositories`), JSON documents as
  plain values (`json`) and the user service's calls as state machines
  (`services::user`, `services::user_flow`).
- `app/` — the server around it: configuration, PostgreSQL and Redis I/O, key
  files, the gRPC interceptor and the HTTP health endpoint.
- `tests/` — tests run against the compiled library.
