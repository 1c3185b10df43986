# ull-fleet-server

A fleet-management backend that accepts one over-the-air (OTA) firmware image
at a time and serves it to a device exactly once.

- `src/` is the verified library:
  - `domain/ota.rs`: pending records and the upload, download and
    initialization flows, each a state machine that asks for outside work
    (`domain/effects.rs`) and decides on what comes back;
  - `domain/store_model.rs`: a model of the database record and the uploads
    directory, and the laws of the service proved against it (an image is
    served once, a later upload replaces an earlier one, failures roll back);
  - `api/`: content-type checking of uploads, header-value rules, and the
    replies of each route (index page, upload confirmation, image download);
  - `error.rs`, `config.rs`, `text.rs` (decimal and hex rendering),
    `digest.rs` (SHA-256 through the `sha2` crate).
- `app/` is the server around it: Axum routes, SQLite and filesystem work,
  Tokio blocking tasks, configuration from the environment.
- `tests/` exercises the library, including the flows against an in-memory
  store.
