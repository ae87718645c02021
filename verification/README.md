# corro

The verified core of Corro, an S3-compatible object store server.

- `src/error.rs`: the error kinds with their S3 codes, HTTP statuses and
  messages, the S3 XML error document, and the proofs about them.
- `src/api.rs`: the answer to a request that runs out of time.
- `src/settings.rs`: the configuration sections and their defaults.
- `src/storage/`: the storage API and the placeholder backend.
- `src/external.rs`: the outside types and calls the library relies on,
  with the contracts that are trusted rather than proved.
- `app/`: the HTTP server around the library (routing, middleware,
  configuration loading, logging).
