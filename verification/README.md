# embedded_ffi

The verified core of a C binding to an embedded SurrealDB.

- `src/` — the library, verified with Verus:
  - `cbor.rs`: the CBOR replies (the `{ "error": msg }` envelope, passing
    through serialised results) and the decoding of CBOR query variables;
  - `text.rs`: reading C-string arguments as UTF-8 and rendering numbers in decimal;
  - `entry.rs`: the checks each entry point makes on its arguments and the
    reply it builds once the database has answered.
- `app/` — the C ABI itself: raw pointers, the Tokio runtime and the calls
  into SurrealDB, driven by the library's decisions.
- `tests/` — tests of the library on concrete values.
