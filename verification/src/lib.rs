//! Verified core of an embedded database binding: the wire format of its
//! replies (CBOR payloads and the `{ "error": ... }` envelope), the decoding of
//! C-string arguments and of CBOR query variables, and the decisions that the
//! foreign-function entry points take before and after they reach the database.

pub mod cbor;
pub mod text;
pub mod entry;
