//! Backend library for a desktop client of a collaborative-table service.
//!
//! The library holds the verified logic of the backend: the credential store
//! and access-token cache, the response-envelope evaluation and pagination of
//! the table client, the field normalizer that turns heterogeneous per-record
//! field values into display strings, and the reply parsing of the
//! chat-completion gateway. All network transport lives outside the library;
//! every function here works on plain values.

pub mod ai;
pub mod errors;
pub mod fields;
pub mod state;
pub mod strutil;
pub mod table;

use vstd::prelude::*;

verus! {

/// Seconds of remaining validity under which a cached token is no longer
/// trusted and a refresh is issued instead.
pub const TOKEN_REFRESH_MARGIN_SECS: i64 = 60;

} // verus!
