//! Response-serialization layer of a blog-style web backend.
//!
//! Persisted entities are projected onto API-facing response records, and
//! application errors are mapped onto a stable JSON error envelope. Every
//! response type serializes itself to JSON text through the [`ToJson`] trait,
//! whose contract pins the produced text down to the character.

mod category;
mod error;
mod json;
mod response;

pub use crate::category::{CategoryEntity, CategoryResponse};
pub use crate::error::{
    error_message, lemma_bcrypt_message, lemma_db_error_redacted,
    lemma_not_found_message_verbatim, AppError, ErrorResponse,
};
pub use crate::json::{
    dec_digits, digit_char, escape_char, escape_seq, hex_digit, int_json, json_string, ToJson,
};
pub use crate::response::{envelope_json, lemma_serialization_deterministic, ApiResponse};
