//! The application error taxonomy and its mapping onto the client-facing
//! error envelope.
//!
//! Every error variant maps to exactly one `(status, message)` pair; the
//! match in [`ErrorResponse::from`] is exhaustive, so adding a variant
//! forces a deliberate decision here. Internal diagnostic detail (database,
//! hashing and token-generation causes) is deliberately redacted from the
//! client-facing message; only caller-supplied business-level messages
//! (`NotFound`, `BcryptError`) pass through.

use vstd::prelude::*;
use crate::json::{json_string, push_json_string, ToJson};

verus! {

/// The closed set of application failures. Underlying causes carried by a
/// variant are kept as plain diagnostic text.
#[derive(Debug, Clone, PartialEq)]
pub enum AppError {
    DbError(String),
    HashingError(String),
    NotFound(String),
    TokenExpiredError,
    TokenValidationError,
    TokenGenerationError(String),
    BcryptError(String),
    InvalidCredentials,
    EmailAlreadyExists,
}

/// The client-facing message for each error variant: redacted generic text
/// for internal failures, pass-through text for business-rule failures.
pub open spec fn error_message(e: AppError) -> Seq<char> {
    match e {
        AppError::DbError(_) => "Database error occurred"@,
        AppError::HashingError(_) => "Error during password hashing"@,
        AppError::NotFound(msg) => msg@,
        AppError::TokenExpiredError => "Token has expired"@,
        AppError::TokenValidationError => "Token validation failed"@,
        AppError::TokenGenerationError(_) => "Token generation failed"@,
        AppError::BcryptError(msg) => "Bcrypt error: "@ + msg@,
        AppError::InvalidCredentials => "Invalid credentials"@,
        AppError::EmailAlreadyExists => "Email already exists"@,
    }
}

/// The error envelope sent to the client: a fixed `"error"` status and a
/// message determined by the error variant alone.
#[derive(Debug, Clone, PartialEq)]
pub struct ErrorResponse {
    pub status: String,
    pub message: String,
}

impl ErrorResponse {
    /// Map an application error onto its error envelope: the status is
    /// always `"error"` and the message is exactly the one [`error_message`]
    /// assigns to the variant.
    pub fn from(error: AppError) -> (r: Self)
        ensures
            r.status@ == "error"@,
            r.message@ == error_message(error),
    {
        let (status, message) = match error {
            AppError::DbError(_) => (
                String::from_str("error"),
                String::from_str("Database error occurred"),
            ),
            AppError::HashingError(_) => (
                String::from_str("error"),
                String::from_str("Error during password hashing"),
            ),
            AppError::NotFound(msg) => (String::from_str("error"), msg),
            AppError::TokenExpiredError => (
                String::from_str("error"),
                String::from_str("Token has expired"),
            ),
            AppError::TokenValidationError => (
                String::from_str("error"),
                String::from_str("Token validation failed"),
            ),
            AppError::TokenGenerationError(_) => (
                String::from_str("error"),
                String::from_str("Token generation failed"),
            ),
            AppError::BcryptError(msg) => {
                let mut m = String::from_str("Bcrypt error: ");
                m.append(msg.as_str());
                (String::from_str("error"), m)
            },
            AppError::InvalidCredentials => (
                String::from_str("error"),
                String::from_str("Invalid credentials"),
            ),
            AppError::EmailAlreadyExists => (
                String::from_str("error"),
                String::from_str("Email already exists"),
            ),
        };
        ErrorResponse { status, message }
    }

    /// The envelope as display text: `Status: <status>, Message: <message>`.
    pub fn display_string(&self) -> (r: String)
        ensures
            r@ == "Status: "@ + self.status@ + ", Message: "@ + self.message@,
    {
        let mut out = String::from_str("Status: ");
        out.append(self.status.as_str());
        out.append(", Message: ");
        out.append(self.message.as_str());
        out
    }
}

impl ToJson for ErrorResponse {
    /// `{"status":<status>,"message":<message>}` with both fields as JSON
    /// strings.
    open spec fn json_view(&self) -> Seq<char> {
        "{\"status\":"@ + json_string(self.status@) + ",\"message\":"@ + json_string(self.message@)
            + "}"@
    }

    fn to_json(&self) -> (r: String)
        ensures
            r@ == self.json_view(),
    {
        let mut out = String::from_str("{\"status\":");
        push_json_string(&mut out, self.status.as_str());
        out.append(",\"message\":");
        push_json_string(&mut out, self.message.as_str());
        out.append("}");
        proof {
            assert(out@ =~= self.json_view());
        }
        out
    }
}

/// Law: a not-found error's caller-supplied message passes through to the
/// client verbatim, with no alteration.
pub proof fn lemma_not_found_message_verbatim(msg: String)
    ensures
        error_message(AppError::NotFound(msg)) == msg@,
{
}

/// Law: a bcrypt error's message is exactly `"Bcrypt error: "` followed by
/// the caller-supplied text.
pub proof fn lemma_bcrypt_message(msg: String)
    ensures
        error_message(AppError::BcryptError(msg)) == "Bcrypt error: "@ + msg@,
{
}

/// Law: the client-facing message of a database error is the fixed generic
/// text, whatever the underlying cause holds — the cause is redacted.
pub proof fn lemma_db_error_redacted(cause: String)
    ensures
        error_message(AppError::DbError(cause)) == "Database error occurred"@,
{
}

} // verus!
