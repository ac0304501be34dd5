use blog_responses::{ApiResponse, AppError, CategoryEntity, CategoryResponse, ErrorResponse, ToJson};

fn err_message(e: AppError) -> String {
    ErrorResponse::from(e).message
}

#[test]
fn every_variant_maps_to_error_status() {
    let variants = vec![
        AppError::DbError(String::from("connection reset")),
        AppError::HashingError(String::from("salt too short")),
        AppError::NotFound(String::from("Category not found")),
        AppError::TokenExpiredError,
        AppError::TokenValidationError,
        AppError::TokenGenerationError(String::from("key unavailable")),
        AppError::BcryptError(String::from("cost out of range")),
        AppError::InvalidCredentials,
        AppError::EmailAlreadyExists,
    ];
    for v in variants {
        assert_eq!(ErrorResponse::from(v).status, "error");
    }
}

#[test]
fn every_variant_maps_to_its_exact_message() {
    assert_eq!(
        err_message(AppError::DbError(String::from("cause"))),
        "Database error occurred"
    );
    assert_eq!(
        err_message(AppError::HashingError(String::from("cause"))),
        "Error during password hashing"
    );
    assert_eq!(
        err_message(AppError::NotFound(String::from("Post not found"))),
        "Post not found"
    );
    assert_eq!(err_message(AppError::TokenExpiredError), "Token has expired");
    assert_eq!(
        err_message(AppError::TokenValidationError),
        "Token validation failed"
    );
    assert_eq!(
        err_message(AppError::TokenGenerationError(String::from("cause"))),
        "Token generation failed"
    );
    assert_eq!(
        err_message(AppError::BcryptError(String::from("cause"))),
        "Bcrypt error: cause"
    );
    assert_eq!(err_message(AppError::InvalidCredentials), "Invalid credentials");
    assert_eq!(err_message(AppError::EmailAlreadyExists), "Email already exists");
}

#[test]
fn not_found_message_round_trips_verbatim() {
    assert_eq!(err_message(AppError::NotFound(String::from("x"))), "x");
    let odd = "  Category #42 — missing!\t";
    assert_eq!(err_message(AppError::NotFound(String::from(odd))), odd);
}

#[test]
fn bcrypt_message_is_interpolated() {
    assert_eq!(
        err_message(AppError::BcryptError(String::from("y"))),
        "Bcrypt error: y"
    );
    assert_eq!(err_message(AppError::BcryptError(String::new())), "Bcrypt error: ");
}

#[test]
fn db_error_cause_is_redacted() {
    let loud = AppError::DbError(String::from(
        "FATAL: password authentication failed for user \"admin\"",
    ));
    let quiet = AppError::DbError(String::new());
    assert_eq!(err_message(loud), "Database error occurred");
    assert_eq!(err_message(quiet), "Database error occurred");
}

#[test]
fn category_conversion_preserves_fields() {
    let entity = CategoryEntity { id: 1, name: String::from("Tech") };
    let dto = CategoryResponse::from(entity);
    assert_eq!(dto.id, 1);
    assert_eq!(dto.name, "Tech");
}

#[test]
fn invalid_credentials_envelope_json() {
    let envelope = ErrorResponse::from(AppError::InvalidCredentials);
    assert_eq!(
        envelope.to_json(),
        "{\"status\":\"error\",\"message\":\"Invalid credentials\"}"
    );
}

#[test]
fn category_response_json() {
    let dto = CategoryResponse { id: 1, name: String::from("Tech") };
    assert_eq!(dto.to_json(), "{\"id\":1,\"name\":\"Tech\"}");
}

#[test]
fn negative_and_extreme_ids_render_in_decimal() {
    let neg = CategoryResponse { id: -45, name: String::from("n") };
    assert_eq!(neg.to_json(), "{\"id\":-45,\"name\":\"n\"}");
    let zero = CategoryResponse { id: 0, name: String::from("z") };
    assert_eq!(zero.to_json(), "{\"id\":0,\"name\":\"z\"}");
    let min = CategoryResponse { id: i32::MIN, name: String::from("m") };
    assert_eq!(min.to_json(), "{\"id\":-2147483648,\"name\":\"m\"}");
    let max = CategoryResponse { id: i32::MAX, name: String::from("M") };
    assert_eq!(max.to_json(), "{\"id\":2147483647,\"name\":\"M\"}");
}

#[test]
fn api_response_envelope_json() {
    let resp = ApiResponse {
        status: String::from("success"),
        message: String::from("Category retrieved"),
        data: CategoryResponse { id: 1, name: String::from("Tech") },
    };
    assert_eq!(
        resp.to_json(),
        "{\"status\":\"success\",\"message\":\"Category retrieved\",\"data\":{\"id\":1,\"name\":\"Tech\"}}"
    );
}

#[test]
fn serialization_is_deterministic() {
    let resp = ApiResponse {
        status: String::from("success"),
        message: String::from("ok"),
        data: CategoryResponse { id: 9, name: String::from("News") },
    };
    let first = resp.to_json();
    let second = resp.to_json();
    assert_eq!(first, second);
    let twin = resp.clone();
    assert_eq!(twin.to_json(), first);
}

#[test]
fn special_characters_are_escaped() {
    let dto = CategoryResponse {
        id: 2,
        name: String::from("He said \"hi\"\\\n\t\r\u{8}\u{c}\u{1f}\u{0}end"),
    };
    assert_eq!(
        dto.to_json(),
        "{\"id\":2,\"name\":\"He said \\\"hi\\\"\\\\\\n\\t\\r\\b\\f\\u001f\\u0000end\"}"
    );
}

#[test]
fn non_ascii_characters_pass_through_unescaped() {
    let dto = CategoryResponse { id: 3, name: String::from("Caf\u{e9} \u{1f600}") };
    assert_eq!(dto.to_json(), "{\"id\":3,\"name\":\"Caf\u{e9} \u{1f600}\"}");
}

#[test]
fn string_escaping_matches_serde_json() {
    let samples = [
        "",
        "plain",
        "He said \"hi\"\\\n\t\r\u{8}\u{c}\u{1f}\u{0}end",
        "Caf\u{e9} \u{1f600}",
        "slash / stays",
    ];
    for s in samples {
        let dto = CategoryResponse { id: 5, name: String::from(s) };
        let expected = format!(
            "{{\"id\":5,\"name\":{}}}",
            serde_json::to_string(s).unwrap()
        );
        assert_eq!(dto.to_json(), expected);
    }
}

#[test]
fn error_response_display_text() {
    let envelope = ErrorResponse::from(AppError::EmailAlreadyExists);
    assert_eq!(
        envelope.display_string(),
        "Status: error, Message: Email already exists"
    );
}
