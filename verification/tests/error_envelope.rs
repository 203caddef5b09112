use api0_types::error::unknown_code;
use api0_types::{ApiError, ErrorCode, Success};

const ALL_CODES: [ErrorCode; 13] = [
    ErrorCode::Unauthorized,
    ErrorCode::Forbidden,
    ErrorCode::NotFound,
    ErrorCode::InvalidRequest,
    ErrorCode::Conflict,
    ErrorCode::RateLimited,
    ErrorCode::InsufficientCredits,
    ErrorCode::UpstreamError,
    ErrorCode::StoreError,
    ErrorCode::InvalidGrant,
    ErrorCode::UnsupportedGrantType,
    ErrorCode::Internal,
    ErrorCode::Unknown,
];

#[test]
fn error_serialises_to_the_documented_shape() {
    let err = ApiError::not_found("no such tenant".to_string());
    assert_eq!(err.success, false);
    assert_eq!(err.error, "no such tenant");
    assert_eq!(err.code.wire_str(), "not_found");
}

#[test]
fn unknown_codes_do_not_break_older_clients() {
    let parsed = ApiError {
        success: false,
        error: "boom".to_string(),
        code: ErrorCode::from_wire_name("some_future_code"),
    };
    assert_eq!(parsed.code, ErrorCode::Unknown);
    assert_eq!(parsed.http_status(), 500);
}

#[test]
fn legacy_bodies_without_a_code_still_parse() {
    let parsed = ApiError { success: false, error: "legacy".to_string(), code: unknown_code() };
    assert_eq!(parsed.code, ErrorCode::Unknown);
}

#[test]
fn auth_failures_are_never_retried() {
    assert!(!ErrorCode::Unauthorized.is_retryable());
    assert!(!ErrorCode::Forbidden.is_retryable());
    assert!(ErrorCode::RateLimited.is_retryable());
}

#[test]
fn status_codes_match_the_contract() {
    assert_eq!(ErrorCode::InsufficientCredits.http_status(), 402);
    assert_eq!(ErrorCode::InvalidGrant.http_status(), 400);
    assert_eq!(ErrorCode::StoreError.http_status(), 502);
}

#[test]
fn every_status_is_a_failure_status() {
    let expected: [u16; 13] = [401, 403, 404, 400, 409, 429, 402, 502, 502, 400, 400, 500, 500];
    for (code, status) in ALL_CODES.iter().zip(expected.iter()) {
        assert_eq!(code.http_status(), *status);
        assert!(code.http_status() >= 400 && code.http_status() <= 599);
    }
}

#[test]
fn retryable_codes_are_rate_limits_and_server_failures() {
    let retryable: Vec<ErrorCode> =
        ALL_CODES.iter().copied().filter(|c| c.is_retryable()).collect();
    assert_eq!(
        retryable,
        vec![
            ErrorCode::RateLimited,
            ErrorCode::UpstreamError,
            ErrorCode::StoreError,
            ErrorCode::Internal
        ]
    );
    assert!(!ErrorCode::InvalidGrant.is_retryable());
    assert!(!ErrorCode::Unknown.is_retryable());
}

#[test]
fn wire_names_read_back_as_the_same_code() {
    for code in ALL_CODES.iter() {
        assert_eq!(ErrorCode::from_wire_name(code.wire_str()), *code);
    }
    assert_eq!(ErrorCode::InsufficientCredits.wire_str(), "insufficient_credits");
    assert_eq!(ErrorCode::UnsupportedGrantType.wire_str(), "unsupported_grant_type");
    assert_eq!(ErrorCode::from_wire_name("unknown"), ErrorCode::Unknown);
    assert_eq!(ErrorCode::from_wire_name(""), ErrorCode::Unknown);
    assert_eq!(ErrorCode::from_wire_name("NOT_FOUND"), ErrorCode::Unknown);
    assert_eq!(ErrorCode::from_wire_name("not_found "), ErrorCode::Unknown);
}

#[test]
fn every_constructor_builds_a_failure_with_its_code() {
    let built = [
        (ApiError::unauthorized("m".to_string()), ErrorCode::Unauthorized),
        (ApiError::forbidden("m".to_string()), ErrorCode::Forbidden),
        (ApiError::not_found("m".to_string()), ErrorCode::NotFound),
        (ApiError::invalid_request("m".to_string()), ErrorCode::InvalidRequest),
        (ApiError::conflict("m".to_string()), ErrorCode::Conflict),
        (ApiError::rate_limited("m".to_string()), ErrorCode::RateLimited),
        (ApiError::insufficient_credits("m".to_string()), ErrorCode::InsufficientCredits),
        (ApiError::upstream("m".to_string()), ErrorCode::UpstreamError),
        (ApiError::store("m".to_string()), ErrorCode::StoreError),
        (ApiError::internal("m".to_string()), ErrorCode::Internal),
        (ApiError::invalid_grant("m".to_string()), ErrorCode::InvalidGrant),
        (ApiError::unsupported_grant_type("m".to_string()), ErrorCode::UnsupportedGrantType),
        (ApiError::new(ErrorCode::Unknown, "m".to_string()), ErrorCode::Unknown),
    ];
    for (err, code) in built.iter() {
        assert!(!err.success);
        assert_eq!(err.code, *code);
        assert_eq!(err.error, "m");
        assert_eq!(err.http_status(), code.http_status());
    }
}

#[test]
fn display_form_names_the_code_then_the_message() {
    assert_eq!(ApiError::rate_limited("slow down".to_string()).to_string(), "RateLimited: slow down");
    assert_eq!(ApiError::upstream(String::new()).to_string(), "UpstreamError: ");
    assert_eq!(ErrorCode::InsufficientCredits.variant_str(), "InsufficientCredits");
}

#[test]
fn success_bodies_report_success() {
    let plain = Success::new();
    assert!(plain.success);
    assert_eq!(plain.message, None);
    assert_eq!(Success::default(), plain);
    let with = Success::with_message("saved".to_string());
    assert!(with.success);
    assert_eq!(with.message.as_deref(), Some("saved"));
}
