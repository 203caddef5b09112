//! The uniform failure envelope shared by the gateway, the store and the SDK.
//!
//! Every api0 HTTP service obeys both halves of the contract:
//!   1. The HTTP status code reflects the outcome. A failure is never 2xx.
//!   2. A failure body is exactly `{"success": false, "error": "<message>", "code": "<code>"}`.
//!
//! `error` stays a plain string so existing clients that read `data.error` keep
//! working; `code` is the machine-readable discriminant clients should branch on.

use vstd::prelude::*;
use vstd::string::*;

use crate::text::{same_text, snake_case};

verus! {

/// Machine-readable failure discriminant.
///
/// Unknown wire values read back as [`ErrorCode::Unknown`] (see
/// [`ErrorCode::from_wire_name`]) so a client built against an older version of
/// this crate never fails to parse a newer service's error.
#[derive(Debug, Clone, Copy, PartialEq, Eq, Structural)]
pub enum ErrorCode {
    /// Missing or invalid credentials.
    Unauthorized,
    /// Authenticated, but not permitted to perform this operation.
    Forbidden,
    /// The addressed resource does not exist.
    NotFound,
    /// Malformed or semantically invalid request payload.
    InvalidRequest,
    /// The request conflicts with current state (duplicate name, etc.).
    Conflict,
    /// Rate limit exceeded: the caller should back off and retry.
    RateLimited,
    /// The tenant does not have enough credits for this operation.
    InsufficientCredits,
    /// A downstream service the request depends on failed.
    UpstreamError,
    /// The store service failed or was unreachable.
    StoreError,
    /// OAuth: the authorization code is invalid, expired or already used.
    InvalidGrant,
    /// OAuth: the requested grant type is not supported.
    UnsupportedGrantType,
    /// Unhandled server-side failure.
    Internal,
    /// A code this client does not know about.
    Unknown,
}

impl ErrorCode {
    /// The HTTP status that goes with each code.
    pub open spec fn status(self) -> u16 {
        match self {
            ErrorCode::Unauthorized => 401,
            ErrorCode::Forbidden => 403,
            ErrorCode::NotFound => 404,
            ErrorCode::InvalidRequest => 400,
            ErrorCode::InvalidGrant => 400,
            ErrorCode::UnsupportedGrantType => 400,
            ErrorCode::Conflict => 409,
            ErrorCode::RateLimited => 429,
            ErrorCode::InsufficientCredits => 402,
            ErrorCode::UpstreamError => 502,
            ErrorCode::StoreError => 502,
            ErrorCode::Internal => 500,
            ErrorCode::Unknown => 500,
        }
    }

    /// The codes for which the identical request may succeed when retried.
    pub open spec fn retryable(self) -> bool {
        ||| self == ErrorCode::RateLimited
        ||| self == ErrorCode::UpstreamError
        ||| self == ErrorCode::StoreError
        ||| self == ErrorCode::Internal
    }

    /// The snake_case spelling of each code on the wire.
    pub open spec fn wire_name(self) -> Seq<char> {
        match self {
            ErrorCode::Unauthorized => "unauthorized"@,
            ErrorCode::Forbidden => "forbidden"@,
            ErrorCode::NotFound => "not_found"@,
            ErrorCode::InvalidRequest => "invalid_request"@,
            ErrorCode::Conflict => "conflict"@,
            ErrorCode::RateLimited => "rate_limited"@,
            ErrorCode::InsufficientCredits => "insufficient_credits"@,
            ErrorCode::UpstreamError => "upstream_error"@,
            ErrorCode::StoreError => "store_error"@,
            ErrorCode::InvalidGrant => "invalid_grant"@,
            ErrorCode::UnsupportedGrantType => "unsupported_grant_type"@,
            ErrorCode::Internal => "internal"@,
            ErrorCode::Unknown => "unknown"@,
        }
    }

    /// The code that a wire spelling reads back as: the code spelt so, and
    /// [`ErrorCode::Unknown`] for any spelling that names no code.
    pub open spec fn read_wire_name(name: Seq<char>) -> ErrorCode {
        if name == ErrorCode::Unauthorized.wire_name() {
            ErrorCode::Unauthorized
        } else if name == ErrorCode::Forbidden.wire_name() {
            ErrorCode::Forbidden
        } else if name == ErrorCode::NotFound.wire_name() {
            ErrorCode::NotFound
        } else if name == ErrorCode::InvalidRequest.wire_name() {
            ErrorCode::InvalidRequest
        } else if name == ErrorCode::Conflict.wire_name() {
            ErrorCode::Conflict
        } else if name == ErrorCode::RateLimited.wire_name() {
            ErrorCode::RateLimited
        } else if name == ErrorCode::InsufficientCredits.wire_name() {
            ErrorCode::InsufficientCredits
        } else if name == ErrorCode::UpstreamError.wire_name() {
            ErrorCode::UpstreamError
        } else if name == ErrorCode::StoreError.wire_name() {
            ErrorCode::StoreError
        } else if name == ErrorCode::InvalidGrant.wire_name() {
            ErrorCode::InvalidGrant
        } else if name == ErrorCode::UnsupportedGrantType.wire_name() {
            ErrorCode::UnsupportedGrantType
        } else if name == ErrorCode::Internal.wire_name() {
            ErrorCode::Internal
        } else {
            ErrorCode::Unknown
        }
    }

    /// The name that the code's `Debug` form prints: the variant's own name.
    pub open spec fn variant_name(self) -> Seq<char> {
        match self {
            ErrorCode::Unauthorized => "Unauthorized"@,
            ErrorCode::Forbidden => "Forbidden"@,
            ErrorCode::NotFound => "NotFound"@,
            ErrorCode::InvalidRequest => "InvalidRequest"@,
            ErrorCode::Conflict => "Conflict"@,
            ErrorCode::RateLimited => "RateLimited"@,
            ErrorCode::InsufficientCredits => "InsufficientCredits"@,
            ErrorCode::UpstreamError => "UpstreamError"@,
            ErrorCode::StoreError => "StoreError"@,
            ErrorCode::InvalidGrant => "InvalidGrant"@,
            ErrorCode::UnsupportedGrantType => "UnsupportedGrantType"@,
            ErrorCode::Internal => "Internal"@,
            ErrorCode::Unknown => "Unknown"@,
        }
    }

    /// The HTTP status a service must return alongside this code.
    pub fn http_status(self) -> (status: u16)
        ensures
            status == self.status(),
            400 <= status <= 599,
            status == 400 <==> (self == ErrorCode::InvalidRequest || self == ErrorCode::InvalidGrant
                || self == ErrorCode::UnsupportedGrantType),
            status == 401 <==> self == ErrorCode::Unauthorized,
            status == 402 <==> self == ErrorCode::InsufficientCredits,
            status == 403 <==> self == ErrorCode::Forbidden,
            status == 404 <==> self == ErrorCode::NotFound,
            status == 409 <==> self == ErrorCode::Conflict,
            status == 429 <==> self == ErrorCode::RateLimited,
            status == 500 <==> (self == ErrorCode::Internal || self == ErrorCode::Unknown),
            status == 502 <==> (self == ErrorCode::UpstreamError || self == ErrorCode::StoreError),
    {
        match self {
            ErrorCode::Unauthorized => 401,
            ErrorCode::Forbidden => 403,
            ErrorCode::NotFound => 404,
            ErrorCode::InvalidRequest | ErrorCode::InvalidGrant | ErrorCode::UnsupportedGrantType => 400,
            ErrorCode::Conflict => 409,
            ErrorCode::RateLimited => 429,
            ErrorCode::InsufficientCredits => 402,
            ErrorCode::UpstreamError | ErrorCode::StoreError => 502,
            ErrorCode::Internal | ErrorCode::Unknown => 500,
        }
    }

    /// Whether retrying the identical request could plausibly succeed.
    ///
    /// Auth failures are deliberately excluded: the store throttles repeated
    /// failed key validations, so a retrying client locks itself out.
    pub fn is_retryable(self) -> (retry: bool)
        ensures
            retry == self.retryable(),
            retry <==> (self == ErrorCode::RateLimited || self == ErrorCode::UpstreamError || self
                == ErrorCode::StoreError || self == ErrorCode::Internal),
    {
        match self {
            ErrorCode::RateLimited | ErrorCode::UpstreamError | ErrorCode::StoreError
            | ErrorCode::Internal => true,
            _ => false,
        }
    }

    /// The snake_case spelling of the code on the wire.
    pub fn wire_str(self) -> (name: &'static str)
        ensures
            name@ == self.wire_name(),
            name@ == snake_case(self.variant_name()),
            self == ErrorCode::Unauthorized ==> name@ == "unauthorized"@,
            self == ErrorCode::Forbidden ==> name@ == "forbidden"@,
            self == ErrorCode::NotFound ==> name@ == "not_found"@,
            self == ErrorCode::InvalidRequest ==> name@ == "invalid_request"@,
            self == ErrorCode::Conflict ==> name@ == "conflict"@,
            self == ErrorCode::RateLimited ==> name@ == "rate_limited"@,
            self == ErrorCode::InsufficientCredits ==> name@ == "insufficient_credits"@,
            self == ErrorCode::UpstreamError ==> name@ == "upstream_error"@,
            self == ErrorCode::StoreError ==> name@ == "store_error"@,
            self == ErrorCode::InvalidGrant ==> name@ == "invalid_grant"@,
            self == ErrorCode::UnsupportedGrantType ==> name@ == "unsupported_grant_type"@,
            self == ErrorCode::Internal ==> name@ == "internal"@,
            self == ErrorCode::Unknown ==> name@ == "unknown"@,
    {
        proof {
            lemma_wire_name_is_snake_case(self);
        }
        match self {
            ErrorCode::Unauthorized => "unauthorized",
            ErrorCode::Forbidden => "forbidden",
            ErrorCode::NotFound => "not_found",
            ErrorCode::InvalidRequest => "invalid_request",
            ErrorCode::Conflict => "conflict",
            ErrorCode::RateLimited => "rate_limited",
            ErrorCode::InsufficientCredits => "insufficient_credits",
            ErrorCode::UpstreamError => "upstream_error",
            ErrorCode::StoreError => "store_error",
            ErrorCode::InvalidGrant => "invalid_grant",
            ErrorCode::UnsupportedGrantType => "unsupported_grant_type",
            ErrorCode::Internal => "internal",
            ErrorCode::Unknown => "unknown",
        }
    }

    /// Reads a wire spelling back into a code. Any spelling this version does
    /// not know reads as [`ErrorCode::Unknown`]; reading never fails.
    pub fn from_wire_name(name: &str) -> (code: ErrorCode)
        ensures
            code == ErrorCode::read_wire_name(name@),
            name@ == "unauthorized"@ ==> code == ErrorCode::Unauthorized,
            name@ == "forbidden"@ ==> code == ErrorCode::Forbidden,
            name@ == "not_found"@ ==> code == ErrorCode::NotFound,
            name@ == "invalid_request"@ ==> code == ErrorCode::InvalidRequest,
            name@ == "conflict"@ ==> code == ErrorCode::Conflict,
            name@ == "rate_limited"@ ==> code == ErrorCode::RateLimited,
            name@ == "insufficient_credits"@ ==> code == ErrorCode::InsufficientCredits,
            name@ == "upstream_error"@ ==> code == ErrorCode::UpstreamError,
            name@ == "store_error"@ ==> code == ErrorCode::StoreError,
            name@ == "invalid_grant"@ ==> code == ErrorCode::InvalidGrant,
            name@ == "unsupported_grant_type"@ ==> code == ErrorCode::UnsupportedGrantType,
            name@ == "internal"@ ==> code == ErrorCode::Internal,
            (name@ != "unauthorized"@ && name@ != "forbidden"@ && name@ != "not_found"@ && name@ != "invalid_request"@ && name@ != "conflict"@ && name@ != "rate_limited"@ && name@ != "insufficient_credits"@ && name@ != "upstream_error"@ && name@ != "store_error"@ && name@ != "invalid_grant"@ && name@ != "unsupported_grant_type"@ && name@ != "internal"@) ==> code == ErrorCode::Unknown,
            code.wire_name() == name@ || code == ErrorCode::Unknown,
    {
        proof {
            lemma_error_code_spellings();
        }
        if same_text(name, "unauthorized") {
            ErrorCode::Unauthorized
        } else if same_text(name, "forbidden") {
            ErrorCode::Forbidden
        } else if same_text(name, "not_found") {
            ErrorCode::NotFound
        } else if same_text(name, "invalid_request") {
            ErrorCode::InvalidRequest
        } else if same_text(name, "conflict") {
            ErrorCode::Conflict
        } else if same_text(name, "rate_limited") {
            ErrorCode::RateLimited
        } else if same_text(name, "insufficient_credits") {
            ErrorCode::InsufficientCredits
        } else if same_text(name, "upstream_error") {
            ErrorCode::UpstreamError
        } else if same_text(name, "store_error") {
            ErrorCode::StoreError
        } else if same_text(name, "invalid_grant") {
            ErrorCode::InvalidGrant
        } else if same_text(name, "unsupported_grant_type") {
            ErrorCode::UnsupportedGrantType
        } else if same_text(name, "internal") {
            ErrorCode::Internal
        } else {
            ErrorCode::Unknown
        }
    }

    /// The name the code's `Debug` form prints.
    pub fn variant_str(self) -> (name: &'static str)
        ensures
            name@ == self.variant_name(),
    {
        match self {
            ErrorCode::Unauthorized => "Unauthorized",
            ErrorCode::Forbidden => "Forbidden",
            ErrorCode::NotFound => "NotFound",
            ErrorCode::InvalidRequest => "InvalidRequest",
            ErrorCode::Conflict => "Conflict",
            ErrorCode::RateLimited => "RateLimited",
            ErrorCode::InsufficientCredits => "InsufficientCredits",
            ErrorCode::UpstreamError => "UpstreamError",
            ErrorCode::StoreError => "StoreError",
            ErrorCode::InvalidGrant => "InvalidGrant",
            ErrorCode::UnsupportedGrantType => "UnsupportedGrantType",
            ErrorCode::Internal => "Internal",
            ErrorCode::Unknown => "Unknown",
        }
    }
}

/// The body of every failed api0 response.
#[derive(Debug, Clone, PartialEq)]
pub struct ApiError {
    /// Always `false`. Present so clients can branch on a single field.
    pub success: bool,
    /// Human-readable message. Safe to surface to end users.
    pub error: String,
    /// Machine-readable discriminant.
    pub code: ErrorCode,
}

/// The code that a failure body without a `code` field reads as.
pub fn unknown_code() -> (code: ErrorCode)
    ensures
        code == ErrorCode::Unknown,
{
    ErrorCode::Unknown
}

impl ApiError {
    /// What every constructor of the envelope produces: a failure that carries
    /// the given code and message.
    pub open spec fn is_failure_with(self, code: ErrorCode, message: Seq<char>) -> bool {
        &&& !self.success
        &&& self.code == code
        &&& self.error@ == message
    }

    /// The text of the envelope's `Display` form: the code's variant name, a
    /// colon and a space, then the message.
    pub open spec fn display_text(self) -> Seq<char> {
        self.code.variant_name() + ": "@ + self.error@
    }

    pub fn new(code: ErrorCode, message: String) -> (err: Self)
        ensures
            err.is_failure_with(code, message@),
    {
        ApiError { success: false, error: message, code }
    }

    /// The HTTP status this error must be sent with.
    pub fn http_status(&self) -> (status: u16)
        ensures
            status == self.code.status(),
            400 <= status <= 599,
    {
        self.code.http_status()
    }

    pub fn unauthorized(message: String) -> (err: Self)
        ensures
            err.is_failure_with(ErrorCode::Unauthorized, message@),
    {
        Self::new(ErrorCode::Unauthorized, message)
    }

    pub fn forbidden(message: String) -> (err: Self)
        ensures
            err.is_failure_with(ErrorCode::Forbidden, message@),
    {
        Self::new(ErrorCode::Forbidden, message)
    }

    pub fn not_found(message: String) -> (err: Self)
        ensures
            err.is_failure_with(ErrorCode::NotFound, message@),
    {
        Self::new(ErrorCode::NotFound, message)
    }

    pub fn invalid_request(message: String) -> (err: Self)
        ensures
            err.is_failure_with(ErrorCode::InvalidRequest, message@),
    {
        Self::new(ErrorCode::InvalidRequest, message)
    }

    pub fn conflict(message: String) -> (err: Self)
        ensures
            err.is_failure_with(ErrorCode::Conflict, message@),
    {
        Self::new(ErrorCode::Conflict, message)
    }

    pub fn rate_limited(message: String) -> (err: Self)
        ensures
            err.is_failure_with(ErrorCode::RateLimited, message@),
    {
        Self::new(ErrorCode::RateLimited, message)
    }

    pub fn insufficient_credits(message: String) -> (err: Self)
        ensures
            err.is_failure_with(ErrorCode::InsufficientCredits, message@),
    {
        Self::new(ErrorCode::InsufficientCredits, message)
    }

    pub fn upstream(message: String) -> (err: Self)
        ensures
            err.is_failure_with(ErrorCode::UpstreamError, message@),
    {
        Self::new(ErrorCode::UpstreamError, message)
    }

    pub fn store(message: String) -> (err: Self)
        ensures
            err.is_failure_with(ErrorCode::StoreError, message@),
    {
        Self::new(ErrorCode::StoreError, message)
    }

    pub fn internal(message: String) -> (err: Self)
        ensures
            err.is_failure_with(ErrorCode::Internal, message@),
    {
        Self::new(ErrorCode::Internal, message)
    }

    pub fn invalid_grant(message: String) -> (err: Self)
        ensures
            err.is_failure_with(ErrorCode::InvalidGrant, message@),
    {
        Self::new(ErrorCode::InvalidGrant, message)
    }

    pub fn unsupported_grant_type(message: String) -> (err: Self)
        ensures
            err.is_failure_with(ErrorCode::UnsupportedGrantType, message@),
    {
        Self::new(ErrorCode::UnsupportedGrantType, message)
    }

    /// The envelope's `Display` form, `"<Code>: <message>"`.
    pub fn to_string(&self) -> (text: String)
        ensures
            text@ == self.display_text(),
    {
        let mut text = String::from_str(self.code.variant_str());
        text.append(": ");
        text.append(self.error.as_str());
        text
    }
}

/// Marks a successful body that carries no payload of its own.
///
/// On the wire it is `{"success": true}`, with `message` left out when absent:
/// the shape existing dashboard code already checks for.
#[derive(Debug, Clone, PartialEq)]
pub struct Success {
    pub success: bool,
    pub message: Option<String>,
}

impl Default for Success {
    fn default() -> (ok: Self)
        ensures
            ok.success,
            ok.message is None,
    {
        Success { success: true, message: None }
    }
}

impl Success {
    pub fn new() -> (ok: Self)
        ensures
            ok.success,
            ok.message is None,
    {
        Self::default()
    }

    pub fn with_message(message: String) -> (ok: Self)
        ensures
            ok.success,
            ok.message matches Some(m) && m@ == message@,
    {
        Success { success: true, message: Some(message) }
    }
}

/// A failure is never reported with a success status: every code goes with a
/// 4xx or 5xx HTTP status.
pub proof fn lemma_failure_status_is_never_success(code: ErrorCode)
    ensures
        400 <= code.status() <= 599,
        !(200 <= code.status() <= 299),
{
}

/// Each wire spelling, told apart from the others by its length and its
/// first character.
proof fn lemma_wire_name_shape(code: ErrorCode)
    ensures
        code.wire_name().len() == wire_len(code),
        code.wire_name()[0] == wire_head(code),
{
    match code {
        ErrorCode::Unauthorized => {
            reveal_strlit("unauthorized");
            assert(code.wire_name()[0] == 'u');
        },
        ErrorCode::Forbidden => {
            reveal_strlit("forbidden");
            assert(code.wire_name()[0] == 'f');
        },
        ErrorCode::NotFound => {
            reveal_strlit("not_found");
            assert(code.wire_name()[0] == 'n');
        },
        ErrorCode::InvalidRequest => {
            reveal_strlit("invalid_request");
            assert(code.wire_name()[0] == 'i');
        },
        ErrorCode::Conflict => {
            reveal_strlit("conflict");
            assert(code.wire_name()[0] == 'c');
        },
        ErrorCode::RateLimited => {
            reveal_strlit("rate_limited");
            assert(code.wire_name()[0] == 'r');
        },
        ErrorCode::InsufficientCredits => {
            reveal_strlit("insufficient_credits");
            assert(code.wire_name()[0] == 'i');
        },
        ErrorCode::UpstreamError => {
            reveal_strlit("upstream_error");
            assert(code.wire_name()[0] == 'u');
        },
        ErrorCode::StoreError => {
            reveal_strlit("store_error");
            assert(code.wire_name()[0] == 's');
        },
        ErrorCode::InvalidGrant => {
            reveal_strlit("invalid_grant");
            assert(code.wire_name()[0] == 'i');
        },
        ErrorCode::UnsupportedGrantType => {
            reveal_strlit("unsupported_grant_type");
            assert(code.wire_name()[0] == 'u');
        },
        ErrorCode::Internal => {
            reveal_strlit("internal");
            assert(code.wire_name()[0] == 'i');
        },
        ErrorCode::Unknown => {
            reveal_strlit("unknown");
            assert(code.wire_name()[0] == 'u');
        },
    }
}

spec fn wire_len(code: ErrorCode) -> nat {
    match code {
            ErrorCode::Unauthorized => 12,
            ErrorCode::Forbidden => 9,
            ErrorCode::NotFound => 9,
            ErrorCode::InvalidRequest => 15,
            ErrorCode::Conflict => 8,
            ErrorCode::RateLimited => 12,
            ErrorCode::InsufficientCredits => 20,
            ErrorCode::UpstreamError => 14,
            ErrorCode::StoreError => 11,
            ErrorCode::InvalidGrant => 13,
            ErrorCode::UnsupportedGrantType => 22,
            ErrorCode::Internal => 8,
            ErrorCode::Unknown => 7,
    }
}

spec fn wire_head(code: ErrorCode) -> char {
    match code {
            ErrorCode::Unauthorized => 'u',
            ErrorCode::Forbidden => 'f',
            ErrorCode::NotFound => 'n',
            ErrorCode::InvalidRequest => 'i',
            ErrorCode::Conflict => 'c',
            ErrorCode::RateLimited => 'r',
            ErrorCode::InsufficientCredits => 'i',
            ErrorCode::UpstreamError => 'u',
            ErrorCode::StoreError => 's',
            ErrorCode::InvalidGrant => 'i',
            ErrorCode::UnsupportedGrantType => 'u',
            ErrorCode::Internal => 'i',
            ErrorCode::Unknown => 'u',
    }
}

/// Distinct codes have distinct wire spellings.
pub proof fn lemma_wire_name_injective(a: ErrorCode, b: ErrorCode)
    ensures
        a.wire_name() == b.wire_name() ==> a == b,
{
    lemma_wire_name_shape(a);
    lemma_wire_name_shape(b);
}

/// Exactly the rate-limited and the known server-side failures are worth a
/// retry; in particular no auth failure is ever retried.
pub proof fn lemma_retry_policy(code: ErrorCode)
    ensures
        code.retryable() <==> ((code.status() == 429 || code.status() >= 500) && code
            != ErrorCode::Unknown),
        code == ErrorCode::Unauthorized ==> !code.retryable(),
        code == ErrorCode::Forbidden ==> !code.retryable(),
        code == ErrorCode::InvalidGrant ==> !code.retryable(),
        code == ErrorCode::UnsupportedGrantType ==> !code.retryable(),
{
}

/// Each code is spelt on the wire as the snake_case of its variant name, the
/// spelling serde's `rename_all = "snake_case"` gives it.
pub proof fn lemma_wire_name_is_snake_case(code: ErrorCode)
    ensures
        code.wire_name() == snake_case(code.variant_name()),
{
    match code {
        ErrorCode::Unauthorized => lemma_snake_case_of_unauthorized(),
        ErrorCode::Forbidden => lemma_snake_case_of_forbidden(),
        ErrorCode::NotFound => lemma_snake_case_of_not_found(),
        ErrorCode::InvalidRequest => lemma_snake_case_of_invalid_request(),
        ErrorCode::Conflict => lemma_snake_case_of_conflict(),
        ErrorCode::RateLimited => lemma_snake_case_of_rate_limited(),
        ErrorCode::InsufficientCredits => lemma_snake_case_of_insufficient_credits(),
        ErrorCode::UpstreamError => lemma_snake_case_of_upstream_error(),
        ErrorCode::StoreError => lemma_snake_case_of_store_error(),
        ErrorCode::InvalidGrant => lemma_snake_case_of_invalid_grant(),
        ErrorCode::UnsupportedGrantType => lemma_snake_case_of_unsupported_grant_type(),
        ErrorCode::Internal => lemma_snake_case_of_internal(),
        ErrorCode::Unknown => lemma_snake_case_of_unknown(),
    }
}

proof fn lemma_snake_case_of_unauthorized()
    ensures
        snake_case("Unauthorized"@) == "unauthorized"@,
{
    reveal_strlit("Unauthorized");
    reveal_strlit("unauthorized");
    reveal_with_fuel(crate::text::snake_case_rest, 13);
    assert(snake_case("Unauthorized"@) =~= "unauthorized"@);
}

proof fn lemma_snake_case_of_forbidden()
    ensures
        snake_case("Forbidden"@) == "forbidden"@,
{
    reveal_strlit("Forbidden");
    reveal_strlit("forbidden");
    reveal_with_fuel(crate::text::snake_case_rest, 10);
    assert(snake_case("Forbidden"@) =~= "forbidden"@);
}

proof fn lemma_snake_case_of_not_found()
    ensures
        snake_case("NotFound"@) == "not_found"@,
{
    reveal_strlit("NotFound");
    reveal_strlit("not_found");
    reveal_with_fuel(crate::text::snake_case_rest, 9);
    assert(snake_case("NotFound"@) =~= "not_found"@);
}

proof fn lemma_snake_case_of_invalid_request()
    ensures
        snake_case("InvalidRequest"@) == "invalid_request"@,
{
    reveal_strlit("InvalidRequest");
    reveal_strlit("invalid_request");
    reveal_with_fuel(crate::text::snake_case_rest, 15);
    assert(snake_case("InvalidRequest"@) =~= "invalid_request"@);
}

proof fn lemma_snake_case_of_conflict()
    ensures
        snake_case("Conflict"@) == "conflict"@,
{
    reveal_strlit("Conflict");
    reveal_strlit("conflict");
    reveal_with_fuel(crate::text::snake_case_rest, 9);
    assert(snake_case("Conflict"@) =~= "conflict"@);
}

proof fn lemma_snake_case_of_rate_limited()
    ensures
        snake_case("RateLimited"@) == "rate_limited"@,
{
    reveal_strlit("RateLimited");
    reveal_strlit("rate_limited");
    reveal_with_fuel(crate::text::snake_case_rest, 12);
    assert(snake_case("RateLimited"@) =~= "rate_limited"@);
}

proof fn lemma_snake_case_of_insufficient_credits()
    ensures
        snake_case("InsufficientCredits"@) == "insufficient_credits"@,
{
    reveal_strlit("InsufficientCredits");
    reveal_strlit("insufficient_credits");
    reveal_with_fuel(crate::text::snake_case_rest, 20);
    assert(snake_case("InsufficientCredits"@) =~= "insufficient_credits"@);
}

proof fn lemma_snake_case_of_upstream_error()
    ensures
        snake_case("UpstreamError"@) == "upstream_error"@,
{
    reveal_strlit("UpstreamError");
    reveal_strlit("upstream_error");
    reveal_with_fuel(crate::text::snake_case_rest, 14);
    assert(snake_case("UpstreamError"@) =~= "upstream_error"@);
}

proof fn lemma_snake_case_of_store_error()
    ensures
        snake_case("StoreError"@) == "store_error"@,
{
    reveal_strlit("StoreError");
    reveal_strlit("store_error");
    reveal_with_fuel(crate::text::snake_case_rest, 11);
    assert(snake_case("StoreError"@) =~= "store_error"@);
}

proof fn lemma_snake_case_of_invalid_grant()
    ensures
        snake_case("InvalidGrant"@) == "invalid_grant"@,
{
    reveal_strlit("InvalidGrant");
    reveal_strlit("invalid_grant");
    reveal_with_fuel(crate::text::snake_case_rest, 13);
    assert(snake_case("InvalidGrant"@) =~= "invalid_grant"@);
}

proof fn lemma_snake_case_of_unsupported_grant_type()
    ensures
        snake_case("UnsupportedGrantType"@) == "unsupported_grant_type"@,
{
    reveal_strlit("UnsupportedGrantType");
    reveal_strlit("unsupported_grant_type");
    reveal_with_fuel(crate::text::snake_case_rest, 21);
    assert(snake_case("UnsupportedGrantType"@) =~= "unsupported_grant_type"@);
}

proof fn lemma_snake_case_of_internal()
    ensures
        snake_case("Internal"@) == "internal"@,
{
    reveal_strlit("Internal");
    reveal_strlit("internal");
    reveal_with_fuel(crate::text::snake_case_rest, 9);
    assert(snake_case("Internal"@) =~= "internal"@);
}

proof fn lemma_snake_case_of_unknown()
    ensures
        snake_case("Unknown"@) == "unknown"@,
{
    reveal_strlit("Unknown");
    reveal_strlit("unknown");
    reveal_with_fuel(crate::text::snake_case_rest, 8);
    assert(snake_case("Unknown"@) =~= "unknown"@);
}

/// The wire spelling of every code, and how each reads back, written out: the
/// spellings are the snake_case names of the codes, and each reads as its own
/// code.
pub proof fn lemma_error_code_spellings()
    ensures
        ErrorCode::Unauthorized.wire_name() == "unauthorized"@,
        ErrorCode::Forbidden.wire_name() == "forbidden"@,
        ErrorCode::NotFound.wire_name() == "not_found"@,
        ErrorCode::InvalidRequest.wire_name() == "invalid_request"@,
        ErrorCode::Conflict.wire_name() == "conflict"@,
        ErrorCode::RateLimited.wire_name() == "rate_limited"@,
        ErrorCode::InsufficientCredits.wire_name() == "insufficient_credits"@,
        ErrorCode::UpstreamError.wire_name() == "upstream_error"@,
        ErrorCode::StoreError.wire_name() == "store_error"@,
        ErrorCode::InvalidGrant.wire_name() == "invalid_grant"@,
        ErrorCode::UnsupportedGrantType.wire_name() == "unsupported_grant_type"@,
        ErrorCode::Internal.wire_name() == "internal"@,
        ErrorCode::Unknown.wire_name() == "unknown"@,
        ErrorCode::read_wire_name("unauthorized"@) == ErrorCode::Unauthorized,
        ErrorCode::read_wire_name("forbidden"@) == ErrorCode::Forbidden,
        ErrorCode::read_wire_name("not_found"@) == ErrorCode::NotFound,
        ErrorCode::read_wire_name("invalid_request"@) == ErrorCode::InvalidRequest,
        ErrorCode::read_wire_name("conflict"@) == ErrorCode::Conflict,
        ErrorCode::read_wire_name("rate_limited"@) == ErrorCode::RateLimited,
        ErrorCode::read_wire_name("insufficient_credits"@) == ErrorCode::InsufficientCredits,
        ErrorCode::read_wire_name("upstream_error"@) == ErrorCode::UpstreamError,
        ErrorCode::read_wire_name("store_error"@) == ErrorCode::StoreError,
        ErrorCode::read_wire_name("invalid_grant"@) == ErrorCode::InvalidGrant,
        ErrorCode::read_wire_name("unsupported_grant_type"@) == ErrorCode::UnsupportedGrantType,
        ErrorCode::read_wire_name("internal"@) == ErrorCode::Internal,
        ErrorCode::read_wire_name("unknown"@) == ErrorCode::Unknown,
        ErrorCode::Unauthorized.variant_name() == "Unauthorized"@,
        ErrorCode::Forbidden.variant_name() == "Forbidden"@,
        ErrorCode::NotFound.variant_name() == "NotFound"@,
        ErrorCode::InvalidRequest.variant_name() == "InvalidRequest"@,
        ErrorCode::Conflict.variant_name() == "Conflict"@,
        ErrorCode::RateLimited.variant_name() == "RateLimited"@,
        ErrorCode::InsufficientCredits.variant_name() == "InsufficientCredits"@,
        ErrorCode::UpstreamError.variant_name() == "UpstreamError"@,
        ErrorCode::StoreError.variant_name() == "StoreError"@,
        ErrorCode::InvalidGrant.variant_name() == "InvalidGrant"@,
        ErrorCode::UnsupportedGrantType.variant_name() == "UnsupportedGrantType"@,
        ErrorCode::Internal.variant_name() == "Internal"@,
        ErrorCode::Unknown.variant_name() == "Unknown"@,
{
    lemma_wire_name_round_trip(ErrorCode::Unauthorized);
    lemma_wire_name_round_trip(ErrorCode::Forbidden);
    lemma_wire_name_round_trip(ErrorCode::NotFound);
    lemma_wire_name_round_trip(ErrorCode::InvalidRequest);
    lemma_wire_name_round_trip(ErrorCode::Conflict);
    lemma_wire_name_round_trip(ErrorCode::RateLimited);
    lemma_wire_name_round_trip(ErrorCode::InsufficientCredits);
    lemma_wire_name_round_trip(ErrorCode::UpstreamError);
    lemma_wire_name_round_trip(ErrorCode::StoreError);
    lemma_wire_name_round_trip(ErrorCode::InvalidGrant);
    lemma_wire_name_round_trip(ErrorCode::UnsupportedGrantType);
    lemma_wire_name_round_trip(ErrorCode::Internal);
    lemma_wire_name_round_trip(ErrorCode::Unknown);
}

/// The status table: each status goes with exactly these codes.
pub proof fn lemma_status_table(code: ErrorCode)
    ensures
        code.status() == 400 <==> (code == ErrorCode::InvalidRequest || code
            == ErrorCode::InvalidGrant || code == ErrorCode::UnsupportedGrantType),
        code.status() == 401 <==> code == ErrorCode::Unauthorized,
        code.status() == 402 <==> code == ErrorCode::InsufficientCredits,
        code.status() == 403 <==> code == ErrorCode::Forbidden,
        code.status() == 404 <==> code == ErrorCode::NotFound,
        code.status() == 409 <==> code == ErrorCode::Conflict,
        code.status() == 429 <==> code == ErrorCode::RateLimited,
        code.status() == 500 <==> (code == ErrorCode::Internal || code == ErrorCode::Unknown),
        code.status() == 502 <==> (code == ErrorCode::UpstreamError || code
            == ErrorCode::StoreError),
        code.retryable() <==> (code == ErrorCode::RateLimited || code == ErrorCode::UpstreamError
            || code == ErrorCode::StoreError || code == ErrorCode::Internal),
{
}

/// Every envelope a constructor builds is a failure carrying exactly the given
/// code and message, and it is sent with that code's status.
pub proof fn lemma_failure_envelope(err: ApiError, code: ErrorCode, message: Seq<char>)
    requires
        err.is_failure_with(code, message),
    ensures
        err.success == false,
        err.code == code,
        err.error@ == message,
        400 <= err.code.status() <= 599,
{
}

/// The `Display` text of an envelope is its code's variant name, `": "`, then
/// its message, character for character.
pub proof fn lemma_display_text(err: ApiError)
    ensures
        err.display_text().len() == err.code.variant_name().len() + 2 + err.error@.len(),
        err.display_text().subrange(0, err.code.variant_name().len() as int)
            == err.code.variant_name(),
        err.display_text()[err.code.variant_name().len() as int] == ':',
        err.display_text()[err.code.variant_name().len() + 1int] == ' ',
        err.display_text().subrange(err.code.variant_name().len() + 2int, err.display_text().len() as int)
            == err.error@,
{
    reveal_strlit(": ");
    let v = err.code.variant_name();
    assert(err.display_text().subrange(0, v.len() as int) =~= v);
    assert(err.display_text().subrange(v.len() + 2int, err.display_text().len() as int) =~= err.error@);
}

/// Writing a code on the wire and reading it back gives the same code: the
/// wire spellings name the codes one for one.
pub proof fn lemma_wire_name_round_trip(code: ErrorCode)
    ensures
        ErrorCode::read_wire_name(code.wire_name()) == code,
{
    assert forall|other: ErrorCode| other.wire_name() == code.wire_name() implies other == code by {
        lemma_wire_name_injective(other, code);
    }
}

} // verus!
