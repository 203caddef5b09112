//! Per-call usage logging, credits and payments.

use vstd::prelude::*;

use crate::text::owned_text;

verus! {

/// `serde_json::Value`, carried through the payloads that hold free-form JSON.
#[verifier::external_type_specification]
#[verifier::external_body]
pub struct ExJsonValue(serde_json::Value);

/// `Clone` of `serde_json::Value`.
///
/// Trusted: the impl is derived, so the copy holds the same JSON value.
pub assume_specification[ <serde_json::Value as std::clone::Clone>::clone ](
    v: &serde_json::Value,
) -> (copy: serde_json::Value)
    ensures
        copy == *v,
;

#[derive(Debug, PartialEq, Clone)]
pub struct TokenUsage {
    pub estimated: bool,
    pub input_tokens: i64,
    pub model: String,
    pub output_tokens: i64,
    pub total_tokens: i64,
}

#[derive(Debug, PartialEq, Clone)]
pub struct LogApiUsageRequest {
    pub key_id: String,
    pub email: String,
    pub endpoint_path: String,
    pub method: String,
    pub status_code: Option<i32>,
    pub response_time_ms: Option<i64>,
    pub request_size_bytes: Option<i64>,
    pub response_size_bytes: Option<i64>,
    pub ip_address: Option<String>,
    pub user_agent: Option<String>,
    pub usage: Option<TokenUsage>,
    /// Opaque end-consumer identifier forwarded by the tenant via X-Consumer-Id.
    /// api0 stores it verbatim: no PII assumed, no validation performed.
    /// Null when the tenant did not pass the header.
    pub consumer_id: Option<String>,
    /// Explicit tenant attribution (optional, defaults to key owner's tenant).
    pub tenant_id: Option<String>,
    pub metadata: Option<serde_json::Value>,
}

#[derive(Debug, PartialEq, Clone)]
pub struct LogApiUsageResponse {
    pub success: bool,
    pub message: String,
    pub log_id: Option<String>,
}

#[derive(Debug, PartialEq, Clone)]
pub struct ApiUsageLog {
    pub id: String,
    pub key_id: String,
    pub email: String,
    pub endpoint_path: String,
    pub method: String,
    pub timestamp: String,
    pub response_status: Option<i32>,
    pub response_time_ms: Option<i64>,
    pub request_size: Option<i64>,
    pub response_size: Option<i64>,
    pub ip_address: Option<String>,
    pub user_agent: Option<String>,
    pub usage_estimated: Option<bool>,
    pub input_tokens: Option<i64>,
    pub output_tokens: Option<i64>,
    pub total_tokens: Option<i64>,
    pub model_used: Option<String>,
    pub metadata: Option<serde_json::Value>,
    /// Opaque end-consumer identifier: null when the tenant did not supply X-Consumer-Id.
    pub consumer_id: Option<String>,
}

/// A credit change for a tenant. On the wire `action_type` defaults to
/// `"unknown"` (see [`default_action_type`]) and `description` to `None`.
#[derive(Debug, PartialEq, Clone)]
pub struct UpdateCreditRequest {
    pub email: String,
    /// Explicit tenant attribution (optional, defaults to the user's personal tenant).
    pub tenant_id: Option<String>,
    pub amount: i64,
    /// e.g. "cv_generation", "cover_letter", "optimize", "translate", "cv_import",
    /// "topup", "welcome".
    pub action_type: String,
    pub description: Option<String>,
}

/// The action type of a credit change that names none.
pub fn default_action_type() -> (action: String)
    ensures
        action@ == "unknown"@,
{
    owned_text("unknown")
}

#[derive(Debug, PartialEq, Clone)]
pub struct CreditTransaction {
    pub id: i64,
    pub tenant_id: String,
    pub email: String,
    pub amount: i64,
    pub balance_after: i64,
    pub action_type: String,
    pub description: Option<String>,
    pub created_at: String,
}

#[derive(Debug, PartialEq, Clone)]
pub struct CreatePaymentIntentRequest {
    pub amount: i64,
    pub currency: String,
}

#[derive(Debug, PartialEq, Clone)]
pub struct ConfirmPaymentRequest {
    pub payment_intent_id: String,
    pub amount: i64,
}

} // verus!
