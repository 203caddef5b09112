//! Config and reference-data upload payloads.

use vstd::prelude::*;

verus! {

/// Body of `POST /api/upload` on both the gateway and the store.
#[derive(Debug, Clone, PartialEq)]
pub struct UploadRequest {
    pub email: String,
    pub file_name: String,
    /// Base64-encoded file content.
    pub file_content: String,
}

/// The gateway's `POST /api/upload` result: what SDK callers see.
#[derive(Debug, Clone, PartialEq)]
pub struct UploadResponse {
    pub success: bool,
    pub message: String,
    pub groups_added: Option<usize>,
    pub endpoints_added: Option<usize>,
}

/// The store's own upload result. Shaped differently from [`UploadResponse`]:
/// the store reports raw import counts, the gateway reports what it added.
#[derive(Debug, Clone, PartialEq)]
pub struct StoreUploadResponse {
    pub success: bool,
    pub message: String,
    pub imported_count: i32,
    pub group_count: i32,
}

/// A UTC instant as a count of non-leap seconds since 1970-01-01T00:00:00Z and
/// the nanoseconds past that second (above 999,999,999 only within a leap
/// second). On the wire it is an RFC 3339 timestamp.
#[derive(Debug, Clone, Copy, PartialEq, Eq, Structural)]
pub struct UtcTimestamp {
    pub secs: i64,
    pub subsec_nanos: u32,
}

/// A stored reference-data file.
#[derive(Debug, Clone, PartialEq)]
pub struct ReferenceData {
    pub id: String,
    pub email: String,
    pub name: String,
    pub data: serde_json::Value,
    pub created_at: UtcTimestamp,
}

#[derive(Debug, Clone, PartialEq)]
pub struct UploadReferenceDataRequest {
    pub email: String,
    pub file_name: String,
    /// Base64-encoded file content.
    pub file_content: String,
}

/// The store's answer to a reference-data upload.
#[derive(Debug, Clone, PartialEq)]
pub struct UploadReferenceDataResponse {
    pub success: bool,
    pub message: String,
    pub data: Option<ReferenceData>,
}

} // verus!
