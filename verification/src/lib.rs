//! Shared wire types for the api0 platform: the gateway, the store and the SDK
//! all speak these payloads, so the three cannot drift apart.
//!
//! The verified part of the crate holds the rules those payloads carry: the
//! failure envelope and the HTTP status each failure goes with, the wire
//! spellings of the closed enumerations and how they read back, the defaults
//! a missing field takes, and the normalisation of the flexible `required`
//! flag. [`ApiError`] defines the platform-wide failure contract; see its
//! module for the two rules every api0 service obeys.

pub mod catalog;
pub mod error;
pub mod keys;
pub mod text;
pub mod upload;
pub mod usage;

pub use catalog::{
    generate_uuid, AddApiGroupRequest, ApiGroup, ApiGroupWithEndpoints, ApiStorage, Endpoint,
    FlexibleBool, Parameter, RequiredFlagError, UpdateApiGroupRequest, UpdatePreferenceRequest,
    UserPreferences,
};
pub use error::{ApiError, ErrorCode, Success};
pub use keys::{
    ApiKeyInfo, GenerateKeyRequest, GeneratedKey, KeyPreference, PlatformRole, ProviderInfo,
    SetClientIdRequest, SetRoleRequest, Tenant, TenantUser, UserRole, ValidateKeyRequest,
    ValidateKeyResponse,
};
pub use upload::{
    ReferenceData, StoreUploadResponse, UploadReferenceDataRequest, UploadReferenceDataResponse,
    UploadRequest, UploadResponse, UtcTimestamp,
};
pub use usage::{
    ApiUsageLog, ConfirmPaymentRequest, CreatePaymentIntentRequest, CreditTransaction,
    LogApiUsageRequest, LogApiUsageResponse, TokenUsage, UpdateCreditRequest,
};
