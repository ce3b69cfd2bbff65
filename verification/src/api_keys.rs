//! API keys: their text format, their digests, issuance, validation and the
//! request guard.

pub mod api_keys_application;
pub mod api_keys_domain;
pub mod api_keys_infrastructure;
pub mod errors;

pub use crate::api_keys::errors::ApiKeyError;
