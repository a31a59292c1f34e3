//! A storage backend that keeps build-cache entries in a Google Cloud Storage
//! bucket, with short-lived OAuth2 bearer credentials refreshed on demand.
pub mod bucket;
pub mod cache;
pub mod credentials;
pub mod encoding;
pub mod errors;
pub mod token;
