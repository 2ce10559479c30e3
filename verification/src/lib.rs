//! Client-side orchestration core for batched file uploads to an
//! object-storage service: per-file upload tickets, multipart transfer
//! planning, completion polling with bounded exponential backoff and
//! jitter, and cooperative cancellation.
//!
//! The decision logic is verified; the surrounding HTTP and async
//! plumbing lives outside this crate and only feeds plain values in
//! and out.

pub mod backoff;
pub mod batch;
pub mod config;
pub mod errors;
pub mod files;
pub mod models;
pub mod poll;
pub mod request;
pub mod transfer;

pub use config::ApiKey;
pub use config::UploadthingConfig;
pub use config::UploadthingConfigBuilder;
