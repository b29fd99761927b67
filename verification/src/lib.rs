//! A transaction-submission pipeline: it decodes untrusted, doubly-encoded
//! wire input into a signed transaction, prepares the request that is handed
//! to an execution backend, and normalizes the backend's raw response into a
//! single discriminated execution result.
//!
//! The backend call itself is I/O and lives outside this library; everything
//! that decides or computes — decoding, assembly, request construction, and
//! response normalization — is here, with its behaviour stated in contracts.

pub mod adapter;
pub mod codec;
pub mod effects;
pub mod encoding;
pub mod errors;
pub mod laws;
pub mod pipeline;
pub mod response;
pub mod transaction;
pub mod sig;
pub mod tx;
