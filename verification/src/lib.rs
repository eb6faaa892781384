//! Verified core of the AICore background service.

pub mod text;
pub mod json;
pub mod protocol;
pub mod schema;
pub mod sse;
pub mod pow;
pub mod crypto;
pub mod store;
pub mod paths;
pub mod storage;
pub mod router;
pub mod client;
pub mod files;
pub mod auth_retry;
pub mod desktop;
