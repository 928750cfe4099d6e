//! Error taxonomy for a backend service: message catalogs keyed by error code,
//! the `AppError` value, and the mapping of storage failures to it.

pub mod catalog;
pub mod decimal;
pub mod error;
pub mod storage;
pub mod text;
pub mod user;
