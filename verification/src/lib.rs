//! A durable key-value store: string keys name opaque byte values, kept in an
//! on-disk transactional engine, with a router that maps request outcomes to
//! wire responses.

pub mod config;
pub mod router;
pub mod storage;

pub use config::Config;
pub use storage::Storage;
pub use storage::StorageError;
