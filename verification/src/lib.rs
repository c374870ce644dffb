//! A lookup service core that maps 64-bit hashes back to the strings that
//! produced them, for two independent tables ("game" and "bin").

pub mod error;
pub mod hashing;
pub mod ingest;
pub mod lifecycle;
pub mod service;
pub mod sync;
pub mod sync_machine;
pub mod table;
pub mod text;

pub use crate::hashing::HashtableType;
pub use crate::lifecycle::LoadingState;
pub use crate::service::ServiceHashLoader;
