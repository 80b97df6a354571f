//! What a node keeps of a key generation across restarts.
pub mod resume;
pub mod storage;
