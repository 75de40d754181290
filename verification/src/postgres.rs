//! The session side: connection targets, statements, the pool registry and
//! the credential store.

pub mod connection_manager;
pub mod connection_pool_manager;
pub mod credential_manager;
pub mod error;
pub mod identifier;
