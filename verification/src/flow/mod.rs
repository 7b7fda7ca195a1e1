//! The operations of the backend.
pub mod device;
pub mod volume;
pub mod removal;
pub mod resize;
pub mod share;
pub mod snapshot;
pub mod pool_list;
pub mod pool_create;
pub mod pool_remove;
pub mod factory;
pub mod nested;
