//! The controller's use of its key-value store.
pub mod interface;
