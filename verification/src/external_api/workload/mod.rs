//! Workloads: what a user asks to run.
pub mod controller;
pub mod filter;
pub mod model;
pub mod service;
