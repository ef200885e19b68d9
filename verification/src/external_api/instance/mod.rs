//! Instances: running copies of workloads.
pub mod controller;
pub mod model;
pub mod service;
