//! The controller's external API: workloads and their instances.
pub mod instance;
pub mod workload;
