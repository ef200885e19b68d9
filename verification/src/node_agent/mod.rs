//! The node agent: the workloads it runs and the signals it delivers to them.
pub mod error;
pub mod workload;
pub mod workload_lib;
pub mod workload_manager;
pub mod workload_manager_lib;
