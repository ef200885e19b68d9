//! The messages that the controller, the scheduler and the node agent
//! exchange, as plain values.
pub mod agent;
pub mod controller;
pub mod scheduler;
