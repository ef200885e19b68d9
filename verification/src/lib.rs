//! Verified core of a small container orchestrator: the data model of
//! workloads and instances, the decisions of the controller's services and
//! HTTP handlers, the scheduler's instance storage and the node agent's
//! workload manager.
pub mod external_api;
pub mod http;
pub mod ids;
pub mod internal_etcd;
pub mod json;
pub mod net;
pub mod node_agent;
pub mod proto;
pub mod scheduler;
