# kudo

The verified core of a small container orchestrator: a controller that keeps
workloads and instances in etcd and asks a scheduler to run them, a scheduler
that records the instances it runs, and a node agent that runs workloads.

- `src/` is the library, checked by Verus. It holds the data model
  (`external_api::workload::model`, `external_api::instance::model`,
  `proto`), the decisions of the controller's services and HTTP handlers
  (`external_api::*::service`, `external_api::*::controller`), how store
  answers are read and paged (`internal_etcd`), the address allocator and
  address text (`net`), the scheduler's storage (`scheduler`) and the node
  agent's workload managers (`node_agent`). Contracts are stated over views
  and spec functions; the laws are public proof functions next to the code
  they are about.
- `app/` is the controller program: the HTTP server (actix-web), the etcd
  client and the scheduler's gRPC client. It performs the I/O and hands what
  came back to the library's decisions.
- `tests/` runs the library on concrete values.
