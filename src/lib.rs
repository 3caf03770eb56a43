//! A pool of remote nodes: the registry of nodes and their parameters, at
//! most one session per node, and the deploy, run and liveness pipelines as
//! verified steps. The caller performs the remote work that each step asks
//! for and hands back what came of it.

pub mod subject;
pub mod table;
pub mod text;
pub mod conn_status;
pub mod conn_alive_status;
pub mod results;
pub mod node_pool;
pub mod deploy;
pub mod run;
pub mod alive;
