//! Decision logic of a trading node's external control plane.
//!
//! The crate holds what the node decides: how bus messages become Kafka records and back, which
//! tasks a Kafka backing runs and when they stop, how configuration documents map onto Kafka
//! client settings, which causality records are published, how control commands resolve to
//! actions, and which strategies are vetoed. Sockets, timers and tasks live outside it.

pub mod backing;
pub mod bus;
pub mod causality;
pub mod config_document;
pub mod control_command;
pub mod ids;
pub mod json;
pub mod kafka_config;
pub mod overlay;
pub mod tasks;
pub mod text;
pub mod topic;
pub mod wire;
