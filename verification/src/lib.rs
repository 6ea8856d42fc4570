//! Verified logic of three Polkadot components: locating the worker binaries of a node, the core
//! fellowship membership rules, and the mocked runtime around a message queue.

pub mod fellowship;
pub mod queue_mock;
pub mod unix_path;
pub mod workers;
