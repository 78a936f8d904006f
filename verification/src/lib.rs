//! Orchestration of distributed integration tests for a peer-to-peer node
//! runtime: the message codec spoken with a running node, and the state
//! machines that sequence boot, package injection, the distributed run and
//! teardown.

pub mod inject_message;
pub mod json;
pub mod machine;
pub mod run_tests;
pub mod start_package;
pub mod text;
