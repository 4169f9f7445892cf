//! Replays captured request payloads against two HTTP endpoints and reports
//! where their responses differ.
//!
//! The crate holds the decisions of the replay pipeline: how a configuration
//! is validated, how the request pair for one entry is built and sequenced,
//! how two response bodies are compared, and how outcomes are counted.
//! Transport, threads and the log file stay with the caller, who performs the
//! step that a function here returns and hands back what came of it.

pub mod diff_conf;
pub mod dispatch_queue;
pub mod http_client;
pub mod replay_log_reader;
pub mod request_service;
pub mod result_diff;
pub mod service_error;
pub mod worker;
