//! An incremental discoverer of confirmed block ranges.
//!
//! A `LogStream` turns a periodic tick into a sequence of contiguous,
//! checkpointed block ranges, each paired with the event logs the node
//! reported for it. A confirmation depth holds back the newest blocks so
//! that shallow chain reorganizations never reach the output. The stream
//! itself is a pure state machine: the surrounding runtime performs the
//! timer waits and the RPC calls and feeds the results back in as events.

pub mod planner;
pub mod stream;
pub mod types;

pub use planner::{confirmed_height, plan_range};
pub use stream::{log_stream, Action, Event, LogStream, LogStreamState};
pub use types::{FilterTemplate, Log, LogStreamInit, LogStreamItem, StreamError};
