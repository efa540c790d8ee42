//! The plain data the stream works over: logs, filter templates, the
//! stream's construction parameters, its output items, and its error kinds.

use vstd::prelude::*;

verus! {

/// One event log as the node reports it, reduced to the plain values the
/// stream carries through: the emitting address, the indexed topics and the
/// opaque data payload, each as raw bytes. The stream never inspects a log;
/// it only groups them by confirmed range.
#[derive(Debug, Clone, PartialEq, Eq)]
pub struct Log {
    pub address: Vec<u8>,
    pub topics: Vec<Vec<u8>>,
    pub data: Vec<u8>,
}

/// The address/topic predicate a stream is constructed with, without block
/// bounds: the planner adds a `from`/`to` range to it each cycle. An empty
/// `addresses` list matches every address; each entry of `topics` lists the
/// accepted values for that topic position, an empty list standing for a
/// wildcard. Fixed for the stream's lifetime.
#[derive(Debug, Clone, PartialEq, Eq)]
pub struct FilterTemplate {
    pub addresses: Vec<Vec<u8>>,
    pub topics: Vec<Vec<Vec<u8>>>,
}

/// The caller-supplied construction parameters of a stream: the cursor to
/// start after (the last height already processed, an exclusive lower
/// bound), the filter template, the tick cadence in milliseconds, and the
/// number of trailing blocks withheld as unconfirmed.
#[derive(Debug, Clone, PartialEq, Eq)]
pub struct LogStreamInit {
    pub after: u64,
    pub filter: FilterTemplate,
    pub poll_interval_ms: u64,
    pub confirmations: u64,
}

/// One output item: an inclusive confirmed block range together with every
/// matching log the node reported for it. A confirmed range can exist with
/// zero matching logs.
#[derive(Debug, Clone, PartialEq, Eq)]
pub struct LogStreamItem {
    pub from: u64,
    pub to: u64,
    pub logs: Vec<Log>,
}

/// Why a stream ended: a failed RPC call, or a failure of the tick source
/// itself. Neither is retried here — any retry policy belongs to the
/// caller or to the transport.
#[derive(Debug, Clone, Copy, PartialEq, Eq, Structural)]
pub enum StreamError {
    Rpc,
    Timer,
}

} // verus!
