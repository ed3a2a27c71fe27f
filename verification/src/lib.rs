//! Verified core of a load-generation harness for a unary RPC service:
//! an exponential backoff policy with bounded elapsed time and injected
//! jitter, a retry engine driving one logical call through that policy,
//! throughput counters with swap-and-reset reporting, and the responder's
//! reply construction. Transport, argument parsing and task plumbing live
//! outside the library.

pub mod backoff;
pub mod greeter;
pub mod metrics;
pub mod naming;
pub mod reporter;
pub mod retry;
pub mod rng;
pub mod worker;

pub use backoff::{BackoffConfig, BackoffPolicy};
pub use greeter::{HelloReply, HelloRequest, MyGreeter};
pub use metrics::MetricsCounters;
pub use retry::{ExhaustionError, RetryEngine, TransientError};
pub use worker::WorkerIdentity;
