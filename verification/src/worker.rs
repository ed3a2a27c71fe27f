//! One worker of the pool: its identity, the request it sends on every
//! attempt, and its turn — one logical call driven through the retry
//! engine, its end recorded in the shared counters. The spawning of
//! workers, the inter-call delay and the real waiting happen outside the
//! library; a worker's turn is verified here over the recorded outcomes
//! of its attempts.

use crate::backoff::BackoffConfig;
use crate::greeter::{make_request, HelloRequest};
use crate::metrics::{bumped, MetricsCounters};
use crate::naming;
use crate::retry::{call_verdict, execute_recorded, CallVerdict, ExhaustionError, TransientError};
use vstd::prelude::*;

verus! {

/// The identity one worker tags its requests with: the pool's name and
/// its own. Generated once at spawn; not globally unique.
pub struct WorkerIdentity {
    pub pool_name: String,
    pub worker_name: String,
}

impl WorkerIdentity {
    /// An identity from the given names.
    pub fn new(pool_name: String, worker_name: String) -> (w: WorkerIdentity)
        ensures
            w.pool_name@ == pool_name@,
            w.worker_name@ == worker_name@,
    {
        WorkerIdentity { pool_name, worker_name }
    }

    /// The request this worker sends on every attempt: its identity and
    /// the fixed payload.
    pub fn request(&self) -> (r: HelloRequest)
        ensures
            r.client_name@ == self.pool_name@,
            r.thread_name@ == self.worker_name@,
            r.message@ == "Tonic"@,
    {
        make_request(&self.pool_name, &self.worker_name)
    }
}

/// An identity with random name suffixes, as a worker draws at spawn.
pub fn generate_identity() -> (w: WorkerIdentity)
    ensures
        exists|b: nat| b < 256 && w.pool_name@ == naming::client_name_seq(b),
        exists|b: nat| b < 256 && w.worker_name@ == naming::thread_name_seq(b),
{
    WorkerIdentity {
        pool_name: naming::generate_client_name(),
        worker_name: naming::generate_thread_name(),
    }
}

/// One worker turn: drive one logical call over the recorded attempt
/// outcomes and record how it ended — the success counter steps by one on
/// success, the error counter steps by one on exhaustion (once per call,
/// not per attempt), and the retry counter counts the retries scheduled
/// on the way.
pub fn run_recorded_call<T>(
    config: BackoffConfig,
    start_ms: u64,
    attempts: &mut Vec<Result<T, TransientError>>,
    times_ms: &Vec<u64>,
    draws: &Vec<u64>,
    counters: &mut MetricsCounters,
) -> (r: Result<T, ExhaustionError>)
    requires
        config.wf(),
        times_ms@.len() == old(attempts)@.len(),
        draws@.len() == old(attempts)@.len(),
        forall|j: int| 0 <= j < times_ms@.len() ==> start_ms <= #[trigger] times_ms@[j],
        forall|j: int| 0 <= j < draws@.len() ==> #[trigger] draws@[j] <= 2000,
        !(call_verdict(config, start_ms, old(attempts)@, times_ms@) is Undecided),
        old(counters).retry_count + old(attempts)@.len() <= u64::MAX,
    ensures
        match call_verdict(config, start_ms, old(attempts)@, times_ms@) {
            CallVerdict::SucceededAt(i) => {
                &&& r is Ok
                &&& r->Ok_0 == old(attempts)@[i]->Ok_0
                &&& final(counters).ok_count == bumped(old(counters).ok_count)
                &&& final(counters).err_count == old(counters).err_count
                &&& final(counters).retry_count == old(counters).retry_count + i
            },
            CallVerdict::ExhaustedAt(i) => {
                &&& r is Err
                &&& r->Err_0.last_error == old(attempts)@[i]->Err_0
                &&& final(counters).err_count == bumped(old(counters).err_count)
                &&& final(counters).ok_count == old(counters).ok_count
                &&& final(counters).retry_count == old(counters).retry_count + i
            },
            CallVerdict::Undecided => false,
        },
{
    let r = execute_recorded(config, start_ms, attempts, times_ms, draws, counters);
    if r.is_ok() {
        counters.increment_ok();
    } else {
        counters.increment_err();
    }
    r
}

} // verus!
