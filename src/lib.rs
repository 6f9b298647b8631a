//! Coordination of node-local cache volume cleanup through small versioned
//! records in a shared store.
//!
//! - [`status`]: the per-volume record and its idempotent transitions.
//! - [`mutation`]: the changes that writers apply to a record.
//! - [`engine`]: the optimistic update engine, a read-mutate-write cycle
//!   under compare-and-swap with bounded, backed-off retries.
//! - [`backoff`]: the retry delay schedule.
//! - [`worker`]: decisions of the per-node cleanup loop.
//! - [`reconciler`]: decisions of the cluster-wide reconciler.
//! - [`volume`]: volume identifiers and local directories.
//! - [`identity`]: what the plugin advertises and accepts.
//! - [`laws`]: properties that hold across calls.
//! - [`concurrency`]: two registrars against a compare-and-swap store.

pub mod backoff;
pub mod engine;
pub mod identity;
pub mod laws;
pub mod mutation;
pub mod reconciler;
pub mod status;
pub mod volume;
pub mod worker;
pub mod concurrency;
