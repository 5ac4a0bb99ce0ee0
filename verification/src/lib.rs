//! Transaction-history digest pipeline.
//!
//! The pipeline retrieves the full signature history of a ledger account by
//! cursor-based pagination, keeps the successful transactions, enriches them
//! in bounded batches through an external description service, drops
//! irrelevant records by a content filter, and renders the survivors as a
//! time-ordered digest.
//!
//! The network calls themselves (page fetches, batch enrichment, the chat
//! front end) live outside this library; the library holds the decisions:
//! when pagination terminates, which cursor comes next, which records
//! survive each filter, how batches are cut, and how the digest is rendered.

use vstd::prelude::*;

pub mod address;
pub mod collector;
pub mod digest;
pub mod enricher;
pub mod records;
pub mod relevance;
pub mod success;

verus! {

/// A failure of the pipeline. Every failure aborts the whole pipeline and
/// surfaces as exactly one of these kinds; no stage retries internally.
#[derive(Clone, Copy, Debug, PartialEq, Eq, Structural)]
pub enum PipelineError {
    /// The address string failed identifier validation; no network call was made.
    InvalidAddress,
    /// A ledger page fetch failed; the collection aborted.
    UpstreamUnavailable,
    /// The enrichment call for the batch with this index failed; all partial
    /// results were discarded.
    EnrichmentFailed(usize),
}

} // verus!
