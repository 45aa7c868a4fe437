//! Region-aware relay client core: latency-race winner selection over probe
//! results, per-provider endpoint registries with region lookup, tip
//! instruction building on top of the Solana SDK, submission payload framing,
//! and elapsed-time reporting.
//!
//! Network I/O (probing, HTTP submission) is left to the embedding
//! application; this crate holds the decisions and data transformations and
//! proves them against their contracts.

pub mod assembler;
pub mod client;
pub mod elapsed;
pub mod payload;
pub mod errors;
pub mod prober;
pub mod regions;
pub mod solana;
pub mod tips;
