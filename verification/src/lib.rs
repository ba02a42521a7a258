//! A bounded-concurrency content-extraction engine.
//!
//! Given a list of target addresses and one structural query (a CSS-style
//! selector), the engine fetches each target's document, extracts the matched
//! text fragments, and reports per-target results and latencies while never
//! exceeding a caller-chosen number of simultaneous fetches.
//!
//! This crate holds the verified core: selector compilation, document
//! extraction, address resolution, the admission gate that bounds concurrency,
//! and the assembly of per-address outcomes into an index-aligned batch
//! result. The asynchronous transports live outside it and hand the core
//! plain values: each address's raw body and elapsed time, or its scoped
//! error, in input order.

use vstd::prelude::*;

pub mod address;
pub mod batch;
pub mod error;
pub mod gate;
pub mod selector;

pub use address::Address;
pub use address::resolve_address;
pub use batch::BatchResult;
pub use batch::FetchOutcome;
pub use batch::TaskOutput;
pub use batch::assemble_batch;
pub use batch::run_batch;
pub use error::ScrapeError;
pub use gate::AdmissionGate;
pub use selector::CompiledMatcher;
pub use selector::extract;

verus! {

/// How long a transport may spend establishing a connection. The engine is a
/// latency-bounded scraping workload, so the window is deliberately short; an
/// address that misses it fails alone, as `ConnectFailure` or `Timeout`.
pub const CONNECT_TIMEOUT_MS: u64 = 250;

/// How long one whole request/response exchange may take, body transfer
/// included.
pub const REQUEST_TIMEOUT_MS: u64 = 500;

/// How long the multiplexed backend keeps an idle session open before the
/// transport closes it.
pub const SESSION_IDLE_TIMEOUT_MS: u64 = 5000;

} // verus!
