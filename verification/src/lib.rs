//! Runtime bridge between a single-threaded cooperative host and a
//! multi-threaded asynchronous network engine, for streaming HTTP bodies
//! as binary chunks.
//!
//! The crate models and verifies the logic of the bridge: the bounded
//! chunk conduit, the pull-to-push source adapter, the response-body
//! state machine with cancellation and trailers, and the classification
//! of transport faults. The unverified shell that wires these models to
//! the actual engine lives outside the library.

pub mod body;
pub mod channel;
pub mod chunk;
pub mod executor;
pub mod response;
pub mod source;
pub mod transport;
