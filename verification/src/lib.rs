//! A dependency-injection resolution engine.
//!
//! Given a callable of the embedding host and a call-time context, the engine
//! decides which parameters of that callable it must supply, computes their
//! values, and directs the host to invoke the callable with them merged in.
//! The host's object model is kept behind a narrow boundary: callables and
//! types are identified by stable integer keys, values are opaque tokens, and
//! everything the engine must do itself — classifying parameters into
//! injection descriptors, caching descriptor lists, layering context overrides
//! over a client registry, and running the synchronous and asynchronous
//! resolution protocols — is verified.

pub mod client;
pub mod resolve;
pub mod types;
pub mod values;
pub mod visitor;
