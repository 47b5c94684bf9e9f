//! Request-scoped tracing for an HTTP server: the header carrier that a trace
//! propagator reads, the attributes of the request span, and the per-request
//! span slot that handler code reads.

pub mod carrier;
pub mod headers;
pub mod span;
