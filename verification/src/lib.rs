//! A checked wrapper around a handle-based native sound-event backend.
//!
//! The backend reports every outcome as a signed status code: zero for
//! success, a closed set of negative codes for its failure kinds. This
//! crate holds the decision layer of the wrapper: decoding those codes
//! into a typed error model, and the lifecycle rules of a backend session
//! (a context owning exactly one non-null native handle). The native calls
//! themselves happen outside the library, which receives their raw results
//! as plain values.

pub mod context;
pub mod error;
