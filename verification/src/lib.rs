//! A registry of shared bloom filters addressable by stable integer handles,
//! with a per-worker handle cache, batch and parallel membership queries,
//! binary serialization of filter state, and bound endpoints that skip
//! handle resolution.


pub mod api;
pub mod cache;
pub mod codec;
pub mod filter;
pub mod laws;
pub mod registry;
pub mod timing;

use vstd::prelude::*;

verus! {

/// The error taxonomy of the library.
///
/// `InvalidParameter` arises only at construction time, for an out-of-range
/// false-positive rate. `NotFound` marks a handle or endpoint that is not
/// present, and `EncodingFailure` a serialization fault (this library's
/// codec has no failing path, so none arises here): lookup-style operations
/// absorb both locally into soft default values — false, an all-false batch,
/// absence, or 0 — rather than surface them, so a single bad handle never
/// aborts a caller's broader request. `BindingFailure` marks an
/// endpoint creation attempt against an unknown handle; it is surfaced, as
/// construction-time errors are, as an explicit non-fatal condition.
#[derive(Clone, Copy, PartialEq, Eq, Structural, Debug)]
pub enum FilterError {
    InvalidParameter,
    NotFound,
    EncodingFailure,
    BindingFailure,
}

impl FilterError {
    /// A short description of the error, for callers that report it.
    pub fn message(&self) -> &'static str {
        match self {
            FilterError::InvalidParameter => "false-positive rate must be strictly between 0 and 1",
            FilterError::NotFound => "no filter is registered under this handle",
            FilterError::EncodingFailure => "the filter state could not be encoded",
            FilterError::BindingFailure => "cannot bind an endpoint to an unknown handle",
        }
    }
}

} // verus!
