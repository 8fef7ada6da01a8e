//! The structured failure taxonomy of the adapter.
//!
//! Every decode function returns the first error encountered and performs no
//! partial construction; encode functions never fail.

use vstd::prelude::*;

verus! {

/// Why a wire message could not be turned into a native value.
#[derive(Clone, Copy, Debug, PartialEq, Eq, Structural)]
pub enum AdapterError {
    /// An identifier field held bytes of the wrong length.
    MalformedIdentifier,
    /// A label was rejected by the engine's validation rule, or was empty
    /// in a context that requires a label.
    InvalidLabel,
    /// A query union carried a tag outside the known variants.
    UnknownQueryVariant,
    /// A direction enum carried a value outside the known variants.
    UnknownDirection,
    /// A timestamp's nanosecond component was outside `[0, 1_000_000_000)`.
    MalformedTimestamp,
    /// The transport failed to read the underlying wire structure; raised by
    /// the transport layer and passed through unchanged.
    TransportReadFailure,
}

/// The model of a fallible conversion result: the decoded value is replaced
/// by its view, the error is kept as is.
pub open spec fn res_view<T: View>(r: Result<T, AdapterError>) -> Result<T::V, AdapterError> {
    match r {
        Ok(v) => Ok(v@),
        Err(e) => Err(e),
    }
}

} // verus!
