//! Errors of the response protocol.
use vstd::prelude::*;

verus! {

/// A violation of the response protocol by the application.
#[derive(PartialEq, Eq, Structural, Clone, Copy, Debug)]
pub enum ProtocolError {
    /// The outbound channel closed before any event arrived.
    ResponseStartMissing,
    /// An event arrived whose kind is not the one the phase expects.
    ResponseTypeMismatch,
    /// A response-start event carried a status outside the accepted range.
    InvalidStatusCode,
}

} // verus!
