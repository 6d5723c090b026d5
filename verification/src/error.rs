//! The ways a download can fail.

use vstd::prelude::*;

verus! {

/// Why a download stopped.  Every failing path of the library ends in
/// exactly one of these kinds; none of them is ever retried here.
#[derive(Clone, Copy, Debug, PartialEq, Eq, Structural)]
pub enum Error {
    /// The request could not be put on the wire, or the connection failed
    /// before or while the response was read (connect, TLS, protocol).
    TransportError,
    /// The server answered with a status other than 200 or 206; the body
    /// was not read.  Carries the numeric status.
    StatusError(u16),
    /// The per-chunk deadline of a streaming body had passed when the next
    /// chunk was asked for.
    TimedOut,
    /// The compressed body was malformed.
    DecodeError,
    /// A `content-length` header was present but is no unsigned integer.
    HeaderParseError,
    /// The sink refused a write.
    IoError,
    /// The request's URI names no host.
    MissingHostError,
}

/// What an I/O error raised inside a decoder carries: either one of this
/// library's own errors, tunnelled through the I/O layer by the body that
/// the decoder reads from, or a failure of the decoding itself.
#[derive(Clone, Copy, Debug, PartialEq, Eq, Structural)]
pub enum IoFailure {
    /// The I/O error wraps an [`Error`] of this library.
    Wrapped(Error),
    /// The I/O error has any other cause.
    Other,
}

/// The error a decoder's I/O failure stands for.
pub open spec fn decoded(e: IoFailure) -> Error {
    match e {
        IoFailure::Wrapped(inner) => inner,
        IoFailure::Other => Error::DecodeError,
    }
}

/// Unwraps an error of this library that travelled inside an I/O error;
/// any other I/O error is a [`Error::DecodeError`].
pub fn decode_io(e: IoFailure) -> (r: Error)
    ensures
        r == decoded(e),
        e is Other ==> r == Error::DecodeError,
        e matches IoFailure::Wrapped(inner) ==> r == inner,
{
    match e {
        IoFailure::Wrapped(inner) => inner,
        IoFailure::Other => Error::DecodeError,
    }
}

} // verus!
