//! The errors a reader reports.

use minidump::Error;
use vstd::prelude::*;

verus! {

/// Why a reader could not be built, or why it could not answer a query.
///
/// Only `Format` keeps a reader from being built. The others answer one query
/// and leave the reader as it was. The three memory errors are kept apart on
/// purpose: a caller can tell a dump that captured no memory at all from an
/// address that was not captured and from a request that runs past the end of
/// the region it starts in.
#[derive(Debug, PartialEq, Eq)]
pub enum ReaderError {
    /// The decoder rejected the container; its error is handed on as it came.
    Format(Error),
    /// The dump holds no list of captured memory that the decoder can read.
    MemoryStreamUnavailable,
    /// No captured region covers the address.
    AddressNotMapped,
    /// The address is captured, but the requested bytes do not all lie in the
    /// region that covers it.
    OutOfBounds,
    /// The dump does not hold the requested stream.
    StreamMissing,
    /// The dump holds the requested stream, but it cannot be decoded.
    StreamCorrupt,
}

impl ReaderError {
    /// How a decoder's failure to hand out a stream is reported: a stream
    /// that is not there is missing, every other failure means it is corrupt.
    pub open spec fn stream_failure(cause: Error) -> ReaderError {
        if cause is StreamNotFound {
            ReaderError::StreamMissing
        } else {
            ReaderError::StreamCorrupt
        }
    }

    /// Turns the decoder's error for a stream into the reader's.
    pub fn from_stream_failure(cause: &Error) -> (error: ReaderError)
        ensures
            error == Self::stream_failure(*cause),
    {
        match cause {
            Error::StreamNotFound => ReaderError::StreamMissing,
            _ => ReaderError::StreamCorrupt,
        }
    }
}

} // verus!
