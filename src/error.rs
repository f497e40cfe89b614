//! Errors that the protocol and session logic report.
use vstd::prelude::*;

verus! {

/// Failure of a protocol step or of a session decision.
#[derive(Clone, Copy, Debug, PartialEq, Eq, Structural)]
pub enum Error {
    /// Bytes that are not valid UTF-8 where text was expected.
    Utf8,
    /// A bounded wait ran out.
    Timeout,
    /// The device, service or characteristic was not found.
    NotFound,
    /// The trailing checksum byte does not match the data.
    BadCrc,
    /// The record-type byte is not the one expected.
    BadRecordType,
    /// The peripheral handle could not be resolved, or no response arrived.
    LostConnection,
    /// Fewer bytes than the fixed layout needs.
    NotEnoughData,
    /// The operation is not supported, or an event came out of turn.
    NotSupported,
    /// A host name could not be resolved.
    UnknownHostname,
}

/// Result of the library's fallible operations.
pub type Result<T> = core::result::Result<T, Error>;

} // verus!
