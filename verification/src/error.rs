//! The failure taxonomy surfaced to callers: every failure of the client is a
//! typed, returned value, never a panic.

use vstd::prelude::*;

verus! {

/// A failure of an MDQ operation.
#[derive(Debug, Clone)]
pub enum MdqError {
    /// The HTTP transport failed (connection, timeout); carries the
    /// transport's description.
    Http(String),
    /// The aggregator answered "not found" for the identifier carried here:
    /// an expected negative result, not a transport fault.
    EntityNotFound(String),
    /// The response was malformed: a non-success, non-404 status, or an
    /// unparseable body; carries a diagnostic.
    InvalidXml(String),
    /// XML signature verification failed; carries the cause description.
    SignatureError(String),
    /// Reserved for input validation of entity identifiers; no current
    /// operation produces it.
    InvalidEntityId(String),
}

} // verus!
