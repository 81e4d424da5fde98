//! The closed set of failures a DNS-over-HTTPS query can end in, and the
//! outcome a transport hands back to the library.

use vstd::prelude::*;

verus! {

/// Why a query failed. Every stage of the pipeline reports its failure as one
/// of these kinds; a caller receives exactly one of them, never a partial
/// result.
#[derive(Debug, Clone)]
pub enum DohError {
    /// An argument handed in by the host was not a string.
    InvalidArgumentType,
    /// The record-type token is not one of the sixteen recognized names.
    UnrecognizedRecordType,
    /// The domain name could not be parsed.
    MalformedName,
    /// No host execution context was available to perform network I/O.
    TransportUnavailable,
    /// The HTTP exchange itself failed; carries what the transport reported.
    NetworkError(String),
    /// The response bytes could not be decoded as a DNS message.
    MalformedResponse,
}

/// How a transport run by the host can fail. The host performs the HTTP
/// exchange and reports back either the response body or one of these.
#[derive(Debug, Clone)]
pub enum TransportFailure {
    /// No execution context was available to issue the request at all.
    Unavailable,
    /// The exchange was issued but failed; carries the transport's report.
    Failed(String),
}

impl DohError {
    /// The descriptive text for this failure, as surfaced to the caller.
    pub open spec fn message_spec(&self) -> Seq<char> {
        match self {
            DohError::InvalidArgumentType => "argument is not a string."@,
            DohError::UnrecognizedRecordType => "query_type not recognised."@,
            DohError::MalformedName => "name could not be parsed as a domain name."@,
            DohError::TransportUnavailable => "window not available."@,
            DohError::NetworkError(report) => report@,
            DohError::MalformedResponse => "response could not be decoded as a DNS message."@,
        }
    }

    /// A human-readable description of the failure.
    pub fn message(&self) -> (r: &str)
        ensures
            r@ == self.message_spec(),
    {
        match self {
            DohError::InvalidArgumentType => "argument is not a string.",
            DohError::UnrecognizedRecordType => "query_type not recognised.",
            DohError::MalformedName => "name could not be parsed as a domain name.",
            DohError::TransportUnavailable => "window not available.",
            DohError::NetworkError(report) => report.as_str(),
            DohError::MalformedResponse => "response could not be decoded as a DNS message.",
        }
    }
}

} // verus!
