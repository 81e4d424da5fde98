//! The query pipeline: build the request bytes for a `(name, token)` pair,
//! decode a response body into answer strings, and turn a transport outcome
//! into the caller's result.
//!
//! The HTTP exchange in the middle is the host's work: the host posts the
//! bytes from [`build_query`] to the DoH endpoint and hands whatever came of
//! it to [`handle_exchange`]. Every failure short-circuits; a caller receives
//! either every answer string, in message order, or a single error.

use vstd::prelude::*;

use crate::errors::DohError;
use crate::errors::TransportFailure;
use crate::record_type::RecordType;
use crate::wire;

verus! {

/// The fixed message id of every query this library builds.
pub const QUERY_ID: u16 = 0;

/// Build the wire-format query message for `name` and the record type named
/// by `query_type`: one question, message id 0, recursion desired. Fails
/// with `UnrecognizedRecordType` on any token outside the sixteen recognized
/// names (checked first), and with `MalformedName` exactly where the codec
/// rejects the name.
pub fn build_query(name: &str, query_type: &str) -> (r: Result<Vec<u8>, DohError>)
    ensures
        r is Ok <==> (RecordType::spec_of_token(query_type@) matches Some(t)
            && wire::encoded_query(name@, t.spec_code(), QUERY_ID, true) is Some),
        (r matches Ok(v) ==> (RecordType::spec_of_token(query_type@) matches Some(t)
            && wire::encoded_query(name@, t.spec_code(), QUERY_ID, true) == Some(v@))),
        (r matches Err(e) ==> e == (if RecordType::spec_of_token(query_type@) is None {
            DohError::UnrecognizedRecordType
        } else {
            DohError::MalformedName
        })),
{
    let record_type = match RecordType::from_token(query_type) {
        Ok(t) => t,
        Err(e) => {
            return Err(e);
        },
    };
    match wire::encode_query(name, record_type.wire_code(), QUERY_ID, true) {
        Ok(bytes) => Ok(bytes),
        Err(_) => Err(DohError::MalformedName),
    }
}

/// Parse a response body as a DNS message and render its answer section: one
/// string per answer record, in message order — an empty section gives an
/// empty sequence, not an error. Fails with `MalformedResponse` exactly
/// where the bytes do not parse.
pub fn decode_and_format(bytes: &[u8]) -> (r: Result<Vec<String>, DohError>)
    ensures
        r is Ok <==> wire::decoded_answers(bytes@) is Some,
        (r matches Ok(v) ==> wire::decoded_answers(bytes@) == Some(v.deep_view())),
        (r matches Err(e) ==> e == DohError::MalformedResponse),
{
    match wire::decode_answers(bytes) {
        Ok(rendered) => Ok(rendered),
        Err(_) => Err(DohError::MalformedResponse),
    }
}

/// Turn the outcome of the host's HTTP exchange into the caller's result. A
/// delivered body is decoded and formatted; a transport failure surfaces as
/// `TransportUnavailable` or `NetworkError` with no decode attempted.
pub fn handle_exchange(outcome: Result<Vec<u8>, TransportFailure>) -> (r: Result<
    Vec<String>,
    DohError,
>)
    ensures
        (outcome matches Ok(body) ==> {
            &&& r is Ok <==> wire::decoded_answers(body@) is Some
            &&& (r matches Ok(v) ==> wire::decoded_answers(body@) == Some(v.deep_view()))
            &&& (r matches Err(e) ==> e == DohError::MalformedResponse)
        }),
        (outcome matches Err(TransportFailure::Unavailable) ==> r matches Err(e) && e
            == DohError::TransportUnavailable),
        (outcome matches Err(TransportFailure::Failed(report)) ==> r matches Err(e) && e
            == DohError::NetworkError(report)),
{
    match outcome {
        Ok(body) => decode_and_format(body.as_slice()),
        Err(TransportFailure::Unavailable) => Err(DohError::TransportUnavailable),
        Err(TransportFailure::Failed(report)) => Err(DohError::NetworkError(report)),
    }
}

} // verus!
