//! End-to-end scenarios with a stubbed transport: the host builds the query,
//! plays the exchange outcome into `handle_exchange`, and the caller sees
//! either the answer strings or a single error.

use doh_query::errors::DohError;
use doh_query::errors::TransportFailure;
use doh_query::query::build_query;
use doh_query::query::handle_exchange;

/// What a stub DoH server at `https://dns.example/dns-query` answers for
/// `example.com A`: one answer record `example.com A IN 300 93.184.216.34`.
fn stub_response() -> Vec<u8> {
    vec![
        0x00, 0x00, // id
        0x81, 0x80, // response, recursion desired and available
        0x00, 0x01, // one question
        0x00, 0x01, // one answer
        0x00, 0x00, // no name servers
        0x00, 0x00, // no additionals
        0x07, b'e', b'x', b'a', b'm', b'p', b'l', b'e', 0x03, b'c', b'o', b'm',
        0x00, // example.com
        0x00, 0x01, // type A
        0x00, 0x01, // class IN
        0xc0, 0x0c, // answer name: pointer to the question's name
        0x00, 0x01, // type A
        0x00, 0x01, // class IN
        0x00, 0x00, 0x01, 0x2c, // ttl 300
        0x00, 0x04, // four bytes of record data
        0x5d, 0xb8, 0xd8, 0x22, // 93.184.216.34
    ]
}

#[test]
fn query_with_one_a_record_yields_one_string() {
    let request = build_query("example.com", "A").unwrap();
    assert!(!request.is_empty());
    let answers = handle_exchange(Ok(stub_response())).unwrap();
    assert_eq!(answers.len(), 1);
    assert!(answers[0].contains("example.com"));
    assert!(answers[0].contains("A"));
    assert!(answers[0].contains("93.184.216.34"));
}

#[test]
fn unknown_token_fails_before_any_network_call() {
    let r = build_query("example.com", "FOO");
    assert!(matches!(r, Err(DohError::UnrecognizedRecordType)));
}

#[test]
fn transport_failure_becomes_a_network_error() {
    let r = handle_exchange(Err(TransportFailure::Failed(String::from(
        "connection aborted",
    ))));
    match r {
        Err(DohError::NetworkError(report)) => assert_eq!(report, "connection aborted"),
        other => panic!("expected a network error, got {:?}", other),
    }
}

#[test]
fn missing_context_becomes_transport_unavailable() {
    let r = handle_exchange(Err(TransportFailure::Unavailable));
    assert!(matches!(r, Err(DohError::TransportUnavailable)));
    assert_eq!(r.unwrap_err().message(), "window not available.");
}

#[test]
fn invalid_argument_message() {
    let e = DohError::InvalidArgumentType;
    assert_eq!(e.message(), "argument is not a string.");
}

#[test]
fn network_error_message_carries_the_report() {
    let e = DohError::NetworkError(String::from("CORS rejection"));
    assert_eq!(e.message(), "CORS rejection");
}
