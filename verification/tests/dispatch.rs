//! Record-type dispatch: each of the sixteen tokens selects its own record
//! type, and everything else is rejected.

use doh_query::errors::DohError;
use doh_query::record_type::RecordType;

fn expect(token: &str, want: RecordType, code: u16) {
    let got = RecordType::from_token(token).unwrap();
    assert_eq!(got, want);
    assert_eq!(got.wire_code(), code);
    assert_eq!(got.token(), token);
}

#[test]
fn dispatch_selects_each_token() {
    expect("A", RecordType::A, 1);
    expect("AAAA", RecordType::AAAA, 28);
    expect("ANY", RecordType::ANY, 255);
    expect("AXFR", RecordType::AXFR, 252);
    expect("CAA", RecordType::CAA, 257);
    expect("CNAME", RecordType::CNAME, 5);
    expect("IXFR", RecordType::IXFR, 251);
    expect("MX", RecordType::MX, 15);
    expect("NS", RecordType::NS, 2);
    expect("NULL", RecordType::NULL, 10);
    expect("OPT", RecordType::OPT, 41);
    expect("PTR", RecordType::PTR, 12);
    expect("SOA", RecordType::SOA, 6);
    expect("SRV", RecordType::SRV, 33);
    expect("TLSA", RecordType::TLSA, 52);
    expect("TXT", RecordType::TXT, 16);
}

#[test]
fn dispatch_rejects_unknown_token() {
    assert!(matches!(
        RecordType::from_token("FOO"),
        Err(DohError::UnrecognizedRecordType)
    ));
}

#[test]
fn dispatch_is_case_sensitive() {
    assert!(matches!(
        RecordType::from_token("a"),
        Err(DohError::UnrecognizedRecordType)
    ));
    assert!(matches!(
        RecordType::from_token("aaaa"),
        Err(DohError::UnrecognizedRecordType)
    ));
    assert!(matches!(
        RecordType::from_token("mx"),
        Err(DohError::UnrecognizedRecordType)
    ));
}

#[test]
fn dispatch_rejects_partial_and_padded_tokens() {
    assert!(matches!(
        RecordType::from_token(""),
        Err(DohError::UnrecognizedRecordType)
    ));
    assert!(matches!(
        RecordType::from_token("AA"),
        Err(DohError::UnrecognizedRecordType)
    ));
    assert!(matches!(
        RecordType::from_token("A "),
        Err(DohError::UnrecognizedRecordType)
    ));
    assert!(matches!(
        RecordType::from_token(" A"),
        Err(DohError::UnrecognizedRecordType)
    ));
}

#[test]
fn unrecognized_token_message() {
    let e = RecordType::from_token("FOO").unwrap_err();
    assert_eq!(e.message(), "query_type not recognised.");
}
