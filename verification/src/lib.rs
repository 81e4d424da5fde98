//! A verified core for issuing a single DNS-over-HTTPS (DoH) query.
//!
//! The library builds a DNS wire-format query for a given domain name and
//! record-type token, and decodes a wire-format response into one display
//! string per answer record. The HTTP exchange itself is host work: the host
//! posts the built bytes to a DoH endpoint and hands the outcome back to
//! [`query::handle_exchange`], which turns it into the caller's result.
//!
//! Serialization to and from the DNS wire format is done by the
//! `trust_dns_proto` codec, reached through a small trusted boundary in
//! [`wire`]; everything around it — record-type dispatch, query assembly,
//! error mapping, and the sequencing of the pipeline — is verified.

pub mod errors;
pub mod query;
pub mod record_type;
pub mod wire;
