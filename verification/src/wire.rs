//! The trusted boundary to the `trust_dns_proto` wire-format codec.
//!
//! A DNS message is opaque to the verifier, so the codec is reached through
//! two wrappers working on plain values: one serializes a single-question
//! query message, one parses a response and renders its answer records. What
//! each returns is a function of its arguments alone; the uninterpreted spec
//! functions here give those results their names, and every contract above
//! this module speaks of the results through them.

use vstd::prelude::*;

verus! {

#[verifier::external_type_specification]
#[verifier::external_body]
pub struct ExProtoError(trust_dns_proto::error::ProtoError);

/// The serialized wire form of the single-question query message that the
/// codec builds for this name, record-type code, message id, and
/// recursion-desired flag (message type and opcode both Query), or `None`
/// where the codec rejects the name or cannot serialize the message.
pub uninterp spec fn encoded_query(name: Seq<char>, rtype: u16, id: u16, rd: bool) -> Option<
    Seq<u8>,
>;

/// The rendering of a wire-format response: one display string per record of
/// its answer section, in message order, or `None` where the bytes do not
/// parse as a DNS message.
pub uninterp spec fn decoded_answers(bytes: Seq<u8>) -> Option<Seq<Seq<char>>>;

/// Relies on `trust_dns_proto`: `Name::from_utf8` to parse the name,
/// `Query::query` and the `Message` setters to assemble a single-question
/// message with the given header fields, and `Message::to_vec` to serialize
/// it. The result depends on the arguments alone; `encoded_query` names it.
#[verifier::external_body]
pub(crate) fn encode_query(name: &str, rtype: u16, id: u16, rd: bool) -> (r: Result<
    Vec<u8>,
    trust_dns_proto::error::ProtoError,
>)
    ensures
        r is Ok <==> encoded_query(name@, rtype, id, rd) is Some,
        (r matches Ok(v) ==> encoded_query(name@, rtype, id, rd) == Some(v@)),
{
    let parsed = trust_dns_proto::rr::Name::from_utf8(name)?;
    let question = trust_dns_proto::op::Query::query(
        parsed,
        trust_dns_proto::rr::RecordType::from(rtype),
    );
    let mut message = trust_dns_proto::op::Message::new();
    message
        .add_query(question)
        .set_id(id)
        .set_message_type(trust_dns_proto::op::MessageType::Query)
        .set_op_code(trust_dns_proto::op::OpCode::Query)
        .set_recursion_desired(rd);
    message.to_vec()
}

/// Relies on `trust_dns_proto`: `Message::from_vec` to parse the bytes,
/// `Message::answers` for the answer section, and the records' `Debug`
/// rendering for the display strings. The result depends on the bytes alone;
/// `decoded_answers` names it.
#[verifier::external_body]
pub(crate) fn decode_answers(bytes: &[u8]) -> (r: Result<
    Vec<String>,
    trust_dns_proto::error::ProtoError,
>)
    ensures
        r is Ok <==> decoded_answers(bytes@) is Some,
        (r matches Ok(v) ==> decoded_answers(bytes@) == Some(v.deep_view())),
{
    let message = trust_dns_proto::op::Message::from_vec(bytes)?;
    let mut rendered = Vec::new();
    for answer in message.answers().iter() {
        rendered.push(format!("{:?}", answer));
    }
    Ok(rendered)
}

} // verus!
