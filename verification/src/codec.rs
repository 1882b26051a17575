//! The wire codec: a request message plus a fixed response label and
//! metadata become three ordered frames; the single reply frame becomes a
//! message again.

use vstd::prelude::*;
use vstd::string::StrSliceExecFns;
use vstd::utf8::encode_utf8;

use crate::errors::DispatchError;
use crate::json::{decoded_entries, message_of_fields, parse_reply_object, reply_entries};
use crate::message::{entries_view, Message};

verus! {

/// The JSON text, as bytes, of the payload object `{field: byte-values}`
/// that `serde_json` produces for a given field list.
pub uninterp spec fn payload_json(entries: Seq<(Seq<char>, Seq<u8>)>) -> Seq<u8>;

/// The JSON text, as bytes, of the two-entry metadata object
/// `{"metadata": ..., "response": ...}` that `serde_json` produces for the
/// given label values.
pub uninterp spec fn metadata_json(response: Seq<char>, metadata: Seq<char>) -> Seq<u8>;

/// The three ordered frames of one request exchange.
#[derive(Debug)]
pub struct WireRequest {
    /// First frame: the fixed response label, as text bytes.
    pub response_frame: Vec<u8>,
    /// Second frame: the serialized metadata object.
    pub metadata_frame: Vec<u8>,
    /// Third frame: the serialized request message.
    pub payload_frame: Vec<u8>,
}

/// Relies on `serde_json::to_vec` on a name-to-bytes map: the JSON object
/// text is a function of the entries alone (the map is keyed, so its
/// serialized order is fixed).
#[verifier::external_body]
fn encode_payload(data: &Vec<(String, Vec<u8>)>) -> (r: Vec<u8>)
    ensures
        r@ == payload_json(entries_view(data@)),
{
    let object: std::collections::BTreeMap<&String, &Vec<u8>> =
        data.iter().map(|p| (&p.0, &p.1)).collect();
    serde_json::to_vec(&object).unwrap_or_default()
}

/// Relies on `serde_json::to_vec` on a two-entry map of string to string:
/// the JSON object text is a function of the two label values alone.
#[verifier::external_body]
fn encode_metadata(response: &str, metadata: &str) -> (r: Vec<u8>)
    ensures
        r@ == metadata_json(response@, metadata@),
{
    let object = std::collections::BTreeMap::from([
        ("metadata", metadata),
        ("response", response),
    ]);
    serde_json::to_vec(&object).unwrap_or_default()
}

/// Serialize a request: the response label as text bytes, the metadata
/// object built from that label, and the message payload, in that order.
pub fn encode_request(message: &Message, response_text: &str) -> (r: WireRequest)
    ensures
        r.response_frame@ == encode_utf8(response_text@),
        r.metadata_frame@ == metadata_json(response_text@, response_text@),
        r.payload_frame@ == payload_json(message@),
{
    WireRequest {
        response_frame: response_text.as_bytes_vec(),
        metadata_frame: encode_metadata(response_text, response_text),
        payload_frame: encode_payload(&message.data),
    }
}

/// Deserialize the single reply frame.  Exactly the frames that are not
/// JSON objects are decode failures; any other frame decodes to the
/// message whose fields are [`reply_entries`] of the frame: every field
/// value reduced to bytes by the fixed conversion rule, the field names
/// pairwise distinct.
pub fn decode_reply(frame: &[u8]) -> (r: Result<Message, DispatchError>)
    ensures
        (r is Ok) == (reply_entries(frame@) is Some),
        r matches Ok(m) ==> Some(m@) == reply_entries(frame@) && m.wf(),
        r matches Err(e) ==> e == DispatchError::WireDecodeFailure,
{
    match parse_reply_object(frame) {
        Some(fields) => {
            let m = message_of_fields(fields);
            assert forall|i: int, j: int| 0 <= i < j < m@.len() implies m@[i].0 != m@[j].0 by {
                assert(decoded_entries(fields@)[i].0 == fields@[i].0@);
                assert(decoded_entries(fields@)[j].0 == fields@[j].0@);
            }
            Ok(m)
        },
        None => Err(DispatchError::WireDecodeFailure),
    }
}

} // verus!
