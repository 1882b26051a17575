//! Plain model of a parsed reply value, and the fixed rule that turns each
//! value into the byte payload of a message field.
//!
//! A reply frame is a JSON object.  The outside parser reduces each of its
//! values to a [`JsonValue`]: the scalar payloads are carried as plain
//! bytes, and an array or object is carried as its re-serialized JSON text.
//! Everything after that reduction is verified.

use vstd::prelude::*;
use vstd::slice::slice_to_vec;
use vstd::string::StrSliceExecFns;
use vstd::utf8::encode_utf8;

use crate::message::{entries_view, Message};

verus! {

/// What the dispatch path reads of one JSON value in a reply object.
#[derive(Debug)]
pub enum JsonValue {
    /// A JSON null.
    Null,
    /// A JSON boolean.
    Bool(bool),
    /// A JSON number, as the UTF-8 bytes of its canonical decimal text.
    Number(Vec<u8>),
    /// A JSON string, as its UTF-8 bytes.
    Text(Vec<u8>),
    /// A JSON array, as the UTF-8 bytes of its re-serialized JSON text.
    Array(Vec<u8>),
    /// A JSON object, as the UTF-8 bytes of its re-serialized JSON text.
    Object(Vec<u8>),
}

/// The byte payload a reply value contributes to the decoded message:
/// a string's UTF-8 bytes, a number's decimal text, the re-serialized JSON
/// text of an array or object, `"true"`/`"false"` for booleans, and the
/// empty byte sequence for null.
pub open spec fn value_bytes(v: JsonValue) -> Seq<u8> {
    match v {
        JsonValue::Null => Seq::<u8>::empty(),
        JsonValue::Bool(b) => if b {
            encode_utf8("true"@)
        } else {
            encode_utf8("false"@)
        },
        JsonValue::Number(t) => t@,
        JsonValue::Text(t) => t@,
        JsonValue::Array(t) => t@,
        JsonValue::Object(t) => t@,
    }
}

/// The field list a reply object decodes to, name for name.
pub open spec fn decoded_entries(fields: Seq<(String, JsonValue)>) -> Seq<(Seq<char>, Seq<u8>)> {
    fields.map(|i: int, f: (String, JsonValue)| (f.0@, value_bytes(f.1)))
}

/// The field list, already reduced to bytes, that a reply frame parses
/// to: `None` for a frame that is not a JSON object.  The parse depends
/// on the frame bytes alone, so decoding is a function of the frame.
pub uninterp spec fn reply_entries(frame: Seq<u8>) -> Option<Seq<(Seq<char>, Seq<u8>)>>;

/// Relies on `serde_json::from_slice` to parse the reply frame as a JSON
/// object, on `serde_json::Number`'s canonical decimal rendering, and on
/// `serde_json::to_vec` for the text of a nested array or object.  A frame
/// that is not a JSON object, and only such a frame, yields `None`.  The
/// parsed map is keyed, so the field names handed out are pairwise
/// distinct; reduced to bytes, the fields are [`reply_entries`] of the
/// frame.
#[verifier::external_body]
pub fn parse_reply_object(frame: &[u8]) -> (r: Option<Vec<(String, JsonValue)>>)
    ensures
        (r is Some) == (reply_entries(frame@) is Some),
        r matches Some(fields) ==> Some(decoded_entries(fields@)) == reply_entries(frame@)
            && (forall|i: int, j: int|
                0 <= i < j < fields@.len() ==> fields@[i].0@ != fields@[j].0@),
{
    let parsed: serde_json::Map<String, serde_json::Value> = match serde_json::from_slice(frame) {
        Ok(m) => m,
        Err(_) => return None,
    };
    Some(parsed.into_iter().map(|(k, v)| (k, match v {
        serde_json::Value::Null => JsonValue::Null,
        serde_json::Value::Bool(b) => JsonValue::Bool(b),
        serde_json::Value::Number(n) => JsonValue::Number(n.to_string().into_bytes()),
        serde_json::Value::String(s) => JsonValue::Text(s.into_bytes()),
        a @ serde_json::Value::Array(_) => JsonValue::Array(serde_json::to_vec(&a).unwrap_or_default()),
        o @ serde_json::Value::Object(_) => JsonValue::Object(serde_json::to_vec(&o).unwrap_or_default()),
    })).collect())
}

/// The byte payload of one reply value, per the fixed conversion rule.
pub fn value_to_bytes(v: &JsonValue) -> (r: Vec<u8>)
    ensures
        r@ == value_bytes(*v),
{
    match v {
        JsonValue::Null => Vec::new(),
        JsonValue::Bool(b) => if *b {
            "true".as_bytes_vec()
        } else {
            "false".as_bytes_vec()
        },
        JsonValue::Number(t) => slice_to_vec(t.as_slice()),
        JsonValue::Text(t) => slice_to_vec(t.as_slice()),
        JsonValue::Array(t) => slice_to_vec(t.as_slice()),
        JsonValue::Object(t) => slice_to_vec(t.as_slice()),
    }
}

/// The message a parsed reply object decodes to: every field name is kept
/// and every value is reduced to bytes by the fixed rule.
pub fn message_of_fields(fields: Vec<(String, JsonValue)>) -> (r: Message)
    ensures
        r@ == decoded_entries(fields@),
        (forall|i: int, j: int|
            0 <= i < j < fields@.len() ==> fields@[i].0@ != fields@[j].0@) ==> r.wf(),
{
    let mut data: Vec<(String, Vec<u8>)> = Vec::new();
    let mut i: usize = 0;
    while i < fields.len()
        invariant
            i <= fields.len(),
            data@.len() == i,
            forall|k: int| 0 <= k < i ==> data@[k].0@ == fields@[k].0@
                && data@[k].1@ == value_bytes(fields@[k].1),
        decreases fields.len() - i,
    {
        let name = fields[i].0.clone();
        let bytes = value_to_bytes(&fields[i].1);
        data.push((name, bytes));
        i += 1;
    }
    let r = Message::new(data);
    assert(r@ =~= decoded_entries(fields@));
    r
}

/// Law: decoding a reply built from the same key/value shapes as a message's
/// fields yields byte-identical values.  A string value decodes to its own
/// UTF-8 bytes, a number to its decimal text bytes, a boolean to the text
/// `"true"` or `"false"`, and null to the empty byte sequence.
pub proof fn lemma_scalar_round_trip(fields: Seq<(String, JsonValue)>, i: int)
    requires
        0 <= i < fields.len(),
    ensures
        decoded_entries(fields)[i].0 == fields[i].0@,
        fields[i].1 matches JsonValue::Text(b) ==> decoded_entries(fields)[i].1 == b@,
        fields[i].1 matches JsonValue::Number(b) ==> decoded_entries(fields)[i].1 == b@,
        fields[i].1 matches JsonValue::Bool(x) ==> decoded_entries(fields)[i].1 == (if x {
            encode_utf8("true"@)
        } else {
            encode_utf8("false"@)
        }),
        fields[i].1 is Null ==> decoded_entries(fields)[i].1 == Seq::<u8>::empty(),
{
}

/// Law: a reply that echoes every field of a message as a JSON string of
/// the same bytes decodes to a message with exactly those fields again.
pub proof fn lemma_echoed_message_round_trip(m: Message, fields: Seq<(String, JsonValue)>)
    requires
        fields.len() == m@.len(),
        forall|i: int| 0 <= i < fields.len() ==> fields[i].0@ == m@[i].0
            && (fields[i].1 matches JsonValue::Text(b) && b@ == m@[i].1),
    ensures
        decoded_entries(fields) == m@,
{
    assert(decoded_entries(fields) =~= m@);
}

} // verus!
