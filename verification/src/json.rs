//! JSON in and out, by `serde_json`.
//!
//! The library hands `serde_json` plain members to encode, and reads single
//! members out of what it decoded. Everything in this file that touches
//! `serde_json` is believed, not proved; the doc comment of each such item
//! says what is believed.

use crate::error::Error;
use crate::row::{pairs_of, Pair};
use vstd::prelude::*;

verus! {

/// `serde_json::Value`, a decoded JSON document. Opaque here.
#[verifier::external_type_specification]
#[verifier::external_body]
pub struct ExJsonValue(serde_json::Value);

/// A member whose value is a number: its name and the number.
pub type NumberMember = (Seq<char>, u64);

/// The text that `serde_json::to_string` writes for the JSON object that has
/// the members `texts`, with string values, and then `numbers`, with
/// unsigned integer values, inserted in that order.
pub uninterp spec fn json_object_text(texts: Seq<Pair>, numbers: Seq<NumberMember>) -> Seq<char>;

/// What `serde_json::from_str` makes of a text: the document, or `None` where
/// the text is refused.
pub uninterp spec fn parsed_json(text: Seq<char>) -> Option<serde_json::Value>;

/// The boolean under `name` in a JSON object; `None` where the document is
/// no object, has no such member, or the member is no boolean.
pub uninterp spec fn json_bool_at(value: serde_json::Value, name: Seq<char>) -> Option<bool>;

/// The string under `name` in a JSON object; `None` where the document is no
/// object, has no such member, or the member is no string.
pub uninterp spec fn json_text_at(value: serde_json::Value, name: Seq<char>) -> Option<Seq<char>>;

/// The number members of a vector, as mathematical text.
pub open spec fn number_members_of(members: Seq<(String, u64)>) -> Seq<NumberMember> {
    Seq::new(members.len(), |i: int| (members[i].0@, members[i].1))
}

/// Builds a `serde_json::Map` from the members, `texts` first, and writes it
/// with `serde_json::to_string`. Trusted: the encoder succeeds, since an
/// object whose names are strings and whose values are strings or unsigned
/// integers, written into memory, has nothing that it could refuse; and the
/// text depends on the members alone.
#[verifier::external_body]
fn json_object_to_string(texts: &Vec<(String, String)>, numbers: &Vec<(String, u64)>) -> (written: Result<
    String,
    String,
>)
    ensures
        written is Ok,
        written matches Ok(text) ==> text@ == json_object_text(
            pairs_of(texts@),
            number_members_of(numbers@),
        ),
{
    let mut object = serde_json::Map::new();
    for (name, text) in texts.iter() {
        object.insert(name.clone(), serde_json::Value::String(text.clone()));
    }
    for (name, number) in numbers.iter() {
        object.insert(name.clone(), serde_json::Value::from(*number));
    }
    match serde_json::to_string(&serde_json::Value::Object(object)) {
        Ok(text) => Ok(text),
        Err(failure) => Err(failure.to_string()),
    }
}

/// Decodes a text with `serde_json::from_str`. Trusted: whether the text is
/// accepted, and the document that comes out, depend on the text alone.
/// Where the text is refused, the message of the decoder's failure comes
/// back, of which nothing is claimed.
#[verifier::external_body]
fn parse_json(text: &str) -> (parsed: Result<serde_json::Value, String>)
    ensures
        match parsed {
            Ok(value) => parsed_json(text@) == Some(value),
            Err(_) => parsed_json(text@) is None,
        },
{
    match serde_json::from_str(text) {
        Ok(value) => Ok(value),
        Err(failure) => Err(failure.to_string()),
    }
}

/// Looks `name` up with `serde_json::Value::get` and reads the member with
/// `as_bool`. Trusted: the result depends on the document and the name alone.
#[verifier::external_body]
fn json_bool_member(value: &serde_json::Value, name: &str) -> (found: Option<bool>)
    ensures
        found == json_bool_at(*value, name@),
{
    match value.get(name) {
        Some(member) => member.as_bool(),
        None => None,
    }
}

/// Looks `name` up with `serde_json::Value::get` and reads the member with
/// `as_str`. Trusted: the result depends on the document and the name alone.
#[verifier::external_body]
fn json_text_member(value: &serde_json::Value, name: &str) -> (found: Option<String>)
    ensures
        match found {
            Some(text) => json_text_at(*value, name@) == Some(text@),
            None => json_text_at(*value, name@) is None,
        },
{
    match value.get(name) {
        Some(member) => match member.as_str() {
            Some(text) => Some(text.to_string()),
            None => None,
        },
        None => None,
    }
}

/// What the server answers to the creation of a stream, as far as the client
/// reads it. A member that is absent, or of another JSON type, is `None`.
#[derive(Debug)]
pub struct ServerResponse {
    pub success: Option<bool>,
    pub public_key: Option<String>,
    pub private_key: Option<String>,
    pub delete_key: Option<String>,
    pub message: Option<String>,
}

/// A [`ServerResponse`] as mathematical text.
pub struct ServerResponseView {
    pub success: Option<bool>,
    pub public_key: Option<Seq<char>>,
    pub private_key: Option<Seq<char>>,
    pub delete_key: Option<Seq<char>>,
    pub message: Option<Seq<char>>,
}

/// The view of an optional string.
pub open spec fn optional_text(text: Option<String>) -> Option<Seq<char>> {
    match text {
        Some(t) => Some(t@),
        None => None,
    }
}

impl View for ServerResponse {
    type V = ServerResponseView;

    open spec fn view(&self) -> ServerResponseView {
        ServerResponseView {
            success: self.success,
            public_key: optional_text(self.public_key),
            private_key: optional_text(self.private_key),
            delete_key: optional_text(self.delete_key),
            message: optional_text(self.message),
        }
    }
}

/// The members of a decoded document that the client reads.
pub open spec fn response_of(value: serde_json::Value) -> ServerResponseView {
    ServerResponseView {
        success: json_bool_at(value, "success"@),
        public_key: json_text_at(value, "publicKey"@),
        private_key: json_text_at(value, "privateKey"@),
        delete_key: json_text_at(value, "deleteKey"@),
        message: json_text_at(value, "message"@),
    }
}

/// The response that a body decodes to, or `None` where it is no JSON.
pub open spec fn decoded_response(body: Seq<char>) -> Option<ServerResponseView> {
    match parsed_json(body) {
        Some(value) => Some(response_of(value)),
        None => None,
    }
}

/// Writes the JSON object with the given members. This always gives a
/// text.
pub fn encode_object(texts: &Vec<(String, String)>, numbers: &Vec<(String, u64)>) -> (written: Result<
    String,
    Error,
>)
    ensures
        written matches Ok(text) && text@ == json_object_text(
            pairs_of(texts@),
            number_members_of(numbers@),
        ),
{
    match json_object_to_string(texts, numbers) {
        Ok(text) => Ok(text),
        Err(message) => Err(Error::Serde(message)),
    }
}

/// Reads out of a decoded document the members that the client needs.
pub fn response_from_json(value: &serde_json::Value) -> (response: ServerResponse)
    ensures
        response@ == response_of(*value),
{
    ServerResponse {
        success: json_bool_member(value, "success"),
        public_key: json_text_member(value, "publicKey"),
        private_key: json_text_member(value, "privateKey"),
        delete_key: json_text_member(value, "deleteKey"),
        message: json_text_member(value, "message"),
    }
}

/// Decodes a response body. A body that is no JSON gives an error of kind
/// `Serde`; any JSON gives a response, with `None` for what it lacks.
pub fn decode_response(body: &str) -> (decoded: Result<ServerResponse, Error>)
    ensures
        match decoded {
            Ok(response) => decoded_response(body@) == Some(response@),
            Err(e) => decoded_response(body@) is None && e.kind() == crate::error::ErrorKind::Serde,
        },
{
    match parse_json(body) {
        Ok(value) => Ok(response_from_json(&value)),
        Err(message) => Err(Error::Serde(message)),
    }
}

} // verus!
