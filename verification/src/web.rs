//! The four HTTP exchanges of the service, as values.
//!
//! Each exchange is one request and one response. The library composes the
//! request; a function handed in by the caller carries it to the server and
//! brings back the bytes of the response body, or the failure. The library
//! reads the bytes as text.

use crate::error::{Error, ErrorKind};
use crate::row::{pairs_of, Pair};
use vstd::prelude::*;
use vstd::string::*;
use vstd::utf8::{decode_utf8, encode_utf8, encode_utf8_decode_utf8, valid_utf8};

verus! {

/// The HTTP method of a request.
#[derive(Clone, Copy, Debug, PartialEq, Eq, Structural)]
pub enum Method {
    Post,
    Delete,
}

/// One HTTP request: where it goes, what it carries.
#[derive(Debug)]
pub struct Request {
    pub method: Method,
    pub url: String,
    /// Header names with their values, in the order in which they are set.
    pub headers: Vec<(String, String)>,
    pub body: Option<String>,
}

/// A request as mathematical text.
pub struct RequestView {
    pub method: Method,
    pub url: Seq<char>,
    pub headers: Seq<Pair>,
    pub body: Option<Seq<char>>,
}

impl View for Request {
    type V = RequestView;

    open spec fn view(&self) -> RequestView {
        RequestView {
            method: self.method,
            url: self.url@,
            headers: pairs_of(self.headers@),
            body: match self.body {
                Some(text) => Some(text@),
                None => None,
            },
        }
    }
}

/// The address of a stream's input: `{hostname}/input/{public_key}`.
pub open spec fn input_url(hostname: Seq<char>, public_key: Seq<char>) -> Seq<char> {
    hostname + "/input/"@ + public_key
}

/// The address at which streams are created: `{hostname}/streams`.
pub open spec fn streams_url(hostname: Seq<char>) -> Seq<char> {
    hostname + "/streams"@
}

/// The request that creates a stream: a POST of the JSON `body`.
pub open spec fn spec_create_stream_request(hostname: Seq<char>, body: Seq<char>) -> RequestView {
    RequestView {
        method: Method::Post,
        url: streams_url(hostname),
        headers: seq![("Content-Type"@, "application/json"@), ("Accept"@, "application/json"@)],
        body: Some(body),
    }
}

/// Whether a request is one that creates a stream at `hostname`, whatever
/// its body.
pub open spec fn is_create_stream_request(hostname: Seq<char>, request: RequestView) -> bool {
    request.body matches Some(body) && request == spec_create_stream_request(hostname, body)
}

/// The request that submits a row: a POST of the form-encoded `body`,
/// authorised by the private key.
pub open spec fn spec_push_data_request(
    hostname: Seq<char>,
    public_key: Seq<char>,
    private_key: Seq<char>,
    body: Seq<char>,
) -> RequestView {
    RequestView {
        method: Method::Post,
        url: input_url(hostname, public_key),
        headers: seq![
            ("Phant-Private-Key"@, private_key),
            ("Content-Type"@, "application/x-www-form-urlencoded"@),
        ],
        body: Some(body),
    }
}

/// The request that clears the stream's rows on the server: a DELETE
/// authorised by the private key.
pub open spec fn spec_clear_data_request(
    hostname: Seq<char>,
    public_key: Seq<char>,
    private_key: Seq<char>,
) -> RequestView {
    RequestView {
        method: Method::Delete,
        url: input_url(hostname, public_key),
        headers: seq![("Phant-Private-Key"@, private_key)],
        body: None,
    }
}

/// The request that deletes the stream: a DELETE authorised by the delete
/// key.
pub open spec fn spec_delete_stream_request(
    hostname: Seq<char>,
    public_key: Seq<char>,
    delete_key: Seq<char>,
) -> RequestView {
    RequestView {
        method: Method::Delete,
        url: input_url(hostname, public_key),
        headers: seq![("Phant-Delete-Key"@, delete_key)],
        body: None,
    }
}

/// What the reply of the transport gives once its body is read as text: the
/// transport's failure unchanged, the text that the bytes encode in UTF-8,
/// or a failure of kind `Io` where the bytes are no UTF-8.
pub open spec fn body_gives(reply: Result<Vec<u8>, Error>, outcome: Result<String, Error>) -> bool {
    match reply {
        Err(e) => outcome == Err::<String, Error>(e),
        Ok(bytes) => if valid_utf8(bytes@) {
            outcome matches Ok(text) && text@ == decode_utf8(bytes@)
        } else {
            outcome matches Err(e) && e.kind() == ErrorKind::Io && e.message()
                == "response body is not valid UTF-8"@
        },
    }
}

/// Reads bytes as text with `String::from_utf8` of std. Trusted: bytes that
/// are valid UTF-8 give the string that they encode, and no others give
/// one.
#[verifier::external_body]
fn text_from_utf8(bytes: Vec<u8>) -> (text: Option<String>)
    ensures
        match text {
            Some(t) => valid_utf8(bytes@) && encode_utf8(t@) == bytes@,
            None => !valid_utf8(bytes@),
        },
{
    match String::from_utf8(bytes) {
        Ok(text) => Some(text),
        Err(_) => None,
    }
}

/// Reads the reply of the transport as text.
pub fn read_body(reply: Result<Vec<u8>, Error>) -> (outcome: Result<String, Error>)
    ensures
        body_gives(reply, outcome),
{
    match reply {
        Err(e) => Err(e),
        Ok(bytes) => match text_from_utf8(bytes) {
            Some(text) => {
                proof {
                    encode_utf8_decode_utf8(text@);
                }
                Ok(text)
            },
            None => Err(Error::Io("response body is not valid UTF-8".to_owned())),
        },
    }
}

/// `{hostname}/input/{public_key}` as a string.
fn make_input_url(hostname: &str, public_key: &str) -> (url: String)
    ensures
        url@ == input_url(hostname@, public_key@),
{
    let mut url = hostname.to_owned();
    url.append("/input/");
    url.append(public_key);
    url
}

/// Composes the request that creates a stream.
pub fn create_stream_request(hostname: &str, body: &str) -> (request: Request)
    ensures
        request@ == spec_create_stream_request(hostname@, body@),
{
    let mut url = hostname.to_owned();
    url.append("/streams");
    let mut headers: Vec<(String, String)> = Vec::new();
    headers.push(("Content-Type".to_owned(), "application/json".to_owned()));
    headers.push(("Accept".to_owned(), "application/json".to_owned()));
    let request = Request { method: Method::Post, url, headers, body: Some(body.to_owned()) };
    assert(request@.headers =~= spec_create_stream_request(hostname@, body@).headers);
    request
}

/// Composes the request that submits a row.
pub fn push_data_request(hostname: &str, public_key: &str, private_key: &str, body: &str) -> (request:
    Request)
    ensures
        request@ == spec_push_data_request(hostname@, public_key@, private_key@, body@),
{
    let url = make_input_url(hostname, public_key);
    let mut headers: Vec<(String, String)> = Vec::new();
    headers.push(("Phant-Private-Key".to_owned(), private_key.to_owned()));
    headers.push(("Content-Type".to_owned(), "application/x-www-form-urlencoded".to_owned()));
    let request = Request { method: Method::Post, url, headers, body: Some(body.to_owned()) };
    assert(request@.headers =~= spec_push_data_request(
        hostname@,
        public_key@,
        private_key@,
        body@,
    ).headers);
    request
}

/// Composes the request that clears the stream's rows on the server.
pub fn clear_data_request(hostname: &str, public_key: &str, private_key: &str) -> (request: Request)
    ensures
        request@ == spec_clear_data_request(hostname@, public_key@, private_key@),
{
    let url = make_input_url(hostname, public_key);
    let mut headers: Vec<(String, String)> = Vec::new();
    headers.push(("Phant-Private-Key".to_owned(), private_key.to_owned()));
    let request = Request { method: Method::Delete, url, headers, body: None };
    assert(request@.headers =~= spec_clear_data_request(hostname@, public_key@, private_key@).headers);
    request
}

/// Composes the request that deletes the stream.
pub fn delete_stream_request(hostname: &str, public_key: &str, delete_key: &str) -> (request: Request)
    ensures
        request@ == spec_delete_stream_request(hostname@, public_key@, delete_key@),
{
    let url = make_input_url(hostname, public_key);
    let mut headers: Vec<(String, String)> = Vec::new();
    headers.push(("Phant-Delete-Key".to_owned(), delete_key.to_owned()));
    let request = Request { method: Method::Delete, url, headers, body: None };
    assert(request@.headers =~= spec_delete_stream_request(hostname@, public_key@, delete_key@).headers);
    request
}

/// Creates a stream: hands the request for it to `send`, once, and returns
/// its reply read as text.
pub fn create_stream<F: FnOnce(Request) -> Result<Vec<u8>, Error>>(
    hostname: &str,
    body: &str,
    send: F,
) -> (outcome: Result<String, Error>)
    requires
        forall|request: Request|
            request@ == spec_create_stream_request(hostname@, body@) ==> #[trigger] send.requires(
                (request,),
            ),
    ensures
        exists|request: Request, reply: Result<Vec<u8>, Error>|
            request@ == spec_create_stream_request(hostname@, body@) && #[trigger] send.ensures((request,), reply) && body_gives(reply, outcome),
{
    let request = create_stream_request(hostname, body);
    read_body(send(request))
}

/// Submits a row: hands the request for it to `send`, once, and returns its
/// reply read as text.
pub fn push_data<F: FnOnce(Request) -> Result<Vec<u8>, Error>>(
    hostname: &str,
    public_key: &str,
    private_key: &str,
    body: &str,
    send: F,
) -> (outcome: Result<String, Error>)
    requires
        forall|request: Request|
            request@ == spec_push_data_request(hostname@, public_key@, private_key@, body@)
                ==> #[trigger] send.requires((request,)),
    ensures
        exists|request: Request, reply: Result<Vec<u8>, Error>|
            request@ == spec_push_data_request(hostname@, public_key@, private_key@, body@)
                && #[trigger] send.ensures((request,), reply) && body_gives(reply, outcome),
{
    let request = push_data_request(hostname, public_key, private_key, body);
    read_body(send(request))
}

/// Clears the stream's rows on the server: hands the request for it to
/// `send`, once, and returns its reply read as text.
pub fn clear_data<F: FnOnce(Request) -> Result<Vec<u8>, Error>>(
    hostname: &str,
    public_key: &str,
    private_key: &str,
    send: F,
) -> (outcome: Result<String, Error>)
    requires
        forall|request: Request|
            request@ == spec_clear_data_request(hostname@, public_key@, private_key@)
                ==> #[trigger] send.requires((request,)),
    ensures
        exists|request: Request, reply: Result<Vec<u8>, Error>|
            request@ == spec_clear_data_request(hostname@, public_key@, private_key@)
                && #[trigger] send.ensures((request,), reply) && body_gives(reply, outcome),
{
    let request = clear_data_request(hostname, public_key, private_key);
    read_body(send(request))
}

/// Deletes the stream: hands the request for it to `send`, once, and returns
/// its reply read as text.
pub fn delete_stream<F: FnOnce(Request) -> Result<Vec<u8>, Error>>(
    hostname: &str,
    public_key: &str,
    delete_key: &str,
    send: F,
) -> (outcome: Result<String, Error>)
    requires
        forall|request: Request|
            request@ == spec_delete_stream_request(hostname@, public_key@, delete_key@)
                ==> #[trigger] send.requires((request,)),
    ensures
        exists|request: Request, reply: Result<Vec<u8>, Error>|
            request@ == spec_delete_stream_request(hostname@, public_key@, delete_key@)
                && #[trigger] send.ensures((request,), reply) && body_gives(reply, outcome),
{
    let request = delete_stream_request(hostname, public_key, delete_key);
    read_body(send(request))
}

} // verus!
