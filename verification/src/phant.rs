//! The client of one stream, and the description of a stream to create.

use crate::error::{Error, ErrorKind};
use crate::json::{
    decode_response, decoded_response, encode_object, json_object_text, NumberMember, ServerResponse,
    ServerResponseView,
};
use crate::query::{data_query_string, join, joined, percent_encoded, query_text, texts};
use crate::row::{distinct_keys, put, to_map, Pair, Row};
use crate::web::{
    body_gives, is_create_stream_request, spec_clear_data_request, spec_create_stream_request, spec_delete_stream_request,
    spec_push_data_request, Request, RequestView,
};
use vstd::prelude::*;
use vstd::string::*;

verus! {

/// What a new stream shall be.
#[derive(Debug)]
pub struct StreamSpec {
    pub title: String,
    pub description: String,
    /// The columns, in the order that the server shall keep.
    pub fields: Vec<String>,
    pub hidden: bool,
    pub alias: Option<String>,
    pub tags: Option<Vec<String>>,
}

impl StreamSpec {
    /// The members with a string value: title, description, the fields
    /// joined by commas, the alias where there is one, and the tags joined by
    /// commas where there are any.
    pub open spec fn text_members(&self) -> Seq<Pair> {
        seq![
            ("title"@, self.title@),
            ("description"@, self.description@),
            ("fields"@, joined(texts(self.fields@), ","@)),
        ] + (match self.alias {
            Some(alias) => seq![("alias"@, alias@)],
            None => Seq::empty(),
        }) + (match self.tags {
            Some(tags) => if tags@.len() > 0 {
                seq![("tags"@, joined(texts(tags@), ","@))]
            } else {
                Seq::empty()
            },
            None => Seq::empty(),
        })
    }

    /// The one member with a number: `hidden`, as 1 or 0.
    pub open spec fn number_members(&self) -> Seq<NumberMember> {
        seq![("hidden"@, if self.hidden { 1u64 } else { 0u64 })]
    }

    /// The JSON text of the description.
    pub open spec fn json_text(&self) -> Seq<char> {
        json_object_text(self.text_members(), self.number_members())
    }

    /// Writes the description as a JSON object. This always gives a text.
    pub fn serialize(&self) -> (written: Result<String, Error>)
        ensures
            written matches Ok(text) && text@ == self.json_text(),
    {
        let mut members: Vec<(String, String)> = Vec::new();
        members.push(("title".to_owned(), self.title.clone()));
        members.push(("description".to_owned(), self.description.clone()));
        members.push(("fields".to_owned(), join(&self.fields, ",")));
        if let Some(alias) = &self.alias {
            members.push(("alias".to_owned(), alias.clone()));
        }
        if let Some(tags) = &self.tags {
            if tags.len() > 0 {
                members.push(("tags".to_owned(), join(tags, ",")));
            }
        }
        let mut numbers: Vec<(String, u64)> = Vec::new();
        let hidden: u64 = if self.hidden { 1 } else { 0 };
        numbers.push(("hidden".to_owned(), hidden));
        proof {
            assert(crate::row::pairs_of(members@) =~= self.text_members());
            assert(crate::json::number_members_of(numbers@) =~= self.number_members());
        }
        encode_object(&members, &numbers)
    }
}

/// The client of one stream: where the server is, the stream's keys, and
/// the row that has not been submitted yet.
#[derive(Debug)]
pub struct Phant {
    hostname: String,
    public_key: String,
    private_key: String,
    delete_key: Option<String>,
    data: Row,
}

/// A client as mathematical text. `row` holds the columns in the row's
/// order.
pub struct PhantView {
    pub hostname: Seq<char>,
    pub public_key: Seq<char>,
    pub private_key: Seq<char>,
    pub delete_key: Option<Seq<char>>,
    pub row: Seq<Pair>,
}

impl PhantView {
    /// The same client with an empty row.
    pub open spec fn cleared(self) -> PhantView {
        PhantView { row: Seq::empty(), ..self }
    }

    /// The same client after the column `key` is set to `value`.
    pub open spec fn with_column(self, key: Seq<char>, value: Seq<char>) -> PhantView {
        PhantView { row: put(self.row, key, value), ..self }
    }

    /// The row as a mapping from name to value.
    pub open spec fn row_map(self) -> Map<Seq<char>, Seq<char>> {
        to_map(self.row)
    }

    /// The row as a percent-encoded query string.
    pub open spec fn query(self) -> Seq<char> {
        percent_encoded(query_text(self.row))
    }

    /// `{hostname}/input/{public_key}?private_key={private_key}&{query}`.
    pub open spec fn url(self) -> Seq<char> {
        self.hostname + "/input/"@ + self.public_key + "?private_key="@ + self.private_key + "&"@
            + self.query()
    }

    /// The request that submits the row.
    pub open spec fn push_request(self) -> RequestView {
        spec_push_data_request(self.hostname, self.public_key, self.private_key, self.query())
    }

    /// The request that clears the stream's rows on the server.
    pub open spec fn clear_request(self) -> RequestView {
        spec_clear_data_request(self.hostname, self.public_key, self.private_key)
    }
}

/// A fresh client for a stream whose keys the server has just issued.
pub open spec fn issued_client(
    hostname: Seq<char>,
    public_key: Seq<char>,
    private_key: Seq<char>,
    delete_key: Seq<char>,
) -> PhantView {
    PhantView { hostname, public_key, private_key, delete_key: Some(delete_key), row: Seq::empty() }
}

/// The outcome is the decoding failure for a response of an unexpected shape.
pub open spec fn is_malformed(outcome: Result<Phant, Error>) -> bool {
    outcome matches Err(e) && e.kind() == ErrorKind::Serde && e.message()
        == "unexpected response from the server"@
}

/// What a decoded response to the creation of a stream gives: with
/// `success` true and the three keys, the client of the new stream; with
/// `success` false and a message, the failure that carries the message;
/// with anything else, a decoding failure.
pub open spec fn response_gives(
    hostname: Seq<char>,
    response: ServerResponseView,
    outcome: Result<Phant, Error>,
) -> bool {
    match response.success {
        Some(true) => match (response.public_key, response.private_key, response.delete_key) {
            (Some(public_key), Some(private_key), Some(delete_key)) => outcome matches Ok(client)
                && client@ == issued_client(
                hostname,
                public_key,
                private_key,
                delete_key,
            ),
            _ => is_malformed(outcome),
        },
        Some(false) => match response.message {
            Some(message) => outcome matches Err(e) && e.is_phant(message),
            None => is_malformed(outcome),
        },
        None => is_malformed(outcome),
    }
}

/// What the reply to the creation of a stream gives, once its body is read
/// as text: a failure unchanged, a decoding failure for a body that is no
/// JSON, and else what the decoded response gives.
pub open spec fn reply_gives(
    hostname: Seq<char>,
    reply: Result<String, Error>,
    outcome: Result<Phant, Error>,
) -> bool {
    match reply {
        Err(e) => outcome == Err::<Phant, Error>(e),
        Ok(body) => match decoded_response(body@) {
            Some(response) => response_gives(hostname, response, outcome),
            None => outcome matches Err(e) && e.kind() == ErrorKind::Serde,
        },
    }
}

impl View for Phant {
    type V = PhantView;

    closed spec fn view(&self) -> PhantView {
        PhantView {
            hostname: self.hostname@,
            public_key: self.public_key@,
            private_key: self.private_key@,
            delete_key: match self.delete_key {
                Some(key) => Some(key@),
                None => None,
            },
            row: self.data.pairs(),
        }
    }
}

impl Phant {

    /// A client for an existing stream, with an empty row.
    pub fn new(hostname: &str, public_key: &str, private_key: &str, delete_key: Option<&str>) -> (client:
        Phant)
        ensures
            client@ == (PhantView {
                hostname: hostname@,
                public_key: public_key@,
                private_key: private_key@,
                delete_key: match delete_key {
                    Some(key) => Some(key@),
                    None => None,
                },
                row: Seq::empty(),
            }),
    {
        Phant {
            hostname: hostname.to_owned(),
            public_key: public_key.to_owned(),
            private_key: private_key.to_owned(),
            delete_key: match delete_key {
                Some(key) => Some(key.to_owned()),
                None => None,
            },
            data: Row::new(),
        }
    }

    /// The client that a decoded response to the creation of a stream
    /// stands for, or the failure that it reports.
    pub fn from_response(hostname: &str, response: ServerResponse) -> (outcome: Result<Phant, Error>)
        ensures
            response_gives(hostname@, response@, outcome),
    {
        let malformed = "unexpected response from the server";
        match response.success {
            Some(true) => match (response.public_key, response.private_key, response.delete_key) {
                (Some(public_key), Some(private_key), Some(delete_key)) => Ok(
                    Phant {
                        hostname: hostname.to_owned(),
                        public_key,
                        private_key,
                        delete_key: Some(delete_key),
                        data: Row::new(),
                    },
                ),
                _ => Err(Error::Serde(malformed.to_owned())),
            },
            Some(false) => match response.message {
                Some(message) => Err(Error::Phant(message)),
                None => Err(Error::Serde(malformed.to_owned())),
            },
            None => Err(Error::Serde(malformed.to_owned())),
        }
    }

    /// What the reply to the creation of a stream gives, once its body is
    /// read as text.
    pub fn from_reply(hostname: &str, reply: Result<String, Error>) -> (outcome: Result<Phant, Error>)
        ensures
            reply_gives(hostname@, reply, outcome),
    {
        match reply {
            Err(e) => Err(e),
            Ok(body) => match decode_response(body.as_str()) {
                Ok(response) => Phant::from_response(hostname, response),
                Err(e) => Err(e),
            },
        }
    }

    /// Creates a stream from its JSON description: hands the request to
    /// `send`, once, and reads the reply.
    pub fn create_stream_from_json<F: FnOnce(Request) -> Result<Vec<u8>, Error>>(
        hostname: &str,
        body: &str,
        send: F,
    ) -> (outcome: Result<Phant, Error>)
        requires
            forall|request: Request|
                request@ == spec_create_stream_request(hostname@, body@) ==> #[trigger] send.requires(
                    (request,),
                ),
        ensures
            exists|request: Request, reply: Result<Vec<u8>, Error>, read: Result<String, Error>|
                #![trigger send.ensures((request,), reply), body_gives(reply, read)]
                request@ == spec_create_stream_request(hostname@, body@) && send.ensures(
                    (request,),
                    reply,
                ) && body_gives(reply, read) && reply_gives(hostname@, read, outcome),
    {
        let read = crate::web::create_stream(hostname, body, send);
        Phant::from_reply(hostname, read)
    }

    /// Creates a stream on the server at `hostname` and returns its client.
    ///
    /// The description is written as JSON and handed to `send` in one
    /// request; the reply is read as text and decoded.
    pub fn create_stream<F: FnOnce(Request) -> Result<Vec<u8>, Error>>(
        hostname: &str,
        spec: StreamSpec,
        send: F,
    ) -> (outcome: Result<Phant, Error>)
        requires
            forall|request: Request|
                is_create_stream_request(hostname@, request@) ==> #[trigger] send.requires((request,)),
        ensures
            exists|request: Request, reply: Result<Vec<u8>, Error>, read: Result<String, Error>|
                #![trigger send.ensures((request,), reply), body_gives(reply, read)]
                request@ == spec_create_stream_request(hostname@, spec.json_text()) && send.ensures(
                    (request,),
                    reply,
                ) && body_gives(reply, read) && reply_gives(hostname@, read, outcome),
    {
        match spec.serialize() {
            Ok(body) => Phant::create_stream_from_json(hostname, body.as_str(), send),
            Err(e) => Err(e),
        }
    }

    /// Deletes the stream on the server.
    ///
    /// Without a delete key nothing is sent, and the failure says so. With
    /// one, the request goes to `send`, once; the reply is read as text, the
    /// text is dropped and a failure comes back unchanged.
    pub fn delete_stream<F: FnOnce(Request) -> Result<Vec<u8>, Error>>(&self, send: F) -> (outcome: Result<
        (),
        Error,
    >)
        requires
            self@.delete_key matches Some(key) ==> forall|request: Request|
                request@ == spec_delete_stream_request(self@.hostname, self@.public_key, key)
                    ==> #[trigger] send.requires((request,)),
        ensures
            match self@.delete_key {
                Some(key) => exists|
                    request: Request,
                    reply: Result<Vec<u8>, Error>,
                    read: Result<String, Error>,
                |
                    #![trigger send.ensures((request,), reply), body_gives(reply, read)]
                    request@ == spec_delete_stream_request(self@.hostname, self@.public_key, key)
                        && send.ensures((request,), reply) && body_gives(reply, read) && match read {
                        Ok(_) => outcome is Ok,
                        Err(e) => outcome == Err::<(), Error>(e),
                    },
                None => outcome matches Err(e) && e.is_phant("Delete key not provided"@),
            },
    {
        match &self.delete_key {
            Some(delete_key) => {
                let read = crate::web::delete_stream(
                    self.hostname.as_str(),
                    self.public_key.as_str(),
                    delete_key.as_str(),
                    send,
                );
                match read {
                    Ok(_) => Ok(()),
                    Err(e) => Err(e),
                }
            },
            None => Err(Error::Phant("Delete key not provided".to_owned())),
        }
    }

    /// Sets the column `key` of the row to `value`, written as text the way
    /// `Display` shows it. A column of that name is overwritten. Nothing is
    /// sent.
    pub fn add<T: core::fmt::Display>(&mut self, key: &str, value: T)
        ensures
            exists|text: String| #[trigger]
                to_string_from_display_ensures::<T>(&value, text) && final(self)@ == old(
                    self,
                )@.with_column(key@, text@) && final(self)@.row_map() == old(self)@.row_map().insert(
                    key@,
                    text@,
                ),
    {
        let text = value.to_string();
        self.add_text(key, text);
    }

    /// Sets the column `key` of the row to the text `value`. A column of that
    /// name is overwritten. Nothing is sent.
    pub fn add_text(&mut self, key: &str, value: String)
        ensures
            final(self)@ == old(self)@.with_column(key@, value@),
            final(self)@.row_map() == old(self)@.row_map().insert(key@, value@),
    {
        self.data.insert(key.to_owned(), value);
    }

    /// Submits the row: hands the request to `send`, once, and reads the
    /// reply as text. Where that gives a text the row is emptied; where it
    /// gives a failure the client is as before. Either way it comes back.
    pub fn push<F: FnOnce(Request) -> Result<Vec<u8>, Error>>(&mut self, send: F) -> (outcome: Result<
        String,
        Error,
    >)
        requires
            forall|request: Request|
                request@ == old(self)@.push_request() ==> #[trigger] send.requires((request,)),
        ensures
            exists|request: Request, reply: Result<Vec<u8>, Error>|
                request@ == old(self)@.push_request() && #[trigger] send.ensures((request,), reply)
                    && body_gives(reply, outcome),
            final(self)@ == if outcome is Ok {
                old(self)@.cleared()
            } else {
                old(self)@
            },
    {
        let query_string = self.data_query_string();
        let outcome = crate::web::push_data(
            self.hostname.as_str(),
            self.public_key.as_str(),
            self.private_key.as_str(),
            query_string.as_str(),
            send,
        );
        if outcome.is_ok() {
            self.clear_local();
        }
        outcome
    }

    /// Empties the row. Nothing is sent; an empty row stays as it is.
    pub fn clear_local(&mut self)
        ensures
            final(self)@ == old(self)@.cleared(),
            final(self)@.row_map() == Map::<Seq<char>, Seq<char>>::empty(),
            old(self)@.row.len() == 0 ==> final(self)@ == old(self)@,
    {
        self.data.clear();
        assert(old(self)@.row.len() == 0 ==> old(self)@.row =~= Seq::<Pair>::empty());
    }

    /// Clears the stream's rows on the server: hands the request to `send`,
    /// once, and returns the reply read as text. The client stays as it is.
    pub fn clear_server<F: FnOnce(Request) -> Result<Vec<u8>, Error>>(&mut self, send: F) -> (outcome: Result<
        String,
        Error,
    >)
        requires
            forall|request: Request|
                request@ == old(self)@.clear_request() ==> #[trigger] send.requires((request,)),
        ensures
            exists|request: Request, reply: Result<Vec<u8>, Error>|
                request@ == old(self)@.clear_request() && #[trigger] send.ensures((request,), reply)
                    && body_gives(reply, outcome),
            final(self)@ == old(self)@,
    {
        crate::web::clear_data(
            self.hostname.as_str(),
            self.public_key.as_str(),
            self.private_key.as_str(),
            send,
        )
    }

    /// The address that would submit the row:
    /// `{hostname}/input/{public_key}?private_key={private_key}&{query}`.
    /// The row stays as it is.
    pub fn get_url(&self) -> (url: String)
        ensures
            url@ == self@.url(),
    {
        let query_string = self.data_query_string();
        let mut url = self.hostname.clone();
        url.append("/input/");
        url.append(self.public_key.as_str());
        url.append("?private_key=");
        url.append(self.private_key.as_str());
        url.append("&");
        url.append(query_string.as_str());
        url
    }

    /// An independent copy of the row. No name occurs twice in it.
    pub fn row_data(&self) -> (copy: Row)
        ensures
            copy.pairs() == self@.row,
            copy@ == self@.row_map(),
            distinct_keys(self@.row),
    {
        proof {
            use_type_invariant(&self.data);
        }
        self.data.clone()
    }

    /// A copy of the public key.
    pub fn public_key(&self) -> (key: String)
        ensures
            key@ == self@.public_key,
    {
        self.public_key.clone()
    }

    /// A copy of the private key.
    pub fn private_key(&self) -> (key: String)
        ensures
            key@ == self@.private_key,
    {
        self.private_key.clone()
    }

    /// A copy of the delete key, where there is one.
    pub fn delete_key(&self) -> (key: Option<String>)
        ensures
            match key {
                Some(text) => self@.delete_key == Some(text@),
                None => self@.delete_key is None,
            },
    {
        match &self.delete_key {
            Some(text) => Some(text.clone()),
            None => None,
        }
    }

    /// The row as a query string: `name=value` columns joined by `&`, in
    /// the row's order, percent-encoded as a whole.
    pub fn data_query_string(&self) -> (query: String)
        ensures
            query@ == self@.query(),
    {
        data_query_string(&self.data)
    }
}

} // verus!
