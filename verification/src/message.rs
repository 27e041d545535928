//! The two messages of the command channel and their wire form.
//!
//! A request is the JSON object `{"command": <verb>, "payload": <any>}`, a
//! response the object `{"ok": <bool>, "payload": <any>, "diagnostic":
//! <string or null>}`. A missing `payload` reads as `null`, a missing
//! `diagnostic` as none; members of other names are ignored. Anything but
//! an object is no message. Of a member that is written twice the last one
//! counts, as `serde_json` has it.

use crate::json;
use crate::json::{json_of, json_parse, json_text, members_of, Json};
use vstd::prelude::*;

verus! {

/// A command issued to the host.
#[derive(Clone, Debug)]
pub struct CommandRequest {
    /// The verb that the host recognises.
    pub command: String,
    /// What accompanies the verb; `null` when there is nothing to say.
    pub payload: serde_json::Value,
}

/// The content of a [`CommandRequest`].
pub struct RequestView {
    pub command: Seq<char>,
    pub payload: Json,
}

impl View for CommandRequest {
    type V = RequestView;

    open spec fn view(&self) -> RequestView {
        RequestView { command: self.command@, payload: json_of(self.payload) }
    }
}

/// The host's answer to a command.
#[derive(Clone, Debug)]
pub struct CommandResponse {
    /// Whether the host carried the command out.
    pub ok: bool,
    /// What the host returned; `null` when it returned nothing.
    pub payload: serde_json::Value,
    /// The host's explanation of a failure.
    pub diagnostic: Option<String>,
}

/// The content of a [`CommandResponse`].
pub struct ResponseView {
    pub ok: bool,
    pub payload: Json,
    pub diagnostic: Option<Seq<char>>,
}

impl View for CommandResponse {
    type V = ResponseView;

    open spec fn view(&self) -> ResponseView {
        ResponseView {
            ok: self.ok,
            payload: json_of(self.payload),
            diagnostic: self.diagnostic.deep_view(),
        }
    }
}

impl ResponseView {
    /// The convention that a host follows: it explains failures, and only
    /// failures. The client tolerates responses that break it.
    pub open spec fn conventional(self) -> bool {
        self.ok <==> self.diagnostic is None
    }
}

/// The member `key` of an object, or `absent` where the object has none.
pub open spec fn member_or(members: Map<Seq<char>, Json>, key: Seq<char>, absent: Json) -> Json {
    if members.contains_key(key) {
        members[key]
    } else {
        absent
    }
}

/// The JSON object that stands for a request on the wire.
pub open spec fn request_document(request: RequestView) -> Json {
    Json::Object(
        Map::empty().insert("command"@, Json::Text(request.command)).insert(
            "payload"@,
            request.payload,
        ),
    )
}

/// The request that a JSON document stands for, if it stands for one: an
/// object whose `command` is a string.
pub open spec fn request_in(doc: Json) -> Option<RequestView> {
    match doc {
        Json::Object(members) => match member_or(members, "command"@, Json::Null) {
            Json::Text(command) => Some(
                RequestView { command, payload: member_or(members, "payload"@, Json::Null) },
            ),
            _ => None,
        },
        _ => None,
    }
}

/// How an optional text is written: `null` for none.
pub open spec fn optional_text(text: Option<Seq<char>>) -> Json {
    match text {
        Some(t) => Json::Text(t),
        None => Json::Null,
    }
}

/// The JSON object that stands for a response on the wire.
pub open spec fn response_document(response: ResponseView) -> Json {
    Json::Object(
        Map::empty().insert("ok"@, Json::Bool(response.ok)).insert(
            "payload"@,
            response.payload,
        ).insert("diagnostic"@, optional_text(response.diagnostic)),
    )
}

/// The response that a JSON document stands for, if it stands for one: an
/// object whose `ok` is a boolean and whose `diagnostic`, where it has one,
/// is a string or `null`.
pub open spec fn response_in(doc: Json) -> Option<ResponseView> {
    match doc {
        Json::Object(members) => match member_or(members, "ok"@, Json::Null) {
            Json::Bool(ok) => {
                let payload = member_or(members, "payload"@, Json::Null);
                match member_or(members, "diagnostic"@, Json::Null) {
                    Json::Null => Some(ResponseView { ok, payload, diagnostic: None }),
                    Json::Text(text) => Some(ResponseView { ok, payload, diagnostic: Some(text) }),
                    _ => None,
                }
            },
            _ => None,
        },
        _ => None,
    }
}

/// The request or response that a line of text stands for, given how a JSON
/// document is read as one.
pub open spec fn read_line<T>(line: Seq<char>, read: spec_fn(Json) -> Option<T>) -> Option<T> {
    match json_parse(line) {
        Some(doc) => read(doc),
        None => None,
    }
}

/// No two members of a message have the same name.
proof fn lemma_member_names()
    ensures
        "command"@ != "payload"@,
        "ok"@ != "payload"@,
        "ok"@ != "diagnostic"@,
        "payload"@ != "diagnostic"@,
{
    reveal_strlit("command");
    reveal_strlit("payload");
    reveal_strlit("ok");
    reveal_strlit("diagnostic");
    assert("payload"@[0] != "diagnostic"@[0]);
}

/// The payload of a message read from `doc`: its `payload` member, or
/// `null` where it has none.
fn payload_in(doc: &serde_json::Value) -> (r: serde_json::Value)
    ensures
        json_of(*doc) matches Json::Object(members) ==> json_of(r) == member_or(
            members,
            "payload"@,
            Json::Null,
        ),
{
    match json::member(doc, "payload") {
        Some(found) => found.clone(),
        None => json::null(),
    }
}

impl CommandRequest {
    /// A request with the given verb and payload.
    pub fn new(command: &str, payload: serde_json::Value) -> (r: Self)
        ensures
            r.command@ == command@,
            r.payload == payload,
    {
        CommandRequest { command: command.to_owned(), payload }
    }

    /// A request whose payload is `null`.
    pub fn empty(command: &str) -> (r: Self)
        ensures
            r@ == (RequestView { command: command@, payload: Json::Null }),
    {
        CommandRequest::new(command, json::null())
    }

    /// The JSON value that stands for the request.
    pub fn to_json(&self) -> (r: serde_json::Value)
        ensures
            json_of(r) == request_document(self@),
    {
        let mut entries: Vec<(String, serde_json::Value)> = Vec::new();
        entries.push((String::from_str("command"), json::string(self.command.clone())));
        entries.push((String::from_str("payload"), self.payload.clone()));
        proof {
            lemma_member_names();
            reveal_with_fuel(members_of, 3);
        }
        json::object(entries)
    }

    /// Writes the request as one line of JSON text, without the line's end.
    pub fn encode(&self) -> (r: Result<String, serde_json::Error>)
        ensures
            match r {
                Ok(line) => json_text(request_document(self@)) == Some(line@) && !line@.contains(
                    '\n',
                ),
                Err(_) => json_text(request_document(self@)) is None,
            },
    {
        json::render(&self.to_json())
    }

    /// Reads a request from a JSON value.
    pub fn from_json(doc: &serde_json::Value) -> (r: Result<Self, serde_json::Error>)
        ensures
            match r {
                Ok(request) => request_in(json_of(*doc)) == Some(request@),
                Err(_) => request_in(json_of(*doc)) is None,
            },
    {
        let command = match json::member(doc, "command") {
            Some(found) => match json::as_text(found) {
                Some(text) => text.to_owned(),
                None => {
                    return Err(json::decode_error("invalid type for `command`: expected a string"));
                },
            },
            None => {
                return Err(json::decode_error("missing field `command`"));
            },
        };
        Ok(CommandRequest { command, payload: payload_in(doc) })
    }

    /// Reads a request from a line of JSON text.
    pub fn decode(line: &str) -> (r: Result<Self, serde_json::Error>)
        ensures
            match r {
                Ok(request) => read_line(line@, |doc: Json| request_in(doc)) == Some(request@),
                Err(_) => read_line(line@, |doc: Json| request_in(doc)) is None,
            },
    {
        match json::parse(line) {
            Ok(doc) => CommandRequest::from_json(&doc),
            Err(error) => Err(error),
        }
    }
}

impl CommandResponse {
    /// A success without a payload.
    pub fn ok() -> (r: Self)
        ensures
            r@ == (ResponseView { ok: true, payload: Json::Null, diagnostic: None }),
            r@.conventional(),
    {
        CommandResponse { ok: true, payload: json::null(), diagnostic: None }
    }

    /// The JSON value that stands for the response.
    pub fn to_json(&self) -> (r: serde_json::Value)
        ensures
            json_of(r) == response_document(self@),
    {
        let diagnostic = match &self.diagnostic {
            Some(text) => json::string(text.clone()),
            None => json::null(),
        };
        let mut entries: Vec<(String, serde_json::Value)> = Vec::new();
        entries.push((String::from_str("ok"), json::boolean(self.ok)));
        entries.push((String::from_str("payload"), self.payload.clone()));
        entries.push((String::from_str("diagnostic"), diagnostic));
        proof {
            lemma_member_names();
            reveal_with_fuel(members_of, 4);
        }
        json::object(entries)
    }

    /// Writes the response as one line of JSON text, without the line's end.
    pub fn encode(&self) -> (r: Result<String, serde_json::Error>)
        ensures
            match r {
                Ok(line) => json_text(response_document(self@)) == Some(line@) && !line@.contains(
                    '\n',
                ),
                Err(_) => json_text(response_document(self@)) is None,
            },
    {
        json::render(&self.to_json())
    }

    /// Reads a response from a JSON value.
    pub fn from_json(doc: &serde_json::Value) -> (r: Result<Self, serde_json::Error>)
        ensures
            match r {
                Ok(response) => response_in(json_of(*doc)) == Some(response@),
                Err(_) => response_in(json_of(*doc)) is None,
            },
    {
        let ok = match json::member(doc, "ok") {
            Some(found) => match json::as_bool(found) {
                Some(b) => b,
                None => {
                    return Err(json::decode_error("invalid type for `ok`: expected a boolean"));
                },
            },
            None => {
                return Err(json::decode_error("missing field `ok`"));
            },
        };
        let diagnostic = match json::member(doc, "diagnostic") {
            Some(found) => {
                if json::is_null(found) {
                    None
                } else {
                    match json::as_text(found) {
                        Some(text) => Some(text.to_owned()),
                        None => {
                            return Err(
                                json::decode_error(
                                    "invalid type for `diagnostic`: expected a string or null",
                                ),
                            );
                        },
                    }
                }
            },
            None => None,
        };
        Ok(CommandResponse { ok, payload: payload_in(doc), diagnostic })
    }

    /// Reads a response from a line of JSON text.
    pub fn decode(line: &str) -> (r: Result<Self, serde_json::Error>)
        ensures
            match r {
                Ok(response) => read_line(line@, |doc: Json| response_in(doc)) == Some(response@),
                Err(_) => read_line(line@, |doc: Json| response_in(doc)) is None,
            },
    {
        match json::parse(line) {
            Ok(doc) => CommandResponse::from_json(&doc),
            Err(error) => Err(error),
        }
    }
}

/// A request read from the document that was written for it is that
/// request.
pub proof fn request_document_reads_back(request: RequestView)
    ensures
        request_in(request_document(request)) == Some(request),
{
    lemma_member_names();
}

/// A response read from the document that was written for it is that
/// response.
pub proof fn response_document_reads_back(response: ResponseView)
    ensures
        response_in(response_document(response)) == Some(response),
{
    lemma_member_names();
}

/// A request decoded from the line that it was encoded to is that request,
/// as long as `serde_json` reads back from the line the document that it
/// wrote there. It does not for every number: one that is written with a
/// fraction or an exponent may come back as its nearest neighbour.
pub proof fn request_round_trip(request: RequestView, line: Seq<char>)
    requires
        json_text(request_document(request)) == Some(line),
        json_parse(line) == Some(request_document(request)),
    ensures
        read_line(line, |doc: Json| request_in(doc)) == Some(request),
{
    request_document_reads_back(request);
}

/// A response decoded from the line that it was encoded to is that
/// response, under the same proviso as for a request.
pub proof fn response_round_trip(response: ResponseView, line: Seq<char>)
    requires
        json_text(response_document(response)) == Some(line),
        json_parse(line) == Some(response_document(response)),
    ensures
        read_line(line, |doc: Json| response_in(doc)) == Some(response),
{
    response_document_reads_back(response);
}

} // verus!
