//! The HTTP requests the client sends and what it makes of the replies.
//!
//! Sending is left to the caller: a request here is the URL, the headers in the
//! order in which they are set, and the body; a reply is handed back as the status
//! and the body that was read.
use crate::document::{compact_text, json_model, json_parsed, json_text, parse_json};
use json::JsonValue;
use vstd::prelude::*;

verus! {

/// The texts of a list of headers.
pub open spec fn header_texts(h: Seq<(String, String)>) -> Seq<(Seq<char>, Seq<char>)> {
    h.map_values(|p: (String, String)| (p.0@, p.1@))
}

/// A POST of a JSON document.
pub struct JsonRequest {
    pub url: String,
    pub headers: Vec<(String, String)>,
    pub body: String,
}

/// A POST of raw bytes (a file upload).
pub struct UploadRequest {
    pub url: String,
    pub headers: Vec<(String, String)>,
    pub body: Vec<u8>,
}

/// A header made of two texts.
pub fn header(name: &str, value: &str) -> (res: (String, String))
    ensures
        res.0@ == name@,
        res.1@ == value@,
{
    (String::from_str(name), String::from_str(value))
}

/// The request that posts `data` to `uri`: the header `Content-Type: application/json`
/// comes first, then `headers` in their order; the body is the compact JSON text of `data`.
pub fn json_request(uri: &str, headers: Vec<(String, String)>, data: &JsonValue) -> (res:
    JsonRequest)
    ensures
        res.url@ == uri@,
        header_texts(res.headers@) == seq![("Content-Type"@, "application/json"@)]
            + header_texts(headers@),
        res.body@ == json_text(json_model(*data)),
{
    let mut all: Vec<(String, String)> = Vec::new();
    all.push(header("Content-Type", "application/json"));
    let mut rest = headers;
    let ghost first = all@;
    all.append(&mut rest);
    assert(header_texts(all@) =~= header_texts(first) + header_texts(headers@));
    JsonRequest { url: String::from_str(uri), headers: all, body: compact_text(data) }
}

/// What a JSON reply becomes: the transport error where the body could not be had,
/// else the parsed document, or `failed-parse_body-to_json-response` where the body
/// is not JSON. The status is not looked at.
pub fn json_reply(body: Result<String, &'static str>) -> (res: Result<JsonValue, &'static str>)
    ensures
        body matches Err(e) ==> res == Err::<JsonValue, &'static str>(e),
        body matches Ok(t) ==> (match json_parsed(t@) {
            Some(m) => res matches Ok(v) && json_model(v) == m,
            None => res == Err::<JsonValue, &'static str>("failed-parse_body-to_json-response"),
        }),
{
    match body {
        Err(e) => Err(e),
        Ok(text) => match parse_json(text.as_str()) {
            Some(v) => Ok(v),
            None => Err("failed-parse_body-to_json-response"),
        },
    }
}

/// What a raw reply becomes: `invalid-response-status` for any status but 200,
/// else the body that was read (or the error of reading it).
pub fn raw_reply(status: u16, body: Result<Vec<u8>, &'static str>) -> (res: Result<
    Vec<u8>,
    &'static str,
>)
    ensures
        status != 200 ==> res == Err::<Vec<u8>, &'static str>("invalid-response-status"),
        status == 200 ==> res == body,
{
    if status != 200 {
        return Err("invalid-response-status");
    }
    body
}

/// What the reply to an upload becomes: `failed-response` for any status but 200,
/// else as `json_reply`.
pub fn upload_reply(status: u16, body: Result<String, &'static str>) -> (res: Result<
    JsonValue,
    &'static str,
>)
    ensures
        status != 200 ==> res == Err::<JsonValue, &'static str>("failed-response"),
        status == 200 && body is Err ==> res == Err::<JsonValue, &'static str>(body->Err_0),
        status == 200 && body is Ok ==> (match json_parsed(body->Ok_0@) {
            Some(m) => res matches Ok(v) && json_model(v) == m,
            None => res == Err::<JsonValue, &'static str>("failed-parse_body-to_json-response"),
        }),
{
    if status != 200 {
        return Err("failed-response");
    }
    json_reply(body)
}

} // verus!
