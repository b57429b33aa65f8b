//! What is made of the bytes of a file once they have been read.
use crate::document::{json_model, json_parsed, parse_json};
use crate::encoding::{final_component, first_mime_guess, guess_for_name, portable_file_name, hex_encode, hex_lower, sha1, sha1_digest};
use json::JsonValue;
use vstd::prelude::*;
use vstd::utf8::{decode_utf8, valid_utf8};

verus! {

/// A file ready to be uploaded: its SHA-1 as lowercase hex, its media type,
/// its bytes and its size in bytes.
#[derive(Debug)]
pub struct FileInfo {
    pub sha1: String,
    pub mime: String,
    pub data: Vec<u8>,
    pub size: u64,
}

impl Clone for FileInfo {
    fn clone(&self) -> (res: FileInfo)
        ensures
            res.sha1@ == self.sha1@,
            res.mime@ == self.mime@,
            res.data@ == self.data@,
            res.size == self.size,
    {
        let data = self.data.clone();
        assert(data@ =~= self.data@);
        FileInfo { sha1: self.sha1.clone(), mime: self.mime.clone(), data: data, size: self.size }
    }
}

/// `String::from_utf8`, keeping the text where the bytes are UTF-8.
/// Claims, as std documents, that the text is there exactly for valid UTF-8 and
/// that it holds the characters the bytes encode.
#[verifier::external_body]
pub fn utf8_text(bytes: Vec<u8>) -> (res: Option<String>)
    ensures
        res is Some <==> valid_utf8(bytes@),
        res matches Some(s) ==> s@ == decode_utf8(bytes@),
{
    String::from_utf8(bytes).ok()
}

/// The media type used for a file: the first guess, or `application/octet-stream`
/// where there is none.
pub fn mime_or_default(guess: Option<String>) -> (res: String)
    ensures
        guess matches Some(g) ==> res@ == g@,
        guess is None ==> res@ == "application/octet-stream"@,
{
    match guess {
        Some(g) => g,
        None => String::from_str("application/octet-stream"),
    }
}

impl FileInfo {
    /// The description of a file with the given media type guess and bytes.
    pub fn assemble(guess: Option<String>, data: Vec<u8>) -> (res: FileInfo)
        ensures
            res.data@ == data@,
            res.size == data@.len(),
            res.sha1@ == hex_lower(sha1_digest(data@)),
            guess matches Some(g) ==> res.mime@ == g@,
            guess is None ==> res.mime@ == "application/octet-stream"@,
    {
        let digest = sha1(data.as_slice());
        let hex = hex_encode(digest.as_slice());
        let size = data.len() as u64;
        FileInfo { sha1: hex, mime: mime_or_default(guess), data: data, size: size }
    }
}

/// The description of the file at `path` whose bytes are `data`; the media type is
/// guessed from the path: `application/octet-stream` for a path without `.`, and for
/// a path with a portable file name the table's type for that name's extension,
/// where there is one.
pub fn file_info(path: &str, data: Vec<u8>) -> (res: FileInfo)
    ensures
        res.data@ == data@,
        res.size == data@.len(),
        res.sha1@ == hex_lower(sha1_digest(data@)),
        !path@.contains('.') ==> res.mime@ == "application/octet-stream"@,
        portable_file_name(path@) ==> res.mime@ == match guess_for_name(final_component(path@)) {
            Some(m) => m,
            None => "application/octet-stream"@,
        },
{
    FileInfo::assemble(first_mime_guess(path), data)
}

/// The text of a file's bytes, or `failed-read_as_str` where they are not UTF-8.
pub fn text_from_bytes(bytes: Vec<u8>) -> (res: Result<String, &'static str>)
    ensures
        valid_utf8(bytes@) ==> (res matches Ok(s) && s@ == decode_utf8(bytes@)),
        !valid_utf8(bytes@) ==> res == Err::<String, &'static str>("failed-read_as_str"),
{
    match utf8_text(bytes) {
        Some(s) => Ok(s),
        None => Err("failed-read_as_str"),
    }
}

/// The JSON document of a file's text, or `failed-read_as_json` where it is not JSON.
pub fn json_from_text(text: &str) -> (res: Result<JsonValue, &'static str>)
    ensures
        json_parsed(text@) matches Some(m) ==> (res matches Ok(v) && json_model(v) == m),
        json_parsed(text@) is None ==> res == Err::<JsonValue, &'static str>("failed-read_as_json"),
{
    match parse_json(text) {
        Some(v) => Ok(v),
        None => Err("failed-read_as_json"),
    }
}

} // verus!
