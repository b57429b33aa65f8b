use b2_backblaze::document::{compact_text, parse_json};
use b2_backblaze::io::{file_info, json_from_text, mime_or_default, text_from_bytes, FileInfo};
use b2_backblaze::request::{json_reply, json_request, raw_reply, upload_reply};

#[test]
fn json_request_puts_content_type_first() {
    let data = parse_json(r#"{"k":"v"}"#).unwrap();
    let r = json_request("https://x", vec![("A".to_string(), "b".to_string())], &data);
    assert_eq!(r.url, "https://x");
    assert_eq!(
        r.headers,
        vec![
            ("Content-Type".to_string(), "application/json".to_string()),
            ("A".to_string(), "b".to_string()),
        ]
    );
    assert_eq!(r.body, r#"{"k":"v"}"#);
}

#[test]
fn json_reply_cases() {
    let v = json_reply(Ok("{\"a\": [1, true, null]}".to_string())).unwrap();
    assert_eq!(compact_text(&v), r#"{"a":[1,true,null]}"#);
    assert_eq!(json_reply(Ok("nope".to_string())).unwrap_err(), "failed-parse_body-to_json-response");
    assert_eq!(json_reply(Err("failed-execute-request")).unwrap_err(), "failed-execute-request");
}

#[test]
fn raw_reply_checks_status() {
    assert_eq!(raw_reply(200, Ok(vec![9])).unwrap(), vec![9]);
    assert_eq!(raw_reply(404, Ok(vec![9])).unwrap_err(), "invalid-response-status");
    assert_eq!(
        raw_reply(200, Err("failed-parse_body-to_string-response")).unwrap_err(),
        "failed-parse_body-to_string-response"
    );
}

#[test]
fn upload_reply_checks_status() {
    assert_eq!(upload_reply(500, Ok("{}".to_string())).unwrap_err(), "failed-response");
    assert_eq!(compact_text(&upload_reply(200, Ok("{}".to_string())).unwrap()), "{}");
    assert_eq!(upload_reply(200, Ok("x".to_string())).unwrap_err(), "failed-parse_body-to_json-response");
}

#[test]
fn file_info_describes_bytes() {
    let info = file_info("d://workstation/drink.png", b"abc".to_vec());
    assert_eq!(info.size, 3);
    assert_eq!(info.data, b"abc".to_vec());
    assert_eq!(info.sha1, "a9993e364706816aba3e25717850c26c9cd0d89d");
    assert_eq!(info.mime, "image/png");
    let plain = file_info("noextension", Vec::new());
    assert_eq!(plain.mime, "application/octet-stream");
    assert_eq!(plain.size, 0);
    assert_eq!(plain.sha1, "da39a3ee5e6b4b0d3255bfef95601890afd80709");
}

#[test]
fn mime_defaults() {
    assert_eq!(mime_or_default(None), "application/octet-stream");
    assert_eq!(mime_or_default(Some("text/html".to_string())), "text/html");
    let f = FileInfo::assemble(None, vec![1]);
    assert_eq!(f.mime, "application/octet-stream");
    assert_eq!(f.size, 1);
}

#[test]
fn text_and_json_from_file_bytes() {
    assert_eq!(text_from_bytes("héllo".as_bytes().to_vec()).unwrap(), "héllo");
    assert_eq!(text_from_bytes(vec![0xc3]).unwrap_err(), "failed-read_as_str");
    let v = json_from_text(r#"{"keyID":"a"}"#).unwrap();
    assert_eq!(compact_text(&v), r#"{"keyID":"a"}"#);
    assert_eq!(json_from_text("{").unwrap_err(), "failed-read_as_json");
}
