use b2_backblaze::b2::{
    document_outcome, download_by_link_request, file_by_name_outcome, file_info_outcome,
    finish_large_file_outcome, json_download_outcome, missing_file_outcome, no_active_upload_outcome,
    raw_download_outcome,
    start_large_file_outcome, text_download_outcome, token_for_upload, upload_bytes_request,
    upload_file_request, upload_token_outcome, UploadToken,
};
use b2_backblaze::document::{compact_text, parse_json};
use b2_backblaze::io::FileInfo;
use b2_backblaze::session::Locked;

fn doc(text: &str) -> json::JsonValue {
    parse_json(text).expect("test document is JSON")
}

fn session() -> Locked {
    let mut s = Locked::new();
    s.apiUrl = "https://api".to_string();
    s.authorizationToken = "tok".to_string();
    s.bucketId = "bkt".to_string();
    s.in_session = true;
    s
}

fn auth_headers() -> Vec<(String, String)> {
    vec![
        ("Content-Type".to_string(), "application/json".to_string()),
        ("Authorization".to_string(), "tok".to_string()),
    ]
}

#[test]
fn upload_token_json_has_both_fields() {
    let t = UploadToken { uploadUrl: "https://up".to_string(), authorizationToken: "a".to_string() };
    let v = t.json();
    assert_eq!(compact_text(&v), r#"{"uploadUrl":"https://up","authorizationToken":"a"}"#);
}

#[test]
fn upload_token_json_reads_back() {
    let t = UploadToken { uploadUrl: "https://up".to_string(), authorizationToken: "a".to_string() };
    let back = upload_token_outcome(Ok(t.json())).unwrap();
    assert_eq!(back.uploadUrl, "https://up");
    assert_eq!(back.authorizationToken, "a");
}

#[test]
fn upload_token_outcome_errors() {
    assert_eq!(upload_token_outcome(Err("failed-execute-request")).unwrap_err(), "failed-response");
    assert_eq!(upload_token_outcome(Ok(doc(r#"{"uploadUrl":"u"}"#))).unwrap_err(), "invalid-response");
    let d = UploadToken::default();
    assert_eq!(d.uploadUrl, "");
    assert_eq!(d.authorizationToken, "");
}

#[test]
fn upload_url_request_uses_session_bucket() {
    let mut s = session();
    s.set_bucket_id("other".to_string());
    let req = s.upload_url_request();
    assert_eq!(req.url, "https://api/b2api/v3/b2_get_upload_url");
    assert_eq!(req.headers, auth_headers());
    assert_eq!(req.body, r#"{"bucketId":"other"}"#);
}

#[test]
fn simple_file_requests() {
    let s = session();
    let r = s.file_info_request("f1");
    assert_eq!(r.url, "https://api/b2api/v2/b2_get_file_info");
    assert_eq!(r.body, r#"{"fileId":"f1"}"#);
    let r = s.upload_part_url_request("f2");
    assert_eq!(r.url, "https://api/b2api/v2/b2_get_upload_part_url");
    assert_eq!(r.body, r#"{"fileId":"f2"}"#);
    let r = s.cancel_large_file_request("f3");
    assert_eq!(r.url, "https://api/b2api/v2/b2_cancel_large_file");
    assert_eq!(r.body, r#"{"fileId":"f3"}"#);
    let r = s.download_by_id_request("f4");
    assert_eq!(r.url, "https://api/b2api/v2/b2_download_file_by_id");
    assert_eq!(r.headers, auth_headers());
    assert_eq!(r.body, r#"{"fileId":"f4"}"#);
}

#[test]
fn start_large_file_request_defaults() {
    let s = session();
    let r = s.start_large_file_request("", "big.bin", "");
    assert_eq!(r.url, "https://api/b2api/v2/b2_start_large_file");
    assert_eq!(r.body, r#"{"bucketId":"bkt","fileName":"big.bin","contentType":"b2/x-auto"}"#);
    let r = s.start_large_file_request("b2", "big.bin", "text/plain");
    assert_eq!(r.body, r#"{"bucketId":"b2","fileName":"big.bin","contentType":"text/plain"}"#);
}

#[test]
fn finish_large_file_request_carries_part_hashes() {
    let s = session();
    let r = s.finish_large_file_request("fid", doc(r#"["aa","bb"]"#));
    assert_eq!(r.url, "https://api/b2api/v2/b2_finish_large_file");
    assert_eq!(r.body, r#"{"fileId":"fid","partSha1Array":["aa","bb"]}"#);
}

#[test]
fn download_authorization_and_listing_requests() {
    let s = session();
    let r = s.download_authorization_request("pre", 3600);
    assert_eq!(r.url, "https://api/b2api/v2/b2_get_download_authorization");
    assert_eq!(r.body, r#"{"bucketId":"bkt","fileNamePrefix":"pre","validDurationInSeconds":3600}"#);
    let r = s.list_file_names_request("name");
    assert_eq!(r.url, "https://api/b2api/v2/b2_list_file_names");
    assert_eq!(r.body, r#"{"bucketId":"bkt","startFileName":"name","maxFileCount":1}"#);
    let r = s.delete_file_version_request("n", "i", true);
    assert_eq!(r.url, "https://api/b2api/v2/b2_delete_file_version");
    assert_eq!(r.body, r#"{"fileName":"n","fileId":"i","bypassGovernance":true}"#);
}

#[test]
fn download_by_link_request_has_no_authorization() {
    let r = download_by_link_request("https://f/x");
    assert_eq!(r.url, "https://f/x");
    assert_eq!(r.headers, vec![("Content-Type".to_string(), "application/json".to_string())]);
    assert_eq!(r.body, "{}");
}

#[test]
fn file_info_outcome_cases() {
    let found = file_info_outcome(Ok(doc(r#"{"action":"upload","fileId":"x"}"#))).unwrap();
    assert_eq!(compact_text(&found.unwrap()), r#"{"action":"upload","fileId":"x"}"#);
    let gone = file_info_outcome(Ok(doc(r#"{"code":"not_found","message":"no such file: x"}"#)));
    assert!(gone.unwrap().is_none());
    assert_eq!(
        file_info_outcome(Ok(doc(r#"{"code":"bad_request"}"#))).unwrap_err(),
        "invalid-response"
    );
    assert_eq!(file_info_outcome(Err("failed-execute-request")).unwrap_err(), "failed-response");
}

#[test]
fn start_large_file_outcome_keeps_file_id() {
    let v = start_large_file_outcome(Ok(doc(r#"{"fileId":"abc","other":1}"#))).unwrap();
    assert_eq!(compact_text(&v), r#"{"fileId":"abc"}"#);
    assert_eq!(start_large_file_outcome(Ok(doc(r#"{"fileId":3}"#))).unwrap_err(), "invalid-response");
    assert_eq!(start_large_file_outcome(Err("x")).unwrap_err(), "failed-response");
}

#[test]
fn finish_large_file_outcome_cases() {
    assert!(finish_large_file_outcome(Ok(doc(r#"{"action":"upload"}"#))).is_ok());
    assert_eq!(
        finish_large_file_outcome(Ok(doc(r#"{"action":"start"}"#))).unwrap_err(),
        "action_not_upload"
    );
    assert!(finish_large_file_outcome(Ok(doc(r#"{"message":"No active upload for: 4_z"}"#))).is_ok());
    assert_eq!(
        finish_large_file_outcome(Ok(doc(r#"{"message":"other"}"#))).unwrap_err(),
        "invalid-response"
    );
    assert_eq!(finish_large_file_outcome(Err("x")).unwrap_err(), "failed-response");
}

#[test]
fn document_outcome_passes_answers_through() {
    let v = document_outcome(Ok(doc(r#"{"a":1}"#))).unwrap();
    assert_eq!(compact_text(&v), r#"{"a":1}"#);
    assert_eq!(document_outcome(Err("failed-build-request")).unwrap_err(), "failed-response");
}

#[test]
fn file_by_name_outcome_cases() {
    let listing = r#"{"files":[{"fileName":"a.txt","fileId":"1"}]}"#;
    let v = file_by_name_outcome(Ok(doc(listing)), "a.txt").unwrap();
    assert_eq!(compact_text(&v), r#"{"fileName":"a.txt","fileId":"1"}"#);
    assert_eq!(file_by_name_outcome(Ok(doc(listing)), "b.txt").unwrap_err(), "not_found");
    assert_eq!(file_by_name_outcome(Ok(doc(r#"{"files":[]}"#)), "a").unwrap_err(), "not_found");
    assert_eq!(file_by_name_outcome(Ok(doc(r#"{"files":1}"#)), "a").unwrap_err(), "invalid_response");
    assert_eq!(file_by_name_outcome(Err("x"), "a").unwrap_err(), "failed-response");
}

#[test]
fn download_outcomes() {
    assert_eq!(raw_download_outcome(Ok(vec![1, 2])).unwrap(), vec![1, 2]);
    assert_eq!(raw_download_outcome(Err("invalid-response-status")).unwrap_err(), "failed-response");
    assert_eq!(text_download_outcome(Ok(b"hi".to_vec())).unwrap(), "hi");
    assert_eq!(text_download_outcome(Ok(vec![0xff])).unwrap_err(), "failed-parse_to_string");
    assert_eq!(text_download_outcome(Err("x")).unwrap_err(), "failed-parse_to_json");
    let v = json_download_outcome(Ok("[1,2]".to_string())).unwrap();
    assert_eq!(compact_text(&v), "[1,2]");
    assert_eq!(json_download_outcome(Ok("{".to_string())).unwrap_err(), "failed-parse_to_json");
    assert_eq!(
        json_download_outcome(Err("x")).unwrap_err(),
        "failed-download_string_by_file_id"
    );
}

#[test]
fn upload_requests_carry_file_headers() {
    let token = UploadToken { uploadUrl: "https://up".to_string(), authorizationToken: "ut".to_string() };
    let r = upload_bytes_request(&token, "a%2Etxt", b"abc".to_vec(), "text/plain");
    assert_eq!(r.url, "https://up");
    assert_eq!(r.body, b"abc".to_vec());
    assert_eq!(
        r.headers,
        vec![
            ("Authorization".to_string(), "ut".to_string()),
            ("X-Bz-File-Name".to_string(), "a%2Etxt".to_string()),
            ("Content-Type".to_string(), "text/plain".to_string()),
            ("Content-Length".to_string(), "3".to_string()),
            ("X-Bz-Content-Sha1".to_string(), "a9993e364706816aba3e25717850c26c9cd0d89d".to_string()),
        ]
    );
    let info = FileInfo::assemble(Some("image/png".to_string()), b"abc".to_vec());
    let f = upload_file_request(&token, "d%2Epng", info);
    assert_eq!(f.headers[2].1, "image/png");
    assert_eq!(f.headers[3].1, "3");
    assert_eq!(f.headers[4].1, "a9993e364706816aba3e25717850c26c9cd0d89d");
}

#[test]
fn token_for_upload_maps_errors() {
    assert_eq!(token_for_upload(Err("invalid-response")).unwrap_err(), "failed-get_upload_token");
    let t = UploadToken { uploadUrl: "u".to_string(), authorizationToken: "a".to_string() };
    assert_eq!(token_for_upload(Ok(t)).unwrap().uploadUrl, "u");
}

#[test]
fn debug_text_decisions() {
    assert!(missing_file_outcome("Object { message: \"no such file: x\" }").unwrap().is_none());
    assert_eq!(missing_file_outcome("Object { code: \"bad\" }").unwrap_err(), "invalid-response");
    assert!(no_active_upload_outcome("\"No active upload for: 4_z\"").is_ok());
    assert_eq!(no_active_upload_outcome("no active upload for:").unwrap_err(), "invalid-response");
}

#[test]
fn listing_readability() {
    use_listing(r#"{"files":[{"fileName":"a"}]}"#, true);
    use_listing(r#"{"files":[{"fileId":"1"}]}"#, false);
    use_listing(r#"{"files":[]}"#, true);
    use_listing(r#"{"files":3}"#, true);
    assert!(b2_backblaze::b2::listing_is_readable(&Err("failed-execute-request")));
}

fn use_listing(text: &str, readable: bool) {
    assert_eq!(b2_backblaze::b2::listing_is_readable(&Ok(doc(text))), readable);
}

#[test]
fn upload_token_json_uses_heap_strings() {
    let t = UploadToken { uploadUrl: "u".to_string(), authorizationToken: "a".to_string() };
    let v = t.json();
    assert!(matches!(v["uploadUrl"], json::JsonValue::String(_)));
    assert!(matches!(v["authorizationToken"], json::JsonValue::String(_)));
}
