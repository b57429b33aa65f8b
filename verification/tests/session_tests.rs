use b2_backblaze::config::Config;
use b2_backblaze::document::{compact_text, parse_json};
use b2_backblaze::session::{
    login_v2_outcome, login_v2_request, login_v3_outcome, login_v3_request, LoginRetry, Locked,
    RetryStep,
};

fn doc(text: &str) -> json::JsonValue {
    parse_json(text).expect("test document is JSON")
}

const V3_ANSWER: &str = r#"{"accountId":"acc","authorizationToken":"tok","apiInfo":{"storageApi":{"apiUrl":"https://api","downloadUrl":"https://dl"}}}"#;

#[test]
fn config_new_keeps_fields() {
    let c = Config::new("ID".to_string(), "KEY".to_string());
    assert_eq!(c.id, "ID");
    assert_eq!(c.key, "KEY");
}

#[test]
fn config_from_json_reads_both_keys() {
    let c = Config::from_json(&doc(r#"{"keyID":"abc","applicationKey":"xyz"}"#)).unwrap();
    assert_eq!(c.id, "abc");
    assert_eq!(c.key, "xyz");
}

#[test]
fn config_from_json_reports_missing_keys() {
    assert_eq!(
        Config::from_json(&doc(r#"{"applicationKey":"xyz"}"#)).unwrap_err(),
        "not_found-keyID"
    );
    assert_eq!(
        Config::from_json(&doc(r#"{"keyID":1,"applicationKey":"xyz"}"#)).unwrap_err(),
        "not_found-keyID"
    );
    assert_eq!(
        Config::from_json(&doc(r#"{"keyID":"abc"}"#)).unwrap_err(),
        "not_found-applicationKey"
    );
}

#[test]
fn login_request_carries_basic_authorization() {
    let req = login_v3_request(&Config::new("ID".to_string(), "KEY".to_string()));
    assert_eq!(req.url, "https://api.backblazeb2.com/b2api/v3/b2_authorize_account");
    assert_eq!(
        req.headers,
        vec![
            ("Content-Type".to_string(), "application/json".to_string()),
            ("Authorization".to_string(), "Basic SUQ6S0VZ".to_string()),
        ]
    );
    assert_eq!(req.body, "{}");
    let v2 = login_v2_request(&Config::new("ID".to_string(), "KEY".to_string()));
    assert_eq!(v2.url, "https://api.backblazeb2.com/b2api/v2/b2_authorize_account");
    assert_eq!(v2.headers, req.headers);
}

#[test]
fn login_v3_outcome_reads_credentials() {
    let c = login_v3_outcome(Ok(doc(V3_ANSWER))).unwrap();
    assert_eq!(c.account_id, "acc");
    assert_eq!(c.authorization_token, "tok");
    assert_eq!(c.api_url, "https://api");
    assert_eq!(c.download_url, "https://dl");
}

#[test]
fn login_v3_outcome_rejects_incomplete_answers() {
    assert_eq!(login_v3_outcome(Err("failed-execute-request")).unwrap_err(), "failed-response");
    let missing = r#"{"accountId":"acc","authorizationToken":"tok","apiInfo":{"storageApi":{"apiUrl":"https://api"}}}"#;
    assert_eq!(login_v3_outcome(Ok(doc(missing))).unwrap_err(), "invalid-response");
    let not_object = r#"{"accountId":"acc","authorizationToken":"tok","apiInfo":"x"}"#;
    assert_eq!(login_v3_outcome(Ok(doc(not_object))).unwrap_err(), "invalid-response");
}

#[test]
fn login_v2_outcome_reads_flat_answer() {
    let flat = r#"{"accountId":"a","authorizationToken":"t","apiUrl":"u","downloadUrl":"d"}"#;
    let c = login_v2_outcome(Ok(doc(flat))).unwrap();
    assert_eq!(c.api_url, "u");
    assert_eq!(c.download_url, "d");
    assert_eq!(login_v2_outcome(Ok(doc(V3_ANSWER))).unwrap_err(), "invalid-response");
}

#[test]
fn finish_login_starts_session_and_keeps_bucket() {
    let mut s = Locked::new();
    s.set_bucket_id("bucket".to_string());
    assert!(s.needs_login(5));
    s.finish_login(Ok(doc(V3_ANSWER)), 100).unwrap();
    assert!(s.in_session);
    assert_eq!(s.token_time, 100);
    assert_eq!(s.get_api_url(), "https://api");
    assert_eq!(s.get_download_url(), "https://dl");
    assert_eq!(s.get_authorization_token(), "tok");
    assert_eq!(s.accountId, "acc");
    assert_eq!(s.bucketId, "bucket");
}

#[test]
fn failed_login_leaves_session_alone() {
    let mut s = Locked::new();
    assert_eq!(s.finish_login(Ok(doc("{}")), 10).unwrap_err(), "invalid-response");
    assert!(!s.in_session);
    assert_eq!(s.finish_login(Err("failed-build-request"), 10).unwrap_err(), "failed-response");
    assert!(!s.in_session);
}

#[test]
fn session_lasts_twelve_hours() {
    let mut s = Locked::new();
    s.finish_login(Ok(doc(V3_ANSWER)), 1000).unwrap();
    assert!(!s.needs_login(1000));
    assert!(!s.needs_login(1000 + 43200));
    assert!(s.needs_login(1000 + 43201));
    assert!(!s.needs_login(500));
}

#[test]
fn retry_delays_grow_to_ten_seconds() {
    let mut r = LoginRetry::new();
    let mut waits = Vec::new();
    for _ in 0..12 {
        match r.step(false) {
            RetryStep::SleepThenRetry(ms) => waits.push(ms),
            RetryStep::Done => panic!("a failed attempt is retried"),
        }
    }
    assert_eq!(
        waits,
        vec![1000, 2000, 3000, 4000, 5000, 6000, 7000, 8000, 9000, 10000, 10000, 10000]
    );
    assert!(matches!(r.step(true), RetryStep::Done));
}

#[test]
fn empty_object_text() {
    assert_eq!(compact_text(&doc("{}")), "{}");
}
