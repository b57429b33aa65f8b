//! The login session of a client and what a login answer leaves in it.
use crate::config::Config;
use crate::document::{
    field, get_field, is_object, is_string, json_model, json_text, new_object, object_of,
    owned_text, JsonModel,
};
use crate::encoding::base64_standard;
use crate::request::{header, header_texts, json_request, JsonRequest};
use json::JsonValue;
use vstd::prelude::*;
use vstd::utf8::encode_utf8;

verus! {

/// How long, in seconds, a login is used before the client logs in again.
pub const SESSION_LIFETIME_SECS: u64 = 43200;

/// The state a client keeps between requests: whether it is logged in, when it
/// logged in (in seconds on the caller's monotonic clock), what the login
/// answered, and the bucket that requests default to.
#[allow(non_snake_case)]
#[derive(Debug)]
pub struct Locked {
    pub in_session: bool,
    pub token_time: u64,
    pub accountId: String,
    pub authorizationToken: String,
    pub apiUrl: String,
    pub downloadUrl: String,
    pub bucketId: String,
}

/// What a successful login answers: the account id, the authorization token,
/// the API URL and the download URL.
#[derive(Debug)]
pub struct Credentials {
    pub account_id: String,
    pub authorization_token: String,
    pub api_url: String,
    pub download_url: String,
}

impl Clone for Locked {
    fn clone(&self) -> (res: Locked)
        ensures
            res.in_session == self.in_session,
            res.token_time == self.token_time,
            res.accountId@ == self.accountId@,
            res.authorizationToken@ == self.authorizationToken@,
            res.apiUrl@ == self.apiUrl@,
            res.downloadUrl@ == self.downloadUrl@,
            res.bucketId@ == self.bucketId@,
    {
        Locked {
            in_session: self.in_session,
            token_time: self.token_time,
            accountId: self.accountId.clone(),
            authorizationToken: self.authorizationToken.clone(),
            apiUrl: self.apiUrl.clone(),
            downloadUrl: self.downloadUrl.clone(),
            bucketId: self.bucketId.clone(),
        }
    }
}

impl Locked {
    /// The state of a new client: not logged in, every text empty.
    pub fn new() -> (res: Locked)
        ensures
            !res.in_session,
            res.token_time == 0,
            res.accountId@ == Seq::<char>::empty(),
            res.authorizationToken@ == Seq::<char>::empty(),
            res.apiUrl@ == Seq::<char>::empty(),
            res.downloadUrl@ == Seq::<char>::empty(),
            res.bucketId@ == Seq::<char>::empty(),
    {
        Locked {
            in_session: false,
            token_time: 0,
            accountId: String::new(),
            authorizationToken: String::new(),
            apiUrl: String::new(),
            downloadUrl: String::new(),
            bucketId: String::new(),
        }
    }

    /// Whether a request made at time `now` has to log in first: when there is no
    /// session, or when more than `SESSION_LIFETIME_SECS` seconds have passed since
    /// the login (a clock that reads earlier than the login counts as no time passed).
    pub open spec fn spec_needs_login(&self, now: u64) -> bool {
        !self.in_session || (now >= self.token_time && now - self.token_time > 43200)
    }

    /// Whether a request made at time `now` has to log in first.
    pub fn needs_login(&self, now: u64) -> (res: bool)
        ensures
            res == self.spec_needs_login(now),
            !self.in_session ==> res,
            self.in_session ==> (res <==> (now >= self.token_time && now - self.token_time
                > 43200)),
    {
        !self.in_session || (now >= self.token_time && now - self.token_time
            > SESSION_LIFETIME_SECS)
    }

    /// Sets the bucket that requests default to; nothing else changes.
    #[allow(non_snake_case)]
    pub fn set_bucket_id(&mut self, v: String)
        ensures
            final(self).bucketId@ == v@,
            final(self).in_session == old(self).in_session,
            final(self).token_time == old(self).token_time,
            final(self).accountId@ == old(self).accountId@,
            final(self).authorizationToken@ == old(self).authorizationToken@,
            final(self).apiUrl@ == old(self).apiUrl@,
            final(self).downloadUrl@ == old(self).downloadUrl@,
    {
        self.bucketId = v;
    }

    /// Records a login made at time `now`: the session starts and holds what the
    /// login answered; the bucket is kept.
    pub fn apply_login(&mut self, creds: Credentials, now: u64)
        ensures
            final(self).in_session,
            final(self).token_time == now,
            final(self).accountId@ == creds.account_id@,
            final(self).authorizationToken@ == creds.authorization_token@,
            final(self).apiUrl@ == creds.api_url@,
            final(self).downloadUrl@ == creds.download_url@,
            final(self).bucketId@ == old(self).bucketId@,
    {
        self.accountId = creds.account_id;
        self.authorizationToken = creds.authorization_token;
        self.apiUrl = creds.api_url;
        self.downloadUrl = creds.download_url;
        self.in_session = true;
        self.token_time = now;
    }

    /// The download URL of the session.
    pub fn get_download_url(&self) -> (res: String)
        ensures
            res@ == self.downloadUrl@,
    {
        self.downloadUrl.clone()
    }

    /// The API URL of the session.
    pub fn get_api_url(&self) -> (res: String)
        ensures
            res@ == self.apiUrl@,
    {
        self.apiUrl.clone()
    }

    /// The authorization token of the session.
    pub fn get_authorization_token(&self) -> (res: String)
        ensures
            res@ == self.authorizationToken@,
    {
        self.authorizationToken.clone()
    }
}

} // verus!

verus! {

/// The authorization header value for a key pair: `Basic ` and the base64 of
/// the UTF-8 bytes of `id:key`.
pub open spec fn basic_authorization(id: Seq<char>, key: Seq<char>) -> Seq<char> {
    "Basic "@ + base64_standard(encode_utf8(id + ":"@ + key))
}

/// The request that logs in at `url` with the key pair of `config`: the header
/// `Authorization: Basic <base64 of id:key>` and an empty object as body.
pub fn authorize_request(config: &Config, url: &str) -> (res: JsonRequest)
    ensures
        res.url@ == url@,
        header_texts(res.headers@) == seq![
            ("Content-Type"@, "application/json"@),
            ("Authorization"@, basic_authorization(config.id@, config.key@)),
        ],
        res.body@ == json_text(object_of(Seq::empty())),
{
    let mut token = config.id.clone();
    token.append(":");
    token.append(config.key.as_str());
    let encoded = crate::encoding::base64_encode(token.as_str().as_bytes());
    let mut value = String::from_str("Basic ");
    value.append(encoded.as_str());
    let mut headers: Vec<(String, String)> = Vec::new();
    headers.push(header("Authorization", value.as_str()));
    assert(header_texts(headers@) =~= seq![
        ("Authorization"@, basic_authorization(config.id@, config.key@)),
    ]);
    let body = new_object();
    json_request(url, headers, &body)
}

/// The login request of the v3 API.
pub fn login_v3_request(config: &Config) -> (res: JsonRequest)
    ensures
        res.url@ == "https://api.backblazeb2.com/b2api/v3/b2_authorize_account"@,
        header_texts(res.headers@) == seq![
            ("Content-Type"@, "application/json"@),
            ("Authorization"@, basic_authorization(config.id@, config.key@)),
        ],
        res.body@ == json_text(object_of(Seq::empty())),
{
    authorize_request(config, "https://api.backblazeb2.com/b2api/v3/b2_authorize_account")
}

/// The login request of the v2 API.
pub fn login_v2_request(config: &Config) -> (res: JsonRequest)
    ensures
        res.url@ == "https://api.backblazeb2.com/b2api/v2/b2_authorize_account"@,
        header_texts(res.headers@) == seq![
            ("Content-Type"@, "application/json"@),
            ("Authorization"@, basic_authorization(config.id@, config.key@)),
        ],
        res.body@ == json_text(object_of(Seq::empty())),
{
    authorize_request(config, "https://api.backblazeb2.com/b2api/v2/b2_authorize_account")
}

/// The storage API part of a v3 login answer.
pub open spec fn storage_api(m: JsonModel) -> JsonModel {
    field(field(m, "apiInfo"@), "storageApi"@)
}

/// A v3 login answer has what a session needs: string `accountId` and
/// `authorizationToken`, an object `apiInfo` holding an object `storageApi`
/// that holds string `downloadUrl` and `apiUrl`.
pub open spec fn login_v3_complete(m: JsonModel) -> bool {
    &&& field(m, "accountId"@) is Text
    &&& field(m, "authorizationToken"@) is Text
    &&& field(m, "apiInfo"@) is Object
    &&& storage_api(m) is Object
    &&& field(storage_api(m), "downloadUrl"@) is Text
    &&& field(storage_api(m), "apiUrl"@) is Text
}

/// The credentials carry the given texts.
pub open spec fn credentials_are(
    c: Credentials,
    account: JsonModel,
    token: JsonModel,
    api: JsonModel,
    download: JsonModel,
) -> bool {
    &&& JsonModel::Text(c.account_id@) == account
    &&& JsonModel::Text(c.authorization_token@) == token
    &&& JsonModel::Text(c.api_url@) == api
    &&& JsonModel::Text(c.download_url@) == download
}

/// What the answer to a v3 login gives: the credentials where the answer is
/// complete (`login_v3_complete`), `invalid-response` where it is not, and
/// `failed-response` where the request itself failed.
pub fn login_v3_outcome(reply: Result<JsonValue, &'static str>) -> (res: Result<
    Credentials,
    &'static str,
>)
    ensures
        reply is Err ==> res == Err::<Credentials, &'static str>("failed-response"),
        reply matches Ok(v) && !login_v3_complete(json_model(v)) ==> res == Err::<
            Credentials,
            &'static str,
        >("invalid-response"),
        reply is Ok && login_v3_complete(json_model(reply->Ok_0)) ==> (res matches Ok(c)
            && credentials_are(
            c,
            field(json_model(reply->Ok_0), "accountId"@),
            field(json_model(reply->Ok_0), "authorizationToken"@),
            field(storage_api(json_model(reply->Ok_0)), "apiUrl"@),
            field(storage_api(json_model(reply->Ok_0)), "downloadUrl"@),
        )),
{
    let response = match reply {
        Ok(v) => v,
        Err(_) => {
            return Err("failed-response");
        },
    };
    let account = get_field(&response, "accountId");
    let token = get_field(&response, "authorizationToken");
    let info = get_field(&response, "apiInfo");
    let storage = get_field(info, "storageApi");
    let download = get_field(storage, "downloadUrl");
    let api = get_field(storage, "apiUrl");
    if !is_string(account) || !is_string(token) || !is_object(info) || !is_object(storage)
        || !is_string(download) || !is_string(api) {
        return Err("invalid-response");
    }
    Ok(
        Credentials {
            account_id: owned_text(account),
            authorization_token: owned_text(token),
            api_url: owned_text(api),
            download_url: owned_text(download),
        },
    )
}

/// A v2 login answer has string `accountId`, `authorizationToken`, `apiUrl`
/// and `downloadUrl` at its top level.
pub open spec fn login_v2_complete(m: JsonModel) -> bool {
    &&& field(m, "accountId"@) is Text
    &&& field(m, "authorizationToken"@) is Text
    &&& field(m, "apiUrl"@) is Text
    &&& field(m, "downloadUrl"@) is Text
}

/// What the answer to a v2 login gives, as `login_v3_outcome` does for v3.
pub fn login_v2_outcome(reply: Result<JsonValue, &'static str>) -> (res: Result<
    Credentials,
    &'static str,
>)
    ensures
        reply is Err ==> res == Err::<Credentials, &'static str>("failed-response"),
        reply matches Ok(v) && !login_v2_complete(json_model(v)) ==> res == Err::<
            Credentials,
            &'static str,
        >("invalid-response"),
        reply is Ok && login_v2_complete(json_model(reply->Ok_0)) ==> (res matches Ok(c)
            && credentials_are(
            c,
            field(json_model(reply->Ok_0), "accountId"@),
            field(json_model(reply->Ok_0), "authorizationToken"@),
            field(json_model(reply->Ok_0), "apiUrl"@),
            field(json_model(reply->Ok_0), "downloadUrl"@),
        )),
{
    let response = match reply {
        Ok(v) => v,
        Err(_) => {
            return Err("failed-response");
        },
    };
    let account = get_field(&response, "accountId");
    let token = get_field(&response, "authorizationToken");
    let api = get_field(&response, "apiUrl");
    let download = get_field(&response, "downloadUrl");
    if !is_string(account) || !is_string(token) || !is_string(api) || !is_string(download) {
        return Err("invalid-response");
    }
    Ok(
        Credentials {
            account_id: owned_text(account),
            authorization_token: owned_text(token),
            api_url: owned_text(api),
            download_url: owned_text(download),
        },
    )
}

} // verus!

verus! {

/// The delay, in milliseconds, before the first retry of a failed login.
pub const FIRST_RETRY_DELAY_MS: u64 = 1000;

/// The delay that follows `delay`: one second more, up to ten seconds.
pub open spec fn spec_next_retry_delay(delay: u64) -> u64 {
    if delay < 10000 {
        (delay + 1000) as u64
    } else {
        delay
    }
}

/// The delay before the retry after `failures + 1` failed logins.
pub open spec fn delay_after(failures: nat) -> u64
    decreases failures,
{
    if failures == 0 {
        FIRST_RETRY_DELAY_MS
    } else {
        spec_next_retry_delay(delay_after((failures - 1) as nat))
    }
}

/// The state of a client that keeps trying to log in until it succeeds.
pub struct LoginRetry {
    pub delay_ms: u64,
}

/// What to do after a login attempt.
pub enum RetryStep {
    /// The login succeeded: stop.
    Done,
    /// The login failed: wait this many milliseconds, then try again.
    SleepThenRetry(u64),
}

impl LoginRetry {
    /// The state before the first attempt.
    pub fn new() -> (res: LoginRetry)
        ensures
            res.delay_ms == FIRST_RETRY_DELAY_MS,
    {
        LoginRetry { delay_ms: FIRST_RETRY_DELAY_MS }
    }

    /// Decides what follows an attempt: stop after a success; after a failure,
    /// wait the current delay and make the next one a second longer, up to ten seconds.
    pub fn step(&mut self, login_ok: bool) -> (res: RetryStep)
        ensures
            login_ok ==> res == RetryStep::Done && final(self).delay_ms == old(self).delay_ms,
            !login_ok ==> res == RetryStep::SleepThenRetry(old(self).delay_ms)
                && final(self).delay_ms == spec_next_retry_delay(old(self).delay_ms),
    {
        if login_ok {
            return RetryStep::Done;
        }
        let wait = self.delay_ms;
        if self.delay_ms < 10000 {
            self.delay_ms = self.delay_ms + 1000;
        }
        RetryStep::SleepThenRetry(wait)
    }
}

} // verus!

verus! {

impl Locked {
    /// Takes in the answer to a v3 login made at time `now`: on a complete answer
    /// the session starts with what it holds; otherwise the state is left as it was
    /// and the error of `login_v3_outcome` is returned.
    pub fn finish_login(&mut self, reply: Result<JsonValue, &'static str>, now: u64) -> (res:
        Result<(), &'static str>)
        ensures
            reply is Err ==> res == Err::<(), &'static str>("failed-response"),
            reply is Ok && !login_v3_complete(json_model(reply->Ok_0)) ==> res == Err::<
                (),
                &'static str,
            >("invalid-response"),
            res is Err ==> *final(self) == *old(self),
            reply is Ok && login_v3_complete(json_model(reply->Ok_0)) ==> {
                &&& res is Ok
                &&& final(self).in_session
                &&& final(self).token_time == now
                &&& JsonModel::Text(final(self).accountId@) == field(
                    json_model(reply->Ok_0),
                    "accountId"@,
                )
                &&& JsonModel::Text(final(self).authorizationToken@) == field(
                    json_model(reply->Ok_0),
                    "authorizationToken"@,
                )
                &&& JsonModel::Text(final(self).apiUrl@) == field(
                    storage_api(json_model(reply->Ok_0)),
                    "apiUrl"@,
                )
                &&& JsonModel::Text(final(self).downloadUrl@) == field(
                    storage_api(json_model(reply->Ok_0)),
                    "downloadUrl"@,
                )
                &&& final(self).bucketId@ == old(self).bucketId@
            },
    {
        match login_v3_outcome(reply) {
            Ok(creds) => {
                self.apply_login(creds, now);
                Ok(())
            },
            Err(e) => Err(e),
        }
    }
}

} // verus!
