//! The B2 API calls: the request each one sends with a session, and what each
//! one makes of the answer.
use crate::document::{
    clone_json, owned_text, json_parsed, parse_json, debug_text, field, from_bool, from_str, from_string, from_u64, get_field,
    get_member, insert, is_array, is_string, json_debug_text, json_len, json_model, json_text,
    member, model_len, new_object, lemma_insert_new_key, object_of, unsigned, JsonModel,
};
use crate::encoding::{decimal, decimal_text, hex_encode, hex_lower, sha1, sha1_digest};
use crate::io::{utf8_text, FileInfo};
use crate::request::{header, header_texts, json_request, JsonRequest, UploadRequest};
use crate::session::Locked;
use crate::text::{contains, occurs_in, same_text};
use json::JsonValue;
use vstd::prelude::*;
use vstd::utf8::{decode_utf8, valid_utf8};

verus! {

/// Where an upload goes and the token that authorizes it.
#[allow(non_snake_case)]
#[derive(Debug)]
pub struct UploadToken {
    pub uploadUrl: String,
    pub authorizationToken: String,
}

impl Default for UploadToken {
    fn default() -> (res: UploadToken)
        ensures
            res.uploadUrl@ == Seq::<char>::empty(),
            res.authorizationToken@ == Seq::<char>::empty(),
    {
        UploadToken { uploadUrl: String::new(), authorizationToken: String::new() }
    }
}

/// The document form of an upload token: an object with the string fields
/// `uploadUrl` and `authorizationToken`, in that order.
pub open spec fn upload_token_model(url: Seq<char>, token: Seq<char>) -> JsonModel {
    object_of(
        seq![
            ("uploadUrl"@, JsonModel::Text(url)),
            ("authorizationToken"@, JsonModel::Text(token)),
        ],
    )
}

impl UploadToken {
    /// The token as a JSON object `{uploadUrl, authorizationToken}`.
    pub fn json(self) -> (res: JsonValue)
        ensures
            json_model(res) == upload_token_model(self.uploadUrl@, self.authorizationToken@),
    {
        proof {
            reveal_strlit("uploadUrl");
            reveal_strlit("authorizationToken");
        }
        let mut obj = new_object();
        insert(&mut obj, "uploadUrl", from_string(self.uploadUrl));
        let ghost first = json_model(obj)->Object_0;
        assert(first =~= seq![("uploadUrl"@, JsonModel::Text(self.uploadUrl@))]);
        insert(&mut obj, "authorizationToken", from_string(self.authorizationToken));
        proof {
            assert("uploadUrl"@[0] != "authorizationToken"@[0]);
            lemma_insert_new_key(first, "authorizationToken"@, JsonModel::Text(self.authorizationToken@));
        }
        assert(json_model(obj)->Object_0 =~= seq![
            ("uploadUrl"@, JsonModel::Text(self.uploadUrl@)),
            ("authorizationToken"@, JsonModel::Text(self.authorizationToken@)),
        ]);
        obj
    }
}

/// `req` is a JSON request to `path` under the session's API URL, carrying the
/// session's authorization token, with `body` as its document.
pub open spec fn authorized_request(
    req: JsonRequest,
    session: Locked,
    path: Seq<char>,
    body: JsonModel,
) -> bool {
    &&& req.url@ == session.apiUrl@ + path
    &&& header_texts(req.headers@) == seq![
        ("Content-Type"@, "application/json"@),
        ("Authorization"@, session.authorizationToken@),
    ]
    &&& req.body@ == json_text(body)
}

impl Locked {
    /// The JSON request to `path` under the session's API URL with the header
    /// `Authorization: <token>` and `body`.
    pub fn authorized(&self, path: &str, body: &JsonValue) -> (res: JsonRequest)
        ensures
            authorized_request(res, *self, path@, json_model(*body)),
    {
        let mut url = self.apiUrl.clone();
        url.append(path);
        let mut headers: Vec<(String, String)> = Vec::new();
        headers.push(header("Authorization", self.authorizationToken.as_str()));
        assert(header_texts(headers@) =~= seq![("Authorization"@, self.authorizationToken@)]);
        let res = json_request(url.as_str(), headers, body);
        assert(header_texts(res.headers@) =~= seq![
            ("Content-Type"@, "application/json"@),
            ("Authorization"@, self.authorizationToken@),
        ]);
        res
    }
}

/// A document with a single field.
fn single_field(key: &str, value: JsonValue) -> (res: JsonValue)
    ensures
        json_model(res) == object_of(seq![(key@, json_model(value))]),
{
    let mut obj = new_object();
    insert(&mut obj, key, value);
    obj
}

} // verus!

verus! {

/// A document with two fields under distinct keys.
fn two_fields(k1: &str, v1: JsonValue, k2: &str, v2: JsonValue) -> (res: JsonValue)
    requires
        k1@ != k2@,
    ensures
        json_model(res) == object_of(seq![(k1@, json_model(v1)), (k2@, json_model(v2))]),
{
    let ghost m2 = json_model(v2);
    let mut obj = single_field(k1, v1);
    let ghost first = json_model(obj)->Object_0;
    insert(&mut obj, k2, v2);
    proof {
        lemma_insert_new_key(first, k2@, m2);
    }
    assert(json_model(obj)->Object_0 =~= seq![(k1@, json_model(v1)), (k2@, m2)]);
    obj
}

/// A document with three fields under distinct keys.
fn three_fields(k1: &str, v1: JsonValue, k2: &str, v2: JsonValue, k3: &str, v3: JsonValue) -> (res:
    JsonValue)
    requires
        k1@ != k2@,
        k1@ != k3@,
        k2@ != k3@,
    ensures
        json_model(res) == object_of(
            seq![(k1@, json_model(v1)), (k2@, json_model(v2)), (k3@, json_model(v3))],
        ),
{
    let ghost m3 = json_model(v3);
    let mut obj = two_fields(k1, v1, k2, v2);
    let ghost first = json_model(obj)->Object_0;
    insert(&mut obj, k3, v3);
    proof {
        lemma_insert_new_key(first, k3@, m3);
    }
    assert(json_model(obj)->Object_0 =~= seq![
        (k1@, json_model(v1)),
        (k2@, json_model(v2)),
        (k3@, m3),
    ]);
    obj
}

/// A string field.
pub open spec fn text_field(key: Seq<char>, value: Seq<char>) -> (Seq<char>, JsonModel) {
    (key, JsonModel::Text(value))
}

impl Locked {
    /// The request for an upload URL: `/b2api/v3/b2_get_upload_url` with
    /// `{bucketId}` of the session's bucket.
    pub fn upload_url_request(&self) -> (res: JsonRequest)
        ensures
            authorized_request(
                res,
                *self,
                "/b2api/v3/b2_get_upload_url"@,
                object_of(seq![text_field("bucketId"@, self.bucketId@)]),
            ),
    {
        let body = single_field("bucketId", from_string(self.bucketId.clone()));
        self.authorized("/b2api/v3/b2_get_upload_url", &body)
    }

    /// The request for the information of a file: `/b2api/v2/b2_get_file_info`
    /// with `{fileId}`.
    #[allow(non_snake_case)]
    pub fn file_info_request(&self, fileId: &str) -> (res: JsonRequest)
        ensures
            authorized_request(
                res,
                *self,
                "/b2api/v2/b2_get_file_info"@,
                object_of(seq![text_field("fileId"@, fileId@)]),
            ),
    {
        let body = single_field("fileId", from_string(String::from_str(fileId)));
        self.authorized("/b2api/v2/b2_get_file_info", &body)
    }

    /// The request that starts a large file: `/b2api/v2/b2_start_large_file`
    /// with `{bucketId, fileName, contentType}`. An empty `bucketId` stands for the
    /// session's bucket, an empty `contentType` for `b2/x-auto`.
    #[allow(non_snake_case)]
    pub fn start_large_file_request(&self, bucketId: &str, fileName: &str, contentType: &str) -> (res:
        JsonRequest)
        ensures
            authorized_request(
                res,
                *self,
                "/b2api/v2/b2_start_large_file"@,
                object_of(
                    seq![
                        text_field(
                            "bucketId"@,
                            if bucketId@.len() > 0 {
                                bucketId@
                            } else {
                                self.bucketId@
                            },
                        ),
                        text_field("fileName"@, fileName@),
                        text_field(
                            "contentType"@,
                            if contentType@.len() > 0 {
                                contentType@
                            } else {
                                "b2/x-auto"@
                            },
                        ),
                    ],
                ),
            ),
    {
        let bid: &str = if bucketId.unicode_len() > 0 {
            bucketId
        } else {
            self.bucketId.as_str()
        };
        let ct: &str = if contentType.unicode_len() > 0 {
            contentType
        } else {
            "b2/x-auto"
        };
        proof {
            reveal_strlit("bucketId");
            reveal_strlit("fileName");
            reveal_strlit("contentType");
            assert("bucketId"@[0] != "fileName"@[0]);
        }
        let body = three_fields(
            "bucketId",
            from_string(String::from_str(bid)),
            "fileName",
            from_string(String::from_str(fileName)),
            "contentType",
            from_string(String::from_str(ct)),
        );
        self.authorized("/b2api/v2/b2_start_large_file", &body)
    }

    /// The request for an upload URL of a part: `/b2api/v2/b2_get_upload_part_url`
    /// with `{fileId}`.
    #[allow(non_snake_case)]
    pub fn upload_part_url_request(&self, fileId: &str) -> (res: JsonRequest)
        ensures
            authorized_request(
                res,
                *self,
                "/b2api/v2/b2_get_upload_part_url"@,
                object_of(seq![text_field("fileId"@, fileId@)]),
            ),
    {
        let body = single_field("fileId", from_str(fileId));
        self.authorized("/b2api/v2/b2_get_upload_part_url", &body)
    }

    /// The request that finishes a large file: `/b2api/v2/b2_finish_large_file`
    /// with `{fileId, partSha1Array}`.
    #[allow(non_snake_case)]
    pub fn finish_large_file_request(&self, fileId: &str, partSha1Array: JsonValue) -> (res:
        JsonRequest)
        ensures
            authorized_request(
                res,
                *self,
                "/b2api/v2/b2_finish_large_file"@,
                object_of(
                    seq![
                        text_field("fileId"@, fileId@),
                        ("partSha1Array"@, json_model(partSha1Array)),
                    ],
                ),
            ),
    {
        proof {
            reveal_strlit("fileId");
            reveal_strlit("partSha1Array");
            assert("fileId"@[0] != "partSha1Array"@[0]);
        }
        let body = two_fields("fileId", from_str(fileId), "partSha1Array", partSha1Array);
        self.authorized("/b2api/v2/b2_finish_large_file", &body)
    }

    /// The request for a download authorization:
    /// `/b2api/v2/b2_get_download_authorization` with
    /// `{bucketId, fileNamePrefix, validDurationInSeconds}`.
    pub fn download_authorization_request(&self, file_name: &str, valid_seconds: u64) -> (res:
        JsonRequest)
        ensures
            authorized_request(
                res,
                *self,
                "/b2api/v2/b2_get_download_authorization"@,
                object_of(
                    seq![
                        text_field("bucketId"@, self.bucketId@),
                        text_field("fileNamePrefix"@, file_name@),
                        ("validDurationInSeconds"@, unsigned(valid_seconds)),
                    ],
                ),
            ),
    {
        proof {
            reveal_strlit("bucketId");
            reveal_strlit("fileNamePrefix");
            reveal_strlit("validDurationInSeconds");
            assert("bucketId"@[0] != "fileNamePrefix"@[0]);
        }
        let body = three_fields(
            "bucketId",
            from_string(self.bucketId.clone()),
            "fileNamePrefix",
            from_str(file_name),
            "validDurationInSeconds",
            from_u64(valid_seconds),
        );
        self.authorized("/b2api/v2/b2_get_download_authorization", &body)
    }

    /// The request that lists one file name from `file_name` on:
    /// `/b2api/v2/b2_list_file_names` with `{bucketId, startFileName, maxFileCount: 1}`.
    pub fn list_file_names_request(&self, file_name: &str) -> (res: JsonRequest)
        ensures
            authorized_request(
                res,
                *self,
                "/b2api/v2/b2_list_file_names"@,
                object_of(
                    seq![
                        text_field("bucketId"@, self.bucketId@),
                        text_field("startFileName"@, file_name@),
                        ("maxFileCount"@, unsigned(1)),
                    ],
                ),
            ),
    {
        proof {
            reveal_strlit("bucketId");
            reveal_strlit("startFileName");
            reveal_strlit("maxFileCount");
            assert("bucketId"@[0] != "startFileName"@[0]);
        }
        let body = three_fields(
            "bucketId",
            from_string(self.bucketId.clone()),
            "startFileName",
            from_str(file_name),
            "maxFileCount",
            from_u64(1),
        );
        self.authorized("/b2api/v2/b2_list_file_names", &body)
    }

    /// The request that cancels a large file: `/b2api/v2/b2_cancel_large_file`
    /// with `{fileId}`.
    pub fn cancel_large_file_request(&self, file_id: &str) -> (res: JsonRequest)
        ensures
            authorized_request(
                res,
                *self,
                "/b2api/v2/b2_cancel_large_file"@,
                object_of(seq![text_field("fileId"@, file_id@)]),
            ),
    {
        let body = single_field("fileId", from_str(file_id));
        self.authorized("/b2api/v2/b2_cancel_large_file", &body)
    }

    /// The request that deletes a file version: `/b2api/v2/b2_delete_file_version`
    /// with `{fileName, fileId, bypassGovernance}`.
    #[allow(non_snake_case)]
    pub fn delete_file_version_request(
        &self,
        file_name: &str,
        file_id: &str,
        bypassGovernance: bool,
    ) -> (res: JsonRequest)
        ensures
            authorized_request(
                res,
                *self,
                "/b2api/v2/b2_delete_file_version"@,
                object_of(
                    seq![
                        text_field("fileName"@, file_name@),
                        text_field("fileId"@, file_id@),
                        ("bypassGovernance"@, JsonModel::Boolean(bypassGovernance)),
                    ],
                ),
            ),
    {
        proof {
            reveal_strlit("fileName");
            reveal_strlit("fileId");
            reveal_strlit("bypassGovernance");
            assert("fileName"@[4] != "fileId"@[4]);
        }
        let body = three_fields(
            "fileName",
            from_str(file_name),
            "fileId",
            from_str(file_id),
            "bypassGovernance",
            from_bool(bypassGovernance),
        );
        self.authorized("/b2api/v2/b2_delete_file_version", &body)
    }

    /// The request that downloads a file by id: `/b2api/v2/b2_download_file_by_id`
    /// with `{fileId}`; its answer is read as raw bytes.
    pub fn download_by_id_request(&self, file_id: &str) -> (res: JsonRequest)
        ensures
            authorized_request(
                res,
                *self,
                "/b2api/v2/b2_download_file_by_id"@,
                object_of(seq![text_field("fileId"@, file_id@)]),
            ),
    {
        let body = single_field("fileId", from_str(file_id));
        self.authorized("/b2api/v2/b2_download_file_by_id", &body)
    }
}

/// The request that downloads from a link: the link itself, no header but
/// `Content-Type`, an empty object as body; its answer is read as raw bytes.
pub fn download_by_link_request(link: &str) -> (res: JsonRequest)
    ensures
        res.url@ == link@,
        header_texts(res.headers@) == seq![("Content-Type"@, "application/json"@)],
        res.body@ == json_text(object_of(Seq::empty())),
{
    let body = new_object();
    let res = json_request(link, Vec::new(), &body);
    assert(header_texts(res.headers@) =~= seq![("Content-Type"@, "application/json"@)]);
    res
}

} // verus!

verus! {

/// An answer carries an upload token: string `uploadUrl` and `authorizationToken`.
pub open spec fn has_upload_token(m: JsonModel) -> bool {
    field(m, "uploadUrl"@) is Text && field(m, "authorizationToken"@) is Text
}

/// What the answer to an upload URL request (whole file or part) gives:
/// `failed-response` where the request failed, `invalid-response` where the answer
/// lacks a string `uploadUrl` or `authorizationToken`, else the token they hold.
pub fn upload_token_outcome(reply: Result<JsonValue, &'static str>) -> (res: Result<
    UploadToken,
    &'static str,
>)
    ensures
        reply is Err ==> res == Err::<UploadToken, &'static str>("failed-response"),
        reply is Ok && !has_upload_token(json_model(reply->Ok_0)) ==> res == Err::<
            UploadToken,
            &'static str,
        >("invalid-response"),
        reply is Ok && has_upload_token(json_model(reply->Ok_0)) ==> (res matches Ok(t)
            && JsonModel::Text(t.uploadUrl@) == field(json_model(reply->Ok_0), "uploadUrl"@)
            && JsonModel::Text(t.authorizationToken@) == field(
            json_model(reply->Ok_0),
            "authorizationToken"@,
        )),
{
    let response = match reply {
        Ok(v) => v,
        Err(_) => {
            return Err("failed-response");
        },
    };
    let url = get_field(&response, "uploadUrl");
    let token = get_field(&response, "authorizationToken");
    if !is_string(url) || !is_string(token) {
        return Err("invalid-response");
    }
    let mut build = UploadToken::default();
    build.uploadUrl = owned_text(url);
    build.authorizationToken = owned_text(token);
    Ok(build)
}

/// What the answer to a file information request gives: the answer itself where it
/// has a string `action`; otherwise no file where its debug text mentions
/// `no such file`, and `invalid-response` where it does not;
/// `failed-response` where the request failed.
pub fn file_info_outcome(reply: Result<JsonValue, &'static str>) -> (res: Result<
    Option<JsonValue>,
    &'static str,
>)
    ensures
        reply is Err ==> res == Err::<Option<JsonValue>, &'static str>("failed-response"),
        reply is Ok && field(json_model(reply->Ok_0), "action"@) is Text ==> res == Ok::<
            Option<JsonValue>,
            &'static str,
        >(Some(reply->Ok_0)),
        reply is Ok && !(field(json_model(reply->Ok_0), "action"@) is Text) && occurs_in(
            json_debug_text(reply->Ok_0),
            "no such file"@,
        ) ==> res == Ok::<Option<JsonValue>, &'static str>(None),
        reply is Ok && !(field(json_model(reply->Ok_0), "action"@) is Text) && !occurs_in(
            json_debug_text(reply->Ok_0),
            "no such file"@,
        ) ==> res == Err::<Option<JsonValue>, &'static str>("invalid-response"),
{
    let response = match reply {
        Ok(v) => v,
        Err(_) => {
            return Err("failed-response");
        },
    };
    if !is_string(get_field(&response, "action")) {
        let e = debug_text(&response);
        return missing_file_outcome(e.as_str());
    }
    Ok(Some(response))
}

/// What a file information answer without a string `action` gives, from its debug
/// text: no file where the text mentions `no such file`, `invalid-response` where
/// it does not.
pub fn missing_file_outcome(debug: &str) -> (res: Result<Option<JsonValue>, &'static str>)
    ensures
        occurs_in(debug@, "no such file"@) ==> res == Ok::<Option<JsonValue>, &'static str>(None),
        !occurs_in(debug@, "no such file"@) ==> res == Err::<Option<JsonValue>, &'static str>(
            "invalid-response",
        ),
{
    if contains(debug, "no such file") {
        Ok(None)
    } else {
        Err("invalid-response")
    }
}

/// What the answer to starting a large file gives: `{fileId}` holding the answer's
/// `fileId` where that is a string, `invalid-response` where it is not,
/// `failed-response` where the request failed.
pub fn start_large_file_outcome(reply: Result<JsonValue, &'static str>) -> (res: Result<
    JsonValue,
    &'static str,
>)
    ensures
        reply is Err ==> res == Err::<JsonValue, &'static str>("failed-response"),
        reply is Ok && !(field(json_model(reply->Ok_0), "fileId"@) is Text) ==> res == Err::<
            JsonValue,
            &'static str,
        >("invalid-response"),
        reply is Ok && field(json_model(reply->Ok_0), "fileId"@) is Text ==> (res matches Ok(v)
            && json_model(v) == object_of(
            seq![("fileId"@, field(json_model(reply->Ok_0), "fileId"@))],
        )),
{
    let response = match reply {
        Ok(v) => v,
        Err(_) => {
            return Err("failed-response");
        },
    };
    let id = get_field(&response, "fileId");
    if !is_string(id) {
        return Err("invalid-response");
    }
    Ok(single_field("fileId", clone_json(id)))
}

/// What the answer to finishing a large file gives: success where its string
/// `action` is `upload`, `action_not_upload` where it is another string; without
/// a string `action`, success where its debug text mentions `No active upload for:`
/// and `invalid-response` where it does not; `failed-response` where the request
/// failed.
pub fn finish_large_file_outcome(reply: Result<JsonValue, &'static str>) -> (res: Result<
    (),
    &'static str,
>)
    ensures
        reply is Err ==> res == Err::<(), &'static str>("failed-response"),
        reply is Ok && field(json_model(reply->Ok_0), "action"@) == JsonModel::Text("upload"@)
            ==> res == Ok::<(), &'static str>(()),
        reply is Ok && field(json_model(reply->Ok_0), "action"@) is Text && field(
            json_model(reply->Ok_0),
            "action"@,
        ) != JsonModel::Text("upload"@) ==> res == Err::<(), &'static str>("action_not_upload"),
        reply is Ok && !(field(json_model(reply->Ok_0), "action"@) is Text) && occurs_in(
            json_debug_text(reply->Ok_0),
            "No active upload for:"@,
        ) ==> res == Ok::<(), &'static str>(()),
        reply is Ok && !(field(json_model(reply->Ok_0), "action"@) is Text) && !occurs_in(
            json_debug_text(reply->Ok_0),
            "No active upload for:"@,
        ) ==> res == Err::<(), &'static str>("invalid-response"),
{
    let response = match reply {
        Ok(v) => v,
        Err(_) => {
            return Err("failed-response");
        },
    };
    let action = get_field(&response, "action");
    if !is_string(action) {
        let e = debug_text(&response);
        return no_active_upload_outcome(e.as_str());
    }
    let v = owned_text(action);
    if same_text(v.as_str(), "upload") {
        Ok(())
    } else {
        Err("action_not_upload")
    }
}

/// What a finishing answer without a string `action` gives, from its debug text:
/// success where the text mentions `No active upload for:` (the file was already
/// finished), `invalid-response` where it does not.
pub fn no_active_upload_outcome(debug: &str) -> (res: Result<(), &'static str>)
    ensures
        occurs_in(debug@, "No active upload for:"@) ==> res == Ok::<(), &'static str>(()),
        !occurs_in(debug@, "No active upload for:"@) ==> res == Err::<(), &'static str>(
            "invalid-response",
        ),
{
    if contains(debug, "No active upload for:") {
        Ok(())
    } else {
        Err("invalid-response")
    }
}

/// What the answer to a call whose document is handed back unread gives: the
/// document, or `failed-response` where the request failed.
pub fn document_outcome(reply: Result<JsonValue, &'static str>) -> (res: Result<
    JsonValue,
    &'static str,
>)
    ensures
        reply is Err ==> res == Err::<JsonValue, &'static str>("failed-response"),
        reply is Ok ==> res == reply,
{
    match reply {
        Ok(v) => Ok(v),
        Err(_) => Err("failed-response"),
    }
}

/// The `files` list of a file name listing.
pub open spec fn listed_files(m: JsonModel) -> JsonModel {
    field(m, "files"@)
}

/// A listing can be read without failing: where `files` is a non-empty list,
/// its first entry has a string `fileName`.
pub open spec fn listing_readable(m: JsonModel) -> bool {
    listed_files(m) is Array && model_len(listed_files(m)) > 0 ==> field(
        member(listed_files(m), 0),
        "fileName"@,
    ) is Text
}

/// What the answer to listing one file name from `file_name` on gives: the first
/// listed file where its `fileName` is `file_name`; `invalid_response` where
/// `files` is not a list, `not_found` where it is empty or its first file has
/// another name; `failed-response` where the request failed.
pub fn file_by_name_outcome(reply: Result<JsonValue, &'static str>, file_name: &str) -> (res:
    Result<JsonValue, &'static str>)
    requires
        reply is Ok ==> listing_readable(json_model(reply->Ok_0)),
    ensures
        reply is Err ==> res == Err::<JsonValue, &'static str>("failed-response"),
        reply is Ok && !(listed_files(json_model(reply->Ok_0)) is Array) ==> res == Err::<
            JsonValue,
            &'static str,
        >("invalid_response"),
        reply is Ok && listed_files(json_model(reply->Ok_0)) is Array && model_len(
            listed_files(json_model(reply->Ok_0)),
        ) == 0 ==> res == Err::<JsonValue, &'static str>("not_found"),
        reply is Ok && listed_files(json_model(reply->Ok_0)) is Array && model_len(
            listed_files(json_model(reply->Ok_0)),
        ) > 0 ==> ({
            let first = member(listed_files(json_model(reply->Ok_0)), 0);
            &&& field(first, "fileName"@) == JsonModel::Text(file_name@) ==> (res matches Ok(v)
                && json_model(v) == first)
            &&& field(first, "fileName"@) != JsonModel::Text(file_name@) ==> res == Err::<
                JsonValue,
                &'static str,
            >("not_found")
        }),
{
    let v = match reply {
        Ok(v) => v,
        Err(_) => {
            return Err("failed-response");
        },
    };
    let files = get_field(&v, "files");
    if !is_array(files) {
        return Err("invalid_response");
    }
    if json_len(files) == 0 {
        return Err("not_found");
    }
    let file = get_member(files, 0);
    let name = owned_text(get_field(file, "fileName"));
    if !same_text(name.as_str(), file_name) {
        return Err("not_found");
    }
    Ok(clone_json(file))
}

} // verus!

verus! {

/// What a download by file id gives: the bytes, or `failed-response` where the
/// request or its reply failed.
pub fn raw_download_outcome(reply: Result<Vec<u8>, &'static str>) -> (res: Result<
    Vec<u8>,
    &'static str,
>)
    ensures
        reply is Err ==> res == Err::<Vec<u8>, &'static str>("failed-response"),
        reply is Ok ==> res == reply,
{
    match reply {
        Ok(v) => Ok(v),
        Err(_) => Err("failed-response"),
    }
}

/// What a download as text gives: the text of the bytes; `failed-parse_to_json`
/// where the download failed, `failed-parse_to_string` where the bytes are not UTF-8.
pub fn text_download_outcome(raw: Result<Vec<u8>, &'static str>) -> (res: Result<
    String,
    &'static str,
>)
    ensures
        raw is Err ==> res == Err::<String, &'static str>("failed-parse_to_json"),
        raw is Ok && valid_utf8(raw->Ok_0@) ==> (res matches Ok(s) && s@ == decode_utf8(
            raw->Ok_0@,
        )),
        raw is Ok && !valid_utf8(raw->Ok_0@) ==> res == Err::<String, &'static str>(
            "failed-parse_to_string",
        ),
{
    let bytes = match raw {
        Ok(b) => b,
        Err(_) => {
            return Err("failed-parse_to_json");
        },
    };
    match utf8_text(bytes) {
        Some(s) => Ok(s),
        None => Err("failed-parse_to_string"),
    }
}

/// What a download as JSON gives: the document of the text;
/// `failed-download_string_by_file_id` where the text could not be had,
/// `failed-parse_to_json` where it is not JSON.
pub fn json_download_outcome(text: Result<String, &'static str>) -> (res: Result<
    JsonValue,
    &'static str,
>)
    ensures
        text is Err ==> res == Err::<JsonValue, &'static str>("failed-download_string_by_file_id"),
        text is Ok && json_parsed(text->Ok_0@) is Some ==> (res matches Ok(v) && json_model(v)
            == json_parsed(text->Ok_0@)->Some_0),
        text is Ok && json_parsed(text->Ok_0@) is None ==> res == Err::<JsonValue, &'static str>(
            "failed-parse_to_json",
        ),
{
    let t = match text {
        Ok(t) => t,
        Err(_) => {
            return Err("failed-download_string_by_file_id");
        },
    };
    match parse_json(t.as_str()) {
        Some(v) => Ok(v),
        None => Err("failed-parse_to_json"),
    }
}

/// The token an upload goes with: `failed-get_upload_token` where it could not be had.
pub fn token_for_upload(token: Result<UploadToken, &'static str>) -> (res: Result<
    UploadToken,
    &'static str,
>)
    ensures
        token is Err ==> res == Err::<UploadToken, &'static str>("failed-get_upload_token"),
        token is Ok ==> res == token,
{
    match token {
        Ok(t) => Ok(t),
        Err(_) => Err("failed-get_upload_token"),
    }
}

/// The headers of an upload, in the order they are set.
pub open spec fn upload_headers(
    token: Seq<char>,
    file_name: Seq<char>,
    mime: Seq<char>,
    size: nat,
    sha1_hex: Seq<char>,
) -> Seq<(Seq<char>, Seq<char>)> {
    seq![
        ("Authorization"@, token),
        ("X-Bz-File-Name"@, file_name),
        ("Content-Type"@, mime),
        ("Content-Length"@, decimal(size)),
        ("X-Bz-Content-Sha1"@, sha1_hex),
    ]
}

/// The upload of `data` under `file_name` (already escaped) with the given media
/// type and SHA-1 hex, to the token's URL with the token's authorization.
fn upload_with(
    token: &UploadToken,
    file_name: &str,
    mime: &str,
    sha1_hex: &str,
    data: Vec<u8>,
) -> (res: UploadRequest)
    ensures
        res.url@ == token.uploadUrl@,
        header_texts(res.headers@) == upload_headers(
            token.authorizationToken@,
            file_name@,
            mime@,
            data@.len(),
            sha1_hex@,
        ),
        res.body@ == data@,
{
    let size = data.len() as u64;
    let length = decimal_text(size);
    let mut headers: Vec<(String, String)> = Vec::new();
    headers.push(header("Authorization", token.authorizationToken.as_str()));
    headers.push(header("X-Bz-File-Name", file_name));
    headers.push(header("Content-Type", mime));
    headers.push(header("Content-Length", length.as_str()));
    headers.push(header("X-Bz-Content-Sha1", sha1_hex));
    assert(header_texts(headers@) =~= upload_headers(
        token.authorizationToken@,
        file_name@,
        mime@,
        data@.len(),
        sha1_hex@,
    ));
    UploadRequest { url: token.uploadUrl.clone(), headers: headers, body: data }
}

/// The upload of raw bytes: the SHA-1 is computed from the bytes and the length is
/// their count.
pub fn upload_bytes_request(token: &UploadToken, file_name: &str, data: Vec<u8>, mime: &str) -> (res:
    UploadRequest)
    ensures
        res.url@ == token.uploadUrl@,
        header_texts(res.headers@) == upload_headers(
            token.authorizationToken@,
            file_name@,
            mime@,
            data@.len(),
            hex_lower(sha1_digest(data@)),
        ),
        res.body@ == data@,
        header_texts(res.headers@).len() == 5,
        header_texts(res.headers@)[0] == ("Authorization"@, token.authorizationToken@),
        header_texts(res.headers@)[1] == ("X-Bz-File-Name"@, file_name@),
        header_texts(res.headers@)[2] == ("Content-Type"@, mime@),
        header_texts(res.headers@)[3] == ("Content-Length"@, decimal(res.body@.len())),
        header_texts(res.headers@)[4] == ("X-Bz-Content-Sha1"@, hex_lower(sha1_digest(res.body@))),
{
    let digest = sha1(data.as_slice());
    let hex = hex_encode(digest.as_slice());
    upload_with(token, file_name, mime, hex.as_str(), data)
}

/// The upload of a file that was read: its bytes, media type and SHA-1 come from
/// the file's description.
pub fn upload_file_request(token: &UploadToken, file_name: &str, info: FileInfo) -> (res:
    UploadRequest)
    ensures
        res.url@ == token.uploadUrl@,
        header_texts(res.headers@) == upload_headers(
            token.authorizationToken@,
            file_name@,
            info.mime@,
            info.data@.len(),
            info.sha1@,
        ),
        res.body@ == info.data@,
        header_texts(res.headers@).len() == 5,
        header_texts(res.headers@)[0] == ("Authorization"@, token.authorizationToken@),
        header_texts(res.headers@)[1] == ("X-Bz-File-Name"@, file_name@),
        header_texts(res.headers@)[2] == ("Content-Type"@, info.mime@),
        header_texts(res.headers@)[3] == ("Content-Length"@, decimal(res.body@.len())),
        info.sha1@ == hex_lower(sha1_digest(info.data@)) ==> header_texts(res.headers@)[4] == (
            "X-Bz-Content-Sha1"@,
            hex_lower(sha1_digest(res.body@)),
        ),
{
    upload_with(token, file_name, info.mime.as_str(), info.sha1.as_str(), info.data)
}

} // verus!

verus! {

/// Whether `file_by_name_outcome` can read a listing answer: a failed request, or an
/// answer whose `files`, where a non-empty list, starts with a file with a string
/// `fileName`.
pub fn listing_is_readable(reply: &Result<JsonValue, &'static str>) -> (res: bool)
    ensures
        res == (reply is Ok ==> listing_readable(json_model(reply->Ok_0))),
{
    match reply {
        Err(_) => true,
        Ok(v) => {
            let files = get_field(v, "files");
            if !is_array(files) || json_len(files) == 0 {
                true
            } else {
                is_string(get_field(get_member(files, 0), "fileName"))
            }
        },
    }
}

} // verus!
