//! Properties that relate several operations of the client.
use crate::b2::{has_upload_token, listed_files, upload_token_model};
use crate::document::{
    field,
    insert_entry,
    lemma_lookup_insert_other,
    lemma_lookup_insert_same,
    JsonModel,
};
use crate::encoding::{escape_char, escaped_name, hex_lower, is_escaped_char};
use crate::session::{delay_after, login_v3_complete, storage_api, Locked};
use vstd::prelude::*;

verus! {

/// Escaping a file name escapes its pieces independently: the escape of a
/// concatenation is the concatenation of the escapes.
pub proof fn law_escape_concat(a: Seq<char>, b: Seq<char>)
    ensures
        escaped_name(a + b) == escaped_name(a) + escaped_name(b),
    decreases b.len(),
{
    if b.len() == 0 {
        assert(a + b =~= a);
        assert(escaped_name(b) =~= Seq::<char>::empty());
        assert(escaped_name(a) + escaped_name(b) =~= escaped_name(a));
    } else {
        law_escape_concat(a, b.drop_last());
        assert((a + b).drop_last() =~= a + b.drop_last());
        assert((a + b).last() == b.last());
        assert(escaped_name(a) + escaped_name(b) =~= escaped_name(a) + escaped_name(b.drop_last())
            + escape_char(b.last()));
    }
}

/// An escaped file name holds none of the characters that are escaped.
pub proof fn law_escape_removes_reserved(s: Seq<char>)
    ensures
        forall|i: int| 0 <= i < escaped_name(s).len() ==> !is_escaped_char(#[trigger] escaped_name(s)[i]),
    decreases s.len(),
{
    if s.len() > 0 {
        law_escape_removes_reserved(s.drop_last());
        let e = escaped_name(s);
        let p = escaped_name(s.drop_last());
        assert forall|i: int| 0 <= i < e.len() implies !is_escaped_char(#[trigger] e[i]) by {
            if i < p.len() {
                assert(e[i] == p[i]);
            } else {
                assert(e[i] == escape_char(s.last())[i - p.len()]);
            }
        }
    }
}

/// The session is used for `SESSION_LIFETIME_SECS` seconds after a login and
/// renewed after that: a session that logged in at `login_time` needs no new
/// login at `now` within that span, and needs one past it.
pub proof fn law_session_lifetime(s: Locked, login_time: u64, now: u64)
    requires
        s.in_session,
        s.token_time == login_time,
    ensures
        login_time <= now <= login_time + 43200 ==> !s.spec_needs_login(now),
        now > login_time + 43200 ==> s.spec_needs_login(now),
        now < login_time ==> !s.spec_needs_login(now),
{
}

/// A client that has not logged in logs in before its next request, whatever the
/// time reads.
pub proof fn law_no_session_needs_login(s: Locked, now: u64)
    requires
        !s.in_session,
    ensures
        s.spec_needs_login(now),
{
}

/// A v3 login answer gives a session exactly when its `accountId` and
/// `authorizationToken` are strings, its `apiInfo` is an object whose
/// `storageApi` is an object, and that holds string `apiUrl` and `downloadUrl`;
/// nothing else in the answer matters.
pub proof fn law_login_v3_fields(m: JsonModel)
    ensures
        storage_api(m) == field(field(m, "apiInfo"@), "storageApi"@),
        login_v3_complete(m) <==> {
            &&& field(m, "accountId"@) is Text
            &&& field(m, "authorizationToken"@) is Text
            &&& field(m, "apiInfo"@) is Object
            &&& field(field(m, "apiInfo"@), "storageApi"@) is Object
            &&& field(field(field(m, "apiInfo"@), "storageApi"@), "apiUrl"@) is Text
            &&& field(field(field(m, "apiInfo"@), "storageApi"@), "downloadUrl"@) is Text
        },
{
}

/// A further entry in `storageApi` of a complete v3 login answer (such as
/// `recommendedPartSize` or `s3ApiUrl`) keeps it complete, with the same account,
/// token and URLs.
pub proof fn law_login_v3_extra_storage_entry(
    top: Seq<(Seq<char>, JsonModel)>,
    info: Seq<(Seq<char>, JsonModel)>,
    storage: Seq<(Seq<char>, JsonModel)>,
    key: Seq<char>,
    v: JsonModel,
)
    requires
        login_v3_complete(JsonModel::Object(top)),
        field(JsonModel::Object(top), "apiInfo"@) == JsonModel::Object(info),
        field(JsonModel::Object(info), "storageApi"@) == JsonModel::Object(storage),
        key != "apiUrl"@,
        key != "downloadUrl"@,
    ensures
        ({
            let m = JsonModel::Object(top);
            let grown = JsonModel::Object(
                insert_entry(
                    top,
                    "apiInfo"@,
                    JsonModel::Object(
                        insert_entry(
                            info,
                            "storageApi"@,
                            JsonModel::Object(insert_entry(storage, key, v)),
                        ),
                    ),
                ),
            );
            &&& login_v3_complete(grown)
            &&& field(grown, "accountId"@) == field(m, "accountId"@)
            &&& field(grown, "authorizationToken"@) == field(m, "authorizationToken"@)
            &&& field(storage_api(grown), "apiUrl"@) == field(storage_api(m), "apiUrl"@)
            &&& field(storage_api(grown), "downloadUrl"@) == field(storage_api(m), "downloadUrl"@)
        }),
{
    reveal_strlit("apiInfo");
    reveal_strlit("accountId");
    reveal_strlit("authorizationToken");
    assert("apiInfo"@[1] != "accountId"@[1]);
    assert("apiInfo"@[1] != "authorizationToken"@[1]);
    let storage2 = insert_entry(storage, key, v);
    let info2 = insert_entry(info, "storageApi"@, JsonModel::Object(storage2));
    lemma_lookup_insert_same(top, "apiInfo"@, JsonModel::Object(info2));
    lemma_lookup_insert_other(top, "apiInfo"@, JsonModel::Object(info2), "accountId"@);
    lemma_lookup_insert_other(top, "apiInfo"@, JsonModel::Object(info2), "authorizationToken"@);
    lemma_lookup_insert_same(info, "storageApi"@, JsonModel::Object(storage2));
    lemma_lookup_insert_other(storage, key, v, "apiUrl"@);
    lemma_lookup_insert_other(storage, key, v, "downloadUrl"@);
}

/// An answer to an upload URL request carries a token exactly when its
/// `uploadUrl` and `authorizationToken` are strings; nothing else in it matters.
pub proof fn law_upload_token_fields(m: JsonModel)
    ensures
        has_upload_token(m) <==> (field(m, "uploadUrl"@) is Text && field(
            m,
            "authorizationToken"@,
        ) is Text),
{
}

/// A further entry in an answer to an upload URL request (such as `bucketId` or
/// `fileId`) leaves the token it carries as it was.
pub proof fn law_upload_token_extra_entry(
    entries: Seq<(Seq<char>, JsonModel)>,
    key: Seq<char>,
    v: JsonModel,
)
    requires
        key != "uploadUrl"@,
        key != "authorizationToken"@,
    ensures
        ({
            let m = JsonModel::Object(entries);
            let grown = JsonModel::Object(insert_entry(entries, key, v));
            &&& has_upload_token(grown) == has_upload_token(m)
            &&& field(grown, "uploadUrl"@) == field(m, "uploadUrl"@)
            &&& field(grown, "authorizationToken"@) == field(m, "authorizationToken"@)
        }),
{
    lemma_lookup_insert_other(entries, key, v, "uploadUrl"@);
    lemma_lookup_insert_other(entries, key, v, "authorizationToken"@);
}

/// The files of a name listing are its `files` field; nothing else in the answer
/// matters.
pub proof fn law_listed_files(m: JsonModel)
    ensures
        listed_files(m) == field(m, "files"@),
{
}

/// A further entry in a name listing (such as `nextFileName`) leaves its files
/// as they were.
pub proof fn law_listing_extra_entry(
    entries: Seq<(Seq<char>, JsonModel)>,
    key: Seq<char>,
    v: JsonModel,
)
    requires
        key != "files"@,
    ensures
        listed_files(JsonModel::Object(insert_entry(entries, key, v))) == listed_files(
            JsonModel::Object(entries),
        ),
{
    lemma_lookup_insert_other(entries, key, v, "files"@);
}

/// An upload token written as a document by `UploadToken::json` reads back as the
/// same token: the document has both string fields, holding the token's texts.
pub proof fn law_upload_token_roundtrip(url: Seq<char>, token: Seq<char>)
    ensures
        has_upload_token(upload_token_model(url, token)),
        field(upload_token_model(url, token), "uploadUrl"@) == JsonModel::Text(url),
        field(upload_token_model(url, token), "authorizationToken"@) == JsonModel::Text(token),
{
    reveal_strlit("uploadUrl");
    reveal_strlit("authorizationToken");
    assert("uploadUrl"@[0] != "authorizationToken"@[0]);
    let entries = seq![
        ("uploadUrl"@, JsonModel::Text(url)),
        ("authorizationToken"@, JsonModel::Text(token)),
    ];
    assert(entries.drop_first() =~= seq![("authorizationToken"@, JsonModel::Text(token))]);
    assert(crate::document::lookup(entries, "authorizationToken"@) == crate::document::lookup(
        entries.drop_first(),
        "authorizationToken"@,
    ));
    assert(crate::document::lookup(entries.drop_first(), "authorizationToken"@)
        == JsonModel::Text(token));
}

/// The retry delay after `failures + 1` failed logins is one second for each
/// failure, starting at one second and never above ten seconds.
pub proof fn law_retry_delay(failures: nat)
    ensures
        delay_after(failures) == if failures < 9 {
            1000 * (failures + 1)
        } else {
            10000
        },
    decreases failures,
{
    if failures > 0 {
        law_retry_delay((failures - 1) as nat);
    }
}

/// The retry delays never shrink.
pub proof fn law_retry_delay_monotonic(a: nat, b: nat)
    requires
        a <= b,
    ensures
        delay_after(a) <= delay_after(b),
{
    law_retry_delay(a);
    law_retry_delay(b);
}

} // verus!

verus! {

/// The character that an escape `%xy` stands for (`%` where it stands for none).
pub open spec fn unescape_pair(x: char, y: char) -> char {
    if x == '2' && y == '2' {
        '"'
    } else if x == '2' && y == '7' {
        '\''
    } else if x == '2' && y == 'E' {
        '.'
    } else if x == '2' && y == '3' {
        '#'
    } else if x == '2' && y == 'B' {
        '+'
    } else if x == '2' && y == 'C' {
        ','
    } else if x == '5' && y == 'C' {
        '\\'
    } else if x == '2' && y == '0' {
        ' '
    } else {
        '%'
    }
}

/// Reads an escaped file name back, from the left: `%xy` is one escaped character,
/// anything else stands for itself.
pub open spec fn unescaped_name(e: Seq<char>) -> Seq<char>
    decreases e.len(),
{
    if e.len() == 0 {
        seq![]
    } else if e[0] == '%' && e.len() >= 3 {
        seq![unescape_pair(e[1], e[2])] + unescaped_name(e.subrange(3, e.len() as int))
    } else {
        seq![e[0]] + unescaped_name(e.drop_first())
    }
}

proof fn lemma_unescape_unit(c: char, rest: Seq<char>)
    requires
        c != '%',
    ensures
        unescaped_name(escape_char(c) + rest) == seq![c] + unescaped_name(rest),
{
    let u = escape_char(c) + rest;
    if is_escaped_char(c) {
        assert(u[0] == '%');
        assert(u.subrange(3, u.len() as int) =~= rest);
    } else {
        assert(escape_char(c) == seq![c]);
        assert(u.drop_first() =~= rest);
    }
}

/// A file name without `%` is read back from its escape.
pub proof fn law_escape_roundtrip(s: Seq<char>)
    requires
        !s.contains('%'),
    ensures
        unescaped_name(escaped_name(s)) == s,
    decreases s.len(),
{
    if s.len() > 0 {
        let c = s[0];
        let rest = s.drop_first();
        assert(seq![c] + rest =~= s);
        assert(!rest.contains('%')) by {
            if rest.contains('%') {
                let i = choose|i: int| 0 <= i < rest.len() && rest[i] == '%';
                assert(s[i + 1] == '%');
            }
        }
        assert(s[0] != '%') by {
            assert(s.contains(s[0]));
        }
        law_escape_concat(seq![c], rest);
        assert(seq![c].drop_last() =~= Seq::<char>::empty());
        assert(escaped_name(Seq::<char>::empty()) =~= Seq::<char>::empty());
        assert(seq![c].last() == c);
        assert(escaped_name(seq![c]) =~= escape_char(c));
        lemma_unescape_unit(c, escaped_name(rest));
        law_escape_roundtrip(rest);
    }
}

/// Distinct file names without `%` stay distinct once escaped.
pub proof fn law_escape_injective(a: Seq<char>, b: Seq<char>)
    requires
        !a.contains('%'),
        !b.contains('%'),
        escaped_name(a) == escaped_name(b),
    ensures
        a == b,
{
    law_escape_roundtrip(a);
    law_escape_roundtrip(b);
}

/// Hex text has two digits per byte (so a SHA-1 header is forty digits).
pub proof fn law_hex_length(d: Seq<u8>)
    ensures
        hex_lower(d).len() == 2 * d.len(),
    decreases d.len(),
{
    if d.len() > 0 {
        law_hex_length(d.drop_last());
    }
}

} // verus!
