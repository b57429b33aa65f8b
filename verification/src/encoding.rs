//! Encodings used on the wire: hex and base64 through their crates, decimal
//! numbers, and the escaping of upload file names.
use base64::Engine;
use sha1::Digest;
use vstd::prelude::*;

verus! {

/// The lowercase hexadecimal digit for `v` (0 to 15).
pub open spec fn hex_digit(v: int) -> char {
    if v < 10 {
        (48 + v) as char
    } else {
        (87 + v) as char
    }
}

/// Lowercase hexadecimal text of the bytes, two digits per byte, high nibble first.
pub open spec fn hex_lower(data: Seq<u8>) -> Seq<char>
    decreases data.len(),
{
    if data.len() == 0 {
        seq![]
    } else {
        hex_lower(data.drop_last()) + seq![
            hex_digit(data.last() as int / 16),
            hex_digit(data.last() as int % 16),
        ]
    }
}

/// `hex::encode`: lowercase hexadecimal text of the bytes.
/// Claims the text `hex_lower` states, as the crate's documentation and source show.
#[verifier::external_body]
pub fn hex_encode(data: &[u8]) -> (res: String)
    ensures
        res@ == hex_lower(data@),
{
    hex::encode(data)
}

/// The character of the standard base64 alphabet for `v` (0 to 63).
pub open spec fn base64_digit(v: int) -> char {
    if v < 26 {
        (65 + v) as char
    } else if v < 52 {
        (71 + v) as char
    } else if v < 62 {
        (v - 4) as char
    } else if v == 62 {
        '+'
    } else {
        '/'
    }
}

/// Standard base64 (RFC 4648 alphabet, `=` padding) of the bytes.
pub open spec fn base64_standard(d: Seq<u8>) -> Seq<char>
    decreases d.len(),
{
    if d.len() == 0 {
        seq![]
    } else if d.len() == 1 {
        let a = d[0] as int;
        seq![base64_digit(a / 4), base64_digit((a % 4) * 16), '=', '=']
    } else if d.len() == 2 {
        let a = d[0] as int;
        let b = d[1] as int;
        seq![base64_digit(a / 4), base64_digit((a % 4) * 16 + b / 16), base64_digit((b % 16) * 4), '=']
    } else {
        let a = d[0] as int;
        let b = d[1] as int;
        let c = d[2] as int;
        seq![
            base64_digit(a / 4),
            base64_digit((a % 4) * 16 + b / 16),
            base64_digit((b % 16) * 4 + c / 64),
            base64_digit(c % 64),
        ] + base64_standard(d.subrange(3, d.len() as int))
    }
}

/// `base64::engine::general_purpose::STANDARD.encode`.
/// Claims the standard padded base64 text that `base64_standard` states.
#[verifier::external_body]
pub fn base64_encode(data: &[u8]) -> (res: String)
    ensures
        res@ == base64_standard(data@),
{
    base64::engine::general_purpose::STANDARD.encode(data)
}

/// The SHA-1 digest of the bytes.
pub uninterp spec fn sha1_digest(data: Seq<u8>) -> Seq<u8>;

/// `Sha1::new`, `update`, `finalize` of the `sha1` crate.
/// Claims the digest named `sha1_digest`, which is 20 bytes long.
#[verifier::external_body]
pub fn sha1(data: &[u8]) -> (res: Vec<u8>)
    ensures
        res@ == sha1_digest(data@),
        res@.len() == 20,
{
    let mut hasher = sha1::Sha1::new();
    hasher.update(data);
    hasher.finalize().to_vec()
}

/// The media type that `new_mime_guess` lists first for a file name extension
/// (the lookup is a fixed table, case-insensitive).
pub uninterp spec fn mime_for_extension(ext: Seq<char>) -> Option<Seq<char>>;

/// A path that is a bare file name on every platform: no separator (`/`, `\`),
/// no drive or prefix mark (`:`), and neither `.` nor `..`.
pub open spec fn bare_file_name(path: Seq<char>) -> bool {
    &&& !path.contains('/')
    &&& !path.contains('\\')
    &&& !path.contains(':')
    &&& path != seq!['.']
    &&& path != seq!['.', '.']
}

/// The index of the last `.` of `s`, or -1 where there is none.
pub open spec fn last_dot(s: Seq<char>) -> int
    decreases s.len(),
{
    if s.len() == 0 {
        -1
    } else if s.last() == '.' {
        s.len() - 1
    } else {
        last_dot(s.drop_last())
    }
}

/// The extension of a file name as `Path::extension` defines it: the text after
/// the last `.`, and none where there is no `.` or the only `.` starts the name.
pub open spec fn file_extension(name: Seq<char>) -> Option<Seq<char>> {
    if last_dot(name) <= 0 {
        None
    } else {
        Some(name.subrange(last_dot(name) + 1, name.len() as int))
    }
}

/// The index of the last `/` of `s`, or -1 where there is none.
pub open spec fn last_slash(s: Seq<char>) -> int
    decreases s.len(),
{
    if s.len() == 0 {
        -1
    } else if s.last() == '/' {
        s.len() - 1
    } else {
        last_slash(s.drop_last())
    }
}

/// The text after the last `/` of a path (the whole path where there is none).
pub open spec fn final_component(path: Seq<char>) -> Seq<char> {
    path.subrange(last_slash(path) + 1, path.len() as int)
}

/// A path whose file name is the same on every platform: it holds no `\` and does
/// not begin with `//` (both of which some platforms read as separators or prefixes),
/// and the text after its last `/` is a non-empty bare file name, which is then its
/// file name.
pub open spec fn portable_file_name(path: Seq<char>) -> bool {
    &&& !path.contains('\\')
    &&& !(path.len() >= 2 && path[0] == '/' && path[1] == '/')
    &&& final_component(path).len() > 0
    &&& bare_file_name(final_component(path))
}

/// The first guess for a bare file name: the guess for its extension, none
/// without an extension.
pub open spec fn guess_for_name(name: Seq<char>) -> Option<Seq<char>> {
    match file_extension(name) {
        Some(ext) => mime_for_extension(ext),
        None => None,
    }
}

/// The text view of an optional string.
pub open spec fn opt_text(s: Option<String>) -> Option<Seq<char>> {
    match s {
        Some(t) => Some(t@),
        None => None,
    }
}

/// `new_mime_guess::from_path(path).first()`, as its essence text.
/// The guess is made from the extension (`Path::extension`) of the path's file name,
/// and how a path splits into a file name depends on the platform. So the claims are
/// those that hold everywhere: a path without any `.` has no extension and so no
/// guess; a path whose file name is the same on every platform (`portable_file_name`:
/// the text after its last `/`) is guessed by that name's extension, as the table's
/// first type for it, named `mime_for_extension`.
#[verifier::external_body]
pub fn first_mime_guess(path: &str) -> (res: Option<String>)
    ensures
        !path@.contains('.') ==> res is None,
        portable_file_name(path@) ==> opt_text(res) == match file_extension(
            final_component(path@),
        ) {
            Some(ext) => mime_for_extension(ext),
            None => None,
        },
{
    new_mime_guess::from_path(path).first().map(|m| m.essence_str().to_string())
}

} // verus!

verus! {

/// The decimal digit character for `d` (0 to 9).
pub open spec fn digit_char(d: int) -> char {
    (48 + d) as char
}

/// Decimal text of a natural number, without leading zeros.
pub open spec fn decimal(n: nat) -> Seq<char>
    decreases n,
{
    if n < 10 {
        seq![digit_char(n as int)]
    } else {
        decimal(n / 10) + seq![digit_char((n % 10) as int)]
    }
}

fn digit_text(d: u64) -> (res: &'static str)
    requires
        d < 10,
    ensures
        res@ == seq![digit_char(d as int)],
{
    if d == 0 {
        proof { reveal_strlit("0"); }
        "0"
    } else if d == 1 {
        proof { reveal_strlit("1"); }
        "1"
    } else if d == 2 {
        proof { reveal_strlit("2"); }
        "2"
    } else if d == 3 {
        proof { reveal_strlit("3"); }
        "3"
    } else if d == 4 {
        proof { reveal_strlit("4"); }
        "4"
    } else if d == 5 {
        proof { reveal_strlit("5"); }
        "5"
    } else if d == 6 {
        proof { reveal_strlit("6"); }
        "6"
    } else if d == 7 {
        proof { reveal_strlit("7"); }
        "7"
    } else if d == 8 {
        proof { reveal_strlit("8"); }
        "8"
    } else {
        proof { reveal_strlit("9"); }
        "9"
    }
}

/// Decimal text of `n`, as `to_string` writes it and as an HTTP header value
/// made from the number reads.
pub fn decimal_text(n: u64) -> (res: String)
    ensures
        res@ == decimal(n as nat),
    decreases n,
{
    if n < 10 {
        String::from_str(digit_text(n))
    } else {
        let mut s = decimal_text(n / 10);
        s.append(digit_text(n % 10));
        s
    }
}

} // verus!

verus! {

/// What one character of an upload file name becomes: the characters
/// `" ' . # + , \` and space are percent-escaped, every other character stays.
pub open spec fn escape_char(c: char) -> Seq<char> {
    if c == '"' {
        seq!['%', '2', '2']
    } else if c == '\'' {
        seq!['%', '2', '7']
    } else if c == '.' {
        seq!['%', '2', 'E']
    } else if c == '#' {
        seq!['%', '2', '3']
    } else if c == '+' {
        seq!['%', '2', 'B']
    } else if c == ',' {
        seq!['%', '2', 'C']
    } else if c == '\\' {
        seq!['%', '5', 'C']
    } else if c == ' ' {
        seq!['%', '2', '0']
    } else {
        seq![c]
    }
}

/// An upload file name with each character escaped as `escape_char` says.
pub open spec fn escaped_name(s: Seq<char>) -> Seq<char>
    decreases s.len(),
{
    if s.len() == 0 {
        seq![]
    } else {
        escaped_name(s.drop_last()) + escape_char(s.last())
    }
}

/// The characters that never survive escaping.
pub open spec fn is_escaped_char(c: char) -> bool {
    c == '"' || c == '\'' || c == '.' || c == '#' || c == '+' || c == ',' || c == '\\' || c == ' '
}

/// Escapes an upload file name before it is sent in the `X-Bz-File-Name` header:
/// `"` becomes `%22`, `'` `%27`, `.` `%2E`, `#` `%23`, `+` `%2B`, `,` `%2C`,
/// `\` `%5C` and a space `%20`.
///
/// The escaping of `%` itself to `%25` never finishes on a name that holds a `%`
/// (each pass writes a new `%`), so such names are not accepted.
pub fn escape_upload_path(name: &str) -> (res: String)
    requires
        !name@.contains('%'),
    ensures
        res@ == escaped_name(name@),
{
    let cs = crate::text::chars_of(name);
    let n = cs.len();
    let mut res = String::new();
    assert(name@.take(0) =~= Seq::<char>::empty());
    for i in 0..n
        invariant
            cs@ == name@,
            n == cs@.len(),
            res@ == escaped_name(name@.take(i as int)),
    {
        let c = cs[i];
        if c == '"' {
            proof { reveal_strlit("%22"); }
            res.append("%22");
        } else if c == '\'' {
            proof { reveal_strlit("%27"); }
            res.append("%27");
        } else if c == '.' {
            proof { reveal_strlit("%2E"); }
            res.append("%2E");
        } else if c == '#' {
            proof { reveal_strlit("%23"); }
            res.append("%23");
        } else if c == '+' {
            proof { reveal_strlit("%2B"); }
            res.append("%2B");
        } else if c == ',' {
            proof { reveal_strlit("%2C"); }
            res.append("%2C");
        } else if c == '\\' {
            proof { reveal_strlit("%5C"); }
            res.append("%5C");
        } else if c == ' ' {
            proof { reveal_strlit("%20"); }
            res.append("%20");
        } else {
            let one = name.substring_char(i, i + 1);
            assert(one@ =~= seq![c]);
            res.append(one);
        }
        assert(name@.take(i + 1).drop_last() =~= name@.take(i as int));
    }
    assert(name@.take(n as int) =~= name@);
    res
}

} // verus!

verus! {

/// Whether `escape_upload_path` accepts a name: it holds no `%`.
pub fn is_escapable_upload_path(name: &str) -> (res: bool)
    ensures
        res == !name@.contains('%'),
{
    let cs = crate::text::chars_of(name);
    let n = cs.len();
    for i in 0..n
        invariant
            cs@ == name@,
            n == cs@.len(),
            forall|k: int| 0 <= k < i ==> name@[k] != '%',
    {
        if cs[i] == '%' {
            assert(name@[i as int] == '%');
            return false;
        }
    }
    true
}

} // verus!
