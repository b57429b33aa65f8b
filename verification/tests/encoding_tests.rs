use b2_backblaze::encoding::{base64_encode, decimal_text, escape_upload_path, hex_encode, sha1};
use b2_backblaze::text::{contains, same_text};

#[test]
fn escape_upload_path_escapes_reserved_characters() {
    assert_eq!(escape_upload_path("a b.c"), "a%20b%2Ec");
    assert_eq!(
        escape_upload_path("\"'.#+,\\ "),
        "%22%27%2E%23%2B%2C%5C%20"
    );
    assert_eq!(escape_upload_path("emails/some_email/drink.png"), "emails/some_email/drink%2Epng");
}

#[test]
fn escape_upload_path_keeps_other_characters() {
    assert_eq!(escape_upload_path(""), "");
    assert_eq!(escape_upload_path("dir/file-1_ü"), "dir/file-1_ü");
}

#[test]
fn escape_upload_path_is_applied_piecewise() {
    let whole = escape_upload_path("my file.txt");
    let parts = escape_upload_path("my file") + &escape_upload_path(".txt");
    assert_eq!(whole, parts);
}

#[test]
fn escaped_names_stay_distinct() {
    assert_ne!(escape_upload_path("a.b"), escape_upload_path("a2Eb"));
    assert_ne!(escape_upload_path("a b"), escape_upload_path("a20b"));
}

#[test]
fn base64_of_key_pair() {
    assert_eq!(base64_encode(b"ID:KEY"), "SUQ6S0VZ");
    assert_eq!(base64_encode(b""), "");
    assert_eq!(base64_encode(b"f"), "Zg==");
    assert_eq!(base64_encode(b"fo"), "Zm8=");
    assert_eq!(base64_encode(b"foo"), "Zm9v");
    assert_eq!(base64_encode(b"foob"), "Zm9vYg==");
    assert_eq!(base64_encode(&[0xfb, 0xff, 0xfe]), "+//+");
}

#[test]
fn hex_and_sha1() {
    assert_eq!(hex_encode(&[0x00, 0x0f, 0xa0, 0xff]), "000fa0ff");
    let digest = sha1(b"abc");
    assert_eq!(digest.len(), 20);
    assert_eq!(hex_encode(&digest), "a9993e364706816aba3e25717850c26c9cd0d89d");
    assert_eq!(hex_encode(&sha1(b"")).len(), 40);
}

#[test]
fn decimal_text_of_numbers() {
    assert_eq!(decimal_text(0), "0");
    assert_eq!(decimal_text(7), "7");
    assert_eq!(decimal_text(10), "10");
    assert_eq!(decimal_text(12345), "12345");
    assert_eq!(decimal_text(u64::MAX), u64::MAX.to_string());
}

#[test]
fn contains_finds_substrings() {
    assert!(contains("no such file: abc", "no such file"));
    assert!(contains("xxNo active upload for: 4", "No active upload for:"));
    assert!(!contains("no such fil", "no such file"));
    assert!(contains("abc", ""));
    assert!(!contains("", "a"));
    assert!(same_text("upload", "upload"));
    assert!(!same_text("upload", "Upload"));
}

#[test]
fn escapable_upload_paths() {
    assert!(b2_backblaze::encoding::is_escapable_upload_path("a b.c"));
    assert!(!b2_backblaze::encoding::is_escapable_upload_path("100%.txt"));
}

#[test]
fn mime_guess_of_bare_names() {
    use_guess("drink.png", Some("image/png"));
    use_guess("DRINK.PNG", Some("image/png"));
    use_guess("notes", None);
    use_guess(".png", None);
    use_guess("a.", None);
}

#[test]
fn mime_guess_of_paths_with_directories() {
    use_guess("dir/sub/drink.png", Some("image/png"));
    use_guess("photos.d/notes", None);
    use_guess("dir/.png", None);
    use_guess("/srv/www/index.html", Some("text/html"));
}

fn use_guess(name: &str, expected: Option<&str>) {
    let guess = b2_backblaze::encoding::first_mime_guess(name);
    assert_eq!(guess.as_deref(), expected);
}
