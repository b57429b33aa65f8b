# b2_backblaze

A client for the Backblaze B2 storage service whose decisions are verified with Verus.

- `src/` is the verified library: the requests each B2 call sends (URL, headers,
  JSON body), what each answer means, the login session and when it must be renewed,
  the backoff of repeated logins, the escaping of upload file names, and the
  description of a file for upload (SHA-1, media type, length). JSON documents,
  base64, hex, SHA-1 and media type guesses come from the `json`, `base64`, `hex`,
  `sha1` and `new_mime_guess` crates through trusted wrappers in `src/document.rs`,
  `src/encoding.rs` and `src/io.rs`. `src/laws.rs` holds the properties that relate
  several operations.
- `app/` is the async client (`B2`) built on it with `reqwest` and `tokio`: it sends
  the requests, reads files and keeps the session behind a lock.
- `tests/` runs the library on concrete values.
