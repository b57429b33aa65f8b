//! Verified core of a client for the Backblaze B2 storage service.

pub mod config;
pub mod document;
pub mod text;
pub mod encoding;
pub mod request;
pub mod io;
pub mod session;
pub mod b2;
pub mod laws;

