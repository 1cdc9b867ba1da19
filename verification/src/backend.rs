//! The trusted boundary of the crate: every call that reaches the
//! platform filesystem or the structured-text codec goes through exactly
//! one of the wrappers below, and nothing else in the crate performs any
//! such call. Their results depend on the state of the machine, so the
//! wrappers promise nothing about them; the verified operations state
//! what holds whichever way each call turns out.

use vstd::prelude::*;

verus! {

#[verifier::external_type_specification]
#[verifier::external_body]
pub struct ExFile(fs_err::File);

/// Relies on serde_json::to_string_pretty: the pretty-printed encoding of
/// `data`, or the codec's failure when `T` cannot be encoded.
#[verifier::external_body]
pub(crate) fn encode_pretty<T: serde::Serialize>(data: &T) -> (r: Result<String, String>) {
    match serde_json::to_string_pretty(data) {
        Ok(text) => Ok(text),
        Err(e) => Err(format!("{}", e)),
    }
}

/// Relies on serde_json::from_str: the value `text` encodes, or the
/// codec's failure when `text` is malformed or does not match `T`'s shape.
#[verifier::external_body]
pub(crate) fn decode_value<T: serde::de::DeserializeOwned>(text: &str) -> (r: Result<T, String>) {
    match serde_json::from_str::<T>(text) {
        Ok(value) => Ok(value),
        Err(e) => Err(format!("{}", e)),
    }
}

/// Relies on fs_err::create_dir_all (std::fs::create_dir_all with path
/// context): creates the directory at `path` and every missing ancestor.
#[verifier::external_body]
pub(crate) fn dir_create_all(path: &str) -> (r: Result<(), String>) {
    match fs_err::create_dir_all(path) {
        Ok(()) => Ok(()),
        Err(e) => Err(format!("{}", e)),
    }
}

/// Relies on fs_err::OpenOptions (std::fs::OpenOptions with path
/// context): opens `path` writable, creating it if absent, without
/// truncating on open.
#[verifier::external_body]
pub(crate) fn file_open_write(path: &str) -> (r: Result<fs_err::File, String>) {
    match fs_err::OpenOptions::new().write(true).create(true).open(path) {
        Ok(file) => Ok(file),
        Err(e) => Err(format!("{}", e)),
    }
}

/// Relies on fs_err::OpenOptions (std::fs::OpenOptions with path
/// context): opens `path` read-only, never creating it.
#[verifier::external_body]
pub(crate) fn file_open_read(path: &str) -> (r: Result<fs_err::File, String>) {
    match fs_err::OpenOptions::new().read(true).open(path) {
        Ok(file) => Ok(file),
        Err(e) => Err(format!("{}", e)),
    }
}

/// Relies on fs_err::File::set_len (std::fs::File::set_len with path
/// context): truncates or extends the open file to exactly `len` bytes.
#[verifier::external_body]
pub(crate) fn file_set_len(file: &fs_err::File, len: u64) -> (r: Result<(), String>) {
    match file.set_len(len) {
        Ok(()) => Ok(()),
        Err(e) => Err(format!("{}", e)),
    }
}

/// Relies on std::io::Write::write_all on fs_err::File, which delegates
/// to std::fs::File and so writes the entire buffer or reports the first
/// failure.
#[verifier::external_body]
pub(crate) fn file_write_all(file: &mut fs_err::File, text: &str) -> (r: Result<(), String>) {
    match std::io::Write::write_all(file, text.as_bytes()) {
        Ok(()) => Ok(()),
        Err(e) => Err(format!("{}", e)),
    }
}

/// Relies on std::io::Read::read_to_string on fs_err::File, which
/// delegates to std::fs::File and so reads the file to its end, failing
/// on a read error or on content that is not UTF-8.
#[verifier::external_body]
pub(crate) fn file_read_all(file: &mut fs_err::File) -> (r: Result<String, String>) {
    let mut text = String::new();
    match std::io::Read::read_to_string(file, &mut text) {
        Ok(_) => Ok(text),
        Err(e) => Err(format!("{}", e)),
    }
}

/// Relies on fs_err::remove_file (std::fs::remove_file with path
/// context): deletes the file at `path`.
#[verifier::external_body]
pub(crate) fn file_delete(path: &str) -> (r: Result<(), String>) {
    match fs_err::remove_file(path) {
        Ok(()) => Ok(()),
        Err(e) => Err(format!("{}", e)),
    }
}

/// Relies on std::path::Path::exists: whether `path` currently names an
/// entity on the filesystem; an inaccessible path reads as absent.
#[verifier::external_body]
pub(crate) fn location_exists(path: &str) -> (r: bool) {
    std::path::Path::new(path).exists()
}

} // verus!
