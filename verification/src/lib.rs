//! A single-slot persistence primitive: one value, one file, one path.
//!
//! A slot stores exactly one structured value at a fixed filesystem
//! location. It offers save, retrieve, existence check and removal in a
//! blocking flavour ([`Szafka`]) and a handle for a suspension-based
//! flavour ([`AsyncSzafka`]). The slot algorithm itself is written once,
//! as the transition system in [`flow`]; each facade is only a scheduler
//! that performs the steps the flow names, so both share one step order
//! and one error taxonomy.

use vstd::prelude::*;

mod backend;
pub mod disk;
pub mod flow;
mod nonblocking;
pub mod paths;
mod sync;

pub use nonblocking::AsyncSzafka;
pub use sync::{get_failure, save_failure, Szafka};

verus! {

/// Failure taxonomy for slot operations. Each variant carries a rendered
/// description of the underlying platform or codec failure.
#[derive(Debug, Clone)]
pub enum Error {
    /// The payload could not be encoded.
    SerializeError(String),
    /// The on-disk content could not be decoded: malformed text, a shape
    /// that does not match the requested type, or a failed read.
    DeserializeError(String),
    /// Creating the missing parent directories failed.
    CreateParentError(String),
    /// The backing file could not be opened (for a get, this includes
    /// "the file does not exist").
    OpenFileError(String),
    /// Writing the encoded payload failed.
    WriteFileError(String),
    /// Truncating the backing file before the rewrite failed.
    ChangeLengthError(String),
    /// Deleting the backing file failed for a reason other than
    /// "already absent".
    RemoveFileError(String),
}

/// Encodes a payload into the stored text form: the first step of every
/// save, shared by both facades. Its only failure is the codec's.
pub fn encode_slot_value<T: serde::Serialize>(data: &T) -> (r: Result<String, Error>)
    ensures
        r matches Err(e) ==> e is SerializeError,
{
    match backend::encode_pretty(data) {
        Ok(text) => Ok(text),
        Err(detail) => Err(Error::SerializeError(detail)),
    }
}

/// Decodes stored text into the payload type: the last step of every
/// get, shared by both facades. Its only failure is the codec's,
/// reported as corrupt content — distinct from the "not found" class
/// that a failed open reports.
pub fn decode_slot_text<T: serde::de::DeserializeOwned>(text: &str) -> (r: Result<T, Error>)
    ensures
        r matches Err(e) ==> e is DeserializeError,
{
    match backend::decode_value::<T>(text) {
        Ok(value) => Ok(value),
        Err(detail) => Err(Error::DeserializeError(detail)),
    }
}

} // verus!
