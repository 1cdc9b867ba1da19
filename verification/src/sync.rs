//! The blocking facade: a scheduler over the flows in [`crate::flow`]
//! that performs every filesystem step on the caller's thread and
//! returns when the operation settles.

use vstd::prelude::*;

use crate::backend;
use crate::flow::{
    get_rank, get_step, remove_rank, remove_step, save_carried_text, save_rank, save_start,
    save_step, save_truncate_len, GetStage, IoOutcome, RemoveStage, SaveStage,
};
use crate::{decode_slot_text, encode_slot_value, Error};

verus! {

/// A blocking single-slot store: one value, kept at one filesystem
/// location, under the payload type `T`.
///
/// The handle is stateless with respect to data — it caches nothing;
/// every get re-reads the file and every save fully rewrites it. The
/// file, not this handle, is the durable entity. The abstract effect
/// of each successful operation on the disk is stated by
/// [`crate::disk::save_model`], [`crate::disk::get_model`] and
/// [`crate::disk::remove_model`], and the laws those effects obey are
/// proved beside them.
#[derive(Debug)]
pub struct Szafka<T> {
    /// The filesystem location of the slot's backing file.
    pub path: String,
    phantom: core::marker::PhantomData<T>,
}

impl<T> Clone for Szafka<T> {
    /// A cloned handle is bound to the same location.
    fn clone(&self) -> (r: Self)
        ensures
            r@ == self@,
    {
        Szafka { path: self.path.clone(), phantom: core::marker::PhantomData }
    }
}

impl<T> View for Szafka<T> {
    type V = Seq<char>;

    /// A slot handle is, abstractly, the location it is bound to.
    closed spec fn view(&self) -> Seq<char> {
        self.path@
    }
}

/// The failures a save can report: one per step of its sequence —
/// encode, bootstrap the parent directory, open, truncate, write.
pub open spec fn save_failure(e: Error) -> bool {
    ||| e is SerializeError
    ||| e is CreateParentError
    ||| e is OpenFileError
    ||| e is ChangeLengthError
    ||| e is WriteFileError
}

/// The failures a get can report: the file could not be opened (which
/// includes "never saved"), or its content could not be decoded — the
/// two outcomes stay distinct.
pub open spec fn get_failure(e: Error) -> bool {
    ||| e is OpenFileError
    ||| e is DeserializeError
}

impl<T: serde::Serialize + serde::de::DeserializeOwned> Szafka<T> {
    /// Binds a slot handle to `path`. No I/O happens here; the path is
    /// not validated until an operation runs.
    pub fn new(path: String) -> (slot: Self)
        ensures
            slot@ == path@,
    {
        Szafka { path, phantom: core::marker::PhantomData }
    }

    /// Overwrites the slot with `data`: encodes the payload, then
    /// drives the save flow step by step — probe the parent directory,
    /// create it when missing, open the file writable without
    /// truncating, truncate it to zero length, write the full
    /// encoding. The flow carries the encoding to the write step, so
    /// the bytes this body hands the filesystem are exactly the
    /// payload's encoding and the truncation is exactly to zero — the
    /// loop invariants below pin both. Each step is a possible failure
    /// point reported as its own [`Error`] variant.
    pub fn save(&self, data: &T) -> (r: Result<(), Error>)
        ensures
            r matches Err(e) ==> save_failure(e),
    {
        let text = match encode_slot_value(data) {
            Ok(text) => text,
            Err(e) => {
                return Err(e);
            },
        };
        let ghost encoding: Seq<char> = text@;
        let mut stage = save_start(self.path.as_str(), text);
        let mut handle: Option<fs_err::File> = None;
        loop
            invariant
                stage matches SaveStage::Settled(res) ==> (res matches Err(e) ==> save_failure(
                    e,
                )),
                save_carried_text(stage) matches Some(t) ==> t == encoding,
                save_truncate_len(stage) matches Some(len) ==> len == 0,
                stage is TruncateTarget || stage is WriteTarget ==> handle is Some,
            decreases save_rank(stage),
        {
            match stage {
                SaveStage::ProbeParent { parent, text } => {
                    let present = backend::location_exists(parent.as_str());
                    stage = save_step(
                        SaveStage::ProbeParent { parent, text },
                        IoOutcome::Present(present),
                    );
                },
                SaveStage::MakeParent { parent, text } => {
                    let outcome = match backend::dir_create_all(parent.as_str()) {
                        Ok(()) => IoOutcome::Done,
                        Err(detail) => IoOutcome::Failed(detail),
                    };
                    stage = save_step(SaveStage::MakeParent { parent, text }, outcome);
                },
                SaveStage::OpenTarget { text } => {
                    let outcome = match backend::file_open_write(self.path.as_str()) {
                        Ok(file) => {
                            handle = Some(file);
                            IoOutcome::Done
                        },
                        Err(detail) => IoOutcome::Failed(detail),
                    };
                    stage = save_step(SaveStage::OpenTarget { text }, outcome);
                },
                SaveStage::TruncateTarget { text, len } => {
                    let outcome = match backend::file_set_len(handle.as_ref().unwrap(), len) {
                        Ok(()) => IoOutcome::Done,
                        Err(detail) => IoOutcome::Failed(detail),
                    };
                    stage = save_step(SaveStage::TruncateTarget { text, len }, outcome);
                },
                SaveStage::WriteTarget { text } => {
                    let mut file = handle.take().unwrap();
                    let outcome = match backend::file_write_all(&mut file, text.as_str()) {
                        Ok(()) => IoOutcome::Done,
                        Err(detail) => IoOutcome::Failed(detail),
                    };
                    stage = save_step(SaveStage::WriteTarget { text }, outcome);
                },
                SaveStage::Settled(res) => {
                    return res;
                },
            }
        }
    }

    /// Re-reads the slot: drives the get flow — open the file
    /// read-only, never creating it, then read it whole — and decodes
    /// the text into `T`. Nothing is cached. An absent file reports
    /// [`Error::OpenFileError`]; content that is malformed or of the
    /// wrong shape reports [`Error::DeserializeError`].
    pub fn get(&self) -> (r: Result<T, Error>)
        ensures
            r matches Err(e) ==> get_failure(e),
    {
        let mut stage = GetStage::OpenTarget;
        let mut handle: Option<fs_err::File> = None;
        loop
            invariant
                stage matches GetStage::Settled(res) ==> (res matches Err(e) ==> get_failure(e)),
                stage is ReadTarget ==> handle is Some,
            decreases get_rank(stage),
        {
            match stage {
                GetStage::OpenTarget => {
                    let outcome = match backend::file_open_read(self.path.as_str()) {
                        Ok(file) => {
                            handle = Some(file);
                            IoOutcome::Done
                        },
                        Err(detail) => IoOutcome::Failed(detail),
                    };
                    stage = get_step(GetStage::OpenTarget, outcome);
                },
                GetStage::ReadTarget => {
                    let mut file = handle.take().unwrap();
                    let outcome = match backend::file_read_all(&mut file) {
                        Ok(text) => IoOutcome::Text(text),
                        Err(detail) => IoOutcome::Failed(detail),
                    };
                    stage = get_step(GetStage::ReadTarget, outcome);
                },
                GetStage::Settled(res) => {
                    return match res {
                        Ok(text) => decode_slot_text::<T>(text.as_str()),
                        Err(e) => Err(e),
                    };
                },
            }
        }
    }

    /// Whether the slot holds data: a pure existence check of the
    /// backing file. Never fails; an ambiguous permission condition
    /// reads as absent.
    pub fn has_data(&self) -> bool {
        backend::location_exists(self.path.as_str())
    }

    /// Deletes the slot's backing file, driving the remove flow: an
    /// absent file is success with no side effect, so a second
    /// consecutive call succeeds too; only a failing deletion of a
    /// present file reports [`Error::RemoveFileError`].
    pub fn remove(&self) -> (r: Result<(), Error>)
        ensures
            r matches Err(e) ==> e is RemoveFileError,
    {
        let mut stage = RemoveStage::ProbeTarget;
        loop
            invariant
                stage matches RemoveStage::Settled(res) ==> (res matches Err(e)
                    ==> e is RemoveFileError),
            decreases remove_rank(stage),
        {
            match stage {
                RemoveStage::ProbeTarget => {
                    let present = backend::location_exists(self.path.as_str());
                    stage = remove_step(RemoveStage::ProbeTarget, IoOutcome::Present(present));
                },
                RemoveStage::DeleteTarget => {
                    let outcome = match backend::file_delete(self.path.as_str()) {
                        Ok(()) => IoOutcome::Done,
                        Err(detail) => IoOutcome::Failed(detail),
                    };
                    stage = remove_step(RemoveStage::DeleteTarget, outcome);
                },
                RemoveStage::Settled(res) => {
                    return res;
                },
            }
        }
    }

    /// The other name of [`Szafka::remove`]: both denote the identical
    /// operation — delete the backing file, treating "already absent"
    /// as success.
    pub fn flush(&self) -> (r: Result<(), Error>)
        ensures
            r matches Err(e) ==> e is RemoveFileError,
    {
        self.remove()
    }
}

} // verus!
