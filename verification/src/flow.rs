//! The slot algorithm, written once as a transition system over
//! abstract I/O steps. A scheduler drives it: look at the stage,
//! perform the step it names, feed the outcome back through the step
//! function, repeat until the flow settles. The blocking facade drives
//! it with direct filesystem calls; the suspension facade drives it
//! from the embedding layer, awaiting each step. Every decision — what
//! follows what, when a step is skipped, which failure maps to which
//! error — stands here with an exact contract, and the values a step
//! needs ride in the stage itself: a save carries the encoded text all
//! the way to its write step and the length its truncate step must set
//! (always zero), a get carries the text its read step produced. A
//! scheduler therefore cannot write other bytes, truncate to another
//! length, or decode other text than the flow hands it.

use vstd::prelude::*;

use crate::paths::{parent_of, parent_path};
use crate::Error;

verus! {

/// What a scheduler reports back for one performed step.
#[derive(Debug)]
pub enum IoOutcome {
    /// The step succeeded with nothing to return.
    Done,
    /// The step succeeded and produced text.
    Text(String),
    /// The existence probe found the location present or absent.
    Present(bool),
    /// The step failed, with the platform's description.
    Failed(String),
}

/// Where a save stands. Each unsettled stage names the one step the
/// scheduler must perform next, in the fixed order: probe the parent
/// directory, create it when missing, open the backing file writable
/// without truncating, truncate it to zero length, write the full
/// encoded text. The encoded text rides in every unsettled stage,
/// untouched, until the write step consumes it.
#[derive(Debug)]
pub enum SaveStage {
    /// Ask whether `parent` exists.
    ProbeParent { parent: String, text: String },
    /// Create `parent` and its missing ancestors.
    MakeParent { parent: String, text: String },
    /// Open the backing file writable, creating it if absent, without
    /// truncating it.
    OpenTarget { text: String },
    /// Truncate the opened file to exactly `len` bytes; the flow only
    /// ever sets `len` to zero.
    TruncateTarget { text: String, len: u64 },
    /// Write exactly `text`, whole, to the opened file.
    WriteTarget { text: String },
    /// The save is finished, successfully or not.
    Settled(Result<(), Error>),
}

/// Where a get stands: open the backing file read-only, then read it
/// whole. Decoding the text that a settled get produced is
/// [`crate::decode_slot_text`]'s step.
#[derive(Debug)]
pub enum GetStage {
    /// Open the backing file read-only, never creating it.
    OpenTarget,
    /// Read the opened file to its end.
    ReadTarget,
    /// The get is finished: the stored text, or the failure.
    Settled(Result<String, Error>),
}

/// Where a remove stands: probe the backing file, and delete it only
/// when it is present — an absent file settles as success at once.
#[derive(Debug)]
pub enum RemoveStage {
    /// Ask whether the backing file exists.
    ProbeTarget,
    /// Delete the backing file.
    DeleteTarget,
    /// The remove is finished, successfully or not.
    Settled(Result<(), Error>),
}

/// The encoded text an unsettled save stage is carrying to the write
/// step; a settled save carries none.
pub open spec fn save_carried_text(stage: SaveStage) -> Option<Seq<char>> {
    match stage {
        SaveStage::ProbeParent { text, .. } => Some(text@),
        SaveStage::MakeParent { text, .. } => Some(text@),
        SaveStage::OpenTarget { text } => Some(text@),
        SaveStage::TruncateTarget { text, .. } => Some(text@),
        SaveStage::WriteTarget { text } => Some(text@),
        SaveStage::Settled(_) => None,
    }
}

/// The parent directory a save stage is about to probe, if it is at
/// that step.
pub open spec fn save_probed_parent(stage: SaveStage) -> Option<Seq<char>> {
    match stage {
        SaveStage::ProbeParent { parent, .. } => Some(parent@),
        _ => None,
    }
}

/// The length a save stage is about to truncate to, if it is at that
/// step.
pub open spec fn save_truncate_len(stage: SaveStage) -> Option<u64> {
    match stage {
        SaveStage::TruncateTarget { len, .. } => Some(len),
        _ => None,
    }
}

/// How many steps a save may still take: the step functions strictly
/// decrease it, so every scheduler loop terminates.
pub open spec fn save_rank(stage: SaveStage) -> nat {
    match stage {
        SaveStage::ProbeParent { .. } => 5,
        SaveStage::MakeParent { .. } => 4,
        SaveStage::OpenTarget { .. } => 3,
        SaveStage::TruncateTarget { .. } => 2,
        SaveStage::WriteTarget { .. } => 1,
        SaveStage::Settled(_) => 0,
    }
}

/// How many steps a get may still take.
pub open spec fn get_rank(stage: GetStage) -> nat {
    match stage {
        GetStage::OpenTarget => 2,
        GetStage::ReadTarget => 1,
        GetStage::Settled(_) => 0,
    }
}

/// How many steps a remove may still take.
pub open spec fn remove_rank(stage: RemoveStage) -> nat {
    match stage {
        RemoveStage::ProbeTarget => 2,
        RemoveStage::DeleteTarget => 1,
        RemoveStage::Settled(_) => 0,
    }
}

/// The save transition: what each stage becomes under each outcome. A
/// failure settles with the failing step's own error variant; a
/// present parent skips directory creation; the carried text moves
/// into the next stage unchanged, and the truncate length is set to
/// zero; an outcome that does not fit the stage changes nothing.
pub open spec fn save_step_spec(stage: SaveStage, outcome: IoOutcome) -> SaveStage {
    match (stage, outcome) {
        (SaveStage::ProbeParent { parent, text }, IoOutcome::Present(present)) => if present {
            SaveStage::OpenTarget { text }
        } else {
            SaveStage::MakeParent { parent, text }
        },
        (SaveStage::MakeParent { text, .. }, IoOutcome::Done) => SaveStage::OpenTarget { text },
        (SaveStage::MakeParent { .. }, IoOutcome::Failed(d)) => SaveStage::Settled(
            Err(Error::CreateParentError(d)),
        ),
        (SaveStage::OpenTarget { text }, IoOutcome::Done) => SaveStage::TruncateTarget {
            text,
            len: 0,
        },
        (SaveStage::OpenTarget { .. }, IoOutcome::Failed(d)) => SaveStage::Settled(
            Err(Error::OpenFileError(d)),
        ),
        (SaveStage::TruncateTarget { text, .. }, IoOutcome::Done) => SaveStage::WriteTarget {
            text,
        },
        (SaveStage::TruncateTarget { .. }, IoOutcome::Failed(d)) => SaveStage::Settled(
            Err(Error::ChangeLengthError(d)),
        ),
        (SaveStage::WriteTarget { .. }, IoOutcome::Done) => SaveStage::Settled(Ok(())),
        (SaveStage::WriteTarget { .. }, IoOutcome::Failed(d)) => SaveStage::Settled(
            Err(Error::WriteFileError(d)),
        ),
        (stage, _) => stage,
    }
}

/// The get transition: an opened file is read; the failure to open is
/// the "not found" class, a failed read is the "corrupt content"
/// class; an outcome that does not fit the stage changes nothing.
pub open spec fn get_step_spec(stage: GetStage, outcome: IoOutcome) -> GetStage {
    match (stage, outcome) {
        (GetStage::OpenTarget, IoOutcome::Done) => GetStage::ReadTarget,
        (GetStage::OpenTarget, IoOutcome::Failed(d)) => GetStage::Settled(
            Err(Error::OpenFileError(d)),
        ),
        (GetStage::ReadTarget, IoOutcome::Text(t)) => GetStage::Settled(Ok(t)),
        (GetStage::ReadTarget, IoOutcome::Failed(d)) => GetStage::Settled(
            Err(Error::DeserializeError(d)),
        ),
        (stage, _) => stage,
    }
}

/// The remove transition: an absent file settles as success with no
/// further step — deletion is idempotent; only a failing deletion of a
/// present file settles with an error; an outcome that does not fit
/// the stage changes nothing.
pub open spec fn remove_step_spec(stage: RemoveStage, outcome: IoOutcome) -> RemoveStage {
    match (stage, outcome) {
        (RemoveStage::ProbeTarget, IoOutcome::Present(present)) => if present {
            RemoveStage::DeleteTarget
        } else {
            RemoveStage::Settled(Ok(()))
        },
        (RemoveStage::DeleteTarget, IoOutcome::Done) => RemoveStage::Settled(Ok(())),
        (RemoveStage::DeleteTarget, IoOutcome::Failed(d)) => RemoveStage::Settled(
            Err(Error::RemoveFileError(d)),
        ),
        (stage, _) => stage,
    }
}

/// The save flow never alters what it will write and never asks for a
/// truncation of its own making to anything but zero: a step preserves
/// the carried text exactly, and it reaches the truncate step only
/// with length zero (otherwise the stage stands as it was). Together
/// with [`save_start`]'s contract, whatever text a scheduler is
/// eventually handed to write is the very encoding the save began
/// with, and every truncation it is handed is to zero.
pub proof fn lemma_save_flow_threads_text(stage: SaveStage, outcome: IoOutcome)
    ensures
        save_carried_text(save_step_spec(stage, outcome)) is Some ==> save_carried_text(
            save_step_spec(stage, outcome),
        ) == save_carried_text(stage),
        save_truncate_len(save_step_spec(stage, outcome)) matches Some(len) ==> (len == 0
            || save_truncate_len(stage) == Some(len)),
{
}

/// The first stage of a save at `path`, carrying the encoded `text`:
/// probe the parent directory, or go straight to opening when `path`
/// has no parent to bootstrap.
pub fn save_start(path: &str, text: String) -> (stage: SaveStage)
    ensures
        save_carried_text(stage) == Some(text@),
        match parent_path(path@) {
            Some(q) => save_probed_parent(stage) == Some(q),
            None => stage is OpenTarget,
        },
{
    match parent_of(path) {
        Option::Some(parent) => SaveStage::ProbeParent { parent, text },
        Option::None => SaveStage::OpenTarget { text },
    }
}

/// Advances a save by one performed step, exactly as
/// [`save_step_spec`] states.
pub fn save_step(stage: SaveStage, outcome: IoOutcome) -> (next: SaveStage)
    ensures
        next == save_step_spec(stage, outcome),
{
    match (stage, outcome) {
        (SaveStage::ProbeParent { parent, text }, IoOutcome::Present(present)) => if present {
            SaveStage::OpenTarget { text }
        } else {
            SaveStage::MakeParent { parent, text }
        },
        (SaveStage::MakeParent { text, .. }, IoOutcome::Done) => SaveStage::OpenTarget { text },
        (SaveStage::MakeParent { .. }, IoOutcome::Failed(d)) => SaveStage::Settled(
            Err(Error::CreateParentError(d)),
        ),
        (SaveStage::OpenTarget { text }, IoOutcome::Done) => SaveStage::TruncateTarget {
            text,
            len: 0,
        },
        (SaveStage::OpenTarget { .. }, IoOutcome::Failed(d)) => SaveStage::Settled(
            Err(Error::OpenFileError(d)),
        ),
        (SaveStage::TruncateTarget { text, .. }, IoOutcome::Done) => SaveStage::WriteTarget {
            text,
        },
        (SaveStage::TruncateTarget { .. }, IoOutcome::Failed(d)) => SaveStage::Settled(
            Err(Error::ChangeLengthError(d)),
        ),
        (SaveStage::WriteTarget { .. }, IoOutcome::Done) => SaveStage::Settled(Ok(())),
        (SaveStage::WriteTarget { .. }, IoOutcome::Failed(d)) => SaveStage::Settled(
            Err(Error::WriteFileError(d)),
        ),
        (stage, _) => stage,
    }
}

/// Advances a get by one performed step, exactly as [`get_step_spec`]
/// states.
pub fn get_step(stage: GetStage, outcome: IoOutcome) -> (next: GetStage)
    ensures
        next == get_step_spec(stage, outcome),
{
    match (stage, outcome) {
        (GetStage::OpenTarget, IoOutcome::Done) => GetStage::ReadTarget,
        (GetStage::OpenTarget, IoOutcome::Failed(d)) => GetStage::Settled(
            Err(Error::OpenFileError(d)),
        ),
        (GetStage::ReadTarget, IoOutcome::Text(t)) => GetStage::Settled(Ok(t)),
        (GetStage::ReadTarget, IoOutcome::Failed(d)) => GetStage::Settled(
            Err(Error::DeserializeError(d)),
        ),
        (stage, _) => stage,
    }
}

/// Advances a remove by one performed step, exactly as
/// [`remove_step_spec`] states.
pub fn remove_step(stage: RemoveStage, outcome: IoOutcome) -> (next: RemoveStage)
    ensures
        next == remove_step_spec(stage, outcome),
{
    match (stage, outcome) {
        (RemoveStage::ProbeTarget, IoOutcome::Present(present)) => if present {
            RemoveStage::DeleteTarget
        } else {
            RemoveStage::Settled(Ok(()))
        },
        (RemoveStage::DeleteTarget, IoOutcome::Done) => RemoveStage::Settled(Ok(())),
        (RemoveStage::DeleteTarget, IoOutcome::Failed(d)) => RemoveStage::Settled(
            Err(Error::RemoveFileError(d)),
        ),
        (stage, _) => stage,
    }
}

} // verus!
