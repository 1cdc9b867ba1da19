//! The abstract disk that the slot's contracts and laws speak of: which
//! locations hold which text, and which directories exist. Each slot
//! operation has its effect on this disk stated as a spec function, and
//! the laws of the slot abstraction are proved of those effects: a get
//! after a save returns exactly the saved text, deletion is idempotent,
//! a save bootstraps every missing ancestor directory, and operations at
//! one location leave every other location untouched.

use vstd::prelude::*;

use crate::paths::{ancestor_dirs, parent_path};

verus! {

/// Abstract filesystem state: the text stored at each file location,
/// and the set of directories that exist.
#[verifier::ext_equal]
pub struct DiskModel {
    pub files: Map<Seq<char>, Seq<char>>,
    pub dirs: Set<Seq<char>>,
}

/// A disk on which nothing was ever saved.
pub open spec fn empty_disk() -> DiskModel {
    DiskModel { files: Map::empty(), dirs: Set::empty() }
}

/// Whether the slot at `path` holds data: the existence of its file is
/// the sole state indicator.
pub open spec fn slot_exists(d: DiskModel, path: Seq<char>) -> bool {
    d.files.dom().contains(path)
}

/// The effect of a successful save: every missing ancestor directory of
/// `path` exists afterwards, and the file at `path` holds exactly
/// `text` — a full rewrite, never a partial update.
pub open spec fn save_model(d: DiskModel, path: Seq<char>, text: Seq<char>) -> DiskModel {
    DiskModel { files: d.files.insert(path, text), dirs: d.dirs.union(ancestor_dirs(path)) }
}

/// What a get observes: the stored text, or nothing when the slot holds
/// no data.
pub open spec fn get_model(d: DiskModel, path: Seq<char>) -> Option<Seq<char>> {
    if slot_exists(d, path) {
        Some(d.files[path])
    } else {
        None
    }
}

/// The effect of a successful remove: the slot's file is gone;
/// directories and every other location are untouched.
pub open spec fn remove_model(d: DiskModel, path: Seq<char>) -> DiskModel {
    DiskModel { files: d.files.remove(path), dirs: d.dirs }
}

/// Round trip at the disk level: a get right after a save returns
/// exactly the text the save stored, whatever the disk held before.
pub proof fn lemma_save_then_get(d: DiskModel, path: Seq<char>, text: Seq<char>)
    ensures
        get_model(save_model(d, path, text), path) == Some(text),
{
}

/// Saving overwrites: after two saves at one location, a get returns
/// the text of the second.
pub proof fn lemma_save_overwrites(d: DiskModel, path: Seq<char>, t1: Seq<char>, t2: Seq<char>)
    ensures
        get_model(save_model(save_model(d, path, t1), path, t2), path) == Some(t2),
{
}

/// The existence lifecycle: no slot holds data on an untouched disk, a
/// slot holds data right after a save, and none right after a remove.
pub proof fn lemma_exists_lifecycle(d: DiskModel, path: Seq<char>, text: Seq<char>)
    ensures
        !slot_exists(empty_disk(), path),
        slot_exists(save_model(d, path, text), path),
        !slot_exists(remove_model(d, path), path),
{
}

/// Removing a slot that holds no data changes nothing at all.
pub proof fn lemma_remove_absent(d: DiskModel, path: Seq<char>)
    requires
        !slot_exists(d, path),
    ensures
        remove_model(d, path) == d,
{
    assert(d.files.remove(path) =~= d.files);
    assert(remove_model(d, path) =~= d);
}

/// Deletion is idempotent: removing twice in succession leaves the same
/// disk as removing once.
pub proof fn lemma_remove_idempotent(d: DiskModel, path: Seq<char>)
    ensures
        remove_model(remove_model(d, path), path) == remove_model(d, path),
{
    assert(d.files.remove(path).remove(path) =~= d.files.remove(path));
    assert(remove_model(remove_model(d, path), path) =~= remove_model(d, path));
}

/// A save creates every missing ancestor directory of its location; in
/// particular the direct parent exists afterwards.
pub proof fn lemma_save_creates_parents(d: DiskModel, path: Seq<char>, text: Seq<char>)
    ensures
        forall|q: Seq<char>|
            ancestor_dirs(path).contains(q) ==> save_model(d, path, text).dirs.contains(q),
        parent_path(path) matches Some(q) ==> save_model(d, path, text).dirs.contains(q),
{
}

/// A get at a location that holds no data observes nothing: the
/// "not found" outcome, which never involves decoding any text.
pub proof fn lemma_get_absent(d: DiskModel, path: Seq<char>)
    requires
        !slot_exists(d, path),
    ensures
        get_model(d, path) is None,
{
}

/// Slots are independent: a save or remove at one location leaves what
/// a get observes at every other location unchanged.
pub proof fn lemma_other_slots_untouched(d: DiskModel, p1: Seq<char>, p2: Seq<char>, text: Seq<char>)
    requires
        p1 != p2,
    ensures
        get_model(save_model(d, p1, text), p2) == get_model(d, p2),
        get_model(remove_model(d, p1), p2) == get_model(d, p2),
{
}

} // verus!
