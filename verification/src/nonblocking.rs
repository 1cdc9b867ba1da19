//! The suspension facade's handle. Construction and the existence check
//! are cheap and synchronous, so they live here, verified. The
//! suspending `save`, `get` and `remove` must yield to a cooperative
//! scheduler at each I/O step, which Verus does not take; the embedding
//! I/O layer supplies them by driving the flows of [`crate::flow`] with
//! awaited calls, so step order and error taxonomy are the verified
//! ones, shared with the blocking facade.

use vstd::prelude::*;

use crate::backend;

verus! {

/// A single-slot store handle for the suspension facade: one value,
/// kept at one filesystem location, under the payload type `T`.
///
/// Behaviourally identical to [`crate::Szafka`] — same success
/// conditions, same error taxonomy, same side effects, same step order;
/// the facades differ only in whether the caller blocks for each I/O
/// step or yields while it is in flight.
#[derive(Debug)]
pub struct AsyncSzafka<T> {
    /// The filesystem location of the slot's backing file.
    pub path: String,
    phantom: core::marker::PhantomData<T>,
}

impl<T> Clone for AsyncSzafka<T> {
    /// A cloned handle is bound to the same location.
    fn clone(&self) -> (r: Self)
        ensures
            r@ == self@,
    {
        AsyncSzafka { path: self.path.clone(), phantom: core::marker::PhantomData }
    }
}

impl<T> View for AsyncSzafka<T> {
    type V = Seq<char>;

    /// A slot handle is, abstractly, the location it is bound to.
    closed spec fn view(&self) -> Seq<char> {
        self.path@
    }
}

impl<T: serde::Serialize + serde::de::DeserializeOwned> AsyncSzafka<T> {
    /// Binds a slot handle to `path`. No I/O happens here; the path is
    /// not validated until an operation runs.
    pub fn new(path: String) -> (slot: Self)
        ensures
            slot@ == path@,
    {
        AsyncSzafka { path, phantom: core::marker::PhantomData }
    }

    /// Whether the slot holds data: a pure existence check of the
    /// backing file. Cheap enough that no suspension variant is
    /// offered; synchronous in both facades. Never fails; an ambiguous
    /// permission condition reads as absent.
    pub fn has_data(&self) -> bool {
        backend::location_exists(self.path.as_str())
    }
}

} // verus!
