use vstd::prelude::*;
use crate::object_id::RecordId;

verus! {

/// A record type that a repository can hold: it carries an optional
/// store-assigned identifier beside its own fields.
pub trait Schema: Sized {
    /// The record's identifier, absent before the store assigns one.
    spec fn spec_id(&self) -> Option<RecordId>;

    /// The same record with its identifier replaced by `id`.
    spec fn spec_with_id(self, id: Option<RecordId>) -> Self;

    /// The record as it is handed to the store: the identifier is dropped,
    /// whatever the client sent.
    fn without_id(self) -> (r: Self)
        ensures
            r == self.spec_with_id(None),
    ;
}

/// A partial-update record for records of type `T`: every field optional,
/// and only the present ones take part in an update.
pub trait Patch<T>: Sized {
    /// No field is present.
    spec fn spec_is_empty(&self) -> bool;

    /// The record `r` with every present field of the update written over it
    /// and every other field left as it was: what the store makes of `r` when
    /// it applies the update. This is a model only; the store does the work.
    spec fn spec_apply(self, r: T) -> T;

    fn is_empty(&self) -> (b: bool)
        ensures
            b == self.spec_is_empty(),
    ;
}

/// The value of an optional field after a merge: the new one where present.
pub open spec fn merged<V>(new: Option<V>, old: V) -> V {
    match new {
        Some(v) => v,
        None => old,
    }
}

} // verus!
