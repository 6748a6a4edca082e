//! Laws of the pipeline that relate several operations, stated over the
//! committed contents that every port contract speaks of.

use vstd::prelude::*;

verus! {

/// Persist-before-notify: once a create or update has committed an entity —
/// which the service contracts state as the contents gaining the entity under
/// its key, whether or not the notification step then failed — a lookup of
/// that key finds exactly that entity. Persistence visibility never depends
/// on the notification outcome.
pub proof fn lemma_persisted_entity_visible<I>(
    before: Map<u128, I>,
    after: Map<u128, I>,
    k: u128,
    e: I,
)
    requires
        after == before.insert(k, e),
    ensures
        after.contains_key(k),
        after[k] == e,
{
}

/// Idempotent delete: a successful delete leaves the contents with the key
/// removed, and removing the same key from that state changes nothing — so a
/// second delete of the same identifier commits the very state the first one
/// left.
pub proof fn lemma_delete_idempotent<I>(before: Map<u128, I>, k: u128)
    ensures
        before.remove(k).remove(k) == before.remove(k),
{
    assert(before.remove(k).remove(k) =~= before.remove(k));
}

} // verus!
