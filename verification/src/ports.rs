//! The two capability interfaces the mutation service depends on: a storage
//! port for durable per-entity persistence, and a notification port that
//! publishes a structured fact to an external bus. Concrete backends are
//! injected at composition time; the pipeline depends only on the contracts
//! stated here.

use crate::errors::{BrokerError, StoreError};
use crate::ids::{id_text_of, Identifiable};
use vstd::prelude::*;

verus! {

/// A persistable record: it is keyed by the bits of its identifier, and one
/// copy of it can be stored while the caller keeps another.
pub trait Record: Identifiable + Sized {
    /// The storage key: the bits of the record's identifier.
    spec fn key(&self) -> u128;

    /// The storage key as a value.
    fn key_value(&self) -> (k: u128)
        ensures
            k == self.key(),
    ;

    /// An exact copy of the record.
    fn duplicate(&self) -> (r: Self)
        ensures
            r == *self,
    ;

    /// The record's string identity is the text form of its storage key.
    proof fn id_is_key_text(&self)
        ensures
            self.id_spec() == id_text_of(self.key()),
    ;
}

/// One notification fact: what a successful mutation publishes. Ephemeral,
/// never persisted; ownership transfers to the notification port.
pub struct Fact {
    pub topic: Seq<char>,
    pub action: Seq<char>,
    pub entity_id: Seq<char>,
}

/// The storage port: durable persistence of one entity kind, keyed by an
/// opaque identifier. Each operation completes as a single committed unit or
/// not at all, so every outcome is stated over the committed contents alone.
/// Transport may fail on any call; a failed call leaves the contents as they
/// were.
pub trait Database<I: Record> {
    /// The durably committed records, keyed by identifier bits.
    spec fn contents(&self) -> Map<u128, I>;

    /// Commits a fresh record, or rejects a duplicate identity.
    fn add(&mut self, item: I) -> (r: Result<(), StoreError>)
        ensures
            match r {
                Ok(()) => !old(self).contents().contains_key(item.key())
                    && final(self).contents() == old(self).contents().insert(item.key(), item),
                Err(StoreError::Conflict) => old(self).contents().contains_key(item.key())
                    && final(self).contents() == old(self).contents(),
                Err(StoreError::NotFound) => false,
                Err(StoreError::Unavailable) => final(self).contents() == old(self).contents(),
            },
    ;

    /// Removes a record if present; absence is not an error, so deletion is
    /// idempotent by design.
    fn delete(&mut self, id: u128) -> (r: Result<(), StoreError>)
        ensures
            match r {
                Ok(()) => final(self).contents() == old(self).contents().remove(id),
                Err(StoreError::Unavailable) => final(self).contents() == old(self).contents(),
                Err(_) => false,
            },
    ;

    /// Looks a record up; an absent identifier reads as `None`, never as a
    /// partial record.
    fn get(&self, id: u128) -> (r: Result<Option<I>, StoreError>)
        ensures
            match r {
                Ok(Some(item)) => self.contents().contains_key(id) && item == self.contents()[id]
                    && item.key() == id,
                Ok(None) => !self.contents().contains_key(id),
                Err(StoreError::Unavailable) => true,
                Err(_) => false,
            },
    ;

    /// Overwrites an existing record, or reports the identifier absent
    /// (zero rows affected) without writing.
    fn update(&mut self, item: I) -> (r: Result<(), StoreError>)
        ensures
            match r {
                Ok(()) => old(self).contents().contains_key(item.key())
                    && final(self).contents() == old(self).contents().insert(item.key(), item),
                Err(StoreError::NotFound) => !old(self).contents().contains_key(item.key())
                    && final(self).contents() == old(self).contents(),
                Err(StoreError::Conflict) => final(self).contents() == old(self).contents(),
                Err(StoreError::Unavailable) => final(self).contents() == old(self).contents(),
            },
    ;
}

/// The notification port: best-effort publication of a fact to an external
/// bus. A successful call appends exactly one fact to the stream; a failed
/// call is reported to the caller, delivers nothing, and is never retried
/// here — retry policy belongs to a surrounding collaborator.
pub trait MessageBroker {
    /// The stream of facts published so far, in order.
    spec fn sent(&self) -> Seq<Fact>;

    /// Publishes one fact, keyed by `action` at the transport level; the
    /// subject contributes only its stable string identity.
    fn send<M: Identifiable>(&mut self, topic: &str, action: &str, message: &M) -> (r: Result<
        (),
        BrokerError,
    >)
        ensures
            match r {
                Ok(()) => final(self).sent() == old(self).sent().push(
                    (Fact { topic: topic@, action: action@, entity_id: message.id_spec() }),
                ),
                Err(_) => final(self).sent() == old(self).sent(),
            },
    ;
}

} // verus!
