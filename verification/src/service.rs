//! The mutation service: one stateless pipeline — validate, persist, notify —
//! shared by every entity kind. Each operation is a short linear sequence:
//! persistence always precedes notification, a notification is only ever sent
//! for a mutation the storage port has committed, and a failed step aborts
//! the steps after it. The one accepted inconsistency: persistence success
//! followed by notification failure is reported as an error but not rolled
//! back, so the committed write survives.
//!
//! An entity kind supplies only its topic, how an entity is assembled from an
//! identifier and a descriptor, and how a descriptor is merged into a fetched
//! entity; the three operations themselves are provided here once, with their
//! contracts, and verified once for every kind.

use crate::errors::ServiceError;
use crate::ids::{fresh_id, id_text_of, EntityId};
use crate::ports::{Database, Fact, MessageBroker, Record};
use crate::repository::Repository;
use vstd::prelude::*;

verus! {

/// The mutation service for one entity kind `I` with descriptor `D`.
pub trait Service<I: Record, D>: Sized {
    /// The fixed topic this kind's notifications are published on.
    spec fn topic() -> Seq<char>;

    /// The topic as a value.
    fn topic_name() -> (t: &'static str)
        ensures
            t@ == Self::topic(),
    ;

    /// The entity assembled at creation: the given identifier plus the
    /// descriptor's fields.
    spec fn assembled(id_bits: u128, dto: D) -> I;

    /// The fetched entity with the descriptor's fields merged in.
    spec fn merged(base: I, dto: D) -> I;

    /// Assembles an entity from a fresh identifier and a descriptor.
    fn assemble(id: EntityId, dto: D) -> (e: I)
        ensures
            e == Self::assembled(id.bits, dto),
    ;

    /// Merges a descriptor into a fetched entity.
    fn merge(base: I, dto: D) -> (e: I)
        ensures
            e == Self::merged(base, dto),
    ;

    /// Assembly uses exactly the identifier it is given.
    proof fn assembled_key(id_bits: u128, dto: D)
        ensures
            Self::assembled(id_bits, dto).key() == id_bits,
    ;

    /// Identity stability: merging a descriptor never changes the entity's
    /// identifier; only descriptor-derived fields change.
    proof fn merged_key(base: I, dto: D)
        ensures
            Self::merged(base, dto).key() == base.key(),
    ;

    /// Creates an entity under a caller-supplied identifier: assemble,
    /// persist, then notify. On success the entity is committed and exactly
    /// one `create` fact was published. A duplicate identity rejects the
    /// write with `AlreadyExists` and publishes nothing. `Unavailable` either
    /// left the store unchanged (storage failed) or committed the entity and
    /// published nothing (notification failed after the commit — the accepted
    /// inconsistency window; the write is not rolled back).
    fn create_with_id<S: Database<I>, B: MessageBroker>(
        &self,
        id: EntityId,
        dto: D,
        repo: &mut Repository<I, S>,
        broker: &mut B,
    ) -> (r: Result<I, ServiceError>)
        ensures
            match r {
                Ok(e) => e == Self::assembled(id.bits, dto)
                    && !old(repo).contents().contains_key(id.bits)
                    && final(repo).contents() == old(repo).contents().insert(id.bits, e)
                    && final(broker).sent() == old(broker).sent().push(
                    (Fact {
                        topic: Self::topic(),
                        action: "create"@,
                        entity_id: id_text_of(id.bits),
                    }),
                ),
                Err(ServiceError::AlreadyExists) => old(repo).contents().contains_key(id.bits)
                    && final(repo).contents() == old(repo).contents()
                    && final(broker).sent() == old(broker).sent(),
                Err(ServiceError::NotFound) => false,
                Err(ServiceError::Unavailable) => final(broker).sent() == old(broker).sent()
                    && (final(repo).contents() == old(repo).contents()
                    || (!old(repo).contents().contains_key(id.bits)
                        && final(repo).contents() == old(repo).contents().insert(
                        id.bits,
                        Self::assembled(id.bits, dto),
                    ))),
            },
    {
        let ghost dto0 = dto;
        let entity = Self::assemble(id, dto);
        proof {
            Self::assembled_key(id.bits, dto0);
            entity.id_is_key_text();
        }
        match repo.add(entity.duplicate()) {
            Ok(()) => {},
            Err(e) => {
                return Err(e);
            },
        }
        match broker.send(Self::topic_name(), "create", &entity) {
            Ok(()) => Ok(entity),
            Err(e) => Err(ServiceError::from_broker(e)),
        }
    }

    /// Creates an entity under a freshly allocated identifier. The identifier
    /// is drawn at random, so the contract speaks of the returned entity's
    /// own key; everything else is as in `create_with_id`.
    fn create<S: Database<I>, B: MessageBroker>(
        &self,
        dto: D,
        repo: &mut Repository<I, S>,
        broker: &mut B,
    ) -> (r: Result<I, ServiceError>)
        ensures
            match r {
                Ok(e) => e == Self::assembled(e.key(), dto)
                    && !old(repo).contents().contains_key(e.key())
                    && final(repo).contents() == old(repo).contents().insert(e.key(), e)
                    && final(broker).sent() == old(broker).sent().push(
                    (Fact {
                        topic: Self::topic(),
                        action: "create"@,
                        entity_id: id_text_of(e.key()),
                    }),
                ),
                Err(ServiceError::AlreadyExists) => final(repo).contents() == old(repo).contents()
                    && final(broker).sent() == old(broker).sent(),
                Err(ServiceError::NotFound) => false,
                Err(ServiceError::Unavailable) => final(broker).sent() == old(broker).sent()
                    && (final(repo).contents() == old(repo).contents()
                    || (exists|k: u128|
                        !old(repo).contents().contains_key(k)
                            && final(repo).contents() == old(repo).contents().insert(
                            k,
                            Self::assembled(k, dto),
                        ))),
            },
    {
        let ghost dto0 = dto;
        let id = fresh_id();
        let r = self.create_with_id(id, dto, repo, broker);
        proof {
            Self::assembled_key(id.bits, dto0);
            if r is Err && repo.contents() != old(repo).contents() {
                assert(!old(repo).contents().contains_key(id.bits) && repo.contents() == old(
                    repo,
                ).contents().insert(id.bits, Self::assembled(id.bits, dto0)));
            }
        }
        r
    }

    /// Updates the entity under `id`: fetch, merge the descriptor, persist,
    /// then notify. The identifier is preserved, unchanged. An absent
    /// identifier fails closed with `NotFound`: no storage write and no
    /// notification. `Unavailable` either left the store unchanged or
    /// committed the merged entity and published nothing (notification failed
    /// after the commit; not rolled back).
    fn update<S: Database<I>, B: MessageBroker>(
        &self,
        id: EntityId,
        dto: D,
        repo: &mut Repository<I, S>,
        broker: &mut B,
    ) -> (r: Result<(), ServiceError>)
        ensures
            match r {
                Ok(()) => old(repo).contents().contains_key(id.bits)
                    && final(repo).contents() == old(repo).contents().insert(
                    id.bits,
                    Self::merged(old(repo).contents()[id.bits], dto),
                )
                    && Self::merged(old(repo).contents()[id.bits], dto).key() == id.bits
                    && final(broker).sent() == old(broker).sent().push(
                    (Fact {
                        topic: Self::topic(),
                        action: "update"@,
                        entity_id: id_text_of(id.bits),
                    }),
                ),
                Err(ServiceError::NotFound) => !old(repo).contents().contains_key(id.bits)
                    && final(repo).contents() == old(repo).contents()
                    && final(broker).sent() == old(broker).sent(),
                Err(ServiceError::AlreadyExists) => final(repo).contents() == old(repo).contents()
                    && final(broker).sent() == old(broker).sent(),
                Err(ServiceError::Unavailable) => final(broker).sent() == old(broker).sent()
                    && (final(repo).contents() == old(repo).contents()
                    || (old(repo).contents().contains_key(id.bits)
                        && final(repo).contents() == old(repo).contents().insert(
                        id.bits,
                        Self::merged(old(repo).contents()[id.bits], dto),
                    )
                        && Self::merged(old(repo).contents()[id.bits], dto).key() == id.bits)),
            },
            !old(repo).contents().contains_key(id.bits) ==> r == Err::<(), ServiceError>(
                ServiceError::NotFound,
            ) || r == Err::<(), ServiceError>(ServiceError::Unavailable),
    {
        let ghost dto0 = dto;
        let fetched = match repo.get(id.bits) {
            Ok(Some(e)) => e,
            Ok(None) => {
                return Err(ServiceError::NotFound);
            },
            Err(e) => {
                return Err(e);
            },
        };
        let ghost fetched0 = fetched;
        let merged_entity = Self::merge(fetched, dto);
        proof {
            Self::merged_key(fetched0, dto0);
            merged_entity.id_is_key_text();
        }
        match repo.update(merged_entity.duplicate()) {
            Ok(()) => {},
            Err(e) => {
                return Err(e);
            },
        }
        match broker.send(Self::topic_name(), "update", &merged_entity) {
            Ok(()) => Ok(()),
            Err(e) => Err(ServiceError::from_broker(e)),
        }
    }

    /// Deletes the entity under `id`: remove, then notify. Removal is
    /// idempotent — absence of the record is not an error — so deletion never
    /// reports `NotFound` or `AlreadyExists`; on success exactly one `delete`
    /// fact was published, with the identifier itself standing in for the
    /// deleted entity.
    fn delete<S: Database<I>, B: MessageBroker>(
        &self,
        id: EntityId,
        repo: &mut Repository<I, S>,
        broker: &mut B,
    ) -> (r: Result<(), ServiceError>)
        ensures
            match r {
                Ok(()) => final(repo).contents() == old(repo).contents().remove(id.bits)
                    && final(broker).sent() == old(broker).sent().push(
                    (Fact {
                        topic: Self::topic(),
                        action: "delete"@,
                        entity_id: id_text_of(id.bits),
                    }),
                ),
                Err(ServiceError::Unavailable) => final(broker).sent() == old(broker).sent()
                    && (final(repo).contents() == old(repo).contents()
                    || final(repo).contents() == old(repo).contents().remove(id.bits)),
                Err(_) => false,
            },
    {
        match repo.remove(id.bits) {
            Ok(()) => {},
            Err(e) => {
                return Err(e);
            },
        }
        match broker.send(Self::topic_name(), "delete", &id) {
            Ok(()) => Ok(()),
            Err(e) => Err(ServiceError::from_broker(e)),
        }
    }
}

} // verus!
