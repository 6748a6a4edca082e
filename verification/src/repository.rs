//! The repository: a thin adapter binding one storage port implementation to
//! a specific entity kind. It passes each operation through unchanged and
//! translates storage errors into the normalized error channel, so the
//! mutation service depends on a single adapter type per entity kind rather
//! than the raw storage port.

use crate::errors::ServiceError;
use crate::ports::{Database, Record};
use vstd::prelude::*;

verus! {

/// One repository per entity kind, wrapping one storage port implementation.
pub struct Repository<I, S> {
    pub storage: S,
    pub entity_kind: core::marker::PhantomData<I>,
}

impl<I: Record, S: Database<I>> Repository<I, S> {
    /// The committed records of the underlying storage port.
    pub open spec fn contents(&self) -> Map<u128, I> {
        self.storage.contents()
    }

    /// Binds a storage port implementation to this entity kind.
    pub fn new(storage: S) -> (r: Self)
        ensures
            r.contents() == storage.contents(),
    {
        Repository { storage, entity_kind: core::marker::PhantomData }
    }

    /// Commits a fresh record; a duplicate identity is surfaced as
    /// `AlreadyExists`.
    pub fn add(&mut self, item: I) -> (r: Result<(), ServiceError>)
        ensures
            match r {
                Ok(()) => !old(self).contents().contains_key(item.key())
                    && final(self).contents() == old(self).contents().insert(item.key(), item),
                Err(ServiceError::AlreadyExists) => old(self).contents().contains_key(item.key())
                    && final(self).contents() == old(self).contents(),
                Err(ServiceError::NotFound) => false,
                Err(ServiceError::Unavailable) => final(self).contents() == old(self).contents(),
            },
    {
        match self.storage.add(item) {
            Ok(()) => Ok(()),
            Err(e) => Err(ServiceError::from_store(e)),
        }
    }

    /// Removes a record if present; absence is not an error.
    pub fn remove(&mut self, id: u128) -> (r: Result<(), ServiceError>)
        ensures
            match r {
                Ok(()) => final(self).contents() == old(self).contents().remove(id),
                Err(ServiceError::Unavailable) => final(self).contents() == old(self).contents(),
                Err(_) => false,
            },
    {
        match self.storage.delete(id) {
            Ok(()) => Ok(()),
            Err(e) => Err(ServiceError::from_store(e)),
        }
    }

    /// Looks a record up; an absent identifier reads as `None`.
    pub fn get(&self, id: u128) -> (r: Result<Option<I>, ServiceError>)
        ensures
            match r {
                Ok(Some(item)) => self.contents().contains_key(id) && item == self.contents()[id]
                    && item.key() == id,
                Ok(None) => !self.contents().contains_key(id),
                Err(ServiceError::Unavailable) => true,
                Err(_) => false,
            },
    {
        match self.storage.get(id) {
            Ok(found) => Ok(found),
            Err(e) => Err(ServiceError::from_store(e)),
        }
    }

    /// Overwrites an existing record; an absent identifier is surfaced as
    /// `NotFound` without writing.
    pub fn update(&mut self, item: I) -> (r: Result<(), ServiceError>)
        ensures
            match r {
                Ok(()) => old(self).contents().contains_key(item.key())
                    && final(self).contents() == old(self).contents().insert(item.key(), item),
                Err(ServiceError::NotFound) => !old(self).contents().contains_key(item.key())
                    && final(self).contents() == old(self).contents(),
                Err(ServiceError::AlreadyExists) => final(self).contents() == old(self).contents(),
                Err(ServiceError::Unavailable) => final(self).contents() == old(self).contents(),
            },
    {
        match self.storage.update(item) {
            Ok(()) => Ok(()),
            Err(e) => Err(ServiceError::from_store(e)),
        }
    }
}

} // verus!
