//! The error taxonomy of the mutation pipeline, and the normalization of
//! port-level failures into the single error channel callers see.

use vstd::prelude::*;

verus! {

/// What the storage port reports of a failed operation.
#[derive(Clone, Copy, Debug, PartialEq, Eq, Structural)]
pub enum StoreError {
    /// An item with the same identity already exists; only `add` reports it.
    Conflict,
    /// The referenced identifier is absent; only `update` reports it
    /// (zero rows were affected).
    NotFound,
    /// Transport or connection failure; the store was left unchanged.
    Unavailable,
}

/// What the notification port reports of a failed publish.
#[derive(Clone, Copy, Debug, PartialEq, Eq, Structural)]
pub enum BrokerError {
    /// The bus could not be reached; nothing was delivered.
    Unavailable,
    /// The fact could not be encoded for the wire; nothing was delivered.
    Serialization,
}

/// The normalized error surface of a mutation: a duplicate identity is
/// distinguishable from a missing identifier, and both from a transport
/// failure of storage or broker. No error is retried internally.
#[derive(Clone, Copy, Debug, PartialEq, Eq, Structural)]
pub enum ServiceError {
    /// An entity with the generated identity already exists; the write was
    /// rejected, never retried.
    AlreadyExists,
    /// The identifier referenced by an update is absent.
    NotFound,
    /// Storage or broker transport failure.
    Unavailable,
}

impl ServiceError {
    /// Normalizes a storage failure: an identity collision surfaces as a
    /// rejection of the write, a missing row as an absent identifier, and a
    /// transport failure as unavailability.
    pub fn from_store(e: StoreError) -> (r: ServiceError)
        ensures
            r == (match e {
                StoreError::Conflict => ServiceError::AlreadyExists,
                StoreError::NotFound => ServiceError::NotFound,
                StoreError::Unavailable => ServiceError::Unavailable,
            }),
    {
        match e {
            StoreError::Conflict => ServiceError::AlreadyExists,
            StoreError::NotFound => ServiceError::NotFound,
            StoreError::Unavailable => ServiceError::Unavailable,
        }
    }

    /// Normalizes a broker failure: every failed publish, whatever its cause,
    /// is reported to the caller as unavailability.
    pub fn from_broker(e: BrokerError) -> (r: ServiceError)
        ensures
            r == ServiceError::Unavailable,
    {
        match e {
            BrokerError::Unavailable => ServiceError::Unavailable,
            BrokerError::Serialization => ServiceError::Unavailable,
        }
    }

    /// The status code an HTTP layer answers with: a duplicate identity is a
    /// rejection of the request, every other failure an internal error.
    pub fn status_code(&self) -> (s: u16)
        ensures
            s == (if self is AlreadyExists {
                400u16
            } else {
                500u16
            }),
    {
        match self {
            ServiceError::AlreadyExists => 400,
            ServiceError::NotFound => 500,
            ServiceError::Unavailable => 500,
        }
    }
}

} // verus!
