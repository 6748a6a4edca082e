//! Opaque unique identifiers and the identity capability: anything that can
//! be notified about must yield a stable string form of its identity.

use vstd::prelude::*;

verus! {

/// The stable text form of a 128-bit identifier: the string that
/// `uuid::Uuid`'s `Display` implementation prints for these bits
/// (lowercase hyphenated hexadecimal). A function of the bits alone.
pub uninterp spec fn id_text_of(bits: u128) -> Seq<char>;

/// An opaque unique identifier, assigned at creation and never reassigned.
/// It carries the 128 bits of a version-4 UUID as a plain value.
#[derive(Clone, Copy, Debug, PartialEq, Eq, Structural)]
pub struct EntityId {
    pub bits: u128,
}

/// Relies on `uuid::Uuid::new_v4`: a freshly drawn random identifier.
/// The value is random, so nothing is promised of it; callers state what
/// holds whatever came back.
#[verifier::external_body]
pub(crate) fn fresh_id() -> EntityId {
    EntityId { bits: uuid::Uuid::new_v4().as_u128() }
}

/// Relies on `uuid::Uuid::from_u128` and the `Display` implementation of
/// `uuid::Uuid`: the hyphenated lowercase form of the bits, 36 characters,
/// depending on the bits alone.
#[verifier::external_body]
pub(crate) fn id_text(bits: u128) -> (r: String)
    ensures
        r@ == id_text_of(bits),
        r@.len() == 36,
{
    uuid::Uuid::from_u128(bits).to_string()
}

/// The identity capability: produce the stable string form of an identity.
/// It decouples the notification port from entity-kind-specific types and
/// never influences storage.
pub trait Identifiable {
    /// The string identity, at the specification level.
    spec fn id_spec(&self) -> Seq<char>;

    /// The string identity, as the notification payload carries it.
    fn id(&self) -> (r: String)
        ensures
            r@ == self.id_spec(),
    ;
}

impl Identifiable for EntityId {
    open spec fn id_spec(&self) -> Seq<char> {
        id_text_of(self.bits)
    }

    fn id(&self) -> (r: String) {
        id_text(self.bits)
    }
}

} // verus!
