//! The two entity kinds — users and products — and the descriptors callers
//! supply to create or update them. A descriptor carries every mutable field
//! and never an identifier; an entity's identifier is assigned at creation
//! and never reassigned.

use crate::ids::{id_text, id_text_of, EntityId, Identifiable};
use crate::ports::Record;
use vstd::prelude::*;
use vstd::string::StrSliceExecFns;

verus! {

/// The caller-supplied payload for creating or updating a user.
pub struct Credentials {
    pub name: String,
    pub email: String,
}

/// The caller-supplied payload for creating or updating a product; the price
/// is a non-negative integer.
pub struct Description {
    pub name: String,
    pub price: usize,
}

/// A user record. The identifier is immutable; name and email are the
/// descriptor-derived fields.
pub struct User {
    pub id: EntityId,
    pub name: String,
    pub email: String,
}

/// A product record. The identifier is immutable; name and price are the
/// descriptor-derived fields.
pub struct Product {
    pub id: EntityId,
    pub name: String,
    pub price: usize,
}

impl Identifiable for User {
    open spec fn id_spec(&self) -> Seq<char> {
        id_text_of(self.id.bits)
    }

    fn id(&self) -> (r: String) {
        id_text(self.id.bits)
    }
}

impl Record for User {
    open spec fn key(&self) -> u128 {
        self.id.bits
    }

    fn key_value(&self) -> (k: u128) {
        self.id.bits
    }

    fn duplicate(&self) -> (r: Self) {
        User { id: self.id, name: self.name.clone(), email: self.email.clone() }
    }

    proof fn id_is_key_text(&self) {
    }
}

impl Identifiable for Product {
    open spec fn id_spec(&self) -> Seq<char> {
        id_text_of(self.id.bits)
    }

    fn id(&self) -> (r: String) {
        id_text(self.id.bits)
    }
}

impl Record for Product {
    open spec fn key(&self) -> u128 {
        self.id.bits
    }

    fn key_value(&self) -> (k: u128) {
        self.id.bits
    }

    fn duplicate(&self) -> (r: Self) {
        Product { id: self.id, name: self.name.clone(), price: self.price }
    }

    proof fn id_is_key_text(&self) {
    }
}

/// Reassembles a user row read back from a storage backend, but only when its
/// required fields are coherent: a blank name or email yields no entity
/// rather than a falsely initialized one, so a malformed record reads as
/// absent.
pub fn screen_user(id: EntityId, name: String, email: String) -> (r: Option<User>)
    ensures
        r == (if name@.len() > 0 && email@.len() > 0 {
            Some(User { id, name, email })
        } else {
            None::<User>
        }),
{
    if name.as_str().unicode_len() > 0 && email.as_str().unicode_len() > 0 {
        Some(User { id, name, email })
    } else {
        None
    }
}

/// Reassembles a product row read back from a storage backend, but only when
/// its required name is coherent; a blank name reads as absent.
pub fn screen_product(id: EntityId, name: String, price: usize) -> (r: Option<Product>)
    ensures
        r == (if name@.len() > 0 {
            Some(Product { id, name, price })
        } else {
            None::<Product>
        }),
{
    if name.as_str().unicode_len() > 0 {
        Some(Product { id, name, price })
    } else {
        None
    }
}

} // verus!
