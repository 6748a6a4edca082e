//! The mutation service for the user entity kind: notifications go to the
//! `user-events` topic, and entities are assembled from and merged with
//! `Credentials` descriptors.

use crate::ids::EntityId;
use crate::models::{Credentials, User};
use crate::service::Service;
use vstd::prelude::*;

verus! {

/// The user mutation service. Stateless: the repository and broker to use
/// are passed at call time, so test doubles substitute without
/// reconstruction.
pub struct UserService;

impl Service<User, Credentials> for UserService {
    open spec fn topic() -> Seq<char> {
        "user-events"@
    }

    fn topic_name() -> (t: &'static str) {
        "user-events"
    }

    open spec fn assembled(id_bits: u128, dto: Credentials) -> User {
        User { id: EntityId { bits: id_bits }, name: dto.name, email: dto.email }
    }

    open spec fn merged(base: User, dto: Credentials) -> User {
        User { id: base.id, name: dto.name, email: dto.email }
    }

    fn assemble(id: EntityId, dto: Credentials) -> (e: User) {
        User { id, name: dto.name, email: dto.email }
    }

    fn merge(base: User, dto: Credentials) -> (e: User) {
        User { id: base.id, name: dto.name, email: dto.email }
    }

    proof fn assembled_key(id_bits: u128, dto: Credentials) {
    }

    proof fn merged_key(base: User, dto: Credentials) {
    }
}

} // verus!
