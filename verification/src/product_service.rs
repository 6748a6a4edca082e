//! The mutation service for the product entity kind: notifications go to the
//! `product-events` topic, and entities are assembled from and merged with
//! `Description` descriptors.

use crate::ids::EntityId;
use crate::models::{Description, Product};
use crate::service::Service;
use vstd::prelude::*;

verus! {

/// The product mutation service. Stateless: the repository and broker to use
/// are passed at call time, so test doubles substitute without
/// reconstruction.
pub struct ProductService;

impl Service<Product, Description> for ProductService {
    open spec fn topic() -> Seq<char> {
        "product-events"@
    }

    fn topic_name() -> (t: &'static str) {
        "product-events"
    }

    open spec fn assembled(id_bits: u128, dto: Description) -> Product {
        Product { id: EntityId { bits: id_bits }, name: dto.name, price: dto.price }
    }

    open spec fn merged(base: Product, dto: Description) -> Product {
        Product { id: base.id, name: dto.name, price: dto.price }
    }

    fn assemble(id: EntityId, dto: Description) -> (e: Product) {
        Product { id, name: dto.name, price: dto.price }
    }

    fn merge(base: Product, dto: Description) -> (e: Product) {
        Product { id: base.id, name: dto.name, price: dto.price }
    }

    proof fn assembled_key(id_bits: u128, dto: Description) {
    }

    proof fn merged_key(base: Product, dto: Description) {
    }
}

} // verus!
