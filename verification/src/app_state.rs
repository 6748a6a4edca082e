//! The application context: a composition root only, holding one shared
//! notification port and one repository plus mutation service pair per
//! entity kind. Constructed once at process start and handed to request
//! handlers by reference; no behavior beyond wiring.

use crate::models::{Product, User};
use crate::ports::{Database, MessageBroker};
use crate::product_service::ProductService;
use crate::repository::Repository;
use crate::user_service::UserService;
use vstd::prelude::*;

verus! {

/// One notification port shared across entity kinds, and one repository and
/// mutation service per kind, each bound to its storage backend.
pub struct AppState<SU: Database<User>, SP: Database<Product>, B: MessageBroker> {
    pub broker: B,
    pub user_repo: Repository<User, SU>,
    pub product_repo: Repository<Product, SP>,
    pub user_service: UserService,
    pub product_service: ProductService,
}

impl<SU: Database<User>, SP: Database<Product>, B: MessageBroker> AppState<SU, SP, B> {
    /// Wires the two storage backends and the shared broker together.
    pub fn new(user_storage: SU, product_storage: SP, broker: B) -> (r: Self)
        ensures
            r.user_repo.contents() == user_storage.contents(),
            r.product_repo.contents() == product_storage.contents(),
            r.broker == broker,
    {
        AppState {
            broker,
            user_repo: Repository::new(user_storage),
            product_repo: Repository::new(product_storage),
            user_service: UserService,
            product_service: ProductService,
        }
    }
}

} // verus!
