//! End-to-end runs of the mutation pipeline against the in-memory ports.

use mutation_pipeline::app_state::AppState;
use mutation_pipeline::errors::ServiceError;
use mutation_pipeline::ids::{EntityId, Identifiable};
use mutation_pipeline::memory::{MemoryBroker, MemoryStore};
use mutation_pipeline::models::{Credentials, Description, Product, User};
use mutation_pipeline::repository::Repository;
use mutation_pipeline::service::Service;
use mutation_pipeline::product_service::ProductService;
use mutation_pipeline::user_service::UserService;

fn user_repo() -> Repository<User, MemoryStore<User>> {
    Repository::new(MemoryStore::new())
}

fn product_repo() -> Repository<Product, MemoryStore<Product>> {
    Repository::new(MemoryStore::new())
}

fn credentials(name: &str, email: &str) -> Credentials {
    Credentials { name: name.to_string(), email: email.to_string() }
}

#[test]
fn create_user_persists_and_notifies() {
    let mut repo = user_repo();
    let mut broker = MemoryBroker::new();
    let user = UserService
        .create(credentials("Ada", "ada@example.com"), &mut repo, &mut broker)
        .unwrap();
    assert_eq!(user.name, "Ada");
    assert_eq!(user.email, "ada@example.com");

    let stored = repo.get(user.id.bits).unwrap().unwrap();
    assert_eq!(stored.id, user.id);
    assert_eq!(stored.name, "Ada");
    assert_eq!(stored.email, "ada@example.com");

    assert_eq!(broker.log.len(), 1);
    assert_eq!(broker.log[0].topic, "user-events");
    assert_eq!(broker.log[0].action, "create");
    assert_eq!(broker.log[0].entity_id, user.id());
}

#[test]
fn created_identifiers_differ() {
    let mut repo = user_repo();
    let mut broker = MemoryBroker::new();
    let a = UserService
        .create(credentials("Ada", "ada@example.com"), &mut repo, &mut broker)
        .unwrap();
    let b = UserService
        .create(credentials("Grace", "grace@example.com"), &mut repo, &mut broker)
        .unwrap();
    assert_ne!(a.id, b.id);
}

#[test]
fn update_existing_user_keeps_identity() {
    let mut repo = user_repo();
    let mut broker = MemoryBroker::new();
    let id = EntityId { bits: 11 };
    UserService
        .create_with_id(id, credentials("Ada", "ada@example.com"), &mut repo, &mut broker)
        .unwrap();
    UserService
        .update(id, credentials("Ada L.", "ada@example.com"), &mut repo, &mut broker)
        .unwrap();

    let stored = repo.get(id.bits).unwrap().unwrap();
    assert_eq!(stored.id, id);
    assert_eq!(stored.name, "Ada L.");
    assert_eq!(stored.email, "ada@example.com");

    assert_eq!(broker.log.len(), 2);
    assert_eq!(broker.log[1].topic, "user-events");
    assert_eq!(broker.log[1].action, "update");
    assert_eq!(broker.log[1].entity_id, id.id());
}

#[test]
fn update_missing_fails_closed() {
    let mut repo = user_repo();
    let mut broker = MemoryBroker::new();
    let r = UserService.update(
        EntityId { bits: 999 },
        credentials("Nobody", "nobody@example.com"),
        &mut repo,
        &mut broker,
    );
    assert_eq!(r, Err(ServiceError::NotFound));
    assert!(repo.get(999).unwrap().is_none());
    assert_eq!(broker.log.len(), 0);
}

#[test]
fn duplicate_create_conflicts_without_notification() {
    let mut repo = user_repo();
    let mut broker = MemoryBroker::new();
    let id = EntityId { bits: 5 };
    UserService
        .create_with_id(id, credentials("Ada", "ada@example.com"), &mut repo, &mut broker)
        .unwrap();
    let second = UserService.create_with_id(
        id,
        credentials("Imposter", "imposter@example.com"),
        &mut repo,
        &mut broker,
    );
    assert!(matches!(second, Err(ServiceError::AlreadyExists)));

    let stored = repo.get(id.bits).unwrap().unwrap();
    assert_eq!(stored.name, "Ada");
    assert_eq!(broker.log.len(), 1);
}

#[test]
fn delete_twice_never_errors() {
    let mut repo = user_repo();
    let mut broker = MemoryBroker::new();
    let id = EntityId { bits: 3 };
    UserService
        .create_with_id(id, credentials("Ada", "ada@example.com"), &mut repo, &mut broker)
        .unwrap();

    assert_eq!(UserService.delete(id, &mut repo, &mut broker), Ok(()));
    assert_eq!(UserService.delete(id, &mut repo, &mut broker), Ok(()));
    assert!(repo.get(id.bits).unwrap().is_none());

    assert_eq!(broker.log.len(), 3);
    assert_eq!(broker.log[1].action, "delete");
    assert_eq!(broker.log[1].entity_id, id.id());
    assert_eq!(broker.log[2].action, "delete");
    assert_eq!(broker.log[2].entity_id, id.id());
}

#[test]
fn update_notify_failure_keeps_the_write() {
    let mut repo = user_repo();
    let mut broker = MemoryBroker::new();
    let id = EntityId { bits: 21 };
    UserService
        .create_with_id(id, credentials("Ada", "ada@example.com"), &mut repo, &mut broker)
        .unwrap();

    broker.fail_next = true;
    let r = UserService.update(
        id,
        credentials("Ada L.", "ada@example.com"),
        &mut repo,
        &mut broker,
    );
    assert_eq!(r, Err(ServiceError::Unavailable));

    let stored = repo.get(id.bits).unwrap().unwrap();
    assert_eq!(stored.name, "Ada L.");
    assert_eq!(broker.log.len(), 1);
}

#[test]
fn create_notify_failure_keeps_the_write() {
    let mut repo = user_repo();
    let mut broker = MemoryBroker::new();
    broker.fail_next = true;
    let id = EntityId { bits: 22 };
    let r = UserService.create_with_id(
        id,
        credentials("Ada", "ada@example.com"),
        &mut repo,
        &mut broker,
    );
    assert!(matches!(r, Err(ServiceError::Unavailable)));

    let stored = repo.get(id.bits).unwrap().unwrap();
    assert_eq!(stored.name, "Ada");
    assert_eq!(broker.log.len(), 0);
}

#[test]
fn delete_notify_failure_keeps_the_removal() {
    let mut repo = user_repo();
    let mut broker = MemoryBroker::new();
    let id = EntityId { bits: 23 };
    UserService
        .create_with_id(id, credentials("Ada", "ada@example.com"), &mut repo, &mut broker)
        .unwrap();

    broker.fail_next = true;
    let r = UserService.delete(id, &mut repo, &mut broker);
    assert_eq!(r, Err(ServiceError::Unavailable));
    assert!(repo.get(id.bits).unwrap().is_none());
    assert_eq!(broker.log.len(), 1);
}

#[test]
fn product_pipeline_uses_its_own_topic() {
    let mut repo = product_repo();
    let mut broker = MemoryBroker::new();
    let product = ProductService
        .create(
            Description { name: "Widget".to_string(), price: 250 },
            &mut repo,
            &mut broker,
        )
        .unwrap();
    assert_eq!(product.name, "Widget");
    assert_eq!(product.price, 250);

    let stored = repo.get(product.id.bits).unwrap().unwrap();
    assert_eq!(stored.price, 250);

    assert_eq!(broker.log.len(), 1);
    assert_eq!(broker.log[0].topic, "product-events");
    assert_eq!(broker.log[0].action, "create");
    assert_eq!(broker.log[0].entity_id, product.id());

    ProductService
        .update(
            product.id,
            Description { name: "Widget".to_string(), price: 300 },
            &mut repo,
            &mut broker,
        )
        .unwrap();
    assert_eq!(repo.get(product.id.bits).unwrap().unwrap().price, 300);
    assert_eq!(broker.log[1].topic, "product-events");
    assert_eq!(broker.log[1].action, "update");
}

#[test]
fn app_state_wires_both_kinds_around_one_broker() {
    let mut state = AppState::new(MemoryStore::new(), MemoryStore::new(), MemoryBroker::new());
    let user = state
        .user_service
        .create(credentials("Ada", "ada@example.com"), &mut state.user_repo, &mut state.broker)
        .unwrap();
    let product = state
        .product_service
        .create(
            Description { name: "Widget".to_string(), price: usize::MAX },
            &mut state.product_repo,
            &mut state.broker,
        )
        .unwrap();
    assert_eq!(product.price, usize::MAX);

    assert_eq!(state.broker.log.len(), 2);
    assert_eq!(state.broker.log[0].topic, "user-events");
    assert_eq!(state.broker.log[1].topic, "product-events");
    assert!(state.user_repo.get(user.id.bits).unwrap().is_some());
    assert!(state.product_repo.get(product.id.bits).unwrap().is_some());
}
