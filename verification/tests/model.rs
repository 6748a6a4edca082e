//! Unit tests for identifiers, row screening and the error taxonomy.

use mutation_pipeline::errors::{BrokerError, ServiceError, StoreError};
use mutation_pipeline::ids::{EntityId, Identifiable};
use mutation_pipeline::models::{screen_product, screen_user};
use uuid::Uuid;

#[test]
fn identity_text_is_the_hyphenated_uuid_form() {
    let bits: u128 = 0x00112233445566778899aabbccddeeff;
    let id = EntityId { bits };
    assert_eq!(id.id(), "00112233-4455-6677-8899-aabbccddeeff");
    assert_eq!(id.id(), Uuid::from_u128(bits).to_string());
    assert_eq!(id.id().len(), 36);
}

#[test]
fn identity_text_of_zero() {
    let id = EntityId { bits: 0 };
    assert_eq!(id.id(), "00000000-0000-0000-0000-000000000000");
}

#[test]
fn screening_rejects_blank_user_fields() {
    let id = EntityId { bits: 1 };
    assert!(screen_user(id, String::new(), "ada@example.com".to_string()).is_none());
    assert!(screen_user(id, "Ada".to_string(), String::new()).is_none());
    let user = screen_user(id, "Ada".to_string(), "ada@example.com".to_string()).unwrap();
    assert_eq!(user.id, id);
    assert_eq!(user.name, "Ada");
    assert_eq!(user.email, "ada@example.com");
}

#[test]
fn screening_rejects_blank_product_name() {
    let id = EntityId { bits: 2 };
    assert!(screen_product(id, String::new(), 10).is_none());
    let product = screen_product(id, "Widget".to_string(), 10).unwrap();
    assert_eq!(product.id, id);
    assert_eq!(product.name, "Widget");
    assert_eq!(product.price, 10);
}

#[test]
fn store_errors_normalize() {
    assert_eq!(ServiceError::from_store(StoreError::Conflict), ServiceError::AlreadyExists);
    assert_eq!(ServiceError::from_store(StoreError::NotFound), ServiceError::NotFound);
    assert_eq!(ServiceError::from_store(StoreError::Unavailable), ServiceError::Unavailable);
}

#[test]
fn broker_errors_normalize_to_unavailable() {
    assert_eq!(ServiceError::from_broker(BrokerError::Unavailable), ServiceError::Unavailable);
    assert_eq!(ServiceError::from_broker(BrokerError::Serialization), ServiceError::Unavailable);
}

#[test]
fn status_codes_distinguish_rejection_from_failure() {
    assert_eq!(ServiceError::AlreadyExists.status_code(), 400);
    assert_eq!(ServiceError::NotFound.status_code(), 500);
    assert_eq!(ServiceError::Unavailable.status_code(), 500);
}
