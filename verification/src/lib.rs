//! A generic transactional mutation pipeline: create, update and delete for
//! two entity kinds (users and products), each mutation running
//! validate -> persist -> notify against pluggable storage and broker ports.
//! A notification is only ever sent for a mutation that the storage port has
//! committed, and storage conflicts surface as a distinguishable error kind.

pub mod app_state;
pub mod errors;
pub mod ids;
pub mod laws;
pub mod memory;
pub mod models;
pub mod ports;
pub mod product_service;
pub mod repository;
pub mod service;
pub mod user_service;
