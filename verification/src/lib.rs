//! Ledger for prepaid, NFC-linked payment cards funded and settled in a
//! single fungible asset. The core is the card state machine: registration,
//! funding, point-of-sale charges under a rolling daily spend cap,
//! withdrawal, and activation toggling. The execution substrate (durable
//! storage, signature checks, the asset-transfer mechanism, event delivery,
//! and the clock) is an external collaborator: a host drives this library
//! with plain values and performs those effects itself.

pub mod events;
pub mod laws;
pub mod manager;
pub mod model;
pub mod store;
pub mod types;
