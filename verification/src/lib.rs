//! Authorization and state-transition engine for a multi-party retail
//! supply chain.
//!
//! The engine governs stores, suppliers, supply agreements, shipments,
//! disputes, verifier credentials and IoT sensor readings. Every mutation
//! of a shared record must be authorized by the correct party and must
//! follow a fixed table of legal state transitions; on failure the
//! operation returns a specific error and leaves every record unchanged.
//!
//! Durable storage, identity resolution, transport and event delivery are
//! external collaborators: the caller loads the records, supplies the
//! authenticated caller identity and the current time, and stores the
//! records and emitted events back.

pub mod agreement;
pub mod auth;
pub mod errors;
pub mod events;
pub mod iot;
pub mod laws;
pub mod shipment;
pub mod state;
pub mod store;
pub mod supplier;
