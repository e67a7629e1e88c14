//! The typed event records an operation emits on success.
//!
//! Each event carries enough fields to reconstruct the transition
//! (old and new status, actor, timestamp) for external audit consumers.
//! Delivery and storage of events belong to the caller.

use vstd::prelude::*;

use crate::state::{EntityId, SupplyChainEvent};

verus! {

/// Appends a generic audit log entry. Any caller may record; the
/// engine only timestamps the entry.
pub fn record_supply_chain_event(
    caller: EntityId,
    related_entity: EntityId,
    event_type: u8,
    location: String,
    timestamp: i64,
    metadata: String,
    now: i64,
) -> (entry: SupplyChainEvent)
    ensures
        entry == (SupplyChainEvent {
            event_type,
            recorder: caller,
            related_entity,
            location,
            timestamp,
            metadata,
            created_at: now,
        }),
{
    SupplyChainEvent {
        event_type,
        recorder: caller,
        related_entity,
        location,
        timestamp,
        metadata,
        created_at: now,
    }
}

/// A supply agreement was created.
#[derive(Clone, PartialEq, Debug)]
pub struct AgreementCreatedEvent {
    pub agreement: EntityId,
    pub supplier: EntityId,
    pub store: EntityId,
    pub payment_amount: u64,
    pub deadline: i64,
    pub timestamp: i64,
}

/// An agreement moved between lifecycle states (wire codes).
#[derive(Clone, PartialEq, Debug)]
pub struct AgreementStatusUpdatedEvent {
    pub agreement: EntityId,
    pub old_status: u8,
    pub new_status: u8,
    pub updated_by: EntityId,
    pub timestamp: i64,
}

/// Products were appended to an agreement.
#[derive(Clone, PartialEq, Debug)]
pub struct ProductsAddedToAgreementEvent {
    pub agreement: EntityId,
    pub products: Vec<EntityId>,
    pub added_by: EntityId,
    pub timestamp: i64,
}

/// A dispute was raised against an agreement.
#[derive(Clone, PartialEq, Debug)]
pub struct AgreementDisputedEvent {
    pub agreement: EntityId,
    pub dispute: EntityId,
    pub initiated_by: EntityId,
    pub timestamp: i64,
}

/// A dispute was resolved with a three-way outcome code.
#[derive(Clone, PartialEq, Debug)]
pub struct DisputeResolvedEvent {
    pub dispute: EntityId,
    pub agreement: EntityId,
    pub resolved_by: EntityId,
    pub outcome: u8,
    pub timestamp: i64,
}

/// A shipment record was created.
#[derive(Clone, PartialEq, Debug)]
pub struct ShipmentCreatedEvent {
    pub shipment: EntityId,
    pub supplier: EntityId,
    pub destination: EntityId,
    pub tracking_id: String,
    pub estimated_arrival: i64,
    pub timestamp: i64,
}

/// A shipment moved between lifecycle states (wire codes).
#[derive(Clone, PartialEq, Debug)]
pub struct ShipmentStatusUpdatedEvent {
    pub shipment: EntityId,
    pub old_status: u8,
    pub new_status: u8,
    pub updated_by: EntityId,
    pub timestamp: i64,
}

/// A delivered shipment was verified by the destination store's owner.
#[derive(Clone, PartialEq, Debug)]
pub struct ShipmentVerifiedEvent {
    pub shipment: EntityId,
    pub verified_by: EntityId,
    pub timestamp: i64,
}

/// An exception was filed against a shipment.
#[derive(Clone, PartialEq, Debug)]
pub struct ShipmentExceptionEvent {
    pub shipment: EntityId,
    pub reported_by: EntityId,
    pub details: String,
    pub timestamp: i64,
}

/// A track point was recorded for a shipment. Coordinates are
/// fixed-point microdegrees.
#[derive(Clone, PartialEq, Debug)]
pub struct ShipmentLocationEvent {
    pub shipment: EntityId,
    pub latitude: i64,
    pub longitude: i64,
    pub location_name: String,
    pub timestamp: i64,
}

/// An agreement was completed as a side effect of delivery verification.
#[derive(Clone, PartialEq, Debug)]
pub struct AgreementCompletedEvent {
    pub agreement: EntityId,
    pub completed_at: i64,
}

} // verus!
