//! The shipment state machine and shipment tracking.
//!
//! `Created -> InTransit -> {Delivered, Exception}`,
//! `Exception <-> InTransit`, `Delivered -> Verified`. Every successful
//! transition records the acting identity, without duplicates. Delivery
//! verification is restricted to the destination store's owner and may
//! atomically complete a linked `Active` agreement.

use vstd::prelude::*;

use crate::auth::{holds_verifier_credential, is_store_owner, is_supplier_self};
use crate::errors::SupplyChainError;
use crate::events::{
    AgreementCompletedEvent, ShipmentCreatedEvent, ShipmentExceptionEvent, ShipmentLocationEvent,
    ShipmentStatusUpdatedEvent, ShipmentVerifiedEvent,
};
use crate::state::{
    agreement_invariant, agreement_step_allowed, record_actor, shipment_code_step_allowed,
    shipment_invariant,
    shipment_step_allowed, with_actor, AgreementStatus, EntityId, ShipmentLocation,
    ShipmentRecord, ShipmentStatus, StatusConversion, Store, Supplier, SupplyAgreement,
    VerifierCredential,
};

verus! {

/// Tracking identifiers are non-empty and at most 32 characters.
pub open spec fn tracking_id_valid(tracking_id: Seq<char>) -> bool {
    0 < tracking_id.len() <= 32
}

/// The composite shipment-update rule: the caller is the shipment's
/// supplier (presenting their own record), or owns the destination
/// store (presented under `store_id`), or holds a verifier credential.
pub open spec fn may_update_shipment(
    shipment: ShipmentRecord,
    caller: EntityId,
    supplier: Supplier,
    store_id: EntityId,
    store: Store,
    credentials: Option<&VerifierCredential>,
) -> bool {
    ||| (shipment.supplier == supplier.key && is_supplier_self(supplier, caller))
    ||| (shipment.destination == store_id && is_store_owner(store, caller))
    ||| holds_verifier_credential(credentials, caller)
}

/// The caller may record track points: the shipment's supplier or a
/// verifier-credentialed identity.
pub open spec fn may_track_shipment(
    shipment: ShipmentRecord,
    caller: EntityId,
    credentials: Option<&VerifierCredential>,
) -> bool {
    shipment.supplier == caller || holds_verifier_credential(credentials, caller)
}

/// The caller owns the shipment's destination store, presented under
/// `store_id`.
pub open spec fn owns_shipment_destination(
    shipment: ShipmentRecord,
    caller: EntityId,
    store_id: EntityId,
    store: Store,
) -> bool {
    shipment.destination == store_id && is_store_owner(store, caller)
}

/// Exceptions and track points are taken while the shipment is on the
/// road: `InTransit` or already `Exception`.
pub open spec fn shipment_en_route(status: ShipmentStatus) -> bool {
    status is InTransit || status is Exception
}

/// Creates a shipment record in `Created`. Only a verified supplier may
/// create, for themselves; the tracking identifier must be non-empty
/// and at most 32 characters, and the estimated arrival must lie
/// strictly after `now`.
pub fn create_shipment(
    caller: EntityId,
    supplier: &Supplier,
    store_id: EntityId,
    shipment_id: EntityId,
    tracking_id: String,
    origin_location: String,
    destination_location: String,
    estimated_arrival: i64,
    products: Vec<EntityId>,
    now: i64,
) -> (result: Result<(ShipmentRecord, ShipmentCreatedEvent), SupplyChainError>)
    ensures
        result is Ok <==> {
            &&& supplier.key == caller
            &&& supplier.is_verified
            &&& tracking_id_valid(tracking_id@)
            &&& estimated_arrival > now
        },
        supplier.key != caller ==> result == Err::<
            (ShipmentRecord, ShipmentCreatedEvent),
            SupplyChainError,
        >(SupplyChainError::Unauthorized),
        supplier.key == caller && !supplier.is_verified ==> result == Err::<
            (ShipmentRecord, ShipmentCreatedEvent),
            SupplyChainError,
        >(SupplyChainError::VerificationRequired),
        supplier.key == caller && supplier.is_verified && !tracking_id_valid(tracking_id@)
            ==> result == Err::<(ShipmentRecord, ShipmentCreatedEvent), SupplyChainError>(
            SupplyChainError::InvalidData,
        ),
        supplier.key == caller && supplier.is_verified && tracking_id_valid(tracking_id@)
            && estimated_arrival <= now ==> result == Err::<
            (ShipmentRecord, ShipmentCreatedEvent),
            SupplyChainError,
        >(SupplyChainError::InvalidData),
        result matches Ok(created) ==> {
            &&& created.0.tracking_id == tracking_id
            &&& created.0.supplier == supplier.key
            &&& created.0.destination == store_id
            &&& created.0.origin_location == origin_location
            &&& created.0.destination_location == destination_location
            &&& created.0.created_at == now
            &&& created.0.estimated_arrival == estimated_arrival
            &&& created.0.status is Created
            &&& created.0.products == products
            &&& created.0.verified_by@ =~= Seq::<EntityId>::empty()
            &&& shipment_invariant(created.0)
            &&& created.1 == (ShipmentCreatedEvent {
                shipment: shipment_id,
                supplier: supplier.key,
                destination: store_id,
                tracking_id,
                estimated_arrival,
                timestamp: now,
            })
        },
{
    if supplier.key != caller {
        return Err(SupplyChainError::Unauthorized);
    }
    if !supplier.is_verified {
        return Err(SupplyChainError::VerificationRequired);
    }
    let tracking_len = tracking_id.as_str().unicode_len();
    if tracking_len == 0 || tracking_len > 32 {
        return Err(SupplyChainError::InvalidData);
    }
    if estimated_arrival <= now {
        return Err(SupplyChainError::InvalidData);
    }
    let event = ShipmentCreatedEvent {
        shipment: shipment_id,
        supplier: supplier.key,
        destination: store_id,
        tracking_id: tracking_id.clone(),
        estimated_arrival,
        timestamp: now,
    };
    let shipment = ShipmentRecord {
        tracking_id,
        supplier: supplier.key,
        destination: store_id,
        origin_location,
        destination_location,
        created_at: now,
        estimated_arrival,
        status: ShipmentStatus::Created,
        products,
        verified_by: Vec::new(),
    };
    Ok((shipment, event))
}

/// Moves a shipment along the transition table, given the new status in
/// wire form. Any pair outside the allow-list fails with
/// `InvalidStatusTransition` and leaves the record unchanged. On
/// success the acting identity is recorded.
pub fn update_shipment_status(
    shipment: &mut ShipmentRecord,
    shipment_id: EntityId,
    caller: EntityId,
    supplier: &Supplier,
    store_id: EntityId,
    store: &Store,
    credentials: Option<&VerifierCredential>,
    new_status: u8,
    now: i64,
) -> (result: Result<ShipmentStatusUpdatedEvent, SupplyChainError>)
    ensures
        result is Ok <==> may_update_shipment(
            *old(shipment),
            caller,
            *supplier,
            store_id,
            *store,
            credentials,
        ) && shipment_code_step_allowed(old(shipment).status.spec_to_u8(), new_status),
        !may_update_shipment(*old(shipment), caller, *supplier, store_id, *store, credentials)
            ==> result == Err::<ShipmentStatusUpdatedEvent, SupplyChainError>(
            SupplyChainError::Unauthorized,
        ),
        may_update_shipment(*old(shipment), caller, *supplier, store_id, *store, credentials)
            && !shipment_code_step_allowed(old(shipment).status.spec_to_u8(), new_status)
            ==> result == Err::<ShipmentStatusUpdatedEvent, SupplyChainError>(
            SupplyChainError::InvalidStatusTransition,
        ),
        result is Err ==> *final(shipment) == *old(shipment),
        result matches Ok(event) ==> {
            &&& Some(final(shipment).status)
                == <ShipmentStatus as StatusConversion>::spec_from_u8(new_status)
            &&& shipment_step_allowed(old(shipment).status, final(shipment).status)
            &&& final(shipment).verified_by@ == with_actor(old(shipment).verified_by@, caller)
            &&& *final(shipment) == (ShipmentRecord {
                status: final(shipment).status,
                verified_by: final(shipment).verified_by,
                ..*old(shipment)
            })
            &&& event == (ShipmentStatusUpdatedEvent {
                shipment: shipment_id,
                old_status: old(shipment).status.spec_to_u8(),
                new_status,
                updated_by: caller,
                timestamp: now,
            })
        },
        shipment_invariant(*old(shipment)) ==> shipment_invariant(*final(shipment)),
{
    let authorized = (shipment.supplier == supplier.key && supplier.key == caller) || (
    shipment.destination == store_id && store.owner == caller) || (match credentials {
        Some(c) => c.authority == caller && c.is_verifier,
        None => false,
    });
    if !authorized {
        return Err(SupplyChainError::Unauthorized);
    }
    let current = shipment.status.to_u8();
    if !crate::state::is_valid_status_transition(current, new_status) {
        return Err(SupplyChainError::InvalidStatusTransition);
    }
    match ShipmentStatus::from_u8(new_status) {
        Some(next) => {
            shipment.status = next;
        },
        None => {
            return Err(SupplyChainError::InvalidStatusTransition);
        },
    }
    record_actor(&mut shipment.verified_by, caller);
    Ok(
        ShipmentStatusUpdatedEvent {
            shipment: shipment_id,
            old_status: current,
            new_status,
            updated_by: caller,
            timestamp: now,
        },
    )
}

/// Verifies delivery of a `Delivered` shipment, moving it to the
/// terminal `Verified` state. Only the destination store's owner may
/// verify. If a linked agreement is supplied and is `Active`, it is
/// completed in the same indivisible step and a second event reports
/// that side effect.
pub fn verify_shipment_delivery(
    shipment: &mut ShipmentRecord,
    shipment_id: EntityId,
    caller: EntityId,
    store_id: EntityId,
    store: &Store,
    linked_agreement: &mut Option<(EntityId, SupplyAgreement)>,
    now: i64,
) -> (result: Result<(ShipmentVerifiedEvent, Option<AgreementCompletedEvent>), SupplyChainError>)
    ensures
        result is Ok <==> owns_shipment_destination(*old(shipment), caller, store_id, *store)
            && old(shipment).status is Delivered,
        !owns_shipment_destination(*old(shipment), caller, store_id, *store) ==> result == Err::<
            (ShipmentVerifiedEvent, Option<AgreementCompletedEvent>),
            SupplyChainError,
        >(SupplyChainError::Unauthorized),
        owns_shipment_destination(*old(shipment), caller, store_id, *store) && !(old(
            shipment,
        ).status is Delivered) ==> result == Err::<
            (ShipmentVerifiedEvent, Option<AgreementCompletedEvent>),
            SupplyChainError,
        >(SupplyChainError::InvalidStatusTransition),
        result is Err ==> *final(shipment) == *old(shipment) && *final(linked_agreement) == *old(
            linked_agreement,
        ),
        result matches Ok(emitted) ==> {
            &&& final(shipment).status is Verified
            &&& shipment_step_allowed(old(shipment).status, final(shipment).status)
            &&& final(shipment).verified_by@ == with_actor(old(shipment).verified_by@, caller)
            &&& *final(shipment) == (ShipmentRecord {
                status: final(shipment).status,
                verified_by: final(shipment).verified_by,
                ..*old(shipment)
            })
            &&& emitted.0 == (ShipmentVerifiedEvent {
                shipment: shipment_id,
                verified_by: caller,
                timestamp: now,
            })
        },
        (*old(linked_agreement)) matches Some(pair) ==> (result is Ok && pair.1.status is Active
            ==> *final(linked_agreement) == Some(
            (pair.0, SupplyAgreement { status: AgreementStatus::Completed, ..pair.1 }),
        ) && agreement_step_allowed(pair.1.status, AgreementStatus::Completed) && result->Ok_0.1
            == Some(AgreementCompletedEvent { agreement: pair.0, completed_at: now })),
        (*old(linked_agreement)) matches Some(pair) ==> (result is Ok && !(pair.1.status is Active)
            ==> *final(linked_agreement) == *old(linked_agreement) && result->Ok_0.1 is None),
        result is Ok && *old(linked_agreement) is None ==> *final(linked_agreement) is None
            && result->Ok_0.1 is None,
        shipment_invariant(*old(shipment)) ==> shipment_invariant(*final(shipment)),
        (*old(linked_agreement)) matches Some(pair) ==> ((*final(linked_agreement)) matches Some(fp)
            && fp.0 == pair.0 && (agreement_invariant(pair.1) ==> agreement_invariant(fp.1))),
{
    if !(shipment.destination == store_id && store.owner == caller) {
        return Err(SupplyChainError::Unauthorized);
    }
    if !(shipment.status == ShipmentStatus::Delivered) {
        return Err(SupplyChainError::InvalidStatusTransition);
    }
    shipment.status = ShipmentStatus::Verified;
    record_actor(&mut shipment.verified_by, caller);
    let event = ShipmentVerifiedEvent { shipment: shipment_id, verified_by: caller, timestamp: now };
    let mut completed: Option<AgreementCompletedEvent> = None;
    match linked_agreement {
        Some(pair) => {
            if pair.1.status == AgreementStatus::Active {
                pair.1.status = AgreementStatus::Completed;
                completed = Some(AgreementCompletedEvent { agreement: pair.0, completed_at: now });
            }
        },
        None => {},
    }
    Ok((event, completed))
}

/// Files an exception against a shipment that is `InTransit` or already
/// `Exception`, forcing the status to `Exception` and recording the
/// reporting identity. The supplier, the destination owner or a
/// verifier-credentialed identity may file.
pub fn add_shipment_exception(
    shipment: &mut ShipmentRecord,
    shipment_id: EntityId,
    caller: EntityId,
    supplier: &Supplier,
    store_id: EntityId,
    store: &Store,
    credentials: Option<&VerifierCredential>,
    exception_details: String,
    now: i64,
) -> (result: Result<ShipmentExceptionEvent, SupplyChainError>)
    ensures
        result is Ok <==> may_update_shipment(
            *old(shipment),
            caller,
            *supplier,
            store_id,
            *store,
            credentials,
        ) && shipment_en_route(old(shipment).status),
        !may_update_shipment(*old(shipment), caller, *supplier, store_id, *store, credentials)
            ==> result == Err::<ShipmentExceptionEvent, SupplyChainError>(
            SupplyChainError::Unauthorized,
        ),
        may_update_shipment(*old(shipment), caller, *supplier, store_id, *store, credentials)
            && !shipment_en_route(old(shipment).status) ==> result == Err::<
            ShipmentExceptionEvent,
            SupplyChainError,
        >(SupplyChainError::InvalidStatusTransition),
        result is Err ==> *final(shipment) == *old(shipment),
        result matches Ok(event) ==> {
            &&& final(shipment).status is Exception
            &&& final(shipment).verified_by@ == with_actor(old(shipment).verified_by@, caller)
            &&& *final(shipment) == (ShipmentRecord {
                status: final(shipment).status,
                verified_by: final(shipment).verified_by,
                ..*old(shipment)
            })
            &&& event == (ShipmentExceptionEvent {
                shipment: shipment_id,
                reported_by: caller,
                details: exception_details,
                timestamp: now,
            })
        },
        shipment_invariant(*old(shipment)) ==> shipment_invariant(*final(shipment)),
{
    let authorized = (shipment.supplier == supplier.key && supplier.key == caller) || (
    shipment.destination == store_id && store.owner == caller) || (match credentials {
        Some(c) => c.authority == caller && c.is_verifier,
        None => false,
    });
    if !authorized {
        return Err(SupplyChainError::Unauthorized);
    }
    if !(shipment.status == ShipmentStatus::InTransit || shipment.status
        == ShipmentStatus::Exception) {
        return Err(SupplyChainError::InvalidStatusTransition);
    }
    shipment.status = ShipmentStatus::Exception;
    record_actor(&mut shipment.verified_by, caller);
    Ok(
        ShipmentExceptionEvent {
            shipment: shipment_id,
            reported_by: caller,
            details: exception_details,
            timestamp: now,
        },
    )
}

/// Records a point-in-time track point for a shipment that is
/// `InTransit` or `Exception`. The supplier or a verifier-credentialed
/// identity may record. Coordinates are fixed-point microdegrees.
pub fn record_shipment_location(
    shipment: &ShipmentRecord,
    shipment_id: EntityId,
    caller: EntityId,
    credentials: Option<&VerifierCredential>,
    latitude: i64,
    longitude: i64,
    location_name: String,
    now: i64,
) -> (result: Result<(ShipmentLocation, ShipmentLocationEvent), SupplyChainError>)
    ensures
        result is Ok <==> may_track_shipment(*shipment, caller, credentials) && shipment_en_route(
            shipment.status,
        ),
        !may_track_shipment(*shipment, caller, credentials) ==> result == Err::<
            (ShipmentLocation, ShipmentLocationEvent),
            SupplyChainError,
        >(SupplyChainError::Unauthorized),
        may_track_shipment(*shipment, caller, credentials) && !shipment_en_route(shipment.status)
            ==> result == Err::<(ShipmentLocation, ShipmentLocationEvent), SupplyChainError>(
            SupplyChainError::InvalidStatusTransition,
        ),
        result matches Ok(recorded) ==> {
            &&& recorded.0 == (ShipmentLocation {
                shipment: shipment_id,
                latitude,
                longitude,
                location_name,
                timestamp: now,
                recorded_by: caller,
            })
            &&& recorded.1 == (ShipmentLocationEvent {
                shipment: shipment_id,
                latitude,
                longitude,
                location_name,
                timestamp: now,
            })
        },
{
    let authorized = shipment.supplier == caller || (match credentials {
        Some(c) => c.authority == caller && c.is_verifier,
        None => false,
    });
    if !authorized {
        return Err(SupplyChainError::Unauthorized);
    }
    if !(shipment.status == ShipmentStatus::InTransit || shipment.status
        == ShipmentStatus::Exception) {
        return Err(SupplyChainError::InvalidStatusTransition);
    }
    let record = ShipmentLocation {
        shipment: shipment_id,
        latitude,
        longitude,
        location_name: location_name.clone(),
        timestamp: now,
        recorded_by: caller,
    };
    let event = ShipmentLocationEvent {
        shipment: shipment_id,
        latitude,
        longitude,
        location_name,
        timestamp: now,
    };
    Ok((record, event))
}

} // verus!
