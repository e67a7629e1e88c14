//! IoT sensor readings: stored unverified, verified one way by a
//! credentialed caller.

use vstd::prelude::*;

use crate::auth::has_verifier_credential;
use crate::errors::SupplyChainError;
use crate::state::{EntityId, IoTDataRecord, VerifierCredential};

verus! {

/// Stores a sensor reading for a shipment, unverified.
pub fn add_iot_data(
    caller: EntityId,
    shipment_id: EntityId,
    data_type: u8,
    value: String,
    timestamp: i64,
) -> (record: IoTDataRecord)
    ensures
        record == (IoTDataRecord {
            shipment: shipment_id,
            data_type,
            value,
            timestamp,
            recorder: caller,
            is_verified: false,
        }),
{
    IoTDataRecord {
        shipment: shipment_id,
        data_type,
        value,
        timestamp,
        recorder: caller,
        is_verified: false,
    }
}

/// Marks a reading verified: a one-way flip restricted to a
/// verifier-credentialed caller. Re-verification is a no-op, not an
/// error.
pub fn verify_iot_data(
    iot_record: &mut IoTDataRecord,
    caller: EntityId,
    credentials: &VerifierCredential,
) -> (result: Result<(), SupplyChainError>)
    ensures
        result is Ok <==> has_verifier_credential(*credentials, caller),
        result is Err ==> result == Err::<(), SupplyChainError>(
            SupplyChainError::UnauthorizedVerifier,
        ) && *final(iot_record) == *old(iot_record),
        result is Ok ==> *final(iot_record) == (IoTDataRecord {
            is_verified: true,
            ..*old(iot_record)
        }),
{
    if !(credentials.authority == caller && credentials.is_verifier) {
        return Err(SupplyChainError::UnauthorizedVerifier);
    }
    iot_record.is_verified = true;
    Ok(())
}

} // verus!
