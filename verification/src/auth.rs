//! Authorization rules: pure predicates over records and the caller
//! identity, and the validators every state-changing operation uses.
//!
//! Denial always yields a specific error; an operation either fully
//! proceeds or is fully rejected before any mutation.

use vstd::prelude::*;

use crate::errors::SupplyChainError;
use crate::state::{AgreementStatus, EntityId, Store, Supplier, SupplyAgreement, VerifierCredential};

verus! {

/// The caller owns the store.
pub open spec fn is_store_owner(store: Store, caller: EntityId) -> bool {
    store.owner == caller
}

/// The supplier record is the caller's own.
pub open spec fn is_supplier_self(supplier: Supplier, caller: EntityId) -> bool {
    supplier.key == caller
}

/// The credential belongs to the caller and grants verifier rights.
pub open spec fn has_verifier_credential(credential: VerifierCredential, caller: EntityId) -> bool {
    credential.authority == caller && credential.is_verifier
}

/// An optional credential that belongs to the caller and grants verifier
/// rights.
pub open spec fn holds_verifier_credential(
    credentials: Option<&VerifierCredential>,
    caller: EntityId,
) -> bool {
    credentials matches Some(c) && has_verifier_credential(*c, caller)
}

/// The caller is a party to the agreement: its supplier (matching the
/// supplied supplier record's self-identifier), or the owner of its
/// store (matching the supplied store record under `store_id`).
pub open spec fn is_agreement_party(
    agreement: SupplyAgreement,
    caller: EntityId,
    supplier: Supplier,
    store_id: EntityId,
    store: Store,
) -> bool {
    ||| (agreement.supplier == caller && is_supplier_self(supplier, caller))
    ||| (agreement.store == store_id && is_store_owner(store, caller))
}

/// Registers a verifier credential for the calling identity.
pub fn register_verifier(
    caller: EntityId,
    verification_level: u8,
    organization: String,
) -> (credential: VerifierCredential)
    ensures
        credential == (VerifierCredential {
            authority: caller,
            is_verifier: true,
            verification_level,
            organization,
        }),
{
    VerifierCredential { authority: caller, is_verifier: true, verification_level, organization }
}

/// Validates that the caller may modify the store.
pub fn validate_store_authority(authority: EntityId, store: &Store) -> (check: Result<
    (),
    SupplyChainError,
>)
    ensures
        check == (if is_store_owner(*store, authority) {
            Ok::<(), SupplyChainError>(())
        } else {
            Err(SupplyChainError::Unauthorized)
        }),
{
    if store.owner == authority {
        Ok(())
    } else {
        Err(SupplyChainError::Unauthorized)
    }
}

/// Validates that the store is active.
pub fn validate_store_active(store: &Store) -> (check: Result<(), SupplyChainError>)
    ensures
        check == (if store.is_active {
            Ok::<(), SupplyChainError>(())
        } else {
            Err(SupplyChainError::StoreInactive)
        }),
{
    if store.is_active {
        Ok(())
    } else {
        Err(SupplyChainError::StoreInactive)
    }
}

/// Validates that the supplier is verified.
pub fn validate_supplier_verified(supplier: &Supplier) -> (check: Result<(), SupplyChainError>)
    ensures
        check == (if supplier.is_verified {
            Ok::<(), SupplyChainError>(())
        } else {
            Err(SupplyChainError::VerificationRequired)
        }),
{
    if supplier.is_verified {
        Ok(())
    } else {
        Err(SupplyChainError::VerificationRequired)
    }
}

/// The agreement joins exactly this supplier and this store and is
/// currently `Active`.
pub open spec fn supply_chain_related(
    supplier: Supplier,
    store_id: EntityId,
    agreement: SupplyAgreement,
) -> bool {
    &&& agreement.supplier == supplier.key
    &&& agreement.store == store_id
    &&& agreement.status is Active
}

/// Validates the relationship joining a supplier, a store and an active
/// agreement.
pub fn validate_supply_chain_relationship(
    supplier: &Supplier,
    store_id: EntityId,
    agreement: &SupplyAgreement,
) -> (check: Result<(), SupplyChainError>)
    ensures
        check == (if supply_chain_related(*supplier, store_id, *agreement) {
            Ok::<(), SupplyChainError>(())
        } else {
            Err(SupplyChainError::InvalidRelationship)
        }),
{
    if agreement.supplier == supplier.key && agreement.store == store_id && agreement.status
        == AgreementStatus::Active {
        Ok(())
    } else {
        Err(SupplyChainError::InvalidRelationship)
    }
}

/// Validates that the caller holds verifier credentials.
pub fn validate_verifier_credentials(
    authority: EntityId,
    credentials: &VerifierCredential,
) -> (check: Result<(), SupplyChainError>)
    ensures
        check == (if has_verifier_credential(*credentials, authority) {
            Ok::<(), SupplyChainError>(())
        } else {
            Err(SupplyChainError::UnauthorizedVerifier)
        }),
{
    if credentials.authority == authority && credentials.is_verifier {
        Ok(())
    } else {
        Err(SupplyChainError::UnauthorizedVerifier)
    }
}

} // verus!
