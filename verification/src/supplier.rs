//! Supplier registration, verification, rating and the supplier
//! catalog.

use vstd::prelude::*;

use crate::auth::{has_verifier_credential, is_store_owner, is_supplier_self};
use crate::errors::SupplyChainError;
use crate::state::{
    AgreementStatus, EntityId, Store, Supplier, SupplierProduct, SupplyAgreement,
    VerifierCredential,
};

verus! {

/// The supplier may be marked verified by themselves or by a
/// verifier-credentialed caller.
pub open spec fn may_verify_supplier(
    supplier: Supplier,
    caller: EntityId,
    credentials: Option<&VerifierCredential>,
) -> bool {
    is_supplier_self(supplier, caller) || (credentials matches Some(c)
        && has_verifier_credential(*c, caller))
}

/// The caller owns the store of a `Completed` agreement with this
/// supplier: only such a store may rate.
pub open spec fn may_rate_supplier(
    supplier: Supplier,
    caller: EntityId,
    store_id: EntityId,
    store: Store,
    agreement: SupplyAgreement,
) -> bool {
    &&& is_store_owner(store, caller)
    &&& agreement.store == store_id
    &&& agreement.supplier == supplier.key
    &&& agreement.status is Completed
}

/// Registers a supplier for the calling identity: unverified, unrated,
/// with an empty cumulative product counter.
pub fn register_supplier(
    caller: EntityId,
    name: String,
    certification: String,
    description: String,
    now: i64,
) -> (supplier: Supplier)
    ensures
        supplier == (Supplier {
            key: caller,
            name,
            certification,
            description,
            products_supplied: 0,
            is_verified: false,
            rating: 0,
            created_at: now,
        }),
{
    Supplier {
        key: caller,
        name,
        certification,
        description,
        products_supplied: 0,
        is_verified: false,
        rating: 0,
        created_at: now,
    }
}

/// Marks a supplier verified: a one-way flip, open to the supplier
/// themselves or to a verifier-credentialed caller.
pub fn verify_supplier(
    supplier: &mut Supplier,
    caller: EntityId,
    credentials: Option<&VerifierCredential>,
) -> (result: Result<(), SupplyChainError>)
    ensures
        result is Ok <==> may_verify_supplier(*old(supplier), caller, credentials),
        result is Err ==> result == Err::<(), SupplyChainError>(
            SupplyChainError::UnauthorizedVerifier,
        ) && *final(supplier) == *old(supplier),
        result is Ok ==> *final(supplier) == (Supplier { is_verified: true, ..*old(supplier) }),
{
    let authorized = supplier.key == caller || (match credentials {
        Some(c) => c.authority == caller && c.is_verifier,
        None => false,
    });
    if !authorized {
        return Err(SupplyChainError::UnauthorizedVerifier);
    }
    supplier.is_verified = true;
    Ok(())
}

/// Overwrites the supplier's certification and description where given.
/// Only the supplier themselves may update.
pub fn update_supplier(
    supplier: &mut Supplier,
    caller: EntityId,
    certification: Option<String>,
    description: Option<String>,
) -> (result: Result<(), SupplyChainError>)
    ensures
        result is Ok <==> old(supplier).key == caller,
        result is Err ==> result == Err::<(), SupplyChainError>(SupplyChainError::Unauthorized)
            && *final(supplier) == *old(supplier),
        result is Ok ==> {
            &&& *final(supplier) == (Supplier {
                certification: final(supplier).certification,
                description: final(supplier).description,
                ..*old(supplier)
            })
            &&& final(supplier).certification == (match certification {
                Some(c) => c,
                None => old(supplier).certification,
            })
            &&& final(supplier).description == (match description {
                Some(d) => d,
                None => old(supplier).description,
            })
        },
{
    if supplier.key != caller {
        return Err(SupplyChainError::Unauthorized);
    }
    match certification {
        Some(new_certification) => {
            supplier.certification = new_certification;
        },
        None => {},
    }
    match description {
        Some(new_description) => {
            supplier.description = new_description;
        },
        None => {},
    }
    Ok(())
}

/// Overwrites the supplier's rating with a value between 0 and 5, on
/// behalf of a store that completed an agreement with this supplier.
/// A rating above 5 always fails with `InvalidData`.
pub fn rate_supplier(
    supplier: &mut Supplier,
    caller: EntityId,
    store_id: EntityId,
    store: &Store,
    agreement: &SupplyAgreement,
    rating: u8,
) -> (result: Result<(), SupplyChainError>)
    ensures
        result is Ok <==> rating <= 5 && may_rate_supplier(
            *old(supplier),
            caller,
            store_id,
            *store,
            *agreement,
        ),
        rating > 5 ==> result == Err::<(), SupplyChainError>(SupplyChainError::InvalidData),
        rating <= 5 && !may_rate_supplier(*old(supplier), caller, store_id, *store, *agreement)
            ==> result == Err::<(), SupplyChainError>(SupplyChainError::Unauthorized),
        result is Err ==> *final(supplier) == *old(supplier),
        result is Ok ==> *final(supplier) == (Supplier { rating, ..*old(supplier) }),
{
    if rating > 5 {
        return Err(SupplyChainError::InvalidData);
    }
    if store.owner != caller {
        return Err(SupplyChainError::Unauthorized);
    }
    if !(agreement.store == store_id && agreement.supplier == supplier.key && agreement.status
        == AgreementStatus::Completed) {
        return Err(SupplyChainError::Unauthorized);
    }
    supplier.rating = rating;
    Ok(())
}

/// Appends a catalog entry for a verified supplier and increments the
/// cumulative products-supplied counter with overflow-checked
/// arithmetic: overflow is a fatal `ArithmeticError`, never a wrap.
pub fn add_product_to_supplier_catalog(
    supplier: &mut Supplier,
    caller: EntityId,
    name: String,
    description: String,
    price: u64,
    available_quantity: u64,
    now: i64,
) -> (result: Result<SupplierProduct, SupplyChainError>)
    ensures
        result is Ok <==> old(supplier).key == caller && old(supplier).is_verified && old(
            supplier,
        ).products_supplied < u64::MAX,
        old(supplier).key != caller ==> result == Err::<SupplierProduct, SupplyChainError>(
            SupplyChainError::Unauthorized,
        ),
        old(supplier).key == caller && !old(supplier).is_verified ==> result == Err::<
            SupplierProduct,
            SupplyChainError,
        >(SupplyChainError::VerificationRequired),
        old(supplier).key == caller && old(supplier).is_verified && old(supplier).products_supplied
            == u64::MAX ==> result == Err::<SupplierProduct, SupplyChainError>(
            SupplyChainError::ArithmeticError,
        ),
        result is Err ==> *final(supplier) == *old(supplier),
        result matches Ok(entry) ==> {
            &&& *final(supplier) == (Supplier {
                products_supplied: (old(supplier).products_supplied + 1) as u64,
                ..*old(supplier)
            })
            &&& entry == (SupplierProduct {
                supplier: old(supplier).key,
                name,
                description,
                price,
                available_quantity,
                created_at: now,
            })
        },
{
    if supplier.key != caller {
        return Err(SupplyChainError::Unauthorized);
    }
    if !supplier.is_verified {
        return Err(SupplyChainError::VerificationRequired);
    }
    if supplier.products_supplied == u64::MAX {
        return Err(SupplyChainError::ArithmeticError);
    }
    let entry = SupplierProduct {
        supplier: supplier.key,
        name,
        description,
        price,
        available_quantity,
        created_at: now,
    };
    supplier.products_supplied = supplier.products_supplied + 1;
    Ok(entry)
}

} // verus!
