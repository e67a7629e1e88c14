//! The agreement state machine, with its embedded dispute sub-lifecycle.
//!
//! `Pending -> Active -> {Completed, Disputed, Canceled}`,
//! `Disputed -> {Active, Completed, Canceled}` (only via dispute
//! resolution), `Pending -> Canceled`. `Completed` and `Canceled` are
//! terminal. Validation failures leave every record unchanged.

use vstd::prelude::*;

use crate::auth::{has_verifier_credential, is_agreement_party, is_store_owner, is_supplier_self};
use crate::errors::SupplyChainError;
use crate::events::{
    AgreementCreatedEvent, AgreementDisputedEvent, AgreementStatusUpdatedEvent,
    DisputeResolvedEvent, ProductsAddedToAgreementEvent,
};
use crate::state::{
    agreement_invariant, agreement_step_allowed, contains_id, distinct_ids,
    lemma_union_append_distinct, lemma_union_append_membership, union_append, AgreementDispute,
    AgreementStatus, EntityId, StatusConversion, Store, Supplier, SupplyAgreement,
    VerifierCredential,
};

verus! {

/// Either prospective party may create the agreement record.
pub open spec fn may_create_agreement(supplier: Supplier, store: Store, caller: EntityId) -> bool {
    is_supplier_self(supplier, caller) || is_store_owner(store, caller)
}

/// Terms must be non-empty and at most 200 characters.
pub open spec fn terms_valid(terms: Seq<char>) -> bool {
    0 < terms.len() <= 200
}

/// The caller owns the agreement's destination store, presented under
/// `store_id`.
pub open spec fn owns_agreement_store(
    agreement: SupplyAgreement,
    caller: EntityId,
    store_id: EntityId,
    store: Store,
) -> bool {
    agreement.store == store_id && is_store_owner(store, caller)
}

/// Only the agreement's supplier, presenting their own record, may add
/// products.
pub open spec fn may_add_products(
    agreement: SupplyAgreement,
    caller: EntityId,
    supplier: Supplier,
) -> bool {
    agreement.supplier == caller && is_supplier_self(supplier, caller)
}

/// Products may be added, and the agreement canceled, while `Pending`
/// or `Active`.
pub open spec fn agreement_updatable(status: AgreementStatus) -> bool {
    status is Pending || status is Active
}

/// The post-resolution agreement status a three-way outcome code
/// selects, if the code is in range.
pub open spec fn outcome_status(outcome: u8) -> Option<AgreementStatus> {
    if outcome == 0 {
        Some(AgreementStatus::Active)
    } else if outcome == 1 {
        Some(AgreementStatus::Completed)
    } else if outcome == 2 {
        Some(AgreementStatus::Canceled)
    } else {
        None
    }
}

/// Creates a supply agreement in `Pending` with an empty product list.
///
/// Requires non-empty terms of at most 200 characters, a deadline
/// strictly after `now` and a positive payment amount.
pub fn create_supply_agreement(
    caller: EntityId,
    supplier: &Supplier,
    store_id: EntityId,
    store: &Store,
    agreement_id: EntityId,
    terms: String,
    deadline: i64,
    payment_amount: u64,
    now: i64,
) -> (result: Result<(SupplyAgreement, AgreementCreatedEvent), SupplyChainError>)
    ensures
        result is Ok <==> {
            &&& may_create_agreement(*supplier, *store, caller)
            &&& terms_valid(terms@)
            &&& deadline > now
            &&& payment_amount > 0
        },
        !may_create_agreement(*supplier, *store, caller) ==> result == Err::<
            (SupplyAgreement, AgreementCreatedEvent),
            SupplyChainError,
        >(SupplyChainError::Unauthorized),
        may_create_agreement(*supplier, *store, caller) && !terms_valid(terms@) ==> result
            == Err::<(SupplyAgreement, AgreementCreatedEvent), SupplyChainError>(
            SupplyChainError::InvalidData,
        ),
        may_create_agreement(*supplier, *store, caller) && terms_valid(terms@) && deadline <= now
            ==> result == Err::<(SupplyAgreement, AgreementCreatedEvent), SupplyChainError>(
            SupplyChainError::InvalidDeadline,
        ),
        may_create_agreement(*supplier, *store, caller) && terms_valid(terms@) && deadline > now
            && payment_amount == 0 ==> result == Err::<
            (SupplyAgreement, AgreementCreatedEvent),
            SupplyChainError,
        >(SupplyChainError::InvalidPaymentAmount),
        result matches Ok(created) ==> {
            &&& created.0.supplier == supplier.key
            &&& created.0.store == store_id
            &&& created.0.terms == terms
            &&& created.0.deadline == deadline
            &&& created.0.payment_amount == payment_amount
            &&& created.0.status is Pending
            &&& created.0.created_at == now
            &&& created.0.products@ =~= Seq::<EntityId>::empty()
            &&& agreement_invariant(created.0)
            &&& created.1 == (AgreementCreatedEvent {
                agreement: agreement_id,
                supplier: supplier.key,
                store: store_id,
                payment_amount,
                deadline,
                timestamp: now,
            })
        },
{
    if !(supplier.key == caller || store.owner == caller) {
        return Err(SupplyChainError::Unauthorized);
    }
    let terms_len = terms.as_str().unicode_len();
    if terms_len == 0 || terms_len > 200 {
        return Err(SupplyChainError::InvalidData);
    }
    if deadline <= now {
        return Err(SupplyChainError::InvalidDeadline);
    }
    if payment_amount == 0 {
        return Err(SupplyChainError::InvalidPaymentAmount);
    }
    let agreement = SupplyAgreement {
        supplier: supplier.key,
        store: store_id,
        terms,
        deadline,
        payment_amount,
        status: AgreementStatus::Pending,
        created_at: now,
        products: Vec::new(),
    };
    let event = AgreementCreatedEvent {
        agreement: agreement_id,
        supplier: agreement.supplier,
        store: agreement.store,
        payment_amount,
        deadline,
        timestamp: now,
    };
    Ok((agreement, event))
}

/// Accepts a `Pending` agreement, moving it to `Active`. Only the owner
/// of the agreement's destination store may accept.
pub fn accept_agreement(
    agreement: &mut SupplyAgreement,
    agreement_id: EntityId,
    caller: EntityId,
    supplier: &Supplier,
    store_id: EntityId,
    store: &Store,
    now: i64,
) -> (result: Result<AgreementStatusUpdatedEvent, SupplyChainError>)
    ensures
        result is Ok <==> {
            &&& is_agreement_party(*old(agreement), caller, *supplier, store_id, *store)
            &&& old(agreement).status is Pending
            &&& owns_agreement_store(*old(agreement), caller, store_id, *store)
        },
        !is_agreement_party(*old(agreement), caller, *supplier, store_id, *store) ==> result
            == Err::<AgreementStatusUpdatedEvent, SupplyChainError>(SupplyChainError::Unauthorized),
        is_agreement_party(*old(agreement), caller, *supplier, store_id, *store) && !(old(
            agreement,
        ).status is Pending) ==> result == Err::<AgreementStatusUpdatedEvent, SupplyChainError>(
            SupplyChainError::InvalidAgreementStatus,
        ),
        is_agreement_party(*old(agreement), caller, *supplier, store_id, *store) && old(
            agreement,
        ).status is Pending && !owns_agreement_store(*old(agreement), caller, store_id, *store)
            ==> result == Err::<AgreementStatusUpdatedEvent, SupplyChainError>(
            SupplyChainError::Unauthorized,
        ),
        result is Err ==> *final(agreement) == *old(agreement),
        result matches Ok(event) ==> {
            &&& *final(agreement) == (SupplyAgreement {
                status: AgreementStatus::Active,
                ..*old(agreement)
            })
            &&& agreement_step_allowed(old(agreement).status, final(agreement).status)
            &&& event == (AgreementStatusUpdatedEvent {
                agreement: agreement_id,
                old_status: old(agreement).status.spec_to_u8(),
                new_status: final(agreement).status.spec_to_u8(),
                updated_by: caller,
                timestamp: now,
            })
        },
        agreement_invariant(*old(agreement)) ==> agreement_invariant(*final(agreement)),
{
    let party = (agreement.supplier == caller && supplier.key == caller) || (agreement.store
        == store_id && store.owner == caller);
    if !party {
        return Err(SupplyChainError::Unauthorized);
    }
    if !(agreement.status == AgreementStatus::Pending) {
        return Err(SupplyChainError::InvalidAgreementStatus);
    }
    if !(agreement.store == store_id && store.owner == caller) {
        return Err(SupplyChainError::Unauthorized);
    }
    agreement.status = AgreementStatus::Active;
    Ok(
        AgreementStatusUpdatedEvent {
            agreement: agreement_id,
            old_status: 0,
            new_status: 1,
            updated_by: caller,
            timestamp: now,
        },
    )
}

/// Appends product identifiers to a `Pending` or `Active` agreement
/// with set-union semantics: already-present identifiers are suppressed
/// and first-seen order is kept. Only the agreement's supplier may add.
pub fn add_products_to_agreement(
    agreement: &mut SupplyAgreement,
    agreement_id: EntityId,
    caller: EntityId,
    supplier: &Supplier,
    product_accounts: Vec<EntityId>,
    now: i64,
) -> (result: Result<ProductsAddedToAgreementEvent, SupplyChainError>)
    ensures
        result is Ok <==> may_add_products(*old(agreement), caller, *supplier)
            && agreement_updatable(old(agreement).status),
        !may_add_products(*old(agreement), caller, *supplier) ==> result == Err::<
            ProductsAddedToAgreementEvent,
            SupplyChainError,
        >(SupplyChainError::Unauthorized),
        may_add_products(*old(agreement), caller, *supplier) && !agreement_updatable(
            old(agreement).status,
        ) ==> result == Err::<ProductsAddedToAgreementEvent, SupplyChainError>(
            SupplyChainError::InvalidAgreementStatus,
        ),
        result is Err ==> *final(agreement) == *old(agreement),
        result matches Ok(event) ==> {
            &&& final(agreement).products@ == union_append(
                old(agreement).products@,
                product_accounts@,
            )
            &&& forall|p: EntityId| #[trigger]
                final(agreement).products@.contains(p) <==> old(agreement).products@.contains(p)
                    || product_accounts@.contains(p)
            &&& final(agreement).supplier == old(agreement).supplier
            &&& final(agreement).store == old(agreement).store
            &&& final(agreement).terms == old(agreement).terms
            &&& final(agreement).deadline == old(agreement).deadline
            &&& final(agreement).payment_amount == old(agreement).payment_amount
            &&& final(agreement).status == old(agreement).status
            &&& final(agreement).created_at == old(agreement).created_at
            &&& event == (ProductsAddedToAgreementEvent {
                agreement: agreement_id,
                products: product_accounts,
                added_by: caller,
                timestamp: now,
            })
        },
        distinct_ids(old(agreement).products@) ==> distinct_ids(final(agreement).products@),
        agreement_invariant(*old(agreement)) ==> agreement_invariant(*final(agreement)),
{
    if !(agreement.supplier == caller && supplier.key == caller) {
        return Err(SupplyChainError::Unauthorized);
    }
    if !(agreement.status == AgreementStatus::Pending || agreement.status
        == AgreementStatus::Active) {
        return Err(SupplyChainError::InvalidAgreementStatus);
    }
    let ghost initial = agreement.products@;
    proof {
        assert(product_accounts@.skip(0) =~= product_accounts@);
    }
    let mut i: usize = 0;
    while i < product_accounts.len()
        invariant
            i <= product_accounts@.len(),
            union_append(initial, product_accounts@) == union_append(
                agreement.products@,
                product_accounts@.skip(i as int),
            ),
            agreement.supplier == old(agreement).supplier,
            agreement.store == old(agreement).store,
            agreement.terms == old(agreement).terms,
            agreement.deadline == old(agreement).deadline,
            agreement.payment_amount == old(agreement).payment_amount,
            agreement.status == old(agreement).status,
            agreement.created_at == old(agreement).created_at,
        decreases product_accounts@.len() - i,
    {
        let product = product_accounts[i];
        proof {
            assert(product_accounts@.skip(i as int)[0] == product_accounts@[i as int]);
            assert(product_accounts@.skip(i as int).drop_first() =~= product_accounts@.skip(
                i as int + 1,
            ));
        }
        if !contains_id(&agreement.products, product) {
            agreement.products.push(product);
        }
        i = i + 1;
    }
    proof {
        assert(product_accounts@.skip(product_accounts@.len() as int) =~= Seq::<
            EntityId,
        >::empty());
        assert(agreement.products@ == union_append(initial, product_accounts@));
        lemma_union_append_membership(initial, product_accounts@);
        if distinct_ids(initial) {
            lemma_union_append_distinct(initial, product_accounts@);
        }
    }
    Ok(
        ProductsAddedToAgreementEvent {
            agreement: agreement_id,
            products: product_accounts,
            added_by: caller,
            timestamp: now,
        },
    )
}

/// Completes an `Active` agreement. Either party may complete.
pub fn complete_agreement(
    agreement: &mut SupplyAgreement,
    agreement_id: EntityId,
    caller: EntityId,
    supplier: &Supplier,
    store_id: EntityId,
    store: &Store,
    now: i64,
) -> (result: Result<AgreementStatusUpdatedEvent, SupplyChainError>)
    ensures
        result is Ok <==> is_agreement_party(*old(agreement), caller, *supplier, store_id, *store)
            && old(agreement).status is Active,
        !is_agreement_party(*old(agreement), caller, *supplier, store_id, *store) ==> result
            == Err::<AgreementStatusUpdatedEvent, SupplyChainError>(SupplyChainError::Unauthorized),
        is_agreement_party(*old(agreement), caller, *supplier, store_id, *store) && !(old(
            agreement,
        ).status is Active) ==> result == Err::<AgreementStatusUpdatedEvent, SupplyChainError>(
            SupplyChainError::InvalidAgreementStatus,
        ),
        result is Err ==> *final(agreement) == *old(agreement),
        result matches Ok(event) ==> {
            &&& *final(agreement) == (SupplyAgreement {
                status: AgreementStatus::Completed,
                ..*old(agreement)
            })
            &&& agreement_step_allowed(old(agreement).status, final(agreement).status)
            &&& event == (AgreementStatusUpdatedEvent {
                agreement: agreement_id,
                old_status: old(agreement).status.spec_to_u8(),
                new_status: final(agreement).status.spec_to_u8(),
                updated_by: caller,
                timestamp: now,
            })
        },
        agreement_invariant(*old(agreement)) ==> agreement_invariant(*final(agreement)),
{
    let party = (agreement.supplier == caller && supplier.key == caller) || (agreement.store
        == store_id && store.owner == caller);
    if !party {
        return Err(SupplyChainError::Unauthorized);
    }
    if !(agreement.status == AgreementStatus::Active) {
        return Err(SupplyChainError::InvalidAgreementStatus);
    }
    agreement.status = AgreementStatus::Completed;
    Ok(
        AgreementStatusUpdatedEvent {
            agreement: agreement_id,
            old_status: 1,
            new_status: 2,
            updated_by: caller,
            timestamp: now,
        },
    )
}

/// Disputes an `Active` agreement, suspending it in `Disputed` and
/// creating an unresolved dispute record. Either party may dispute.
pub fn dispute_agreement(
    agreement: &mut SupplyAgreement,
    agreement_id: EntityId,
    dispute_id: EntityId,
    caller: EntityId,
    supplier: &Supplier,
    store_id: EntityId,
    store: &Store,
    dispute_reason: String,
    now: i64,
) -> (result: Result<(AgreementDispute, AgreementDisputedEvent), SupplyChainError>)
    ensures
        result is Ok <==> is_agreement_party(*old(agreement), caller, *supplier, store_id, *store)
            && old(agreement).status is Active,
        !is_agreement_party(*old(agreement), caller, *supplier, store_id, *store) ==> result
            == Err::<(AgreementDispute, AgreementDisputedEvent), SupplyChainError>(
            SupplyChainError::Unauthorized,
        ),
        is_agreement_party(*old(agreement), caller, *supplier, store_id, *store) && !(old(
            agreement,
        ).status is Active) ==> result == Err::<
            (AgreementDispute, AgreementDisputedEvent),
            SupplyChainError,
        >(SupplyChainError::InvalidAgreementStatus),
        result is Err ==> *final(agreement) == *old(agreement),
        result matches Ok(created) ==> {
            &&& *final(agreement) == (SupplyAgreement {
                status: AgreementStatus::Disputed,
                ..*old(agreement)
            })
            &&& agreement_step_allowed(old(agreement).status, final(agreement).status)
            &&& created.0 == (AgreementDispute {
                agreement: agreement_id,
                initiated_by: caller,
                reason: dispute_reason,
                created_at: now,
                resolved: false,
                resolved_by: None,
                resolution_notes: None,
                resolved_at: None,
            })
            &&& created.1 == (AgreementDisputedEvent {
                agreement: agreement_id,
                dispute: dispute_id,
                initiated_by: caller,
                timestamp: now,
            })
        },
        agreement_invariant(*old(agreement)) ==> agreement_invariant(*final(agreement)),
{
    let party = (agreement.supplier == caller && supplier.key == caller) || (agreement.store
        == store_id && store.owner == caller);
    if !party {
        return Err(SupplyChainError::Unauthorized);
    }
    if !(agreement.status == AgreementStatus::Active) {
        return Err(SupplyChainError::InvalidAgreementStatus);
    }
    agreement.status = AgreementStatus::Disputed;
    let dispute = AgreementDispute {
        agreement: agreement_id,
        initiated_by: caller,
        reason: dispute_reason,
        created_at: now,
        resolved: false,
        resolved_by: None,
        resolution_notes: None,
        resolved_at: None,
    };
    let event = AgreementDisputedEvent {
        agreement: agreement_id,
        dispute: dispute_id,
        initiated_by: caller,
        timestamp: now,
    };
    Ok((dispute, event))
}

/// Resolves a dispute: flips `resolved` one way and moves the parent
/// agreement out of `Disputed` as the outcome code directs
/// (`0` continue as `Active`, `1` `Completed`, `2` `Canceled`). Only a
/// verifier-credentialed caller may resolve. An out-of-range outcome
/// fails with `InvalidData` and mutates nothing.
pub fn resolve_dispute(
    dispute: &mut AgreementDispute,
    agreement: &mut SupplyAgreement,
    dispute_id: EntityId,
    agreement_id: EntityId,
    caller: EntityId,
    credentials: &VerifierCredential,
    resolution_notes: String,
    resolution_outcome: u8,
    now: i64,
) -> (result: Result<DisputeResolvedEvent, SupplyChainError>)
    ensures
        result is Ok <==> {
            &&& outcome_status(resolution_outcome) is Some
            &&& old(dispute).agreement == agreement_id
            &&& has_verifier_credential(*credentials, caller)
            &&& old(agreement).status is Disputed
            &&& !old(dispute).resolved
        },
        outcome_status(resolution_outcome) is None ==> result == Err::<
            DisputeResolvedEvent,
            SupplyChainError,
        >(SupplyChainError::InvalidData),
        outcome_status(resolution_outcome) is Some && old(dispute).agreement != agreement_id
            ==> result == Err::<DisputeResolvedEvent, SupplyChainError>(
            SupplyChainError::InvalidRelationship,
        ),
        outcome_status(resolution_outcome) is Some && old(dispute).agreement == agreement_id
            && !has_verifier_credential(*credentials, caller) ==> result == Err::<
            DisputeResolvedEvent,
            SupplyChainError,
        >(SupplyChainError::UnauthorizedVerifier),
        outcome_status(resolution_outcome) is Some && old(dispute).agreement == agreement_id
            && has_verifier_credential(*credentials, caller) && !(old(
            agreement,
        ).status is Disputed) ==> result == Err::<DisputeResolvedEvent, SupplyChainError>(
            SupplyChainError::InvalidAgreementStatus,
        ),
        outcome_status(resolution_outcome) is Some && old(dispute).agreement == agreement_id
            && has_verifier_credential(*credentials, caller) && old(agreement).status is Disputed
            && old(dispute).resolved ==> result == Err::<DisputeResolvedEvent, SupplyChainError>(
            SupplyChainError::DisputeAlreadyResolved,
        ),
        result is Err ==> *final(dispute) == *old(dispute) && *final(agreement) == *old(agreement),
        result matches Ok(event) ==> {
            &&& *final(dispute) == (AgreementDispute {
                resolved: true,
                resolved_by: Some(caller),
                resolution_notes: Some(resolution_notes),
                resolved_at: Some(now),
                ..*old(dispute)
            })
            &&& Some(final(agreement).status) == outcome_status(resolution_outcome)
            &&& *final(agreement) == (SupplyAgreement {
                status: final(agreement).status,
                ..*old(agreement)
            })
            &&& agreement_step_allowed(old(agreement).status, final(agreement).status)
            &&& event == (DisputeResolvedEvent {
                dispute: dispute_id,
                agreement: agreement_id,
                resolved_by: caller,
                outcome: resolution_outcome,
                timestamp: now,
            })
        },
        agreement_invariant(*old(agreement)) ==> agreement_invariant(*final(agreement)),
{
    if resolution_outcome > 2 {
        return Err(SupplyChainError::InvalidData);
    }
    if dispute.agreement != agreement_id {
        return Err(SupplyChainError::InvalidRelationship);
    }
    if !(credentials.authority == caller && credentials.is_verifier) {
        return Err(SupplyChainError::UnauthorizedVerifier);
    }
    if !(agreement.status == AgreementStatus::Disputed) {
        return Err(SupplyChainError::InvalidAgreementStatus);
    }
    if dispute.resolved {
        return Err(SupplyChainError::DisputeAlreadyResolved);
    }
    dispute.resolved = true;
    dispute.resolved_by = Some(caller);
    dispute.resolution_notes = Some(resolution_notes);
    dispute.resolved_at = Some(now);
    if resolution_outcome == 0 {
        agreement.status = AgreementStatus::Active;
    } else if resolution_outcome == 1 {
        agreement.status = AgreementStatus::Completed;
    } else {
        agreement.status = AgreementStatus::Canceled;
    }
    Ok(
        DisputeResolvedEvent {
            dispute: dispute_id,
            agreement: agreement_id,
            resolved_by: caller,
            outcome: resolution_outcome,
            timestamp: now,
        },
    )
}

/// Cancels a `Pending` or `Active` agreement, irreversibly. Either
/// party may cancel.
pub fn cancel_agreement(
    agreement: &mut SupplyAgreement,
    agreement_id: EntityId,
    caller: EntityId,
    supplier: &Supplier,
    store_id: EntityId,
    store: &Store,
    now: i64,
) -> (result: Result<AgreementStatusUpdatedEvent, SupplyChainError>)
    ensures
        result is Ok <==> is_agreement_party(*old(agreement), caller, *supplier, store_id, *store)
            && agreement_updatable(old(agreement).status),
        !is_agreement_party(*old(agreement), caller, *supplier, store_id, *store) ==> result
            == Err::<AgreementStatusUpdatedEvent, SupplyChainError>(SupplyChainError::Unauthorized),
        is_agreement_party(*old(agreement), caller, *supplier, store_id, *store)
            && !agreement_updatable(old(agreement).status) ==> result == Err::<
            AgreementStatusUpdatedEvent,
            SupplyChainError,
        >(SupplyChainError::InvalidAgreementStatus),
        result is Err ==> *final(agreement) == *old(agreement),
        result matches Ok(event) ==> {
            &&& *final(agreement) == (SupplyAgreement {
                status: AgreementStatus::Canceled,
                ..*old(agreement)
            })
            &&& agreement_step_allowed(old(agreement).status, final(agreement).status)
            &&& event == (AgreementStatusUpdatedEvent {
                agreement: agreement_id,
                old_status: old(agreement).status.spec_to_u8(),
                new_status: final(agreement).status.spec_to_u8(),
                updated_by: caller,
                timestamp: now,
            })
        },
        agreement_invariant(*old(agreement)) ==> agreement_invariant(*final(agreement)),
{
    let party = (agreement.supplier == caller && supplier.key == caller) || (agreement.store
        == store_id && store.owner == caller);
    if !party {
        return Err(SupplyChainError::Unauthorized);
    }
    if !(agreement.status == AgreementStatus::Pending || agreement.status
        == AgreementStatus::Active) {
        return Err(SupplyChainError::InvalidAgreementStatus);
    }
    let old_status = agreement.status.to_u8();
    agreement.status = AgreementStatus::Canceled;
    Ok(
        AgreementStatusUpdatedEvent {
            agreement: agreement_id,
            old_status,
            new_status: 4,
            updated_by: caller,
            timestamp: now,
        },
    )
}

} // verus!
