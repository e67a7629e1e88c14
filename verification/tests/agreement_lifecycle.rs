//! Agreement lifecycle: creation validation, acceptance, product
//! union-append, completion, disputes and terminal states.

use retailchain::agreement::{
    accept_agreement, add_products_to_agreement, cancel_agreement, complete_agreement,
    create_supply_agreement, dispute_agreement, resolve_dispute,
};
use retailchain::errors::SupplyChainError;
use retailchain::state::{
    AgreementDispute, AgreementStatus, Store, Supplier, SupplyAgreement, VerifierCredential,
};

const SUPPLIER_ID: u64 = 7;
const STORE_ID: u64 = 55;
const OWNER_ID: u64 = 9;
const AGREEMENT_ID: u64 = 100;
const DISPUTE_ID: u64 = 200;
const VERIFIER_ID: u64 = 77;

fn supplier() -> Supplier {
    Supplier {
        key: SUPPLIER_ID,
        name: "Acme Foods".to_string(),
        certification: "ISO".to_string(),
        description: "wholesale".to_string(),
        products_supplied: 0,
        is_verified: true,
        rating: 0,
        created_at: 1,
    }
}

fn store() -> Store {
    Store {
        owner: OWNER_ID,
        name: "Corner Shop".to_string(),
        location: "Main St".to_string(),
        total_products: 0,
        is_active: true,
    }
}

fn agreement(status: AgreementStatus) -> SupplyAgreement {
    SupplyAgreement {
        supplier: SUPPLIER_ID,
        store: STORE_ID,
        terms: "weekly delivery".to_string(),
        deadline: 2000,
        payment_amount: 500,
        status,
        created_at: 1000,
        products: Vec::new(),
    }
}

fn verifier_credential() -> VerifierCredential {
    VerifierCredential {
        authority: VERIFIER_ID,
        is_verifier: true,
        verification_level: 2,
        organization: "Bureau".to_string(),
    }
}

fn dispute_record() -> AgreementDispute {
    AgreementDispute {
        agreement: AGREEMENT_ID,
        initiated_by: OWNER_ID,
        reason: "damaged goods".to_string(),
        created_at: 1500,
        resolved: false,
        resolved_by: None,
        resolution_notes: None,
        resolved_at: None,
    }
}

#[test]
fn create_agreement_rejects_past_deadline() {
    let r = create_supply_agreement(
        SUPPLIER_ID,
        &supplier(),
        STORE_ID,
        &store(),
        AGREEMENT_ID,
        "terms".to_string(),
        1000,
        500,
        1000,
    );
    assert_eq!(r.unwrap_err(), SupplyChainError::InvalidDeadline);
    let r = create_supply_agreement(
        SUPPLIER_ID,
        &supplier(),
        STORE_ID,
        &store(),
        AGREEMENT_ID,
        "terms".to_string(),
        999,
        500,
        1000,
    );
    assert_eq!(r.unwrap_err(), SupplyChainError::InvalidDeadline);
}

#[test]
fn create_agreement_rejects_zero_payment() {
    let r = create_supply_agreement(
        SUPPLIER_ID,
        &supplier(),
        STORE_ID,
        &store(),
        AGREEMENT_ID,
        "terms".to_string(),
        2000,
        0,
        1000,
    );
    assert_eq!(r.unwrap_err(), SupplyChainError::InvalidPaymentAmount);
}

#[test]
fn create_agreement_validates_terms() {
    let r = create_supply_agreement(
        SUPPLIER_ID,
        &supplier(),
        STORE_ID,
        &store(),
        AGREEMENT_ID,
        String::new(),
        2000,
        500,
        1000,
    );
    assert_eq!(r.unwrap_err(), SupplyChainError::InvalidData);
    let r = create_supply_agreement(
        SUPPLIER_ID,
        &supplier(),
        STORE_ID,
        &store(),
        AGREEMENT_ID,
        "x".repeat(201),
        2000,
        500,
        1000,
    );
    assert_eq!(r.unwrap_err(), SupplyChainError::InvalidData);
    let r = create_supply_agreement(
        SUPPLIER_ID,
        &supplier(),
        STORE_ID,
        &store(),
        AGREEMENT_ID,
        "x".repeat(200),
        2000,
        500,
        1000,
    );
    assert!(r.is_ok());
}

#[test]
fn create_agreement_rejects_stranger() {
    let r = create_supply_agreement(
        1234,
        &supplier(),
        STORE_ID,
        &store(),
        AGREEMENT_ID,
        "terms".to_string(),
        2000,
        500,
        1000,
    );
    assert_eq!(r.unwrap_err(), SupplyChainError::Unauthorized);
}

#[test]
fn create_agreement_produces_pending_record_and_event() {
    let (a, ev) = create_supply_agreement(
        OWNER_ID,
        &supplier(),
        STORE_ID,
        &store(),
        AGREEMENT_ID,
        "weekly delivery".to_string(),
        2000,
        500,
        1000,
    )
    .unwrap();
    assert_eq!(a.supplier, SUPPLIER_ID);
    assert_eq!(a.store, STORE_ID);
    assert_eq!(a.terms, "weekly delivery");
    assert_eq!(a.deadline, 2000);
    assert_eq!(a.payment_amount, 500);
    assert_eq!(a.status, AgreementStatus::Pending);
    assert_eq!(a.created_at, 1000);
    assert!(a.products.is_empty());
    assert_eq!(ev.agreement, AGREEMENT_ID);
    assert_eq!(ev.supplier, SUPPLIER_ID);
    assert_eq!(ev.store, STORE_ID);
    assert_eq!(ev.payment_amount, 500);
    assert_eq!(ev.deadline, 2000);
    assert_eq!(ev.timestamp, 1000);
}

#[test]
fn accept_agreement_scenario() {
    // A Pending agreement (deadline now + 1000, amount 500).
    let mut a = agreement(AgreementStatus::Pending);
    // A stranger cannot accept.
    let r = accept_agreement(&mut a, AGREEMENT_ID, 1234, &supplier(), STORE_ID, &store(), 1100);
    assert_eq!(r.unwrap_err(), SupplyChainError::Unauthorized);
    assert_eq!(a.status, AgreementStatus::Pending);
    // The supplier is a party but does not own the store.
    let r =
        accept_agreement(&mut a, AGREEMENT_ID, SUPPLIER_ID, &supplier(), STORE_ID, &store(), 1100);
    assert_eq!(r.unwrap_err(), SupplyChainError::Unauthorized);
    assert_eq!(a.status, AgreementStatus::Pending);
    // The store owner accepts.
    let ev = accept_agreement(&mut a, AGREEMENT_ID, OWNER_ID, &supplier(), STORE_ID, &store(), 1100)
        .unwrap();
    assert_eq!(a.status, AgreementStatus::Active);
    assert_eq!(ev.old_status, 0);
    assert_eq!(ev.new_status, 1);
    assert_eq!(ev.updated_by, OWNER_ID);
    assert_eq!(ev.timestamp, 1100);
}

#[test]
fn accept_agreement_only_from_pending() {
    let mut a = agreement(AgreementStatus::Active);
    let r = accept_agreement(&mut a, AGREEMENT_ID, OWNER_ID, &supplier(), STORE_ID, &store(), 1100);
    assert_eq!(r.unwrap_err(), SupplyChainError::InvalidAgreementStatus);
    assert_eq!(a.status, AgreementStatus::Active);
}

#[test]
fn add_products_unions_without_duplicates() {
    let mut a = agreement(AgreementStatus::Pending);
    let ev = add_products_to_agreement(
        &mut a,
        AGREEMENT_ID,
        SUPPLIER_ID,
        &supplier(),
        vec![10, 11, 10, 12],
        1100,
    )
    .unwrap();
    assert_eq!(a.products, vec![10, 11, 12]);
    assert_eq!(ev.products, vec![10, 11, 10, 12]);
    assert_eq!(ev.added_by, SUPPLIER_ID);
    // A second, overlapping addition leaves each identifier exactly once.
    add_products_to_agreement(
        &mut a,
        AGREEMENT_ID,
        SUPPLIER_ID,
        &supplier(),
        vec![12, 13, 11],
        1200,
    )
    .unwrap();
    assert_eq!(a.products, vec![10, 11, 12, 13]);
    // Re-adding the same list changes nothing.
    add_products_to_agreement(
        &mut a,
        AGREEMENT_ID,
        SUPPLIER_ID,
        &supplier(),
        vec![12, 13, 11],
        1300,
    )
    .unwrap();
    assert_eq!(a.products, vec![10, 11, 12, 13]);
}

#[test]
fn add_products_requires_supplier() {
    let mut a = agreement(AgreementStatus::Pending);
    let r =
        add_products_to_agreement(&mut a, AGREEMENT_ID, OWNER_ID, &supplier(), vec![10], 1100);
    assert_eq!(r.unwrap_err(), SupplyChainError::Unauthorized);
    assert!(a.products.is_empty());
}

#[test]
fn add_products_requires_updatable_status() {
    let mut a = agreement(AgreementStatus::Disputed);
    let r = add_products_to_agreement(
        &mut a,
        AGREEMENT_ID,
        SUPPLIER_ID,
        &supplier(),
        vec![10],
        1100,
    );
    assert_eq!(r.unwrap_err(), SupplyChainError::InvalidAgreementStatus);
    assert!(a.products.is_empty());
}

#[test]
fn complete_agreement_from_active() {
    let mut a = agreement(AgreementStatus::Active);
    let ev = complete_agreement(
        &mut a,
        AGREEMENT_ID,
        SUPPLIER_ID,
        &supplier(),
        STORE_ID,
        &store(),
        1400,
    )
    .unwrap();
    assert_eq!(a.status, AgreementStatus::Completed);
    assert_eq!(ev.old_status, 1);
    assert_eq!(ev.new_status, 2);
}

#[test]
fn complete_agreement_requires_active() {
    let mut a = agreement(AgreementStatus::Pending);
    let r = complete_agreement(
        &mut a,
        AGREEMENT_ID,
        OWNER_ID,
        &supplier(),
        STORE_ID,
        &store(),
        1400,
    );
    assert_eq!(r.unwrap_err(), SupplyChainError::InvalidAgreementStatus);
    assert_eq!(a.status, AgreementStatus::Pending);
}

#[test]
fn dispute_resolution_scenario() {
    // Active agreement, disputed for damaged goods.
    let mut a = agreement(AgreementStatus::Active);
    let (dispute, ev) = dispute_agreement(
        &mut a,
        AGREEMENT_ID,
        DISPUTE_ID,
        OWNER_ID,
        &supplier(),
        STORE_ID,
        &store(),
        "damaged goods".to_string(),
        1500,
    )
    .unwrap();
    assert_eq!(a.status, AgreementStatus::Disputed);
    assert_eq!(dispute.agreement, AGREEMENT_ID);
    assert_eq!(dispute.initiated_by, OWNER_ID);
    assert_eq!(dispute.reason, "damaged goods");
    assert!(!dispute.resolved);
    assert_eq!(dispute.resolved_by, None);
    assert_eq!(ev.dispute, DISPUTE_ID);
    // A verifier resolves with outcome 1: complete the agreement.
    let mut dispute = dispute;
    let ev = resolve_dispute(
        &mut dispute,
        &mut a,
        DISPUTE_ID,
        AGREEMENT_ID,
        VERIFIER_ID,
        &verifier_credential(),
        "settled".to_string(),
        1,
        1600,
    )
    .unwrap();
    assert!(dispute.resolved);
    assert_eq!(dispute.resolved_by, Some(VERIFIER_ID));
    assert_eq!(dispute.resolution_notes, Some("settled".to_string()));
    assert_eq!(dispute.resolved_at, Some(1600));
    assert_eq!(a.status, AgreementStatus::Completed);
    assert_eq!(ev.outcome, 1);
    assert_eq!(ev.resolved_by, VERIFIER_ID);
}

#[test]
fn dispute_requires_active_agreement() {
    let mut a = agreement(AgreementStatus::Pending);
    let r = dispute_agreement(
        &mut a,
        AGREEMENT_ID,
        DISPUTE_ID,
        OWNER_ID,
        &supplier(),
        STORE_ID,
        &store(),
        "late".to_string(),
        1500,
    );
    assert_eq!(r.unwrap_err(), SupplyChainError::InvalidAgreementStatus);
    assert_eq!(a.status, AgreementStatus::Pending);
}

#[test]
fn resolve_dispute_outcome_zero_resumes_agreement() {
    let mut a = agreement(AgreementStatus::Disputed);
    let mut d = dispute_record();
    resolve_dispute(
        &mut d,
        &mut a,
        DISPUTE_ID,
        AGREEMENT_ID,
        VERIFIER_ID,
        &verifier_credential(),
        "overruled".to_string(),
        0,
        1600,
    )
    .unwrap();
    assert_eq!(a.status, AgreementStatus::Active);
    assert!(d.resolved);
}

#[test]
fn resolve_dispute_outcome_two_cancels_agreement() {
    let mut a = agreement(AgreementStatus::Disputed);
    let mut d = dispute_record();
    resolve_dispute(
        &mut d,
        &mut a,
        DISPUTE_ID,
        AGREEMENT_ID,
        VERIFIER_ID,
        &verifier_credential(),
        "called off".to_string(),
        2,
        1600,
    )
    .unwrap();
    assert_eq!(a.status, AgreementStatus::Canceled);
}

#[test]
fn resolve_dispute_rejects_out_of_range_outcome() {
    let mut a = agreement(AgreementStatus::Disputed);
    let mut d = dispute_record();
    let before_a = a.clone();
    let before_d = d.clone();
    for outcome in [3u8, 4, 17, 255] {
        let r = resolve_dispute(
            &mut d,
            &mut a,
            DISPUTE_ID,
            AGREEMENT_ID,
            VERIFIER_ID,
            &verifier_credential(),
            "bad".to_string(),
            outcome,
            1600,
        );
        assert_eq!(r.unwrap_err(), SupplyChainError::InvalidData);
        assert!(!d.resolved);
        assert_eq!(d, before_d);
        assert_eq!(a, before_a);
    }
}

#[test]
fn resolve_dispute_requires_verifier() {
    let mut a = agreement(AgreementStatus::Disputed);
    let mut d = dispute_record();
    let credential = VerifierCredential {
        authority: VERIFIER_ID,
        is_verifier: false,
        verification_level: 0,
        organization: "Bureau".to_string(),
    };
    let r = resolve_dispute(
        &mut d,
        &mut a,
        DISPUTE_ID,
        AGREEMENT_ID,
        VERIFIER_ID,
        &credential,
        "no".to_string(),
        1,
        1600,
    );
    assert_eq!(r.unwrap_err(), SupplyChainError::UnauthorizedVerifier);
    // A credential held by someone else does not carry over.
    let r = resolve_dispute(
        &mut d,
        &mut a,
        DISPUTE_ID,
        AGREEMENT_ID,
        OWNER_ID,
        &verifier_credential(),
        "no".to_string(),
        1,
        1600,
    );
    assert_eq!(r.unwrap_err(), SupplyChainError::UnauthorizedVerifier);
    assert!(!d.resolved);
    assert_eq!(a.status, AgreementStatus::Disputed);
}

#[test]
fn resolve_dispute_checks_relationship() {
    let mut a = agreement(AgreementStatus::Disputed);
    let mut d = dispute_record();
    d.agreement = 999;
    let r = resolve_dispute(
        &mut d,
        &mut a,
        DISPUTE_ID,
        AGREEMENT_ID,
        VERIFIER_ID,
        &verifier_credential(),
        "no".to_string(),
        1,
        1600,
    );
    assert_eq!(r.unwrap_err(), SupplyChainError::InvalidRelationship);
    assert!(!d.resolved);
}

#[test]
fn resolve_dispute_rejects_resolved_dispute() {
    let mut a = agreement(AgreementStatus::Disputed);
    let mut d = dispute_record();
    d.resolved = true;
    let r = resolve_dispute(
        &mut d,
        &mut a,
        DISPUTE_ID,
        AGREEMENT_ID,
        VERIFIER_ID,
        &verifier_credential(),
        "again".to_string(),
        1,
        1600,
    );
    assert_eq!(r.unwrap_err(), SupplyChainError::DisputeAlreadyResolved);
    assert_eq!(a.status, AgreementStatus::Disputed);
}

#[test]
fn cancel_agreement_from_pending_and_active() {
    let mut a = agreement(AgreementStatus::Pending);
    let ev =
        cancel_agreement(&mut a, AGREEMENT_ID, SUPPLIER_ID, &supplier(), STORE_ID, &store(), 1700)
            .unwrap();
    assert_eq!(a.status, AgreementStatus::Canceled);
    assert_eq!(ev.old_status, 0);
    assert_eq!(ev.new_status, 4);
    let mut a = agreement(AgreementStatus::Active);
    let ev = cancel_agreement(&mut a, AGREEMENT_ID, OWNER_ID, &supplier(), STORE_ID, &store(), 1700)
        .unwrap();
    assert_eq!(a.status, AgreementStatus::Canceled);
    assert_eq!(ev.old_status, 1);
    assert_eq!(ev.new_status, 4);
}

#[test]
fn terminal_agreement_rejects_every_transition() {
    for status in [AgreementStatus::Completed, AgreementStatus::Canceled] {
        let reference = agreement(status);
        let mut a = reference.clone();
        let r = accept_agreement(
            &mut a,
            AGREEMENT_ID,
            OWNER_ID,
            &supplier(),
            STORE_ID,
            &store(),
            1800,
        );
        assert!(r.is_err());
        assert_eq!(a, reference);
        let r = add_products_to_agreement(
            &mut a,
            AGREEMENT_ID,
            SUPPLIER_ID,
            &supplier(),
            vec![10],
            1800,
        );
        assert!(r.is_err());
        assert_eq!(a, reference);
        let r = complete_agreement(
            &mut a,
            AGREEMENT_ID,
            OWNER_ID,
            &supplier(),
            STORE_ID,
            &store(),
            1800,
        );
        assert!(r.is_err());
        assert_eq!(a, reference);
        let r = dispute_agreement(
            &mut a,
            AGREEMENT_ID,
            DISPUTE_ID,
            OWNER_ID,
            &supplier(),
            STORE_ID,
            &store(),
            "late".to_string(),
            1800,
        );
        assert!(r.is_err());
        assert_eq!(a, reference);
        let r = cancel_agreement(
            &mut a,
            AGREEMENT_ID,
            OWNER_ID,
            &supplier(),
            STORE_ID,
            &store(),
            1800,
        );
        assert!(r.is_err());
        assert_eq!(a, reference);
        let mut d = dispute_record();
        let r = resolve_dispute(
            &mut d,
            &mut a,
            DISPUTE_ID,
            AGREEMENT_ID,
            VERIFIER_ID,
            &verifier_credential(),
            "reopen".to_string(),
            0,
            1800,
        );
        assert_eq!(r.unwrap_err(), SupplyChainError::InvalidAgreementStatus);
        assert_eq!(a, reference);
        assert!(!d.resolved);
    }
}
