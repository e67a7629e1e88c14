//! The engine's cross-cutting guarantees, stated and proved once.

use vstd::prelude::*;

use crate::state::{
    agreement_step_allowed, distinct_ids, lemma_union_append_absorbs,
    lemma_union_append_distinct, lemma_union_append_membership, shipment_step_allowed,
    union_append, AgreementStatus, EntityId, ShipmentStatus,
};

verus! {

/// Once an agreement is `Completed` or `Canceled` its status is
/// terminal: the transition table allows no step out of it, whatever
/// the target. Every agreement operation's contract adds that a
/// rejected attempt leaves the record unchanged.
pub proof fn lemma_terminal_agreement_is_final(from: AgreementStatus, to: AgreementStatus)
    requires
        from is Completed || from is Canceled,
    ensures
        !agreement_step_allowed(from, to),
{
}

/// A `Verified` shipment is terminal: the transition table allows no
/// step out of it, whatever the target.
pub proof fn lemma_verified_shipment_is_final(to: ShipmentStatus)
    ensures
        !shipment_step_allowed(ShipmentStatus::Verified, to),
{
}

/// Adding product lists twice, with any overlap between the lists and
/// the agreement, leaves each identifier in the agreement exactly once:
/// the result is duplicate-free and holds an identifier exactly when
/// the original list or one of the two additions held it.
pub proof fn lemma_products_added_exactly_once(
    s: Seq<EntityId>,
    xs: Seq<EntityId>,
    ys: Seq<EntityId>,
)
    requires
        distinct_ids(s),
    ensures
        distinct_ids(union_append(union_append(s, xs), ys)),
        forall|p: EntityId| #[trigger]
            union_append(union_append(s, xs), ys).contains(p) <==> s.contains(p) || xs.contains(p)
                || ys.contains(p),
{
    lemma_union_append_distinct(s, xs);
    lemma_union_append_distinct(union_append(s, xs), ys);
    lemma_union_append_membership(s, xs);
    lemma_union_append_membership(union_append(s, xs), ys);
}

/// Re-adding a product list a second time changes nothing: union-append
/// is idempotent in its appended list.
pub proof fn lemma_union_append_idempotent(s: Seq<EntityId>, xs: Seq<EntityId>)
    ensures
        union_append(union_append(s, xs), xs) == union_append(s, xs),
{
    lemma_union_append_membership(s, xs);
    lemma_union_append_absorbs(union_append(s, xs), xs);
}

} // verus!
