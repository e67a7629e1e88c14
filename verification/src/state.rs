//! Records, lifecycle status types and the transition tables.
//!
//! Identifiers are opaque, globally unique handles compared only for
//! equality. Lifecycle states are proper sum types; the numeric wire form
//! appears only at the operation boundary, through [`StatusConversion`].

use vstd::prelude::*;

verus! {

/// Opaque handle addressing one stored record, or one authenticated
/// caller identity. Compared only for equality.
pub type EntityId = u64;

// ------------------------------------------------------------------
// Lifecycle status types
// ------------------------------------------------------------------

/// Shipment lifecycle: `Created -> InTransit -> {Delivered, Exception}`,
/// `Exception <-> InTransit`, `Delivered -> Verified`. `Verified` is
/// terminal.
#[derive(Clone, Copy, PartialEq, Eq, Structural, Debug)]
pub enum ShipmentStatus {
    Created,
    InTransit,
    Exception,
    Delivered,
    Verified,
}

/// Agreement lifecycle: `Pending -> Active -> {Completed, Disputed,
/// Canceled}`, `Disputed -> {Active, Completed, Canceled}` (only via
/// dispute resolution), `Pending -> Canceled`. `Completed` and `Canceled`
/// are terminal.
#[derive(Clone, Copy, PartialEq, Eq, Structural, Debug)]
pub enum AgreementStatus {
    Pending,
    Active,
    Completed,
    Disputed,
    Canceled,
}

/// Kinds of audit log entries.
#[derive(Clone, Copy, PartialEq, Eq, Structural, Debug)]
pub enum EventType {
    ProductCreated,
    ShipmentCreated,
    StatusUpdate,
    QualityCheck,
    ComplianceVerification,
    Payment,
}

/// Kinds of IoT sensor readings.
#[derive(Clone, Copy, PartialEq, Eq, Structural, Debug)]
pub enum IoTDataType {
    Temperature,
    Humidity,
    Location,
    Shock,
    LightExposure,
}

// ------------------------------------------------------------------
// Numeric wire form of the status types
// ------------------------------------------------------------------

/// Conversion between a lifecycle status and its numeric wire form.
pub trait StatusConversion: Sized {
    /// The wire code of this status.
    spec fn spec_to_u8(&self) -> u8;

    /// The status a wire code decodes to, if any.
    spec fn spec_from_u8(value: u8) -> Option<Self>;

    fn to_u8(&self) -> (code: u8)
        ensures
            code == self.spec_to_u8(),
    ;

    fn from_u8(value: u8) -> (status: Option<Self>)
        ensures
            status == Self::spec_from_u8(value),
    ;
}

impl StatusConversion for ShipmentStatus {
    open spec fn spec_to_u8(&self) -> u8 {
        match self {
            ShipmentStatus::Created => 0,
            ShipmentStatus::InTransit => 1,
            ShipmentStatus::Exception => 2,
            ShipmentStatus::Delivered => 3,
            ShipmentStatus::Verified => 4,
        }
    }

    open spec fn spec_from_u8(value: u8) -> Option<ShipmentStatus> {
        if value == 0 {
            Some(ShipmentStatus::Created)
        } else if value == 1 {
            Some(ShipmentStatus::InTransit)
        } else if value == 2 {
            Some(ShipmentStatus::Exception)
        } else if value == 3 {
            Some(ShipmentStatus::Delivered)
        } else if value == 4 {
            Some(ShipmentStatus::Verified)
        } else {
            None
        }
    }

    fn to_u8(&self) -> (code: u8) {
        match self {
            ShipmentStatus::Created => 0,
            ShipmentStatus::InTransit => 1,
            ShipmentStatus::Exception => 2,
            ShipmentStatus::Delivered => 3,
            ShipmentStatus::Verified => 4,
        }
    }

    fn from_u8(value: u8) -> (status: Option<ShipmentStatus>) {
        if value == 0 {
            Some(ShipmentStatus::Created)
        } else if value == 1 {
            Some(ShipmentStatus::InTransit)
        } else if value == 2 {
            Some(ShipmentStatus::Exception)
        } else if value == 3 {
            Some(ShipmentStatus::Delivered)
        } else if value == 4 {
            Some(ShipmentStatus::Verified)
        } else {
            None
        }
    }
}

impl StatusConversion for AgreementStatus {
    open spec fn spec_to_u8(&self) -> u8 {
        match self {
            AgreementStatus::Pending => 0,
            AgreementStatus::Active => 1,
            AgreementStatus::Completed => 2,
            AgreementStatus::Disputed => 3,
            AgreementStatus::Canceled => 4,
        }
    }

    open spec fn spec_from_u8(value: u8) -> Option<AgreementStatus> {
        if value == 0 {
            Some(AgreementStatus::Pending)
        } else if value == 1 {
            Some(AgreementStatus::Active)
        } else if value == 2 {
            Some(AgreementStatus::Completed)
        } else if value == 3 {
            Some(AgreementStatus::Disputed)
        } else if value == 4 {
            Some(AgreementStatus::Canceled)
        } else {
            None
        }
    }

    fn to_u8(&self) -> (code: u8) {
        match self {
            AgreementStatus::Pending => 0,
            AgreementStatus::Active => 1,
            AgreementStatus::Completed => 2,
            AgreementStatus::Disputed => 3,
            AgreementStatus::Canceled => 4,
        }
    }

    fn from_u8(value: u8) -> (status: Option<AgreementStatus>) {
        if value == 0 {
            Some(AgreementStatus::Pending)
        } else if value == 1 {
            Some(AgreementStatus::Active)
        } else if value == 2 {
            Some(AgreementStatus::Completed)
        } else if value == 3 {
            Some(AgreementStatus::Disputed)
        } else if value == 4 {
            Some(AgreementStatus::Canceled)
        } else {
            None
        }
    }
}

// ------------------------------------------------------------------
// Transition tables
// ------------------------------------------------------------------

/// The fixed allow-list of shipment transitions. Any pair not listed is
/// illegal.
pub open spec fn shipment_step_allowed(from: ShipmentStatus, to: ShipmentStatus) -> bool {
    match (from, to) {
        (ShipmentStatus::Created, ShipmentStatus::InTransit) => true,
        (ShipmentStatus::InTransit, ShipmentStatus::Delivered) => true,
        (ShipmentStatus::InTransit, ShipmentStatus::Exception) => true,
        (ShipmentStatus::Exception, ShipmentStatus::InTransit) => true,
        (ShipmentStatus::Delivered, ShipmentStatus::Verified) => true,
        _ => false,
    }
}

/// The shipment allow-list over wire codes: a pair of codes is legal
/// exactly when both decode and the decoded pair is in the table.
pub open spec fn shipment_code_step_allowed(current: u8, new: u8) -> bool {
    match (
        <ShipmentStatus as StatusConversion>::spec_from_u8(current),
        <ShipmentStatus as StatusConversion>::spec_from_u8(new),
    ) {
        (Some(from), Some(to)) => shipment_step_allowed(from, to),
        _ => false,
    }
}

/// The fixed allow-list of agreement transitions. Any pair not listed is
/// illegal; nothing leaves `Completed` or `Canceled`.
pub open spec fn agreement_step_allowed(from: AgreementStatus, to: AgreementStatus) -> bool {
    match (from, to) {
        (AgreementStatus::Pending, AgreementStatus::Active) => true,
        (AgreementStatus::Pending, AgreementStatus::Canceled) => true,
        (AgreementStatus::Active, AgreementStatus::Completed) => true,
        (AgreementStatus::Active, AgreementStatus::Disputed) => true,
        (AgreementStatus::Active, AgreementStatus::Canceled) => true,
        (AgreementStatus::Disputed, AgreementStatus::Active) => true,
        (AgreementStatus::Disputed, AgreementStatus::Completed) => true,
        (AgreementStatus::Disputed, AgreementStatus::Canceled) => true,
        _ => false,
    }
}

/// Decides the shipment transition table over wire codes.
pub fn is_valid_status_transition(current: u8, new: u8) -> (valid: bool)
    ensures
        valid == shipment_code_step_allowed(current, new),
{
    (current == 0 && new == 1) || (current == 1 && new == 3) || (current == 1 && new == 2) || (
    current == 2 && new == 1) || (current == 3 && new == 4)
}

// ------------------------------------------------------------------
// Identifier list model: union-append and actor recording
// ------------------------------------------------------------------

/// No identifier occurs twice.
pub open spec fn distinct_ids(s: Seq<EntityId>) -> bool {
    forall|i: int, j: int| 0 <= i < j < s.len() ==> s[i] != s[j]
}

/// Append the identifiers of `xs` to `s` in first-seen order, suppressing
/// those already present.
pub open spec fn union_append(s: Seq<EntityId>, xs: Seq<EntityId>) -> Seq<EntityId>
    decreases xs.len(),
{
    if xs.len() == 0 {
        s
    } else {
        let s1 = if s.contains(xs[0]) {
            s
        } else {
            s.push(xs[0])
        };
        union_append(s1, xs.drop_first())
    }
}

/// Record one acting identity, idempotently.
pub open spec fn with_actor(s: Seq<EntityId>, actor: EntityId) -> Seq<EntityId> {
    if s.contains(actor) {
        s
    } else {
        s.push(actor)
    }
}

/// Pushing a fresh identifier keeps a list duplicate-free.
pub proof fn lemma_push_distinct(s: Seq<EntityId>, x: EntityId)
    requires
        distinct_ids(s),
        !s.contains(x),
    ensures
        distinct_ids(s.push(x)),
{
    assert forall|i: int, j: int| 0 <= i < j < s.push(x).len() implies s.push(x)[i] != s.push(x)[j]
        by {
        if j == s.len() {
            assert(s.push(x)[i] == s[i]);
            if s[i] == x {
                assert(s.contains(x));
            }
        }
    }
}

/// Union-append holds an identifier exactly when one of its operands
/// does.
pub proof fn lemma_union_append_membership(s: Seq<EntityId>, xs: Seq<EntityId>)
    ensures
        forall|p: EntityId| #[trigger]
            union_append(s, xs).contains(p) <==> s.contains(p) || xs.contains(p),
    decreases xs.len(),
{
    broadcast use vstd::seq_lib::group_seq_properties;

    if xs.len() != 0 {
        let s1 = if s.contains(xs[0]) {
            s
        } else {
            s.push(xs[0])
        };
        lemma_union_append_membership(s1, xs.drop_first());
        assert(union_append(s, xs) == union_append(s1, xs.drop_first()));
        assert forall|p: EntityId| #[trigger]
            union_append(s, xs).contains(p) <==> s.contains(p) || xs.contains(p) by {
            assert(union_append(s1, xs.drop_first()).contains(p) <==> s1.contains(p)
                || xs.drop_first().contains(p));
            assert(xs.contains(p) <==> (p == xs[0] || xs.drop_first().contains(p))) by {
                if xs.contains(p) {
                    let i = choose|i: int| 0 <= i < xs.len() && xs[i] == p;
                    if i > 0 {
                        assert(xs.drop_first()[i - 1] == p);
                    }
                }
                if xs.drop_first().contains(p) {
                    let i = choose|i: int|
                        0 <= i < xs.drop_first().len() && xs.drop_first()[i] == p;
                    assert(xs[i + 1] == p);
                }
                assert(xs[0] == p ==> xs.contains(p));
            }
        }
    }
}

/// Union-append keeps a duplicate-free list duplicate-free.
pub proof fn lemma_union_append_distinct(s: Seq<EntityId>, xs: Seq<EntityId>)
    requires
        distinct_ids(s),
    ensures
        distinct_ids(union_append(s, xs)),
    decreases xs.len(),
{
    if xs.len() != 0 {
        let s1 = if s.contains(xs[0]) {
            s
        } else {
            s.push(xs[0])
        };
        if !s.contains(xs[0]) {
            lemma_push_distinct(s, xs[0]);
        }
        lemma_union_append_distinct(s1, xs.drop_first());
    }
}

/// Union-append adds nothing when every appended identifier is already
/// present.
pub proof fn lemma_union_append_absorbs(s: Seq<EntityId>, xs: Seq<EntityId>)
    requires
        forall|p: EntityId| #[trigger] xs.contains(p) ==> s.contains(p),
    ensures
        union_append(s, xs) == s,
    decreases xs.len(),
{
    if xs.len() != 0 {
        assert(xs.contains(xs[0]));
        assert forall|p: EntityId| #[trigger] xs.drop_first().contains(p) implies s.contains(
            p,
        ) by {
            let i = choose|i: int| 0 <= i < xs.drop_first().len() && xs.drop_first()[i] == p;
            assert(xs[i + 1] == p);
            assert(xs.contains(p));
        }
        lemma_union_append_absorbs(s, xs.drop_first());
    }
}

/// Whether `ids` holds `x`.
pub fn contains_id(ids: &Vec<EntityId>, x: EntityId) -> (found: bool)
    ensures
        found == ids@.contains(x),
{
    let mut i: usize = 0;
    while i < ids.len()
        invariant
            i <= ids@.len(),
            forall|k: int| 0 <= k < i ==> ids@[k] != x,
        decreases ids@.len() - i,
    {
        if ids[i] == x {
            assert(ids@[i as int] == x);
            return true;
        }
        i = i + 1;
    }
    false
}

/// Append `actor` to `ids` unless already present.
pub fn record_actor(ids: &mut Vec<EntityId>, actor: EntityId)
    ensures
        final(ids)@ == with_actor(old(ids)@, actor),
        distinct_ids(old(ids)@) ==> distinct_ids(final(ids)@),
{
    if !contains_id(ids, actor) {
        ids.push(actor);
        proof {
            if distinct_ids(old(ids)@) {
                assert forall|i: int, j: int| 0 <= i < j < ids@.len() implies ids@[i]
                    != ids@[j] by {
                    if j == ids@.len() - 1 {
                        assert(ids@[i] == old(ids)@[i]);
                        assert(!old(ids)@.contains(actor));
                    }
                }
            }
        }
    }
}

// ------------------------------------------------------------------
// Records
// ------------------------------------------------------------------

/// A retail store. Created once by its owner; `is_active` gates product
/// creation; never deleted.
#[derive(Clone, PartialEq, Debug)]
pub struct Store {
    pub owner: EntityId,
    pub name: String,
    pub location: String,
    pub total_products: u64,
    pub is_active: bool,
}

impl Store {
    /// Bytes the durable store reserves for one record.
    pub fn space() -> (bytes: usize)
        ensures
            bytes == 113,
    {
        8 +  // discriminator
        32 +  // owner
        32 +  // name (max assumed)
        32 +  // location (max assumed)
        8 +  // total_products
        1  // is_active
    }
}

/// A product of a store; price and quantity mutable by the owner only.
#[derive(Clone, PartialEq, Debug)]
pub struct Product {
    pub store: EntityId,
    pub name: String,
    pub description: String,
    pub price: u64,
    pub quantity: u64,
    pub created_at: i64,
}

impl Product {
    /// Bytes the durable store reserves for one record.
    pub fn space() -> (bytes: usize)
        ensures
            bytes == 224,
    {
        8 +  // discriminator
        32 +  // store
        32 +  // name (max assumed)
        128 +  // description (max assumed)
        8 +  // price
        8 +  // quantity
        8  // created_at
    }
}

/// A supplier; its identifier equals the registering identity held in
/// `key`. `is_verified` flips true only through [`crate::supplier::verify_supplier`];
/// `rating` is overwritten, not averaged.
#[derive(Clone, PartialEq, Debug)]
pub struct Supplier {
    pub key: EntityId,
    pub name: String,
    pub certification: String,
    pub description: String,
    pub products_supplied: u64,
    pub is_verified: bool,
    pub rating: u8,
    pub created_at: i64,
}

impl Supplier {
    /// Bytes the durable store reserves for one record.
    pub fn space() -> (bytes: usize)
        ensures
            bytes == 314,
    {
        8 +  // discriminator
        32 +  // key
        64 +  // name (max assumed)
        128 +  // certification (max assumed)
        64 +  // description (max assumed)
        8 +  // products_supplied
        1 +  // is_verified
        1 +  // rating
        8  // created_at
    }
}

/// A capability token: its mere existence with `is_verifier` true and
/// `authority` equal to the caller authorizes verifier-only operations.
#[derive(Clone, PartialEq, Debug)]
pub struct VerifierCredential {
    pub authority: EntityId,
    pub is_verifier: bool,
    pub verification_level: u8,
    pub organization: String,
}

impl VerifierCredential {
    /// Bytes the durable store reserves for one record.
    pub fn space() -> (bytes: usize)
        ensures
            bytes == 106,
    {
        8 +  // discriminator
        32 +  // authority
        1 +  // is_verifier
        1 +  // verification_level
        64  // organization (max assumed)
    }
}

/// A supply agreement between a supplier and a store. Once `Completed`
/// or `Canceled` the status is terminal. The product list is kept free
/// of duplicates in first-seen order.
#[derive(Clone, PartialEq, Debug)]
pub struct SupplyAgreement {
    pub supplier: EntityId,
    pub store: EntityId,
    pub terms: String,
    pub deadline: i64,
    pub payment_amount: u64,
    pub status: AgreementStatus,
    pub created_at: i64,
    pub products: Vec<EntityId>,
}

impl SupplyAgreement {
    /// Bytes the durable store reserves for one record.
    pub fn space() -> (bytes: usize)
        ensures
            bytes == 417,
    {
        8 +  // discriminator
        32 +  // supplier
        32 +  // store
        256 +  // terms (max assumed)
        8 +  // deadline
        8 +  // payment_amount
        1 +  // status
        8 +  // created_at
        64  // products (initial allocation)
    }
}

/// What always holds of an agreement the engine has produced.
pub open spec fn agreement_invariant(a: SupplyAgreement) -> bool {
    &&& distinct_ids(a.products@)
    &&& a.terms@.len() > 0
    &&& a.terms@.len() <= 200
    &&& a.payment_amount > 0
    &&& a.deadline > a.created_at
}

/// A dispute raised against an agreement; resolution is a one-way flip
/// of `resolved` together with the parent agreement's transition.
#[derive(Clone, PartialEq, Debug)]
pub struct AgreementDispute {
    pub agreement: EntityId,
    pub initiated_by: EntityId,
    pub reason: String,
    pub created_at: i64,
    pub resolved: bool,
    pub resolved_by: Option<EntityId>,
    pub resolution_notes: Option<String>,
    pub resolved_at: Option<i64>,
}

impl AgreementDispute {
    /// Bytes the durable store reserves for one record.
    pub fn space() -> (bytes: usize)
        ensures
            bytes == 524,
    {
        8 +  // discriminator
        32 +  // agreement
        32 +  // initiated_by
        200 +  // reason (max assumed)
        8 +  // created_at
        1 +  // resolved
        (1 + 32) +  // resolved_by
        (1 + 200) +  // resolution_notes (max assumed)
        (1 + 8)  // resolved_at
    }
}

/// A shipment from a supplier to a destination store. Its lifecycle is
/// independent of the agreement's, but delivery verification may
/// complete a linked `Active` agreement. `verified_by` records every
/// identity that acted on the shipment, without duplicates.
#[derive(Clone, PartialEq, Debug)]
pub struct ShipmentRecord {
    pub tracking_id: String,
    pub supplier: EntityId,
    pub destination: EntityId,
    pub origin_location: String,
    pub destination_location: String,
    pub created_at: i64,
    pub estimated_arrival: i64,
    pub status: ShipmentStatus,
    pub products: Vec<EntityId>,
    pub verified_by: Vec<EntityId>,
}

impl ShipmentRecord {
    /// Bytes the durable store reserves for one record.
    pub fn space() -> (bytes: usize)
        ensures
            bytes == 793,
    {
        8 +  // discriminator
        64 +  // tracking_id (max assumed)
        32 +  // supplier
        32 +  // destination
        64 +  // origin_location (max assumed)
        64 +  // destination_location (max assumed)
        8 +  // created_at
        8 +  // estimated_arrival
        1 +  // status
        256 +  // products (sized for 8 entries)
        256  // verified_by (sized for 8 entries)
    }

    /// Whether `authority` has already acted on this shipment.
    pub fn is_verified_by(&self, authority: &EntityId) -> (acted: bool)
        ensures
            acted == self.verified_by@.contains(*authority),
    {
        contains_id(&self.verified_by, *authority)
    }

    /// The current lifecycle status.
    pub fn get_status(&self) -> (status: ShipmentStatus)
        ensures
            status == self.status,
    {
        self.status
    }
}

/// What always holds of a shipment the engine has produced.
pub open spec fn shipment_invariant(s: ShipmentRecord) -> bool {
    &&& distinct_ids(s.verified_by@)
    &&& s.tracking_id@.len() > 0
    &&& s.tracking_id@.len() <= 32
}

/// A point-in-time track record tied to a shipment; append-only.
/// Coordinates are fixed-point microdegrees (degrees times one million).
#[derive(Clone, PartialEq, Debug)]
pub struct ShipmentLocation {
    pub shipment: EntityId,
    pub latitude: i64,
    pub longitude: i64,
    pub location_name: String,
    pub timestamp: i64,
    pub recorded_by: EntityId,
}

impl ShipmentLocation {
    /// Bytes the durable store reserves for one record.
    pub fn space() -> (bytes: usize)
        ensures
            bytes == 160,
    {
        8 +  // discriminator
        32 +  // shipment
        8 +  // latitude
        8 +  // longitude
        64 +  // location_name (max assumed)
        8 +  // timestamp
        32  // recorded_by
    }
}

/// A generic audit log entry; append-only.
#[derive(Clone, PartialEq, Debug)]
pub struct SupplyChainEvent {
    pub event_type: u8,
    pub recorder: EntityId,
    pub related_entity: EntityId,
    pub location: String,
    pub timestamp: i64,
    pub metadata: String,
    pub created_at: i64,
}

impl SupplyChainEvent {
    /// Bytes the durable store reserves for one record.
    pub fn space() -> (bytes: usize)
        ensures
            bytes == 409,
    {
        8 +  // discriminator
        1 +  // event_type
        32 +  // recorder
        32 +  // related_entity
        64 +  // location (max assumed)
        8 +  // timestamp
        256 +  // metadata (max assumed)
        8  // created_at
    }
}

/// An IoT sensor reading; append-only except for the one-way
/// `is_verified` flip.
#[derive(Clone, PartialEq, Debug)]
pub struct IoTDataRecord {
    pub shipment: EntityId,
    pub data_type: u8,
    pub value: String,
    pub timestamp: i64,
    pub recorder: EntityId,
    pub is_verified: bool,
}

/// The reading kind a wire code stands for, with the historical fallback
/// to `Temperature` for unknown codes.
pub open spec fn iot_data_type_of(value: u8) -> IoTDataType {
    if value == 1 {
        IoTDataType::Humidity
    } else if value == 2 {
        IoTDataType::Location
    } else if value == 3 {
        IoTDataType::Shock
    } else if value == 4 {
        IoTDataType::LightExposure
    } else {
        IoTDataType::Temperature
    }
}

impl IoTDataRecord {
    /// Bytes the durable store reserves for one record.
    pub fn space() -> (bytes: usize)
        ensures
            bytes == 210,
    {
        8 +  // discriminator
        32 +  // shipment
        1 +  // data_type
        128 +  // value (max assumed)
        8 +  // timestamp
        32 +  // recorder
        1  // is_verified
    }

    /// The reading kind, falling back to `Temperature` for unknown codes.
    pub fn get_data_type(&self) -> (kind: IoTDataType)
        ensures
            kind == iot_data_type_of(self.data_type),
    {
        if self.data_type == 1 {
            IoTDataType::Humidity
        } else if self.data_type == 2 {
            IoTDataType::Location
        } else if self.data_type == 3 {
            IoTDataType::Shock
        } else if self.data_type == 4 {
            IoTDataType::LightExposure
        } else {
            IoTDataType::Temperature
        }
    }
}

/// An entry in a supplier's own catalog.
#[derive(Clone, PartialEq, Debug)]
pub struct SupplierProduct {
    pub supplier: EntityId,
    pub name: String,
    pub description: String,
    pub price: u64,
    pub available_quantity: u64,
    pub created_at: i64,
}

impl SupplierProduct {
    /// Bytes the durable store reserves for one record.
    pub fn space() -> (bytes: usize)
        ensures
            bytes == 224,
    {
        8 +  // discriminator
        32 +  // supplier
        32 +  // name (max assumed)
        128 +  // description (max assumed)
        8 +  // price
        8 +  // available_quantity
        8  // created_at
    }
}

} // verus!
