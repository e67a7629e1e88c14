//! The closed error taxonomy of the engine.
//!
//! Every operation either fully succeeds or returns one of these errors
//! with no record mutated.

use vstd::prelude::*;

verus! {

/// Why an operation was rejected, grouped by cause: authorization,
/// state-machine violations, relationship mismatches, input validation
/// and technical failures.
#[derive(Clone, Copy, PartialEq, Eq, Structural, Debug)]
pub enum SupplyChainError {
    // Authentication / authorization
    Unauthorized,
    VerificationRequired,
    UnauthorizedVerifier,
    // Status violations
    InvalidStatusTransition,
    AlreadyInStatus,
    ShipmentAlreadyCompleted,
    StoreInactive,
    // Agreement lifecycle
    InvalidAgreementStatus,
    InvalidDeadline,
    InvalidPaymentAmount,
    AgreementAlreadyAccepted,
    AgreementAlreadyCompleted,
    AgreementCanceled,
    AgreementInDispute,
    DisputeAlreadyResolved,
    // Relationship mismatches
    InvalidRelationship,
    SupplierNotRelated,
    ShipmentNotRelated,
    // Input validation
    InvalidData,
    MissingRequiredField,
    StringTooLong,
    InvalidQuantity,
    InvalidPrice,
    InvalidRating,
    // IoT data
    InvalidIoTDataType,
    IoTDataOutOfRange,
    IoTDataAlreadyVerified,
    InvalidTimestamp,
    // Technical
    ArithmeticError,
    SerializationError,
    InvalidOwner,
    ProgramUnauthorized,
    // Operational
    OperationTimeout,
    ResourceLimitExceeded,
    DuplicateEntry,
    EntityNotFound,
    // Compliance
    ComplianceViolation,
    MissingVerification,
    CertificationRequired,
    UnexpectedError,
}

} // verus!
