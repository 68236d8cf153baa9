//! The typed rejections a validator can return. Every error is terminal for
//! the single response being validated; nothing here is retried.

use vstd::prelude::*;

verus! {

/// Failure to decode the canonical byte encoding of the proof material.
/// Deliberately a single kind: distinct low-level decode failures are
/// collapsed so a remote attacker gains no structural oracle.
#[derive(Debug, Clone, Copy, PartialEq, Eq, Structural)]
pub enum BytesreprError {
    /// The bytes are not a canonical encoding of the expected shape.
    Formatting,
}

/// Failure of the Merkle chain verifier.
#[derive(Debug, Clone, Copy, PartialEq, Eq, Structural)]
pub enum ValidationError {
    /// The proof chain is empty.
    EmptyProof,
    /// The root-most node does not hash to the trusted root hash.
    RootHashMismatch,
    /// A parent step does not point at the hash of its child step, or a
    /// leaf stands where a branch or extension is required.
    StepMismatch,
    /// The key segments consumed by the steps do not spell the queried key.
    KeyMismatch,
    /// The leaf-most step does not carry a leaf, so no value is proven.
    MissingLeaf,
    /// The number of proofs does not fit the queried path.
    PathLengthMismatch,
    /// A path element does not resolve to a named key of the value proven
    /// by the preceding proof.
    PathMismatch,
    /// The proven value is not the expected one, or has the wrong shape for
    /// the query (not a purse pointer, not a balance).
    ValueMismatch,
}

/// Failure of a block's self-consistency check.
#[derive(Debug, Clone, Copy, PartialEq, Eq, Structural)]
pub enum BlockValidationError {
    /// The block's declared hash is not the hash of its header.
    UnexpectedBlockHash,
    /// The header's body hash is not the hash of the block's body.
    UnexpectedBodyHash,
}

/// Error that can be returned when validating a response.
#[derive(Debug, Clone, Copy, PartialEq, Eq, Structural)]
pub enum ValidateResponseError {
    /// Failed to decode the proof bytes.
    BytesRepr(BytesreprError),
    /// The human-readable payload failed to deserialize.
    Serde,
    /// Failed to parse the response envelope.
    ValidateResponseFailedToParse,
    /// Failed to validate the Merkle proofs.
    ValidationError(ValidationError),
    /// Failed to validate a block.
    BlockValidationError(BlockValidationError),
    /// Serialized value not contained in proof.
    SerializedValueNotContainedInProof,
    /// No block in response.
    NoBlockInResponse,
    /// Block hash requested does not correspond to response.
    UnexpectedBlockHash,
    /// Block height was not as requested.
    UnexpectedBlockHeight,
}

impl From<BytesreprError> for ValidateResponseError {
    fn from(e: BytesreprError) -> (r: Self) {
        ValidateResponseError::BytesRepr(e)
    }
}

impl vstd::std_specs::convert::FromSpecImpl<BytesreprError> for ValidateResponseError {
    open spec fn obeys_from_spec() -> bool {
        true
    }

    open spec fn from_spec(e: BytesreprError) -> Self {
        ValidateResponseError::BytesRepr(e)
    }
}

impl From<ValidationError> for ValidateResponseError {
    fn from(e: ValidationError) -> (r: Self) {
        ValidateResponseError::ValidationError(e)
    }
}

impl vstd::std_specs::convert::FromSpecImpl<ValidationError> for ValidateResponseError {
    open spec fn obeys_from_spec() -> bool {
        true
    }

    open spec fn from_spec(e: ValidationError) -> Self {
        ValidateResponseError::ValidationError(e)
    }
}

impl From<BlockValidationError> for ValidateResponseError {
    fn from(e: BlockValidationError) -> (r: Self) {
        ValidateResponseError::BlockValidationError(e)
    }
}

impl vstd::std_specs::convert::FromSpecImpl<BlockValidationError> for ValidateResponseError {
    open spec fn obeys_from_spec() -> bool {
        true
    }

    open spec fn from_spec(e: BlockValidationError) -> Self {
        ValidateResponseError::BlockValidationError(e)
    }
}

} // verus!
