//! The three response validators: key/value query, balance query and
//! block query. Each decodes the proof material of its response, runs the
//! Merkle chain verifier as needed, cross-checks the human-readable
//! payload against the proven payload, and returns acceptance or a typed
//! rejection. Pure and synchronous: no retry, no fallback, no side
//! effects.

use vstd::prelude::*;

use crate::chain::{chain_outcome, query_proofs_outcome, validate_query_proof, verify_chain};
use crate::codec::{enc_key, rd_balance_proofs, rd_query_proofs, rd_uref_exact};
use crate::digest::Digest;
use crate::error::{BytesreprError, ValidateResponseError, ValidationError};
use crate::model::{
    json_matches, proof_value, view_proofs, view_segments, Key, KeyView, ProofStepView,
    StoredValue, StoredValueView, TrieMerkleProof, CL_TAG_U512, CL_TAG_UREF,
};
use crate::motes::{dec_digits, is_dec_string, Motes};
use crate::response::{
    BalanceResponse, BalanceResponseView, BlockField, BlockResponse, BlockResponseView,
    JsonField, JsonFieldView, QueryResponse, QueryResponseView,
};
use crate::block::{
    block_verify_outcome, BlockIdentifier, BlockIdentifierView,
};

verus! {

// ---------------------------------------------------------------------------
// Hex decoding of the proof field
// ---------------------------------------------------------------------------

/// Whether a byte is an ASCII hex digit, either case.
pub open spec fn is_hex_digit(c: u8) -> bool {
    (48 <= c <= 57) || (97 <= c <= 102) || (65 <= c <= 70)
}

/// The value of an ASCII hex digit.
pub open spec fn hex_val(c: u8) -> u8 {
    if 48 <= c <= 57 {
        (c - 48) as u8
    } else if 97 <= c <= 102 {
        (c - 87) as u8
    } else if 65 <= c <= 70 {
        (c - 55) as u8
    } else {
        0
    }
}

/// Whether the bytes spell a hex string: even length, hex digits only.
pub open spec fn is_hex_seq(s: Seq<u8>) -> bool {
    s.len() % 2 == 0 && forall|i: int| 0 <= i < s.len() ==> is_hex_digit(#[trigger] s[i])
}

/// The bytes a hex string spells, one per digit pair.
pub open spec fn hex_decoded(s: Seq<u8>) -> Seq<u8> {
    Seq::new(s.len() / 2, |i: int| (hex_val(s[2 * i]) * 16 + hex_val(s[2 * i + 1])) as u8)
}

/// Relies on `hex::decode`: it accepts exactly the even-length strings of
/// ASCII hex digits (either case) and returns the byte each digit pair
/// spells.
#[verifier::external_body]
fn hex_decode(s: &[u8]) -> (r: Option<Vec<u8>>)
    ensures
        match r {
            Some(v) => is_hex_seq(s@) && v@ == hex_decoded(s@),
            None => !is_hex_seq(s@),
        },
{
    hex::decode(s).ok()
}

// ---------------------------------------------------------------------------
// Key/value query responses
// ---------------------------------------------------------------------------

/// The outcome of validating a key/value query response: the envelope
/// must carry a result object with a hex proof field; the proof bytes
/// must decode to a nonempty run of proof chains whose last chain carries
/// a value; the human-readable stored value must equal that value's
/// JSON-compatible form; and the chains must verify against the trusted
/// root for the queried key and path.
pub open spec fn query_response_outcome(
    resp: QueryResponseView,
    root: Seq<u8>,
    key: KeyView,
    path: Seq<Seq<u8>>,
) -> Result<(), ValidateResponseError> {
    match resp.result {
        None => Err(ValidateResponseError::ValidateResponseFailedToParse),
        Some(qr) => match qr.merkle_proof {
            JsonFieldView::Present(h) => if !is_hex_seq(h) {
                Err(ValidateResponseError::ValidateResponseFailedToParse)
            } else {
                match rd_query_proofs(hex_decoded(h)) {
                    None => Err(ValidateResponseError::BytesRepr(BytesreprError::Formatting)),
                    Some(proofs) => if proofs.len() == 0 {
                        Err(ValidateResponseError::ValidateResponseFailedToParse)
                    } else {
                        match proof_value(proofs.last()) {
                            None => Err(ValidateResponseError::ValidateResponseFailedToParse),
                            Some(pv) => match qr.stored_value {
                                JsonFieldView::Missing => Err(
                                    ValidateResponseError::ValidateResponseFailedToParse,
                                ),
                                JsonFieldView::Invalid => Err(ValidateResponseError::Serde),
                                JsonFieldView::Present(jsv) => if !json_matches(pv, jsv) {
                                    Err(ValidateResponseError::SerializedValueNotContainedInProof)
                                } else {
                                    match query_proofs_outcome(root, proofs, key, path, pv) {
                                        Ok(()) => Ok(()),
                                        Err(e) => Err(ValidateResponseError::ValidationError(e)),
                                    }
                                },
                            },
                        }
                    },
                }
            },
            _ => Err(ValidateResponseError::ValidateResponseFailedToParse),
        },
    }
}

/// Validates a key/value query response against the trusted state root
/// hash and the caller's own key and path.
pub fn validate_query_response(
    response: &QueryResponse,
    state_root_hash: &Digest,
    key: &Key,
    path: &Vec<Vec<u8>>,
) -> (r: Result<(), ValidateResponseError>)
    ensures
        r == query_response_outcome(response@, state_root_hash@, key@, view_segments(path@)),
{
    let result = match &response.result {
        None => { return Err(ValidateResponseError::ValidateResponseFailedToParse) },
        Some(x) => x,
    };
    let proof_hex = match &result.merkle_proof {
        JsonField::Present(h) => h,
        _ => { return Err(ValidateResponseError::ValidateResponseFailedToParse) },
    };
    let proof_bytes = match hex_decode(proof_hex.as_slice()) {
        None => { return Err(ValidateResponseError::ValidateResponseFailedToParse) },
        Some(b) => b,
    };
    let proofs = match crate::decode::decode_query_proofs(proof_bytes.as_slice()) {
        Err(e) => { return Err(ValidateResponseError::BytesRepr(e)) },
        Ok(ps) => ps,
    };
    if proofs.len() == 0 {
        return Err(ValidateResponseError::ValidateResponseFailedToParse);
    }
    let last = &proofs[proofs.len() - 1];
    proof {
        assert(view_proofs(proofs@).last() == last@);
    }
    let pv = match last.value() {
        None => { return Err(ValidateResponseError::ValidateResponseFailedToParse) },
        Some(v) => v,
    };
    let jsv = match &result.stored_value {
        JsonField::Missing => {
            return Err(ValidateResponseError::ValidateResponseFailedToParse)
        },
        JsonField::Invalid => { return Err(ValidateResponseError::Serde) },
        JsonField::Present(j) => j,
    };
    if !crate::model::check_json_matches(pv, jsv) {
        return Err(ValidateResponseError::SerializedValueNotContainedInProof);
    }
    match validate_query_proof(state_root_hash, &proofs, key, path, pv) {
        Ok(()) => Ok(()),
        Err(e) => Err(ValidateResponseError::ValidationError(e)),
    }
}

// ---------------------------------------------------------------------------
// Balance query responses
// ---------------------------------------------------------------------------

/// The outcome of verifying the two-hop balance proof: the purse proof
/// must chain to the root for the queried key and prove a purse pointer;
/// that pointer determines the balance key; the balance proof must chain
/// to the same root for that key and prove a balance equal to the claimed
/// one.
pub open spec fn balance_proofs_outcome(
    root: Seq<u8>,
    purse_proof: Seq<ProofStepView>,
    balance_proof: Seq<ProofStepView>,
    key: KeyView,
    digits: Seq<u8>,
) -> Result<(), ValidationError> {
    match chain_outcome(root, purse_proof, enc_key(key)) {
        Err(e) => Err(e),
        Ok(pv) => match pv {
            StoredValueView::CLValue { tag, bytes } => if tag != CL_TAG_UREF {
                Err(ValidationError::ValueMismatch)
            } else {
                match rd_uref_exact(bytes) {
                    None => Err(ValidationError::ValueMismatch),
                    Some(u) => match chain_outcome(
                        root,
                        balance_proof,
                        enc_key(KeyView::Balance { addr: u.addr }),
                    ) {
                        Err(e) => Err(e),
                        Ok(bv) => match bv {
                            StoredValueView::CLValue { tag: t2, bytes: b2 } => if t2 == CL_TAG_U512
                                && b2 == digits {
                                Ok(())
                            } else {
                                Err(ValidationError::ValueMismatch)
                            },
                            _ => Err(ValidationError::ValueMismatch),
                        },
                    },
                }
            },
            _ => Err(ValidationError::ValueMismatch),
        },
    }
}

/// Verifies the two-hop balance proof against the trusted root: purse
/// resolution first, then the balance at the key the purse determines.
pub fn validate_balance_proof(
    root_hash: &Digest,
    purse_proof: &TrieMerkleProof,
    balance_proof: &TrieMerkleProof,
    key: &Key,
    expected_balance: &Motes,
) -> (r: Result<(), ValidationError>)
    ensures
        r == balance_proofs_outcome(
            root_hash@,
            purse_proof@,
            balance_proof@,
            key@,
            expected_balance@,
        ),
{
    let key_bytes = crate::encode::encode_key(key);
    let purse_val = match verify_chain(root_hash, purse_proof, key_bytes.as_slice()) {
        Err(e) => { return Err(e) },
        Ok(v) => v,
    };
    let (tag, bytes) = match purse_val {
        StoredValue::CLValue { tag, bytes } => (tag, bytes),
        _ => { return Err(ValidationError::ValueMismatch) },
    };
    if *tag != CL_TAG_UREF {
        return Err(ValidationError::ValueMismatch);
    }
    let uref = match crate::decode::decode_uref_exact(bytes.as_slice()) {
        None => { return Err(ValidationError::ValueMismatch) },
        Some(u) => u,
    };
    let balance_key = Key::Balance { addr: uref.addr };
    let balance_key_bytes = crate::encode::encode_key(&balance_key);
    let balance_val = match verify_chain(root_hash, balance_proof, balance_key_bytes.as_slice()) {
        Err(e) => { return Err(e) },
        Ok(v) => v,
    };
    match balance_val {
        StoredValue::CLValue { tag: t2, bytes: b2 } => {
            if *t2 == CL_TAG_U512 && crate::digest::bytes_eq(
                b2.as_slice(),
                expected_balance.digits.as_slice(),
            ) {
                Ok(())
            } else {
                Err(ValidationError::ValueMismatch)
            }
        },
        _ => Err(ValidationError::ValueMismatch),
    }
}

/// The outcome of validating a balance query response: the envelope must
/// carry a result object with a hex proof field decoding to exactly two
/// proof chains and a decimal balance field, and the two-hop proof must
/// verify as in [`balance_proofs_outcome`].
pub open spec fn balance_response_outcome(
    resp: BalanceResponseView,
    root: Seq<u8>,
    key: KeyView,
) -> Result<(), ValidateResponseError> {
    match resp.result {
        None => Err(ValidateResponseError::ValidateResponseFailedToParse),
        Some(br) => match br.merkle_proof {
            JsonFieldView::Present(h) => if !is_hex_seq(h) {
                Err(ValidateResponseError::ValidateResponseFailedToParse)
            } else {
                match rd_balance_proofs(hex_decoded(h)) {
                    None => Err(ValidateResponseError::BytesRepr(BytesreprError::Formatting)),
                    Some(pair) => match br.balance_value {
                        JsonFieldView::Present(s) => if !is_dec_string(s) {
                            Err(ValidateResponseError::ValidateResponseFailedToParse)
                        } else {
                            match balance_proofs_outcome(
                                root,
                                pair.0,
                                pair.1,
                                key,
                                dec_digits(s),
                            ) {
                                Ok(()) => Ok(()),
                                Err(e) => Err(ValidateResponseError::ValidationError(e)),
                            }
                        },
                        _ => Err(ValidateResponseError::ValidateResponseFailedToParse),
                    },
                }
            },
            _ => Err(ValidateResponseError::ValidateResponseFailedToParse),
        },
    }
}

/// Validates a balance query response against the trusted state root hash
/// and the caller's own key.
pub fn validate_get_balance_response(
    response: &BalanceResponse,
    state_root_hash: &Digest,
    key: &Key,
) -> (r: Result<(), ValidateResponseError>)
    ensures
        r == balance_response_outcome(response@, state_root_hash@, key@),
{
    let result = match &response.result {
        None => { return Err(ValidateResponseError::ValidateResponseFailedToParse) },
        Some(x) => x,
    };
    let proof_hex = match &result.merkle_proof {
        JsonField::Present(h) => h,
        _ => { return Err(ValidateResponseError::ValidateResponseFailedToParse) },
    };
    let proof_bytes = match hex_decode(proof_hex.as_slice()) {
        None => { return Err(ValidateResponseError::ValidateResponseFailedToParse) },
        Some(b) => b,
    };
    let (purse_proof, balance_proof) = match crate::decode::decode_balance_proofs(
        proof_bytes.as_slice(),
    ) {
        Err(e) => { return Err(ValidateResponseError::BytesRepr(e)) },
        Ok(p) => p,
    };
    let balance_str = match &result.balance_value {
        JsonField::Present(s) => s,
        _ => { return Err(ValidateResponseError::ValidateResponseFailedToParse) },
    };
    let balance = match crate::motes::from_dec_str(balance_str.as_slice()) {
        None => { return Err(ValidateResponseError::ValidateResponseFailedToParse) },
        Some(m) => m,
    };
    match validate_balance_proof(state_root_hash, &purse_proof, &balance_proof, key, &balance) {
        Ok(()) => Ok(()),
        Err(e) => Err(ValidateResponseError::ValidationError(e)),
    }
}

// ---------------------------------------------------------------------------
// Block query responses
// ---------------------------------------------------------------------------

/// The views of the caller's block expectation.
pub open spec fn maybe_id_view(m: Option<BlockIdentifier>) -> Option<BlockIdentifierView> {
    match m {
        None => None,
        Some(id) => Some(id@),
    }
}

/// The outcome of validating a block query response: a missing block
/// field is its own error; an explicitly empty one is accepted; a block
/// must be self-consistent and must match the identifier the caller
/// pinned the lookup to, when one was given. Matching by hash or height
/// does not authenticate the block against a validator quorum: that is a
/// known gap, carried as an explicit extension point.
pub open spec fn block_response_outcome(
    resp: BlockResponseView,
    maybe_id: Option<BlockIdentifierView>,
) -> Result<(), ValidateResponseError> {
    match resp.block {
        crate::response::BlockFieldView::Missing => Err(ValidateResponseError::NoBlockInResponse),
        crate::response::BlockFieldView::Invalid => Err(ValidateResponseError::Serde),
        crate::response::BlockFieldView::Null => Ok(()),
        crate::response::BlockFieldView::Present(b) => match block_verify_outcome(b) {
            Err(e) => Err(ValidateResponseError::BlockValidationError(e)),
            Ok(()) => match maybe_id {
                Some(BlockIdentifierView::Hash(h)) => if h != b.hash {
                    Err(ValidateResponseError::UnexpectedBlockHash)
                } else {
                    Ok(())
                },
                Some(BlockIdentifierView::Height(n)) => if n != b.header.height {
                    Err(ValidateResponseError::UnexpectedBlockHeight)
                } else {
                    Ok(())
                },
                None => Ok(()),
            },
        },
    }
}

/// Validates a block query response against the caller's expectation of
/// which block it should hold.
pub fn validate_get_block_response(
    response: &BlockResponse,
    maybe_block_identifier: &Option<BlockIdentifier>,
) -> (r: Result<(), ValidateResponseError>)
    ensures
        r == block_response_outcome(response@, maybe_id_view(*maybe_block_identifier)),
{
    let block = match &response.block {
        BlockField::Missing => { return Err(ValidateResponseError::NoBlockInResponse) },
        BlockField::Invalid => { return Err(ValidateResponseError::Serde) },
        BlockField::Null => { return Ok(()) },
        BlockField::Present(b) => b,
    };
    match block.verify() {
        Err(e) => { return Err(ValidateResponseError::BlockValidationError(e)) },
        Ok(()) => {},
    }
    match maybe_block_identifier {
        Some(BlockIdentifier::Hash(block_hash)) => {
            if !crate::digest::bytes_eq(
                block_hash.bytes.as_slice(),
                block.hash.bytes.as_slice(),
            ) {
                return Err(ValidateResponseError::UnexpectedBlockHash);
            }
        },
        Some(BlockIdentifier::Height(height)) => {
            if *height != block.header.height {
                return Err(ValidateResponseError::UnexpectedBlockHeight);
            }
        },
        None => {},
    }
    Ok(())
}

} // verus!
