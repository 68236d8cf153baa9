//! The properties the verifier is trusted for, stated and proved once for
//! all inputs: root agreement, key binding, cross-check enforcement, the
//! two-hop balance dependency, and block identity.

use vstd::prelude::*;

use crate::chain::{chain_ok, chain_outcome, chain_walk, query_proofs_outcome};
use crate::codec::{enc_key, rd_query_proofs, rd_uref_exact};
use crate::error::{ValidateResponseError, ValidationError};
use crate::model::{
    json_matches, proof_value, JsonStoredValueView, KeyView, ProofStepView, StoredValueView,
    TrieNodeView, UrefView, CL_TAG_UREF,
};
use crate::response::{BlockFieldView, BlockResponseView, JsonFieldView, QueryResponseView};
use crate::block::{block_verify_outcome, BlockIdentifierView, BlockView};
use crate::validate::{
    balance_proofs_outcome, block_response_outcome, is_hex_seq, hex_decoded,
    query_response_outcome,
};

verus! {

/// The key a proof chain spells: the concatenation of the key segments
/// its steps consume, in order.
pub open spec fn segments_concat(steps: Seq<ProofStepView>) -> Seq<u8>
    decreases steps.len(),
{
    if steps.len() == 0 {
        Seq::empty()
    } else {
        steps[0].segment + segments_concat(steps.drop_first())
    }
}

proof fn lemma_walk_spells_key(steps: Seq<ProofStepView>, key: Seq<u8>, off: int)
    requires
        0 <= off <= key.len(),
        chain_walk(steps, key, off) is Ok,
    ensures
        key.skip(off) == segments_concat(steps),
    decreases steps.len(),
{
    if steps.len() == 1 {
        match steps[0].node {
            TrieNodeView::Leaf { key: leaf_key, value } => {
                assert(key.skip(off) =~= key.subrange(off, key.len() as int));
                assert(segments_concat(steps.drop_first()) == Seq::<u8>::empty());
                assert(segments_concat(steps) =~= steps[0].segment);
            },
            _ => { assert(false); },
        }
    } else {
        match steps[0].node {
            TrieNodeView::Leaf { .. } => { assert(false); },
            TrieNodeView::Extension { affix, pointer } => {
                lemma_walk_spells_key(steps.drop_first(), key, off + affix.len());
                assert(key.skip(off) =~= key.subrange(off, off + affix.len() as int) + key.skip(
                    off + affix.len(),
                ));
            },
            TrieNodeView::Branch { pointers } => {
                lemma_walk_spells_key(steps.drop_first(), key, off + 1);
                assert(key.skip(off) =~= seq![key[off]] + key.skip(off + 1));
            },
        }
    }
}

/// A valid proof chain spells the key it was verified against.
pub proof fn lemma_chain_spells_key(root: Seq<u8>, steps: Seq<ProofStepView>, key: Seq<u8>)
    requires
        chain_ok(root, steps, key),
    ensures
        segments_concat(steps) == key,
{
    lemma_walk_spells_key(steps, key, 0);
    assert(key.skip(0) =~= key);
}

/// Root agreement: a proof chain that verifies under the trusted root is
/// rejected under any other root, so any change to the root hash, down to
/// a single bit, turns acceptance into rejection.
pub proof fn lemma_root_agreement(
    root: Seq<u8>,
    other: Seq<u8>,
    steps: Seq<ProofStepView>,
    key: Seq<u8>,
)
    requires
        chain_ok(root, steps, key),
        other != root,
    ensures
        chain_outcome(other, steps, key) == Err::<StoredValueView, ValidationError>(
            ValidationError::RootHashMismatch,
        ),
{
}

/// Key binding: one proof chain cannot verify for two different keys,
/// however consistent its internal hash links are. A proof produced for
/// one key is rejected when checked against any other.
pub proof fn lemma_key_binding(
    root: Seq<u8>,
    steps: Seq<ProofStepView>,
    key_a: Seq<u8>,
    key_b: Seq<u8>,
)
    requires
        chain_ok(root, steps, key_a),
        key_a != key_b,
    ensures
        !chain_ok(root, steps, key_b),
{
    if chain_ok(root, steps, key_b) {
        lemma_chain_spells_key(root, steps, key_a);
        lemma_chain_spells_key(root, steps, key_b);
    }
}

/// Cross-check enforcement: when a query response parses but its
/// human-readable stored value is not the JSON form of the value the
/// proof carries, the response is rejected as not contained in the proof,
/// whether or not the proof chains themselves verify.
pub proof fn lemma_cross_check(
    resp: QueryResponseView,
    root: Seq<u8>,
    key: KeyView,
    path: Seq<Seq<u8>>,
    hex_field: Seq<u8>,
    proofs: Seq<Seq<ProofStepView>>,
    pv: StoredValueView,
    jsv: JsonStoredValueView,
)
    requires
        resp.result matches Some(qr) && qr.merkle_proof == JsonFieldView::Present(hex_field)
            && qr.stored_value == JsonFieldView::Present(jsv),
        is_hex_seq(hex_field),
        rd_query_proofs(hex_decoded(hex_field)) == Some(proofs),
        proofs.len() > 0,
        proof_value(proofs.last()) == Some(pv),
        !json_matches(pv, jsv),
    ensures
        query_response_outcome(resp, root, key, path) == Err::<(), ValidateResponseError>(
            ValidateResponseError::SerializedValueNotContainedInProof,
        ),
{
}

/// Two-hop dependency of balance validation: even when the purse proof
/// verifies and resolves to a purse, a balance proof whose consumed
/// segments do not spell the balance key of that very purse is rejected.
pub proof fn lemma_balance_two_hop(
    root: Seq<u8>,
    purse_proof: Seq<ProofStepView>,
    balance_proof: Seq<ProofStepView>,
    key: KeyView,
    digits: Seq<u8>,
    purse_bytes: Seq<u8>,
    purse: UrefView,
)
    requires
        chain_outcome(root, purse_proof, enc_key(key)) == Ok::<StoredValueView, ValidationError>(
            StoredValueView::CLValue { tag: CL_TAG_UREF, bytes: purse_bytes },
        ),
        rd_uref_exact(purse_bytes) == Some(purse),
        segments_concat(balance_proof) != enc_key(KeyView::Balance { addr: purse.addr }),
    ensures
        balance_proofs_outcome(root, purse_proof, balance_proof, key, digits) is Err,
{
    let balance_key = enc_key(KeyView::Balance { addr: purse.addr });
    if chain_ok(root, balance_proof, balance_key) {
        lemma_chain_spells_key(root, balance_proof, balance_key);
    }
}

/// Block identity: once a block is self-consistent, pinning the lookup to
/// its own hash accepts, pinning it to a wrong hash or height rejects
/// with the matching error, and pinning nothing accepts unconditionally.
pub proof fn lemma_block_identity(
    resp: BlockResponseView,
    b: BlockView,
    other_hash: Seq<u8>,
    other_height: u64,
)
    requires
        resp.block == BlockFieldView::Present(b),
        block_verify_outcome(b) == Ok::<(), crate::error::BlockValidationError>(()),
    ensures
        block_response_outcome(resp, Some(BlockIdentifierView::Hash(b.hash))) == Ok::<
            (),
            ValidateResponseError,
        >(()),
        block_response_outcome(resp, Some(BlockIdentifierView::Height(b.header.height))) == Ok::<
            (),
            ValidateResponseError,
        >(()),
        other_hash != b.hash ==> block_response_outcome(
            resp,
            Some(BlockIdentifierView::Hash(other_hash)),
        ) == Err::<(), ValidateResponseError>(ValidateResponseError::UnexpectedBlockHash),
        other_height != b.header.height ==> block_response_outcome(
            resp,
            Some(BlockIdentifierView::Height(other_height)),
        ) == Err::<(), ValidateResponseError>(ValidateResponseError::UnexpectedBlockHeight),
        block_response_outcome(resp, None) == Ok::<(), ValidateResponseError>(()),
{
}

/// Null block: a response whose block field is explicitly empty is
/// accepted, whatever the caller expected; there is nothing to
/// contradict.
pub proof fn lemma_null_block(resp: BlockResponseView, maybe_id: Option<BlockIdentifierView>)
    requires
        resp.block == BlockFieldView::Null,
    ensures
        block_response_outcome(resp, maybe_id) == Ok::<(), ValidateResponseError>(()),
{
}

} // verus!
