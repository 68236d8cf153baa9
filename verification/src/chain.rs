//! The Merkle chain verifier: recomputes node hashes bottom-up and checks
//! agreement with the trusted root and with the queried key path.

use vstd::prelude::*;

use crate::codec::{enc_key, node_digest};
use crate::digest::Digest;
use crate::error::ValidationError;
use crate::model::{
    named_lookup, view_named_keys, view_proofs, view_segments, view_steps, Key, KeyView,
    ProofStep, ProofStepView, StoredValue, StoredValueView, TrieMerkleProof, TrieNode,
    TrieNodeView,
};

verus! {

/// The pointer a branch holds at a key byte: the first slot indexed by it,
/// if any.
pub open spec fn branch_lookup(pointers: Seq<(u8, Seq<u8>)>, idx: u8) -> Option<Seq<u8>>
    decreases pointers.len(),
{
    if pointers.len() == 0 {
        None
    } else if pointers[0].0 == idx {
        Some(pointers[0].1)
    } else {
        branch_lookup(pointers.drop_first(), idx)
    }
}

/// Walks a proof chain from the root-most step down, with `off` bytes of
/// the key already consumed by earlier steps. Each non-final step must
/// consume the key bytes its segment claims and point, at the implied
/// index, at the hash of the following step's node; the final step must be
/// a leaf spelling exactly the rest of the key. Returns the leaf's value.
pub open spec fn chain_walk(steps: Seq<ProofStepView>, key: Seq<u8>, off: int) -> Result<
    StoredValueView,
    ValidationError,
>
    decreases steps.len(),
{
    if steps.len() == 0 {
        Err(ValidationError::EmptyProof)
    } else if steps.len() == 1 {
        match steps[0].node {
            TrieNodeView::Leaf { key: leaf_key, value } => if steps[0].segment == leaf_key && off
                + leaf_key.len() == key.len() && leaf_key == key.subrange(off, key.len() as int) {
                Ok(value)
            } else {
                Err(ValidationError::KeyMismatch)
            },
            _ => Err(ValidationError::MissingLeaf),
        }
    } else {
        match steps[0].node {
            TrieNodeView::Leaf { .. } => Err(ValidationError::StepMismatch),
            TrieNodeView::Extension { affix, pointer } => if !(affix.len() > 0 && off
                + affix.len() <= key.len() && steps[0].segment == affix && affix == key.subrange(
                off,
                off + affix.len(),
            )) {
                Err(ValidationError::KeyMismatch)
            } else if pointer != node_digest(steps[1].node) {
                Err(ValidationError::StepMismatch)
            } else {
                chain_walk(steps.drop_first(), key, off + affix.len())
            },
            TrieNodeView::Branch { pointers } => if !(off < key.len() && steps[0].segment == seq![
                key[off],
            ]) {
                Err(ValidationError::KeyMismatch)
            } else {
                match branch_lookup(pointers, key[off]) {
                    None => Err(ValidationError::StepMismatch),
                    Some(h) => if h != node_digest(steps[1].node) {
                        Err(ValidationError::StepMismatch)
                    } else {
                        chain_walk(steps.drop_first(), key, off + 1)
                    },
                }
            },
        }
    }
}

/// The outcome of verifying one proof chain against a trusted root hash
/// and a queried key: the proven value, or the first reason the chain does
/// not prove one.
pub open spec fn chain_outcome(root: Seq<u8>, steps: Seq<ProofStepView>, key: Seq<u8>) -> Result<
    StoredValueView,
    ValidationError,
> {
    if steps.len() == 0 {
        Err(ValidationError::EmptyProof)
    } else if node_digest(steps[0].node) != root {
        Err(ValidationError::RootHashMismatch)
    } else {
        chain_walk(steps, key, 0)
    }
}

/// Whether a proof chain proves some value for `key` under `root`.
pub open spec fn chain_ok(root: Seq<u8>, steps: Seq<ProofStepView>, key: Seq<u8>) -> bool {
    chain_outcome(root, steps, key) is Ok
}

/// The value a valid proof chain proves.
pub open spec fn chain_value(root: Seq<u8>, steps: Seq<ProofStepView>, key: Seq<u8>) ->
    StoredValueView {
    chain_outcome(root, steps, key)->Ok_0
}

fn branch_find(pointers: &Vec<crate::model::BranchPointer>, idx: u8) -> (r: Option<usize>)
    ensures
        match r {
            Some(j) => j < pointers@.len() && branch_lookup(
                crate::model::view_pointers(pointers@),
                idx,
            ) == Some(pointers@[j as int].hash@),
            None => branch_lookup(crate::model::view_pointers(pointers@), idx) is None,
        },
{
    let ghost s = crate::model::view_pointers(pointers@);
    proof {
        assert(s.skip(0) =~= s);
    }
    let n: usize = pointers.len();
    for i in 0..n
        invariant
            n == pointers@.len(),
            s == crate::model::view_pointers(pointers@),
            branch_lookup(s, idx) == branch_lookup(s.skip(i as int), idx),
    {
        proof {
            assert(s.skip(i as int)[0] == s[i as int]);
            assert(s.skip(i as int).drop_first() =~= s.skip(i + 1));
        }
        if pointers[i].index == idx {
            return Some(i);
        }
    }
    proof {
        assert(s.skip(n as int) =~= Seq::<(u8, Seq<u8>)>::empty());
    }
    None
}

fn chain_walk_exec<'a>(steps: &'a Vec<ProofStep>, i: usize, key: &[u8], off: usize) -> (r: Result<
    &'a StoredValue,
    ValidationError,
>)
    requires
        i < steps@.len(),
        off <= key@.len(),
    ensures
        match r {
            Ok(v) => chain_walk(view_steps(steps@).skip(i as int), key@, off as int)
                == Ok::<StoredValueView, ValidationError>(v@),
            Err(e) => chain_walk(view_steps(steps@).skip(i as int), key@, off as int)
                == Err::<StoredValueView, ValidationError>(e),
        },
    decreases steps@.len() - i,
{
    let ghost s = view_steps(steps@);
    proof {
        assert(s.skip(i as int)[0] == s[i as int]);
        if i + 1 < steps@.len() {
            assert(s.skip(i as int)[1] == s[i + 1]);
            assert(s.skip(i as int).drop_first() =~= s.skip(i + 1));
        }
    }
    let n: usize = steps.len();
    let step = &steps[i];
    if i + 1 == n {
        match &step.node {
            TrieNode::Leaf { key: leaf_key, value } => {
                let remaining: usize = key.len() - off;
                if !(crate::digest::bytes_eq(step.segment.as_slice(), leaf_key.as_slice())
                    && leaf_key.len() == remaining) {
                    return Err(ValidationError::KeyMismatch);
                }
                let tail = vstd::slice::slice_subrange(key, off, key.len());
                if !crate::digest::bytes_eq(leaf_key.as_slice(), tail) {
                    return Err(ValidationError::KeyMismatch);
                }
                Ok(value)
            },
            _ => Err(ValidationError::MissingLeaf),
        }
    } else {
        match &step.node {
            TrieNode::Leaf { .. } => Err(ValidationError::StepMismatch),
            TrieNode::Extension { affix, pointer } => {
                let remaining: usize = key.len() - off;
                if !(affix.len() > 0 && affix.len() <= remaining && crate::digest::bytes_eq(
                    step.segment.as_slice(),
                    affix.as_slice(),
                )) {
                    return Err(ValidationError::KeyMismatch);
                }
                let piece = vstd::slice::slice_subrange(key, off, off + affix.len());
                if !crate::digest::bytes_eq(affix.as_slice(), piece) {
                    return Err(ValidationError::KeyMismatch);
                }
                let child_hash = crate::encode::node_hash(&steps[i + 1].node);
                if !crate::digest::bytes_eq(
                    pointer.bytes.as_slice(),
                    child_hash.bytes.as_slice(),
                ) {
                    return Err(ValidationError::StepMismatch);
                }
                chain_walk_exec(steps, i + 1, key, off + affix.len())
            },
            TrieNode::Branch { pointers } => {
                if !(off < key.len() && step.segment.len() == 1 && step.segment[0] == key[off]) {
                    proof {
                        if off < key@.len() {
                            assert(step.segment@ == seq![key@[off as int]] ==> step.segment@.len()
                                == 1 && step.segment@[0] == key@[off as int]);
                        }
                    }
                    return Err(ValidationError::KeyMismatch);
                }
                proof {
                    assert(step.segment@ =~= seq![key@[off as int]]);
                }
                match branch_find(pointers, key[off]) {
                    None => Err(ValidationError::StepMismatch),
                    Some(j) => {
                        let child_hash = crate::encode::node_hash(&steps[i + 1].node);
                        if !crate::digest::bytes_eq(
                            pointers[j].hash.bytes.as_slice(),
                            child_hash.bytes.as_slice(),
                        ) {
                            return Err(ValidationError::StepMismatch);
                        }
                        chain_walk_exec(steps, i + 1, key, off + 1)
                    },
                }
            },
        }
    }
}

/// Verifies one proof chain against the trusted root hash and the queried
/// key bytes, returning the proven value. Succeeds exactly when the chain
/// links hash-to-hash from the root down to a leaf whose consumed segments
/// spell the key.
pub fn verify_chain<'a>(root_hash: &Digest, proof: &'a TrieMerkleProof, key: &[u8]) -> (r: Result<
    &'a StoredValue,
    ValidationError,
>)
    ensures
        match r {
            Ok(v) => chain_outcome(root_hash@, proof@, key@) == Ok::<
                StoredValueView,
                ValidationError,
            >(v@),
            Err(e) => chain_outcome(root_hash@, proof@, key@) == Err::<
                StoredValueView,
                ValidationError,
            >(e),
        },
{
    if proof.steps.len() == 0 {
        return Err(ValidationError::EmptyProof);
    }
    let root_recomputed = crate::encode::node_hash(&proof.steps[0].node);
    if !crate::digest::bytes_eq(root_hash.bytes.as_slice(), root_recomputed.bytes.as_slice()) {
        return Err(ValidationError::RootHashMismatch);
    }
    let r = chain_walk_exec(&proof.steps, 0, key, 0);
    proof {
        assert(view_steps(proof.steps@).skip(0) =~= view_steps(proof.steps@));
    }
    r
}

/// The outcome of verifying the full proof material of a key/value query:
/// one proof per path hop plus one for the queried key itself, each
/// chaining to the same trusted root, each hop's key resolved from the
/// named keys of the value proven before it, and the last proven value
/// equal to the expected one.
pub open spec fn hops_outcome(
    root: Seq<u8>,
    proofs: Seq<Seq<ProofStepView>>,
    key_bytes: Seq<u8>,
    path: Seq<Seq<u8>>,
    expected: StoredValueView,
) -> Result<(), ValidationError>
    decreases path.len(),
{
    if proofs.len() == 0 {
        Err(ValidationError::PathLengthMismatch)
    } else {
        match chain_outcome(root, proofs[0], key_bytes) {
            Err(e) => Err(e),
            Ok(v) => if path.len() == 0 {
                if v == expected {
                    Ok(())
                } else {
                    Err(ValidationError::ValueMismatch)
                }
            } else {
                let named_keys = match v {
                    StoredValueView::Account { named_keys, .. } => named_keys,
                    StoredValueView::Contract { named_keys, .. } => named_keys,
                    StoredValueView::CLValue { .. } => Seq::empty(),
                };
                match named_lookup(named_keys, path[0]) {
                    None => Err(ValidationError::PathMismatch),
                    Some(next_key) => hops_outcome(
                        root,
                        proofs.drop_first(),
                        enc_key(next_key),
                        path.drop_first(),
                        expected,
                    ),
                }
            },
        }
    }
}

/// The outcome of validating a key/value query's proofs: the number of
/// proofs must fit the path, and the hops must verify as in
/// [`hops_outcome`].
pub open spec fn query_proofs_outcome(
    root: Seq<u8>,
    proofs: Seq<Seq<ProofStepView>>,
    key: KeyView,
    path: Seq<Seq<u8>>,
    expected: StoredValueView,
) -> Result<(), ValidationError> {
    if proofs.len() != path.len() + 1 {
        Err(ValidationError::PathLengthMismatch)
    } else {
        hops_outcome(root, proofs, enc_key(key), path, expected)
    }
}

fn hops_exec(
    root_hash: &Digest,
    proofs: &Vec<TrieMerkleProof>,
    i: usize,
    key_bytes: Vec<u8>,
    path: &Vec<Vec<u8>>,
    expected: &StoredValue,
) -> (r: Result<(), ValidationError>)
    requires
        proofs@.len() == path@.len() + 1,
        i <= path@.len(),
    ensures
        r == hops_outcome(
            root_hash@,
            view_proofs(proofs@).skip(i as int),
            key_bytes@,
            view_segments(path@).skip(i as int),
            expected@,
        ),
    decreases proofs@.len() - i,
{
    let ghost ps = view_proofs(proofs@);
    let ghost sg = view_segments(path@);
    proof {
        assert(ps.skip(i as int)[0] == ps[i as int]);
        assert(ps.skip(i as int).drop_first() =~= ps.skip(i + 1));
        if i < path@.len() {
            assert(sg.skip(i as int)[0] == sg[i as int]);
            assert(sg.skip(i as int).drop_first() =~= sg.skip(i + 1));
        }
    }
    let value = match verify_chain(root_hash, &proofs[i], key_bytes.as_slice()) {
        Err(e) => { return Err(e) },
        Ok(v) => v,
    };
    if i == path.len() {
        if crate::model::stored_value_eq(value, expected) {
            Ok(())
        } else {
            Err(ValidationError::ValueMismatch)
        }
    } else {
        let named_keys = match value {
            StoredValue::Account { named_keys, .. } => named_keys,
            StoredValue::Contract { named_keys, .. } => named_keys,
            StoredValue::CLValue { .. } => {
                proof {
                    assert(named_lookup(Seq::empty(), sg.skip(i as int)[0]) is None);
                }
                return Err(ValidationError::PathMismatch);
            },
        };
        match crate::model::find_named_key(named_keys, path[i].as_slice()) {
            None => Err(ValidationError::PathMismatch),
            Some(j) => {
                let next_key_bytes = crate::encode::encode_key(&named_keys[j].key);
                hops_exec(root_hash, proofs, i + 1, next_key_bytes, path, expected)
            },
        }
    }
}

/// Validates the proof material of a key/value query against the trusted
/// root: one proof per path hop plus one for the key, all chaining to
/// `root_hash`, with the expected value proven at the end.
pub fn validate_query_proof(
    root_hash: &Digest,
    proofs: &Vec<TrieMerkleProof>,
    key: &Key,
    path: &Vec<Vec<u8>>,
    expected: &StoredValue,
) -> (r: Result<(), ValidationError>)
    ensures
        r == query_proofs_outcome(
            root_hash@,
            view_proofs(proofs@),
            key@,
            view_segments(path@),
            expected@,
        ),
{
    if proofs.len() == 0 || proofs.len() - 1 != path.len() {
        return Err(ValidationError::PathLengthMismatch);
    }
    let key_bytes = crate::encode::encode_key(key);
    let r = hops_exec(root_hash, proofs, 0, key_bytes, path, expected);
    proof {
        assert(view_proofs(proofs@).skip(0) =~= view_proofs(proofs@));
        assert(view_segments(path@).skip(0) =~= view_segments(path@));
    }
    r
}

} // verus!
