//! Tests of the Merkle chain verifier on honestly built tries and on
//! tampered material.

use blake2::Digest as _;
use merkle_validation::chain::verify_chain;
use merkle_validation::digest::{hash_bytes, Digest};
use merkle_validation::encode::{encode_key, encode_node, node_hash};
use merkle_validation::error::ValidationError;
use merkle_validation::model::{
    BranchPointer, Key, ProofStep, StoredValue, TrieMerkleProof, TrieNode,
};

fn sample_key() -> Key {
    Key::Account { addr: vec![7u8; 32] }
}

fn sample_value() -> StoredValue {
    StoredValue::CLValue {
        tag: 10,
        bytes: b"hello".to_vec(),
    }
}

/// One branch above one leaf, proving `value` at `key_bytes`.
fn chain_for(key_bytes: &[u8], value: StoredValue) -> (Digest, TrieMerkleProof) {
    let leaf = TrieNode::Leaf {
        key: key_bytes[1..].to_vec(),
        value,
    };
    let leaf_hash = node_hash(&leaf);
    let branch = TrieNode::Branch {
        pointers: vec![BranchPointer {
            index: key_bytes[0],
            hash: leaf_hash,
        }],
    };
    let root = node_hash(&branch);
    let proof = TrieMerkleProof {
        steps: vec![
            ProofStep {
                node: branch,
                segment: vec![key_bytes[0]],
            },
            ProofStep {
                node: leaf,
                segment: key_bytes[1..].to_vec(),
            },
        ],
    };
    (root, proof)
}

#[test]
fn honest_chain_verifies_and_returns_the_leaf_value() {
    let key_bytes = encode_key(&sample_key());
    let (root, proof) = chain_for(&key_bytes, sample_value());
    let value = verify_chain(&root, &proof, &key_bytes).expect("honest chain must verify");
    match value {
        StoredValue::CLValue { tag, bytes } => {
            assert_eq!(*tag, 10);
            assert_eq!(bytes, b"hello");
        }
        _ => panic!("wrong value shape"),
    }
}

#[test]
fn extension_chain_verifies() {
    let key_bytes = encode_key(&sample_key());
    let leaf = TrieNode::Leaf {
        key: key_bytes[3..].to_vec(),
        value: sample_value(),
    };
    let branch = TrieNode::Branch {
        pointers: vec![BranchPointer {
            index: key_bytes[2],
            hash: node_hash(&leaf),
        }],
    };
    let ext = TrieNode::Extension {
        affix: key_bytes[0..2].to_vec(),
        pointer: node_hash(&branch),
    };
    let root = node_hash(&ext);
    let proof = TrieMerkleProof {
        steps: vec![
            ProofStep {
                node: ext,
                segment: key_bytes[0..2].to_vec(),
            },
            ProofStep {
                node: branch,
                segment: vec![key_bytes[2]],
            },
            ProofStep {
                node: leaf,
                segment: key_bytes[3..].to_vec(),
            },
        ],
    };
    assert!(verify_chain(&root, &proof, &key_bytes).is_ok());
}

#[test]
fn flipped_root_bit_is_rejected() {
    let key_bytes = encode_key(&sample_key());
    let (root, proof) = chain_for(&key_bytes, sample_value());
    let mut bad = root.bytes.clone();
    bad[0] ^= 0x01;
    let bad_root = Digest { bytes: bad };
    assert_eq!(
        verify_chain(&bad_root, &proof, &key_bytes).unwrap_err(),
        ValidationError::RootHashMismatch
    );
}

#[test]
fn proof_for_one_key_fails_for_another() {
    let key_bytes = encode_key(&sample_key());
    let (root, proof) = chain_for(&key_bytes, sample_value());
    let other_bytes = encode_key(&Key::Account { addr: vec![8u8; 32] });
    assert!(verify_chain(&root, &proof, &other_bytes).is_err());
}

#[test]
fn empty_chain_is_rejected() {
    let key_bytes = encode_key(&sample_key());
    let root = hash_bytes(b"anything");
    let proof = TrieMerkleProof { steps: vec![] };
    assert_eq!(
        verify_chain(&root, &proof, &key_bytes).unwrap_err(),
        ValidationError::EmptyProof
    );
}

#[test]
fn broken_link_is_rejected() {
    let key_bytes = encode_key(&sample_key());
    let leaf = TrieNode::Leaf {
        key: key_bytes[1..].to_vec(),
        value: sample_value(),
    };
    let branch = TrieNode::Branch {
        pointers: vec![BranchPointer {
            index: key_bytes[0],
            hash: hash_bytes(b"not the leaf"),
        }],
    };
    let root = node_hash(&branch);
    let proof = TrieMerkleProof {
        steps: vec![
            ProofStep {
                node: branch,
                segment: vec![key_bytes[0]],
            },
            ProofStep {
                node: leaf,
                segment: key_bytes[1..].to_vec(),
            },
        ],
    };
    assert_eq!(
        verify_chain(&root, &proof, &key_bytes).unwrap_err(),
        ValidationError::StepMismatch
    );
}

#[test]
fn chain_ending_in_a_branch_proves_nothing() {
    let key_bytes = encode_key(&sample_key());
    let branch = TrieNode::Branch { pointers: vec![] };
    let root = node_hash(&branch);
    let proof = TrieMerkleProof {
        steps: vec![ProofStep {
            node: branch,
            segment: key_bytes.clone(),
        }],
    };
    assert_eq!(
        verify_chain(&root, &proof, &key_bytes).unwrap_err(),
        ValidationError::MissingLeaf
    );
}

#[test]
fn node_hash_is_the_hash_of_the_canonical_encoding() {
    // The digest must be a real digest of the encoding, not the encoding
    // itself, and must agree with an independent run of the same hash.
    let leaf = TrieNode::Leaf {
        key: vec![1, 2, 3],
        value: sample_value(),
    };
    let encoded = encode_node(&leaf);
    let h = node_hash(&leaf);
    assert_eq!(h.bytes.len(), 32);
    assert_ne!(h.bytes, encoded);
    let again = hash_bytes(&encoded);
    assert_eq!(h.bytes, again.bytes);
    let independent = {
        let mut hasher = blake2::Blake2b::<blake2::digest::consts::U32>::new();
        hasher.update(&encoded);
        hasher.finalize().to_vec()
    };
    assert_eq!(h.bytes, independent);
}
