//! End-to-end tests of the key/value and balance response validators.

use merkle_validation::digest::Digest;
use merkle_validation::encode::{
    encode_balance_proofs, encode_key, encode_query_proofs, node_hash,
};
use merkle_validation::error::{BytesreprError, ValidateResponseError, ValidationError};
use merkle_validation::model::{
    BranchPointer, JsonStoredValue, Key, NamedKey, ProofStep, StoredValue, TrieMerkleProof,
    TrieNode, URef,
};
use merkle_validation::response::{
    BalanceResponse, BalanceResult, JsonField, QueryResponse, QueryResult,
};
use merkle_validation::validate::{validate_get_balance_response, validate_query_response};

fn sample_key() -> Key {
    Key::Account { addr: vec![7u8; 32] }
}

fn sample_value() -> StoredValue {
    StoredValue::CLValue {
        tag: 10,
        bytes: b"hello".to_vec(),
    }
}

fn sample_json_value() -> JsonStoredValue {
    JsonStoredValue::CLValue {
        tag: 10,
        bytes: b"hello".to_vec(),
    }
}

fn chain_for(key_bytes: &[u8], value: StoredValue) -> (Digest, TrieMerkleProof) {
    let leaf = TrieNode::Leaf {
        key: key_bytes[1..].to_vec(),
        value,
    };
    let leaf_hash = node_hash(&leaf);
    let branch = TrieNode::Branch {
        pointers: vec![BranchPointer {
            index: key_bytes[0],
            hash: leaf_hash,
        }],
    };
    let root = node_hash(&branch);
    let proof = TrieMerkleProof {
        steps: vec![
            ProofStep {
                node: branch,
                segment: vec![key_bytes[0]],
            },
            ProofStep {
                node: leaf,
                segment: key_bytes[1..].to_vec(),
            },
        ],
    };
    (root, proof)
}

fn query_response(wire: &[u8], stored_value: JsonField<JsonStoredValue>) -> QueryResponse {
    QueryResponse {
        result: Some(QueryResult {
            merkle_proof: JsonField::Present(hex::encode(wire).into_bytes()),
            stored_value,
        }),
    }
}

fn honest_query_fixture() -> (Digest, QueryResponse) {
    let key_bytes = encode_key(&sample_key());
    let (root, proof) = chain_for(&key_bytes, sample_value());
    let wire = encode_query_proofs(&vec![proof]);
    let resp = query_response(&wire, JsonField::Present(sample_json_value()));
    (root, resp)
}

#[test]
fn honest_query_response_is_accepted() {
    let (root, resp) = honest_query_fixture();
    assert_eq!(
        validate_query_response(&resp, &root, &sample_key(), &vec![]),
        Ok(())
    );
}

#[test]
fn revalidating_the_same_response_gives_the_same_result() {
    let (root, resp) = honest_query_fixture();
    let first = validate_query_response(&resp, &root, &sample_key(), &vec![]);
    let second = validate_query_response(&resp, &root, &sample_key(), &vec![]);
    assert_eq!(first, second);
    assert_eq!(first, Ok(()));
}

#[test]
fn missing_result_fails_to_parse() {
    let (root, _) = honest_query_fixture();
    let resp = QueryResponse { result: None };
    assert_eq!(
        validate_query_response(&resp, &root, &sample_key(), &vec![]),
        Err(ValidateResponseError::ValidateResponseFailedToParse)
    );
}

#[test]
fn missing_proof_field_fails_to_parse() {
    let (root, _) = honest_query_fixture();
    let resp = QueryResponse {
        result: Some(QueryResult {
            merkle_proof: JsonField::Missing,
            stored_value: JsonField::Present(sample_json_value()),
        }),
    };
    assert_eq!(
        validate_query_response(&resp, &root, &sample_key(), &vec![]),
        Err(ValidateResponseError::ValidateResponseFailedToParse)
    );
}

#[test]
fn invalid_hex_fails_to_parse() {
    let (root, _) = honest_query_fixture();
    let resp = QueryResponse {
        result: Some(QueryResult {
            merkle_proof: JsonField::Present(b"zz".to_vec()),
            stored_value: JsonField::Present(sample_json_value()),
        }),
    };
    assert_eq!(
        validate_query_response(&resp, &root, &sample_key(), &vec![]),
        Err(ValidateResponseError::ValidateResponseFailedToParse)
    );
}

#[test]
fn truncated_proof_bytes_fail_to_decode() {
    let key_bytes = encode_key(&sample_key());
    let (root, proof) = chain_for(&key_bytes, sample_value());
    let mut wire = encode_query_proofs(&vec![proof]);
    wire.pop();
    let resp = query_response(&wire, JsonField::Present(sample_json_value()));
    assert_eq!(
        validate_query_response(&resp, &root, &sample_key(), &vec![]),
        Err(ValidateResponseError::BytesRepr(BytesreprError::Formatting))
    );
}

#[test]
fn empty_proof_run_fails_to_parse() {
    let (root, _) = honest_query_fixture();
    let wire = encode_query_proofs(&vec![]);
    let resp = query_response(&wire, JsonField::Present(sample_json_value()));
    assert_eq!(
        validate_query_response(&resp, &root, &sample_key(), &vec![]),
        Err(ValidateResponseError::ValidateResponseFailedToParse)
    );
}

#[test]
fn undecodable_stored_value_is_a_serde_error() {
    let key_bytes = encode_key(&sample_key());
    let (root, proof) = chain_for(&key_bytes, sample_value());
    let wire = encode_query_proofs(&vec![proof]);
    let resp = query_response(&wire, JsonField::Invalid);
    assert_eq!(
        validate_query_response(&resp, &root, &sample_key(), &vec![]),
        Err(ValidateResponseError::Serde)
    );
}

#[test]
fn mismatching_stored_value_is_not_contained_in_proof() {
    let key_bytes = encode_key(&sample_key());
    let (root, proof) = chain_for(&key_bytes, sample_value());
    let wire = encode_query_proofs(&vec![proof]);
    let other = JsonStoredValue::CLValue {
        tag: 10,
        bytes: b"other".to_vec(),
    };
    let resp = query_response(&wire, JsonField::Present(other));
    assert_eq!(
        validate_query_response(&resp, &root, &sample_key(), &vec![]),
        Err(ValidateResponseError::SerializedValueNotContainedInProof)
    );
}

#[test]
fn every_single_byte_flip_in_the_proof_material_is_rejected() {
    let (root, _) = honest_query_fixture();
    let key_bytes = encode_key(&sample_key());
    let (_, proof) = chain_for(&key_bytes, sample_value());
    let wire = encode_query_proofs(&vec![proof]);
    for i in 0..wire.len() {
        let mut tampered = wire.clone();
        tampered[i] ^= 0x01;
        let resp = query_response(&tampered, JsonField::Present(sample_json_value()));
        let outcome = validate_query_response(&resp, &root, &sample_key(), &vec![]);
        assert!(outcome.is_err(), "flip at byte {} was accepted", i);
    }
}

#[test]
fn query_with_a_named_key_path_is_accepted() {
    let key = sample_key();
    let key_bytes = encode_key(&key);
    let target = Key::Hash { addr: vec![5u8; 32] };
    let target_bytes = encode_key(&target);
    let account = || StoredValue::Account {
        main_purse: URef {
            addr: vec![9u8; 32],
            access: 7,
        },
        named_keys: vec![NamedKey {
            name: b"target".to_vec(),
            key: Key::Hash { addr: vec![5u8; 32] },
        }],
    };
    let leaf_a = || TrieNode::Leaf {
        key: key_bytes[1..].to_vec(),
        value: account(),
    };
    let leaf_t = || TrieNode::Leaf {
        key: target_bytes[1..].to_vec(),
        value: sample_value(),
    };
    let branch = || TrieNode::Branch {
        pointers: vec![
            BranchPointer {
                index: key_bytes[0],
                hash: node_hash(&leaf_a()),
            },
            BranchPointer {
                index: target_bytes[0],
                hash: node_hash(&leaf_t()),
            },
        ],
    };
    let root = node_hash(&branch());
    let proof_a = TrieMerkleProof {
        steps: vec![
            ProofStep {
                node: branch(),
                segment: vec![key_bytes[0]],
            },
            ProofStep {
                node: leaf_a(),
                segment: key_bytes[1..].to_vec(),
            },
        ],
    };
    let proof_t = TrieMerkleProof {
        steps: vec![
            ProofStep {
                node: branch(),
                segment: vec![target_bytes[0]],
            },
            ProofStep {
                node: leaf_t(),
                segment: target_bytes[1..].to_vec(),
            },
        ],
    };
    let wire = encode_query_proofs(&vec![proof_a, proof_t]);
    let resp = query_response(&wire, JsonField::Present(sample_json_value()));
    assert_eq!(
        validate_query_response(&resp, &root, &key, &vec![b"target".to_vec()]),
        Ok(())
    );
    // A name the account does not carry must be rejected.
    let resp2 = query_response(&wire, JsonField::Present(sample_json_value()));
    assert_eq!(
        validate_query_response(&resp2, &root, &key, &vec![b"absent".to_vec()]),
        Err(ValidateResponseError::ValidationError(
            ValidationError::PathMismatch
        ))
    );
    // A proof run that does not fit the path length must be rejected.
    let resp3 = query_response(&wire, JsonField::Present(sample_json_value()));
    assert_eq!(
        validate_query_response(&resp3, &root, &key, &vec![]),
        Err(ValidateResponseError::ValidationError(
            ValidationError::PathLengthMismatch
        ))
    );
}

fn uref_wire(addr: &[u8], access: u8) -> Vec<u8> {
    let mut v = (addr.len() as u64).to_le_bytes().to_vec();
    v.extend_from_slice(addr);
    v.push(access);
    v
}

/// A trie holding an account's purse pointer at the queried key and the
/// purse's balance at the derived balance key, under one root.
fn balance_fixture(balance_addr: &[u8]) -> (Digest, TrieMerkleProof, TrieMerkleProof) {
    let key = sample_key();
    let key_bytes = encode_key(&key);
    let purse_addr = vec![9u8; 32];
    let balance_key = Key::Balance {
        addr: balance_addr.to_vec(),
    };
    let balance_key_bytes = encode_key(&balance_key);
    let leaf_purse = || TrieNode::Leaf {
        key: key_bytes[1..].to_vec(),
        value: StoredValue::CLValue {
            tag: 12,
            bytes: uref_wire(&purse_addr, 1),
        },
    };
    let leaf_balance = || TrieNode::Leaf {
        key: balance_key_bytes[1..].to_vec(),
        value: StoredValue::CLValue {
            tag: 8,
            bytes: vec![1, 2, 3],
        },
    };
    let branch = || TrieNode::Branch {
        pointers: vec![
            BranchPointer {
                index: key_bytes[0],
                hash: node_hash(&leaf_purse()),
            },
            BranchPointer {
                index: balance_key_bytes[0],
                hash: node_hash(&leaf_balance()),
            },
        ],
    };
    let root = node_hash(&branch());
    let purse_proof = TrieMerkleProof {
        steps: vec![
            ProofStep {
                node: branch(),
                segment: vec![key_bytes[0]],
            },
            ProofStep {
                node: leaf_purse(),
                segment: key_bytes[1..].to_vec(),
            },
        ],
    };
    let balance_proof = TrieMerkleProof {
        steps: vec![
            ProofStep {
                node: branch(),
                segment: vec![balance_key_bytes[0]],
            },
            ProofStep {
                node: leaf_balance(),
                segment: balance_key_bytes[1..].to_vec(),
            },
        ],
    };
    (root, purse_proof, balance_proof)
}

fn balance_response(wire: &[u8], balance_value: &[u8]) -> BalanceResponse {
    BalanceResponse {
        result: Some(BalanceResult {
            merkle_proof: JsonField::Present(hex::encode(wire).into_bytes()),
            balance_value: JsonField::Present(balance_value.to_vec()),
        }),
    }
}

#[test]
fn honest_balance_response_is_accepted() {
    let (root, purse_proof, balance_proof) = balance_fixture(&[9u8; 32]);
    let wire = encode_balance_proofs(&purse_proof, &balance_proof);
    let resp = balance_response(&wire, b"123");
    assert_eq!(
        validate_get_balance_response(&resp, &root, &sample_key()),
        Ok(())
    );
}

#[test]
fn balance_claim_with_leading_zeros_still_matches() {
    let (root, purse_proof, balance_proof) = balance_fixture(&[9u8; 32]);
    let wire = encode_balance_proofs(&purse_proof, &balance_proof);
    let resp = balance_response(&wire, b"00123");
    assert_eq!(
        validate_get_balance_response(&resp, &root, &sample_key()),
        Ok(())
    );
}

#[test]
fn wrong_balance_claim_is_rejected() {
    let (root, purse_proof, balance_proof) = balance_fixture(&[9u8; 32]);
    let wire = encode_balance_proofs(&purse_proof, &balance_proof);
    let resp = balance_response(&wire, b"124");
    assert_eq!(
        validate_get_balance_response(&resp, &root, &sample_key()),
        Err(ValidateResponseError::ValidationError(
            ValidationError::ValueMismatch
        ))
    );
}

#[test]
fn undecimal_balance_claim_fails_to_parse() {
    let (root, purse_proof, balance_proof) = balance_fixture(&[9u8; 32]);
    let wire = encode_balance_proofs(&purse_proof, &balance_proof);
    let resp = balance_response(&wire, b"12x");
    assert_eq!(
        validate_get_balance_response(&resp, &root, &sample_key()),
        Err(ValidateResponseError::ValidateResponseFailedToParse)
    );
}

#[test]
fn balance_proof_for_the_wrong_purse_is_rejected() {
    // The balance chain is internally consistent, but keyed by a purse
    // other than the one the purse proof resolves to.
    let (root, purse_proof, balance_proof) = balance_fixture(&[13u8; 32]);
    let wire = encode_balance_proofs(&purse_proof, &balance_proof);
    let resp = balance_response(&wire, b"123");
    assert_eq!(
        validate_get_balance_response(&resp, &root, &sample_key()),
        Err(ValidateResponseError::ValidationError(
            ValidationError::KeyMismatch
        ))
    );
}

#[test]
fn balance_response_without_result_fails_to_parse() {
    let (root, _, _) = balance_fixture(&[9u8; 32]);
    let resp = BalanceResponse { result: None };
    assert_eq!(
        validate_get_balance_response(&resp, &root, &sample_key()),
        Err(ValidateResponseError::ValidateResponseFailedToParse)
    );
}
