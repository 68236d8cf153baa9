//! Tests of block self-consistency and of identity matching against the
//! caller's block identifier.

use merkle_validation::block::{
    body_digest, header_digest, Block, BlockBody, BlockHeader, BlockIdentifier, ProtocolVersion,
};
use merkle_validation::digest::{hash_bytes, Digest};
use merkle_validation::error::{BlockValidationError, ValidateResponseError};
use merkle_validation::response::{BlockField, BlockResponse};
use merkle_validation::validate::validate_get_block_response;

fn sample_block() -> Block {
    let body = BlockBody {
        proposer: vec![1, 2, 3],
        deploy_hashes: vec![hash_bytes(b"deploy one"), hash_bytes(b"deploy two")],
    };
    let header = BlockHeader {
        parent_hash: hash_bytes(b"parent"),
        state_root_hash: hash_bytes(b"state root"),
        body_hash: body_digest(&body),
        height: 10,
        era_id: 3,
        timestamp: 1_600_000_000_000,
        protocol_version: ProtocolVersion {
            major: 1,
            minor: 0,
            patch: 0,
        },
    };
    let hash = header_digest(&header);
    Block {
        hash,
        header,
        body,
        proofs: vec![],
    }
}

fn response_with(block: Block) -> BlockResponse {
    BlockResponse {
        block: BlockField::Present(block),
    }
}

#[test]
fn self_consistent_block_with_no_identifier_is_accepted() {
    let resp = response_with(sample_block());
    assert_eq!(validate_get_block_response(&resp, &None), Ok(()));
}

#[test]
fn matching_hash_is_accepted() {
    let block = sample_block();
    let expected = Digest {
        bytes: block.hash.bytes.clone(),
    };
    let resp = response_with(block);
    assert_eq!(
        validate_get_block_response(&resp, &Some(BlockIdentifier::Hash(expected))),
        Ok(())
    );
}

#[test]
fn wrong_hash_is_rejected() {
    let resp = response_with(sample_block());
    let wrong = hash_bytes(b"some other block");
    assert_eq!(
        validate_get_block_response(&resp, &Some(BlockIdentifier::Hash(wrong))),
        Err(ValidateResponseError::UnexpectedBlockHash)
    );
}

#[test]
fn matching_height_is_accepted() {
    let resp = response_with(sample_block());
    assert_eq!(
        validate_get_block_response(&resp, &Some(BlockIdentifier::Height(10))),
        Ok(())
    );
}

#[test]
fn wrong_height_is_rejected() {
    let resp = response_with(sample_block());
    assert_eq!(
        validate_get_block_response(&resp, &Some(BlockIdentifier::Height(11))),
        Err(ValidateResponseError::UnexpectedBlockHeight)
    );
}

#[test]
fn null_block_is_accepted() {
    let resp = BlockResponse {
        block: BlockField::Null,
    };
    assert_eq!(validate_get_block_response(&resp, &None), Ok(()));
    let resp2 = BlockResponse {
        block: BlockField::Null,
    };
    assert_eq!(
        validate_get_block_response(&resp2, &Some(BlockIdentifier::Height(10))),
        Ok(())
    );
}

#[test]
fn missing_block_is_its_own_error() {
    let resp = BlockResponse {
        block: BlockField::Missing,
    };
    assert_eq!(
        validate_get_block_response(&resp, &None),
        Err(ValidateResponseError::NoBlockInResponse)
    );
}

#[test]
fn undecodable_block_is_a_serde_error() {
    let resp = BlockResponse {
        block: BlockField::Invalid,
    };
    assert_eq!(
        validate_get_block_response(&resp, &None),
        Err(ValidateResponseError::Serde)
    );
}

#[test]
fn tampered_declared_hash_is_rejected() {
    let mut block = sample_block();
    block.hash.bytes[0] ^= 0x01;
    let resp = response_with(block);
    assert_eq!(
        validate_get_block_response(&resp, &None),
        Err(ValidateResponseError::BlockValidationError(
            BlockValidationError::UnexpectedBlockHash
        ))
    );
}

#[test]
fn tampered_body_is_rejected() {
    let mut block = sample_block();
    block.body.proposer.push(4);
    let resp = response_with(block);
    assert_eq!(
        validate_get_block_response(&resp, &None),
        Err(ValidateResponseError::BlockValidationError(
            BlockValidationError::UnexpectedBodyHash
        ))
    );
}

#[test]
fn revalidating_a_block_response_gives_the_same_result() {
    let resp = response_with(sample_block());
    let first = validate_get_block_response(&resp, &Some(BlockIdentifier::Height(10)));
    let second = validate_get_block_response(&resp, &Some(BlockIdentifier::Height(10)));
    assert_eq!(first, second);
    assert_eq!(first, Ok(()));
}
