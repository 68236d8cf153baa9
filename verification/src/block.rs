//! Blocks and their self-consistency check: a block's declared hash must
//! be the hash of its header, and the header must commit to the body.

use vstd::prelude::*;

use crate::codec::{enc_bytes, enc_u64};
use crate::digest::{digest_of, Digest};
use crate::encode::{push_bytes, push_u64};
use crate::error::BlockValidationError;

verus! {

/// A protocol version: major, minor, patch.
#[derive(Debug, Clone, Copy, PartialEq, Eq, Structural)]
pub struct ProtocolVersion {
    pub major: u32,
    pub minor: u32,
    pub patch: u32,
}

/// View of a block header.
#[verifier::ext_equal]
pub struct BlockHeaderView {
    pub parent_hash: Seq<u8>,
    pub state_root_hash: Seq<u8>,
    pub body_hash: Seq<u8>,
    pub height: u64,
    pub era_id: u64,
    pub timestamp: u64,
    pub protocol_version: ProtocolVersion,
}

/// View of a block body.
#[verifier::ext_equal]
pub struct BlockBodyView {
    pub proposer: Seq<u8>,
    pub deploy_hashes: Seq<Seq<u8>>,
}

/// View of a block.
#[verifier::ext_equal]
pub struct BlockView {
    pub hash: Seq<u8>,
    pub header: BlockHeaderView,
    pub body: BlockBodyView,
    pub proofs: Seq<Seq<u8>>,
}

/// A block header: what the block's hash commits to.
#[derive(Debug)]
pub struct BlockHeader {
    /// Hash of the preceding block.
    pub parent_hash: Digest,
    /// Root hash of the state trie after this block.
    pub state_root_hash: Digest,
    /// Hash of the block's body.
    pub body_hash: Digest,
    /// Height of this block in the chain.
    pub height: u64,
    /// Consensus era the block belongs to.
    pub era_id: u64,
    /// Timestamp of the block, in milliseconds.
    pub timestamp: u64,
    /// Protocol version the block was produced under.
    pub protocol_version: ProtocolVersion,
}

impl View for BlockHeader {
    type V = BlockHeaderView;

    open spec fn view(&self) -> BlockHeaderView {
        BlockHeaderView {
            parent_hash: self.parent_hash@,
            state_root_hash: self.state_root_hash@,
            body_hash: self.body_hash@,
            height: self.height,
            era_id: self.era_id,
            timestamp: self.timestamp,
            protocol_version: self.protocol_version,
        }
    }
}

/// The views of a run of digests, in order.
pub open spec fn view_digests(s: Seq<Digest>) -> Seq<Seq<u8>> {
    s.map_values(|d: Digest| d@)
}

/// A block body: the deploys the block carries and who proposed it.
#[derive(Debug)]
pub struct BlockBody {
    /// The proposing validator's public key, in its byte form.
    pub proposer: Vec<u8>,
    /// Hashes of the deploys the block carries.
    pub deploy_hashes: Vec<Digest>,
}

impl View for BlockBody {
    type V = BlockBodyView;

    open spec fn view(&self) -> BlockBodyView {
        BlockBodyView { proposer: self.proposer@, deploy_hashes: view_digests(self.deploy_hashes@) }
    }
}

/// A block as returned by the remote node: header, body, its self-declared
/// hash and the consensus signature material. The signatures are carried
/// opaquely: matching them against a trusted validator roster is a known
/// gap of this validator, left as an explicit extension point.
#[derive(Debug)]
pub struct Block {
    /// The block's self-declared hash.
    pub hash: Digest,
    /// The header.
    pub header: BlockHeader,
    /// The body.
    pub body: BlockBody,
    /// Consensus signature material, not validated here.
    pub proofs: Vec<Vec<u8>>,
}

impl View for Block {
    type V = BlockView;

    open spec fn view(&self) -> BlockView {
        BlockView {
            hash: self.hash@,
            header: self.header@,
            body: self.body@,
            proofs: crate::model::view_segments(self.proofs@),
        }
    }
}

/// The caller's expectation of which block a lookup should return.
#[derive(Debug)]
pub enum BlockIdentifier {
    /// Expect the block with exactly this hash.
    Hash(Digest),
    /// Expect the block at exactly this height.
    Height(u64),
}

/// View of a block identifier.
#[verifier::ext_equal]
pub enum BlockIdentifierView {
    Hash(Seq<u8>),
    Height(u64),
}

impl View for BlockIdentifier {
    type V = BlockIdentifierView;

    open spec fn view(&self) -> BlockIdentifierView {
        match self {
            BlockIdentifier::Hash(d) => BlockIdentifierView::Hash(d@),
            BlockIdentifier::Height(h) => BlockIdentifierView::Height(*h),
        }
    }
}

/// Canonical encoding of a block header: what the block hash is taken
/// over.
pub open spec fn enc_header(h: BlockHeaderView) -> Seq<u8> {
    enc_bytes(h.parent_hash) + enc_bytes(h.state_root_hash) + enc_bytes(h.body_hash) + enc_u64(
        h.height,
    ) + enc_u64(h.era_id) + enc_u64(h.timestamp) + enc_u64(h.protocol_version.major as u64)
        + enc_u64(h.protocol_version.minor as u64) + enc_u64(h.protocol_version.patch as u64)
}

/// Encoding of a run of deploy hashes, in order.
pub open spec fn enc_digests_run(s: Seq<Seq<u8>>) -> Seq<u8>
    decreases s.len(),
{
    if s.len() == 0 {
        Seq::empty()
    } else {
        enc_bytes(s[0]) + enc_digests_run(s.drop_first())
    }
}

/// Canonical encoding of a block body: what the header's body hash is
/// taken over.
pub open spec fn enc_body(b: BlockBodyView) -> Seq<u8> {
    enc_bytes(b.proposer) + enc_u64(b.deploy_hashes.len() as u64) + enc_digests_run(
        b.deploy_hashes,
    )
}

/// Whether a block is self-consistent, and the first reason it is not:
/// the declared hash must be the hash of the header, and the header's
/// body hash must be the hash of the body.
pub open spec fn block_verify_outcome(b: BlockView) -> Result<(), BlockValidationError> {
    if b.hash != digest_of(enc_header(b.header)) {
        Err(BlockValidationError::UnexpectedBlockHash)
    } else if b.header.body_hash != digest_of(enc_body(b.body)) {
        Err(BlockValidationError::UnexpectedBodyHash)
    } else {
        Ok(())
    }
}

fn push_digests_run(out: &mut Vec<u8>, ds: &Vec<Digest>, i: usize)
    requires
        i <= ds@.len(),
    ensures
        final(out)@ == old(out)@ + enc_digests_run(view_digests(ds@).skip(i as int)),
    decreases ds@.len() - i,
{
    let ghost s = view_digests(ds@);
    if i == ds.len() {
        assert(out@ =~= old(out)@ + enc_digests_run(s.skip(i as int)));
        return ;
    }
    push_bytes(out, ds[i].bytes.as_slice());
    push_digests_run(out, ds, i + 1);
    proof {
        assert(s.skip(i as int)[0] == s[i as int]);
        assert(s.skip(i as int).drop_first() =~= s.skip(i + 1));
        assert(out@ =~= old(out)@ + enc_digests_run(s.skip(i as int)));
    }
}

/// The canonical byte encoding of a block header.
pub fn encode_header(h: &BlockHeader) -> (r: Vec<u8>)
    ensures
        r@ == enc_header(h@),
{
    let mut out: Vec<u8> = Vec::new();
    push_bytes(&mut out, h.parent_hash.bytes.as_slice());
    push_bytes(&mut out, h.state_root_hash.bytes.as_slice());
    push_bytes(&mut out, h.body_hash.bytes.as_slice());
    push_u64(&mut out, h.height);
    push_u64(&mut out, h.era_id);
    push_u64(&mut out, h.timestamp);
    push_u64(&mut out, h.protocol_version.major as u64);
    push_u64(&mut out, h.protocol_version.minor as u64);
    push_u64(&mut out, h.protocol_version.patch as u64);
    assert(out@ =~= enc_header(h@));
    out
}

/// The canonical byte encoding of a block body.
pub fn encode_body(b: &BlockBody) -> (r: Vec<u8>)
    ensures
        r@ == enc_body(b@),
{
    let mut out: Vec<u8> = Vec::new();
    push_bytes(&mut out, b.proposer.as_slice());
    push_u64(&mut out, b.deploy_hashes.len() as u64);
    push_digests_run(&mut out, &b.deploy_hashes, 0);
    proof {
        let s = view_digests(b.deploy_hashes@);
        assert(s.skip(0) =~= s);
        assert(out@ =~= enc_body(b@));
    }
    out
}

/// The digest a block header hashes to: what the block's declared hash
/// must equal.
pub fn header_digest(h: &BlockHeader) -> (r: Digest)
    ensures
        r@ == digest_of(enc_header(h@)),
{
    let bytes = encode_header(h);
    crate::digest::hash_bytes(bytes.as_slice())
}

/// The digest a block body hashes to: what the header's body hash must
/// equal.
pub fn body_digest(b: &BlockBody) -> (r: Digest)
    ensures
        r@ == digest_of(enc_body(b@)),
{
    let bytes = encode_body(b);
    crate::digest::hash_bytes(bytes.as_slice())
}

impl Block {
    /// Checks the block's self-consistency: its declared hash against the
    /// recomputed header hash, and the header's body hash against the
    /// recomputed body hash.
    pub fn verify(&self) -> (r: Result<(), BlockValidationError>)
        ensures
            r == block_verify_outcome(self@),
    {
        let recomputed = header_digest(&self.header);
        if !crate::digest::bytes_eq(self.hash.bytes.as_slice(), recomputed.bytes.as_slice()) {
            return Err(BlockValidationError::UnexpectedBlockHash);
        }
        let recomputed_body = body_digest(&self.body);
        if !crate::digest::bytes_eq(
            self.header.body_hash.bytes.as_slice(),
            recomputed_body.bytes.as_slice(),
        ) {
            return Err(BlockValidationError::UnexpectedBodyHash);
        }
        Ok(())
    }

    /// The block's self-declared hash.
    pub fn hash(&self) -> (r: &Digest)
        ensures
            r@ == self@.hash,
    {
        &self.hash
    }

    /// The block's height.
    pub fn height(&self) -> (r: u64)
        ensures
            r == self@.header.height,
    {
        self.header.height
    }
}

} // verus!
