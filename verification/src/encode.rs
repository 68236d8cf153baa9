//! Executable canonical encoders, proven to produce exactly the
//! specification-level encodings of `codec`.

use vstd::prelude::*;

use crate::codec::{
    enc_balance_proofs, enc_bytes, enc_key, enc_named_key, enc_named_keys, enc_named_keys_run,
    enc_node, enc_pointer, enc_pointers_run, enc_proof, enc_proofs_run, enc_query_proofs, enc_step,
    enc_steps_run, enc_stored_value, enc_u64, enc_uref, node_digest, TAG_ACCOUNT, TAG_BRANCH,
    TAG_CLVALUE, TAG_CONTRACT, TAG_EXTENSION, TAG_KEY_ACCOUNT, TAG_KEY_BALANCE, TAG_KEY_HASH,
    TAG_KEY_UREF, TAG_LEAF,
};
use crate::digest::{Digest, DIGEST_LENGTH};
use crate::model::{
    view_named_keys, view_pointers, view_proofs, view_steps, Key, NamedKey, ProofStep, StoredValue,
    TrieMerkleProof, TrieNode, URef,
};

verus! {

pub(crate) fn push_u64(out: &mut Vec<u8>, n: u64)
    ensures
        final(out)@ == old(out)@ + enc_u64(n),
{
    out.push((n & 0xff) as u8);
    out.push(((n >> 8) & 0xff) as u8);
    out.push(((n >> 16) & 0xff) as u8);
    out.push(((n >> 24) & 0xff) as u8);
    out.push(((n >> 32) & 0xff) as u8);
    out.push(((n >> 40) & 0xff) as u8);
    out.push(((n >> 48) & 0xff) as u8);
    out.push(((n >> 56) & 0xff) as u8);
    assert(out@ =~= old(out)@ + enc_u64(n));
}

fn push_slice(out: &mut Vec<u8>, b: &[u8])
    ensures
        final(out)@ == old(out)@ + b@,
{
    let n: usize = b.len();
    for i in 0..n
        invariant
            n == b@.len(),
            out@ == old(out)@ + b@.take(i as int),
    {
        out.push(b[i]);
        assert(b@.take(i + 1) =~= b@.take(i as int).push(b@[i as int]));
        assert(out@ =~= old(out)@ + b@.take(i + 1));
    }
    assert(b@.take(n as int) =~= b@);
}

pub(crate) fn push_bytes(out: &mut Vec<u8>, b: &[u8])
    ensures
        final(out)@ == old(out)@ + enc_bytes(b@),
{
    push_u64(out, b.len() as u64);
    push_slice(out, b);
    assert(out@ =~= old(out)@ + enc_bytes(b@));
}

fn push_uref(out: &mut Vec<u8>, u: &URef)
    ensures
        final(out)@ == old(out)@ + enc_uref(u@),
{
    push_bytes(out, u.addr.as_slice());
    out.push(u.access);
    assert(out@ =~= old(out)@ + enc_uref(u@));
}

fn push_key(out: &mut Vec<u8>, k: &Key)
    ensures
        final(out)@ == old(out)@ + enc_key(k@),
{
    match k {
        Key::Account { addr } => {
            out.push(TAG_KEY_ACCOUNT);
            push_bytes(out, addr.as_slice());
        },
        Key::Hash { addr } => {
            out.push(TAG_KEY_HASH);
            push_bytes(out, addr.as_slice());
        },
        Key::Uref { uref } => {
            out.push(TAG_KEY_UREF);
            push_uref(out, uref);
        },
        Key::Balance { addr } => {
            out.push(TAG_KEY_BALANCE);
            push_bytes(out, addr.as_slice());
        },
    }
    assert(out@ =~= old(out)@ + enc_key(k@));
}

fn push_named_key(out: &mut Vec<u8>, nk: &NamedKey)
    ensures
        final(out)@ == old(out)@ + enc_named_key(nk@),
{
    push_bytes(out, nk.name.as_slice());
    push_key(out, &nk.key);
    assert(out@ =~= old(out)@ + enc_named_key(nk@));
}

fn push_named_keys_run(out: &mut Vec<u8>, nks: &Vec<NamedKey>, i: usize)
    requires
        i <= nks@.len(),
    ensures
        final(out)@ == old(out)@ + enc_named_keys_run(view_named_keys(nks@).skip(i as int)),
    decreases nks@.len() - i,
{
    let ghost s = view_named_keys(nks@);
    if i == nks.len() {
        assert(out@ =~= old(out)@ + enc_named_keys_run(s.skip(i as int)));
        return ;
    }
    push_named_key(out, &nks[i]);
    push_named_keys_run(out, nks, i + 1);
    proof {
        assert(s.skip(i as int)[0] == s[i as int]);
        assert(s.skip(i as int).drop_first() =~= s.skip(i + 1));
        assert(out@ =~= old(out)@ + enc_named_keys_run(s.skip(i as int)));
    }
}

fn push_named_keys(out: &mut Vec<u8>, nks: &Vec<NamedKey>)
    ensures
        final(out)@ == old(out)@ + enc_named_keys(view_named_keys(nks@)),
{
    push_u64(out, nks.len() as u64);
    push_named_keys_run(out, nks, 0);
    proof {
        let s = view_named_keys(nks@);
        assert(s.skip(0) =~= s);
        assert(out@ =~= old(out)@ + enc_named_keys(s));
    }
}

fn push_stored_value(out: &mut Vec<u8>, v: &StoredValue)
    ensures
        final(out)@ == old(out)@ + enc_stored_value(v@),
{
    match v {
        StoredValue::CLValue { tag, bytes } => {
            out.push(TAG_CLVALUE);
            out.push(*tag);
            push_bytes(out, bytes.as_slice());
        },
        StoredValue::Account { main_purse, named_keys } => {
            out.push(TAG_ACCOUNT);
            push_uref(out, main_purse);
            push_named_keys(out, named_keys);
        },
        StoredValue::Contract { named_keys, body } => {
            out.push(TAG_CONTRACT);
            push_named_keys(out, named_keys);
            push_bytes(out, body.as_slice());
        },
    }
    assert(out@ =~= old(out)@ + enc_stored_value(v@));
}

fn push_pointers_run(out: &mut Vec<u8>, ps: &Vec<crate::model::BranchPointer>, i: usize)
    requires
        i <= ps@.len(),
    ensures
        final(out)@ == old(out)@ + enc_pointers_run(view_pointers(ps@).skip(i as int)),
    decreases ps@.len() - i,
{
    let ghost s = view_pointers(ps@);
    if i == ps.len() {
        assert(out@ =~= old(out)@ + enc_pointers_run(s.skip(i as int)));
        return ;
    }
    out.push(ps[i].index);
    push_bytes(out, ps[i].hash.bytes.as_slice());
    push_pointers_run(out, ps, i + 1);
    proof {
        assert(s.skip(i as int)[0] == s[i as int]);
        assert(s.skip(i as int).drop_first() =~= s.skip(i + 1));
        assert(out@ =~= old(out)@ + enc_pointer(s[i as int]) + enc_pointers_run(s.skip(i + 1)));
        assert(out@ =~= old(out)@ + enc_pointers_run(s.skip(i as int)));
    }
}

fn push_node(out: &mut Vec<u8>, n: &TrieNode)
    ensures
        final(out)@ == old(out)@ + enc_node(n@),
{
    match n {
        TrieNode::Leaf { key, value } => {
            out.push(TAG_LEAF);
            push_bytes(out, key.as_slice());
            push_stored_value(out, value);
        },
        TrieNode::Extension { affix, pointer } => {
            out.push(TAG_EXTENSION);
            push_bytes(out, affix.as_slice());
            push_bytes(out, pointer.bytes.as_slice());
        },
        TrieNode::Branch { pointers } => {
            out.push(TAG_BRANCH);
            push_u64(out, pointers.len() as u64);
            push_pointers_run(out, pointers, 0);
            proof {
                let s = view_pointers(pointers@);
                assert(s.skip(0) =~= s);
            }
        },
    }
    assert(out@ =~= old(out)@ + enc_node(n@));
}

fn push_step(out: &mut Vec<u8>, s: &ProofStep)
    ensures
        final(out)@ == old(out)@ + enc_step(s@),
{
    push_node(out, &s.node);
    push_bytes(out, s.segment.as_slice());
    assert(out@ =~= old(out)@ + enc_step(s@));
}

fn push_steps_run(out: &mut Vec<u8>, steps: &Vec<ProofStep>, i: usize)
    requires
        i <= steps@.len(),
    ensures
        final(out)@ == old(out)@ + enc_steps_run(view_steps(steps@).skip(i as int)),
    decreases steps@.len() - i,
{
    let ghost s = view_steps(steps@);
    if i == steps.len() {
        assert(out@ =~= old(out)@ + enc_steps_run(s.skip(i as int)));
        return ;
    }
    push_step(out, &steps[i]);
    push_steps_run(out, steps, i + 1);
    proof {
        assert(s.skip(i as int)[0] == s[i as int]);
        assert(s.skip(i as int).drop_first() =~= s.skip(i + 1));
        assert(out@ =~= old(out)@ + enc_steps_run(s.skip(i as int)));
    }
}

fn push_proof(out: &mut Vec<u8>, p: &TrieMerkleProof)
    ensures
        final(out)@ == old(out)@ + enc_proof(p@),
{
    push_u64(out, p.steps.len() as u64);
    push_steps_run(out, &p.steps, 0);
    proof {
        let s = view_steps(p.steps@);
        assert(s.skip(0) =~= s);
        assert(out@ =~= old(out)@ + enc_proof(p@));
    }
}

fn push_proofs_run(out: &mut Vec<u8>, proofs: &Vec<TrieMerkleProof>, i: usize)
    requires
        i <= proofs@.len(),
    ensures
        final(out)@ == old(out)@ + enc_proofs_run(view_proofs(proofs@).skip(i as int)),
    decreases proofs@.len() - i,
{
    let ghost s = view_proofs(proofs@);
    if i == proofs.len() {
        assert(out@ =~= old(out)@ + enc_proofs_run(s.skip(i as int)));
        return ;
    }
    push_proof(out, &proofs[i]);
    push_proofs_run(out, proofs, i + 1);
    proof {
        assert(s.skip(i as int)[0] == s[i as int]);
        assert(s.skip(i as int).drop_first() =~= s.skip(i + 1));
        assert(out@ =~= old(out)@ + enc_proofs_run(s.skip(i as int)));
    }
}

/// The canonical byte encoding of a trie node.
pub fn encode_node(n: &TrieNode) -> (r: Vec<u8>)
    ensures
        r@ == enc_node(n@),
{
    let mut out: Vec<u8> = Vec::new();
    push_node(&mut out, n);
    assert(out@ =~= enc_node(n@));
    out
}

/// The digest of a node's canonical encoding: what a pointer to this node
/// must hold for a proof chain to link.
pub fn node_hash(n: &TrieNode) -> (r: Digest)
    ensures
        r@ == node_digest(n@),
        r@.len() == DIGEST_LENGTH,
{
    let bytes = encode_node(n);
    crate::digest::hash_bytes(bytes.as_slice())
}

/// The canonical byte encoding of a ledger key: the path the trie is
/// descended by when the key is queried.
pub fn encode_key(k: &Key) -> (r: Vec<u8>)
    ensures
        r@ == enc_key(k@),
{
    let mut out: Vec<u8> = Vec::new();
    push_key(&mut out, k);
    assert(out@ =~= enc_key(k@));
    out
}

/// The wire encoding of the proof material of a key/value query.
pub fn encode_query_proofs(proofs: &Vec<TrieMerkleProof>) -> (r: Vec<u8>)
    ensures
        r@ == enc_query_proofs(view_proofs(proofs@)),
{
    let mut out: Vec<u8> = Vec::new();
    push_u64(&mut out, proofs.len() as u64);
    push_proofs_run(&mut out, proofs, 0);
    proof {
        let s = view_proofs(proofs@);
        assert(s.skip(0) =~= s);
        assert(out@ =~= enc_query_proofs(s));
    }
    out
}

/// The wire encoding of the proof material of a balance query.
pub fn encode_balance_proofs(purse: &TrieMerkleProof, balance: &TrieMerkleProof) -> (r: Vec<u8>)
    ensures
        r@ == enc_balance_proofs(purse@, balance@),
{
    let mut out: Vec<u8> = Vec::new();
    push_proof(&mut out, purse);
    push_proof(&mut out, balance);
    assert(out@ =~= enc_balance_proofs(purse@, balance@));
    out
}

} // verus!
