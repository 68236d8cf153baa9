//! Executable decoders for untrusted proof material, proven to return
//! exactly what the specification-level readers of `codec` read.
//!
//! Total over arbitrary bytes: every malformed input is answered with an
//! error, never a panic.

use vstd::prelude::*;

use vstd::slice::{slice_subrange, slice_to_vec};

use crate::codec::{
    rd_balance_proofs, rd_bytes, rd_key, rd_named_key, rd_named_keys, rd_named_keys_run, rd_node,
    rd_pointer, rd_pointers_run, rd_proof, rd_proofs_run, rd_query_proofs, rd_step, rd_steps_run,
    rd_stored_value, rd_u64, rd_u8, rd_uref, rd_uref_exact, TAG_ACCOUNT, TAG_BRANCH, TAG_CLVALUE,
    TAG_CONTRACT, TAG_EXTENSION, TAG_KEY_ACCOUNT, TAG_KEY_BALANCE, TAG_KEY_HASH, TAG_KEY_UREF,
    TAG_LEAF,
};
use crate::digest::Digest;
use crate::error::BytesreprError;
use crate::model::{
    view_named_keys, view_pointers, view_proofs, view_steps, BranchPointer, Key, NamedKey,
    ProofStep, StoredValue, TrieMerkleProof, TrieNode, URef,
};

verus! {

fn decode_u64(b: &[u8], pos: usize) -> (r: Option<(u64, usize)>)
    ensures
        match r {
            Some(x) => rd_u64(b@, pos as int) == Some((x.0, x.1 as int)),
            None => rd_u64(b@, pos as int) is None,
        },
{
    if pos > b.len() || b.len() - pos < 8 {
        return None;
    }
    let v: u64 = (b[pos] as u64) | ((b[pos + 1] as u64) << 8) | ((b[pos + 2] as u64) << 16) | ((b[
        pos + 3] as u64) << 24) | ((b[pos + 4] as u64) << 32) | ((b[pos + 5] as u64) << 40) | ((b[
        pos + 6] as u64) << 48) | ((b[pos + 7] as u64) << 56);
    Some((v, pos + 8))
}

fn decode_u8(b: &[u8], pos: usize) -> (r: Option<(u8, usize)>)
    ensures
        match r {
            Some(x) => rd_u8(b@, pos as int) == Some((x.0, x.1 as int)),
            None => rd_u8(b@, pos as int) is None,
        },
{
    if pos >= b.len() {
        return None;
    }
    Some((b[pos], pos + 1))
}

fn decode_bytes(b: &[u8], pos: usize) -> (r: Option<(Vec<u8>, usize)>)
    ensures
        match r {
            Some(x) => rd_bytes(b@, pos as int) == Some((x.0@, x.1 as int)),
            None => rd_bytes(b@, pos as int) is None,
        },
{
    let (n, j) = match decode_u64(b, pos) {
        Some(x) => x,
        None => { return None },
    };
    let rem: usize = b.len() - j;
    if n > rem as u64 {
        return None;
    }
    let m: usize = n as usize;
    let v = slice_to_vec(slice_subrange(b, j, j + m));
    Some((v, j + m))
}

fn decode_uref(b: &[u8], pos: usize) -> (r: Option<(URef, usize)>)
    ensures
        match r {
            Some(x) => rd_uref(b@, pos as int) == Some((x.0@, x.1 as int)),
            None => rd_uref(b@, pos as int) is None,
        },
{
    let (addr, j) = match decode_bytes(b, pos) {
        Some(x) => x,
        None => { return None },
    };
    let (access, k) = match decode_u8(b, j) {
        Some(x) => x,
        None => { return None },
    };
    Some((URef { addr, access }, k))
}

fn decode_key(b: &[u8], pos: usize) -> (r: Option<(Key, usize)>)
    ensures
        match r {
            Some(x) => rd_key(b@, pos as int) == Some((x.0@, x.1 as int)),
            None => rd_key(b@, pos as int) is None,
        },
{
    let (tag, j) = match decode_u8(b, pos) {
        Some(x) => x,
        None => { return None },
    };
    if tag == TAG_KEY_ACCOUNT {
        match decode_bytes(b, j) {
            Some((addr, k)) => Some((Key::Account { addr }, k)),
            None => None,
        }
    } else if tag == TAG_KEY_HASH {
        match decode_bytes(b, j) {
            Some((addr, k)) => Some((Key::Hash { addr }, k)),
            None => None,
        }
    } else if tag == TAG_KEY_UREF {
        match decode_uref(b, j) {
            Some((uref, k)) => Some((Key::Uref { uref }, k)),
            None => None,
        }
    } else if tag == TAG_KEY_BALANCE {
        match decode_bytes(b, j) {
            Some((addr, k)) => Some((Key::Balance { addr }, k)),
            None => None,
        }
    } else {
        None
    }
}

fn decode_named_key(b: &[u8], pos: usize) -> (r: Option<(NamedKey, usize)>)
    ensures
        match r {
            Some(x) => rd_named_key(b@, pos as int) == Some((x.0@, x.1 as int)),
            None => rd_named_key(b@, pos as int) is None,
        },
{
    let (name, j) = match decode_bytes(b, pos) {
        Some(x) => x,
        None => { return None },
    };
    let (key, k) = match decode_key(b, j) {
        Some(x) => x,
        None => { return None },
    };
    Some((NamedKey { name, key }, k))
}

fn decode_named_keys_run(b: &[u8], pos: usize, n: u64) -> (r: Option<(Vec<NamedKey>, usize)>)
    ensures
        match r {
            Some(x) => rd_named_keys_run(b@, pos as int, n) == Some(
                (view_named_keys(x.0@), x.1 as int),
            ),
            None => rd_named_keys_run(b@, pos as int, n) is None,
        },
    decreases n,
{
    if n == 0 {
        let v: Vec<NamedKey> = Vec::new();
        proof {
            assert(view_named_keys(v@) =~= Seq::<crate::model::NamedKeyView>::empty());
        }
        return Some((v, pos));
    }
    let (nk, j) = match decode_named_key(b, pos) {
        Some(x) => x,
        None => { return None },
    };
    let (mut rest, k) = match decode_named_keys_run(b, j, n - 1) {
        Some(x) => x,
        None => { return None },
    };
    let ghost rest0 = rest@;
    let ghost nk0 = nk@;
    let mut v: Vec<NamedKey> = Vec::new();
    v.push(nk);
    v.append(&mut rest);
    proof {
        assert(v@ =~= seq![/* the head entry */ v@[0]] + rest0);
        assert(view_named_keys(v@) =~= seq![nk0] + view_named_keys(rest0));
    }
    Some((v, k))
}

fn decode_named_keys(b: &[u8], pos: usize) -> (r: Option<(Vec<NamedKey>, usize)>)
    ensures
        match r {
            Some(x) => rd_named_keys(b@, pos as int) == Some((view_named_keys(x.0@), x.1 as int)),
            None => rd_named_keys(b@, pos as int) is None,
        },
{
    let (n, j) = match decode_u64(b, pos) {
        Some(x) => x,
        None => { return None },
    };
    decode_named_keys_run(b, j, n)
}

fn decode_stored_value(b: &[u8], pos: usize) -> (r: Option<(StoredValue, usize)>)
    ensures
        match r {
            Some(x) => rd_stored_value(b@, pos as int) == Some((x.0@, x.1 as int)),
            None => rd_stored_value(b@, pos as int) is None,
        },
{
    let (tag, j) = match decode_u8(b, pos) {
        Some(x) => x,
        None => { return None },
    };
    if tag == TAG_CLVALUE {
        let (t, k) = match decode_u8(b, j) {
            Some(x) => x,
            None => { return None },
        };
        match decode_bytes(b, k) {
            Some((bytes, l)) => Some((StoredValue::CLValue { tag: t, bytes }, l)),
            None => None,
        }
    } else if tag == TAG_ACCOUNT {
        let (main_purse, k) = match decode_uref(b, j) {
            Some(x) => x,
            None => { return None },
        };
        match decode_named_keys(b, k) {
            Some((named_keys, l)) => Some((StoredValue::Account { main_purse, named_keys }, l)),
            None => None,
        }
    } else if tag == TAG_CONTRACT {
        let (named_keys, k) = match decode_named_keys(b, j) {
            Some(x) => x,
            None => { return None },
        };
        match decode_bytes(b, k) {
            Some((body, l)) => Some((StoredValue::Contract { named_keys, body }, l)),
            None => None,
        }
    } else {
        None
    }
}

fn decode_pointer(b: &[u8], pos: usize) -> (r: Option<(BranchPointer, usize)>)
    ensures
        match r {
            Some(x) => rd_pointer(b@, pos as int) == Some((x.0@, x.1 as int)),
            None => rd_pointer(b@, pos as int) is None,
        },
{
    let (index, j) = match decode_u8(b, pos) {
        Some(x) => x,
        None => { return None },
    };
    let (hash, k) = match decode_bytes(b, j) {
        Some(x) => x,
        None => { return None },
    };
    Some((BranchPointer { index, hash: Digest { bytes: hash } }, k))
}

fn decode_pointers_run(b: &[u8], pos: usize, n: u64) -> (r: Option<(Vec<BranchPointer>, usize)>)
    ensures
        match r {
            Some(x) => rd_pointers_run(b@, pos as int, n) == Some(
                (view_pointers(x.0@), x.1 as int),
            ),
            None => rd_pointers_run(b@, pos as int, n) is None,
        },
    decreases n,
{
    if n == 0 {
        let v: Vec<BranchPointer> = Vec::new();
        proof {
            assert(view_pointers(v@) =~= Seq::<(u8, Seq<u8>)>::empty());
        }
        return Some((v, pos));
    }
    let (p, j) = match decode_pointer(b, pos) {
        Some(x) => x,
        None => { return None },
    };
    let (mut rest, k) = match decode_pointers_run(b, j, n - 1) {
        Some(x) => x,
        None => { return None },
    };
    let ghost rest0 = rest@;
    let ghost p0 = p@;
    let mut v: Vec<BranchPointer> = Vec::new();
    v.push(p);
    v.append(&mut rest);
    proof {
        assert(v@ =~= seq![v@[0]] + rest0);
        assert(view_pointers(v@) =~= seq![p0] + view_pointers(rest0));
    }
    Some((v, k))
}

fn decode_node(b: &[u8], pos: usize) -> (r: Option<(TrieNode, usize)>)
    ensures
        match r {
            Some(x) => rd_node(b@, pos as int) == Some((x.0@, x.1 as int)),
            None => rd_node(b@, pos as int) is None,
        },
{
    let (tag, j) = match decode_u8(b, pos) {
        Some(x) => x,
        None => { return None },
    };
    if tag == TAG_LEAF {
        let (key, k) = match decode_bytes(b, j) {
            Some(x) => x,
            None => { return None },
        };
        match decode_stored_value(b, k) {
            Some((value, l)) => Some((TrieNode::Leaf { key, value }, l)),
            None => None,
        }
    } else if tag == TAG_EXTENSION {
        let (affix, k) = match decode_bytes(b, j) {
            Some(x) => x,
            None => { return None },
        };
        match decode_bytes(b, k) {
            Some((pointer, l)) => Some(
                (TrieNode::Extension { affix, pointer: Digest { bytes: pointer } }, l),
            ),
            None => None,
        }
    } else if tag == TAG_BRANCH {
        let (n, k) = match decode_u64(b, j) {
            Some(x) => x,
            None => { return None },
        };
        match decode_pointers_run(b, k, n) {
            Some((pointers, l)) => Some((TrieNode::Branch { pointers }, l)),
            None => None,
        }
    } else {
        None
    }
}

fn decode_step(b: &[u8], pos: usize) -> (r: Option<(ProofStep, usize)>)
    ensures
        match r {
            Some(x) => rd_step(b@, pos as int) == Some((x.0@, x.1 as int)),
            None => rd_step(b@, pos as int) is None,
        },
{
    let (node, j) = match decode_node(b, pos) {
        Some(x) => x,
        None => { return None },
    };
    let (segment, k) = match decode_bytes(b, j) {
        Some(x) => x,
        None => { return None },
    };
    Some((ProofStep { node, segment }, k))
}

fn decode_steps_run(b: &[u8], pos: usize, n: u64) -> (r: Option<(Vec<ProofStep>, usize)>)
    ensures
        match r {
            Some(x) => rd_steps_run(b@, pos as int, n) == Some((view_steps(x.0@), x.1 as int)),
            None => rd_steps_run(b@, pos as int, n) is None,
        },
    decreases n,
{
    if n == 0 {
        let v: Vec<ProofStep> = Vec::new();
        proof {
            assert(view_steps(v@) =~= Seq::<crate::model::ProofStepView>::empty());
        }
        return Some((v, pos));
    }
    let (s, j) = match decode_step(b, pos) {
        Some(x) => x,
        None => { return None },
    };
    let (mut rest, k) = match decode_steps_run(b, j, n - 1) {
        Some(x) => x,
        None => { return None },
    };
    let ghost rest0 = rest@;
    let ghost s0 = s@;
    let mut v: Vec<ProofStep> = Vec::new();
    v.push(s);
    v.append(&mut rest);
    proof {
        assert(v@ =~= seq![v@[0]] + rest0);
        assert(view_steps(v@) =~= seq![s0] + view_steps(rest0));
    }
    Some((v, k))
}

fn decode_proof(b: &[u8], pos: usize) -> (r: Option<(TrieMerkleProof, usize)>)
    ensures
        match r {
            Some(x) => rd_proof(b@, pos as int) == Some((x.0@, x.1 as int)),
            None => rd_proof(b@, pos as int) is None,
        },
{
    let (n, j) = match decode_u64(b, pos) {
        Some(x) => x,
        None => { return None },
    };
    match decode_steps_run(b, j, n) {
        Some((steps, k)) => Some((TrieMerkleProof { steps }, k)),
        None => None,
    }
}

fn decode_proofs_run(b: &[u8], pos: usize, n: u64) -> (r: Option<(Vec<TrieMerkleProof>, usize)>)
    ensures
        match r {
            Some(x) => rd_proofs_run(b@, pos as int, n) == Some((view_proofs(x.0@), x.1 as int)),
            None => rd_proofs_run(b@, pos as int, n) is None,
        },
    decreases n,
{
    if n == 0 {
        let v: Vec<TrieMerkleProof> = Vec::new();
        proof {
            assert(view_proofs(v@) =~= Seq::<Seq<crate::model::ProofStepView>>::empty());
        }
        return Some((v, pos));
    }
    let (p, j) = match decode_proof(b, pos) {
        Some(x) => x,
        None => { return None },
    };
    let (mut rest, k) = match decode_proofs_run(b, j, n - 1) {
        Some(x) => x,
        None => { return None },
    };
    let ghost rest0 = rest@;
    let ghost p0 = p@;
    let mut v: Vec<TrieMerkleProof> = Vec::new();
    v.push(p);
    v.append(&mut rest);
    proof {
        assert(v@ =~= seq![v@[0]] + rest0);
        assert(view_proofs(v@) =~= seq![p0] + view_proofs(rest0));
    }
    Some((v, k))
}

/// Decodes the proof material of a key/value query: a count-prefixed
/// sequence of proof chains, with nothing left over.
pub fn decode_query_proofs(b: &[u8]) -> (r: Result<Vec<TrieMerkleProof>, BytesreprError>)
    ensures
        match r {
            Ok(ps) => rd_query_proofs(b@) == Some(view_proofs(ps@)),
            Err(e) => rd_query_proofs(b@) is None && e == BytesreprError::Formatting,
        },
{
    let (n, j) = match decode_u64(b, 0) {
        Some(x) => x,
        None => { return Err(BytesreprError::Formatting) },
    };
    let (proofs, k) = match decode_proofs_run(b, j, n) {
        Some(x) => x,
        None => { return Err(BytesreprError::Formatting) },
    };
    if k != b.len() {
        return Err(BytesreprError::Formatting);
    }
    Ok(proofs)
}

/// Decodes the proof material of a balance query: exactly two proof
/// chains, the purse proof then the balance proof, with nothing left over.
pub fn decode_balance_proofs(b: &[u8]) -> (r: Result<
    (TrieMerkleProof, TrieMerkleProof),
    BytesreprError,
>)
    ensures
        match r {
            Ok(pair) => rd_balance_proofs(b@) == Some((pair.0@, pair.1@)),
            Err(e) => rd_balance_proofs(b@) is None && e == BytesreprError::Formatting,
        },
{
    let (purse, j) = match decode_proof(b, 0) {
        Some(x) => x,
        None => { return Err(BytesreprError::Formatting) },
    };
    let (balance, k) = match decode_proof(b, j) {
        Some(x) => x,
        None => { return Err(BytesreprError::Formatting) },
    };
    if k != b.len() {
        return Err(BytesreprError::Formatting);
    }
    Ok((purse, balance))
}

/// Reads a purse reference out of a proven value's bytes, requiring the
/// bytes to spell exactly one.
pub fn decode_uref_exact(b: &[u8]) -> (r: Option<URef>)
    ensures
        match r {
            Some(u) => rd_uref_exact(b@) == Some(u@),
            None => rd_uref_exact(b@) is None,
        },
{
    let (u, j) = match decode_uref(b, 0) {
        Some(x) => x,
        None => { return None },
    };
    if j != b.len() {
        return None;
    }
    Some(u)
}

} // verus!
