//! Canonical byte encoding of keys, stored values, trie nodes and proof
//! chains, and the decoder for untrusted proof material.
//!
//! The encoding is deterministic and variant-tagged: every variant starts
//! with its tag byte, every byte string is length-prefixed (eight bytes,
//! little endian), so two structurally different values never encode alike.
//! Decoding is total over arbitrary bytes: it returns `None` on any
//! malformed input and never panics.

use vstd::prelude::*;

use crate::digest::Digest;
use crate::model::{
    BranchPointer, Key, KeyView, NamedKey, NamedKeyView, ProofStep, ProofStepView, StoredValue,
    StoredValueView, TrieMerkleProof, TrieNode, TrieNodeView, URef, UrefView,
};

verus! {

/// Variant tag of a leaf node.
pub const TAG_LEAF: u8 = 0;

/// Variant tag of an extension node.
pub const TAG_EXTENSION: u8 = 1;

/// Variant tag of a branch node.
pub const TAG_BRANCH: u8 = 2;

/// Variant tag of a type-tagged value.
pub const TAG_CLVALUE: u8 = 0;

/// Variant tag of an account.
pub const TAG_ACCOUNT: u8 = 1;

/// Variant tag of a contract.
pub const TAG_CONTRACT: u8 = 2;

/// Variant tag of an account key.
pub const TAG_KEY_ACCOUNT: u8 = 0;

/// Variant tag of a hash key.
pub const TAG_KEY_HASH: u8 = 1;

/// Variant tag of a purse-reference key.
pub const TAG_KEY_UREF: u8 = 2;

/// Variant tag of a balance key.
pub const TAG_KEY_BALANCE: u8 = 3;

// ---------------------------------------------------------------------------
// Canonical encoding (specification level)
// ---------------------------------------------------------------------------

/// Eight-byte little-endian encoding of a 64-bit integer.
pub open spec fn enc_u64(n: u64) -> Seq<u8> {
    seq![
        (n & 0xff) as u8,
        ((n >> 8) & 0xff) as u8,
        ((n >> 16) & 0xff) as u8,
        ((n >> 24) & 0xff) as u8,
        ((n >> 32) & 0xff) as u8,
        ((n >> 40) & 0xff) as u8,
        ((n >> 48) & 0xff) as u8,
        ((n >> 56) & 0xff) as u8,
    ]
}

/// Length-prefixed byte string.
pub open spec fn enc_bytes(b: Seq<u8>) -> Seq<u8> {
    enc_u64(b.len() as u64) + b
}

/// Encoding of a purse reference.
pub open spec fn enc_uref(u: UrefView) -> Seq<u8> {
    enc_bytes(u.addr) + seq![u.access]
}

/// Encoding of a ledger key.
pub open spec fn enc_key(k: KeyView) -> Seq<u8> {
    match k {
        KeyView::Account { addr } => seq![TAG_KEY_ACCOUNT] + enc_bytes(addr),
        KeyView::Hash { addr } => seq![TAG_KEY_HASH] + enc_bytes(addr),
        KeyView::Uref { uref } => seq![TAG_KEY_UREF] + enc_uref(uref),
        KeyView::Balance { addr } => seq![TAG_KEY_BALANCE] + enc_bytes(addr),
    }
}

/// Encoding of one named-key entry.
pub open spec fn enc_named_key(nk: NamedKeyView) -> Seq<u8> {
    enc_bytes(nk.name) + enc_key(nk.key)
}

/// Encoding of a run of named-key entries, in order.
pub open spec fn enc_named_keys_run(s: Seq<NamedKeyView>) -> Seq<u8>
    decreases s.len(),
{
    if s.len() == 0 {
        Seq::empty()
    } else {
        enc_named_key(s[0]) + enc_named_keys_run(s.drop_first())
    }
}

/// Count-prefixed encoding of named keys.
pub open spec fn enc_named_keys(s: Seq<NamedKeyView>) -> Seq<u8> {
    enc_u64(s.len() as u64) + enc_named_keys_run(s)
}

/// Encoding of a stored value.
pub open spec fn enc_stored_value(v: StoredValueView) -> Seq<u8> {
    match v {
        StoredValueView::CLValue { tag, bytes } => seq![TAG_CLVALUE, tag] + enc_bytes(bytes),
        StoredValueView::Account { main_purse, named_keys } => seq![TAG_ACCOUNT] + enc_uref(
            main_purse,
        ) + enc_named_keys(named_keys),
        StoredValueView::Contract { named_keys, body } => seq![TAG_CONTRACT] + enc_named_keys(
            named_keys,
        ) + enc_bytes(body),
    }
}

/// Encoding of one branch-pointer slot.
pub open spec fn enc_pointer(p: (u8, Seq<u8>)) -> Seq<u8> {
    seq![p.0] + enc_bytes(p.1)
}

/// Encoding of a run of branch-pointer slots, in order.
pub open spec fn enc_pointers_run(s: Seq<(u8, Seq<u8>)>) -> Seq<u8>
    decreases s.len(),
{
    if s.len() == 0 {
        Seq::empty()
    } else {
        enc_pointer(s[0]) + enc_pointers_run(s.drop_first())
    }
}

/// Canonical, variant-tagged encoding of a trie node. Hashing this
/// encoding yields the node's digest.
pub open spec fn enc_node(n: TrieNodeView) -> Seq<u8> {
    match n {
        TrieNodeView::Leaf { key, value } => seq![TAG_LEAF] + enc_bytes(key) + enc_stored_value(
            value,
        ),
        TrieNodeView::Extension { affix, pointer } => seq![TAG_EXTENSION] + enc_bytes(affix)
            + enc_bytes(pointer),
        TrieNodeView::Branch { pointers } => seq![TAG_BRANCH] + enc_u64(pointers.len() as u64)
            + enc_pointers_run(pointers),
    }
}

/// The digest of a node's canonical encoding: what a parent's pointer to
/// this node must equal.
pub open spec fn node_digest(n: TrieNodeView) -> Seq<u8> {
    crate::digest::digest_of(enc_node(n))
}

/// Encoding of one proof step.
pub open spec fn enc_step(s: ProofStepView) -> Seq<u8> {
    enc_node(s.node) + enc_bytes(s.segment)
}

/// Encoding of a run of proof steps, in order.
pub open spec fn enc_steps_run(s: Seq<ProofStepView>) -> Seq<u8>
    decreases s.len(),
{
    if s.len() == 0 {
        Seq::empty()
    } else {
        enc_step(s[0]) + enc_steps_run(s.drop_first())
    }
}

/// Count-prefixed encoding of one proof chain, root-most step first.
pub open spec fn enc_proof(steps: Seq<ProofStepView>) -> Seq<u8> {
    enc_u64(steps.len() as u64) + enc_steps_run(steps)
}

/// Encoding of a run of proof chains, in order.
pub open spec fn enc_proofs_run(s: Seq<Seq<ProofStepView>>) -> Seq<u8>
    decreases s.len(),
{
    if s.len() == 0 {
        Seq::empty()
    } else {
        enc_proof(s[0]) + enc_proofs_run(s.drop_first())
    }
}

/// The wire encoding of the proof material of a key/value query: a
/// count-prefixed sequence of proof chains.
pub open spec fn enc_query_proofs(s: Seq<Seq<ProofStepView>>) -> Seq<u8> {
    enc_u64(s.len() as u64) + enc_proofs_run(s)
}

/// The wire encoding of the proof material of a balance query: exactly two
/// proof chains, the purse proof then the balance proof.
pub open spec fn enc_balance_proofs(purse: Seq<ProofStepView>, balance: Seq<ProofStepView>) -> Seq<
    u8,
> {
    enc_proof(purse) + enc_proof(balance)
}

// ---------------------------------------------------------------------------
// Decoding (specification level)
// ---------------------------------------------------------------------------

/// The 64-bit integer spelled little-endian by eight bytes.
pub open spec fn u64_from_le(b: Seq<u8>, i: int) -> u64 {
    (b[i] as u64) | ((b[i + 1] as u64) << 8) | ((b[i + 2] as u64) << 16) | ((b[i + 3] as u64)
        << 24) | ((b[i + 4] as u64) << 32) | ((b[i + 5] as u64) << 40) | ((b[i + 6] as u64) << 48)
        | ((b[i + 7] as u64) << 56)
}

/// Reads a 64-bit little-endian integer.
pub open spec fn rd_u64(b: Seq<u8>, i: int) -> Option<(u64, int)> {
    if 0 <= i && i + 8 <= b.len() {
        Some((u64_from_le(b, i), i + 8))
    } else {
        None
    }
}

/// Reads one byte.
pub open spec fn rd_u8(b: Seq<u8>, i: int) -> Option<(u8, int)> {
    if 0 <= i && i + 1 <= b.len() {
        Some((b[i], i + 1))
    } else {
        None
    }
}

/// Reads a length-prefixed byte string.
pub open spec fn rd_bytes(b: Seq<u8>, i: int) -> Option<(Seq<u8>, int)> {
    match rd_u64(b, i) {
        None => None,
        Some((n, j)) => if j + n <= b.len() {
            Some((b.subrange(j, j + n), j + n))
        } else {
            None
        },
    }
}

/// Reads a purse reference.
pub open spec fn rd_uref(b: Seq<u8>, i: int) -> Option<(UrefView, int)> {
    match rd_bytes(b, i) {
        None => None,
        Some((addr, j)) => match rd_u8(b, j) {
            None => None,
            Some((access, k)) => Some((UrefView { addr, access }, k)),
        },
    }
}

/// Reads a ledger key.
pub open spec fn rd_key(b: Seq<u8>, i: int) -> Option<(KeyView, int)> {
    match rd_u8(b, i) {
        None => None,
        Some((tag, j)) => if tag == TAG_KEY_ACCOUNT {
            match rd_bytes(b, j) {
                None => None,
                Some((addr, k)) => Some((KeyView::Account { addr }, k)),
            }
        } else if tag == TAG_KEY_HASH {
            match rd_bytes(b, j) {
                None => None,
                Some((addr, k)) => Some((KeyView::Hash { addr }, k)),
            }
        } else if tag == TAG_KEY_UREF {
            match rd_uref(b, j) {
                None => None,
                Some((uref, k)) => Some((KeyView::Uref { uref }, k)),
            }
        } else if tag == TAG_KEY_BALANCE {
            match rd_bytes(b, j) {
                None => None,
                Some((addr, k)) => Some((KeyView::Balance { addr }, k)),
            }
        } else {
            None
        },
    }
}

/// Reads one named-key entry.
pub open spec fn rd_named_key(b: Seq<u8>, i: int) -> Option<(NamedKeyView, int)> {
    match rd_bytes(b, i) {
        None => None,
        Some((name, j)) => match rd_key(b, j) {
            None => None,
            Some((key, k)) => Some((NamedKeyView { name, key }, k)),
        },
    }
}

/// Reads a run of `n` named-key entries.
pub open spec fn rd_named_keys_run(b: Seq<u8>, i: int, n: u64) -> Option<(Seq<NamedKeyView>, int)>
    decreases n,
{
    if n == 0 {
        Some((Seq::empty(), i))
    } else {
        match rd_named_key(b, i) {
            None => None,
            Some((nk, j)) => match rd_named_keys_run(b, j, (n - 1) as u64) {
                None => None,
                Some((rest, k)) => Some((seq![nk] + rest, k)),
            },
        }
    }
}

/// Reads count-prefixed named keys.
pub open spec fn rd_named_keys(b: Seq<u8>, i: int) -> Option<(Seq<NamedKeyView>, int)> {
    match rd_u64(b, i) {
        None => None,
        Some((n, j)) => rd_named_keys_run(b, j, n),
    }
}

/// Reads a stored value.
pub open spec fn rd_stored_value(b: Seq<u8>, i: int) -> Option<(StoredValueView, int)> {
    match rd_u8(b, i) {
        None => None,
        Some((tag, j)) => if tag == TAG_CLVALUE {
            match rd_u8(b, j) {
                None => None,
                Some((t, k)) => match rd_bytes(b, k) {
                    None => None,
                    Some((bytes, l)) => Some((StoredValueView::CLValue { tag: t, bytes }, l)),
                },
            }
        } else if tag == TAG_ACCOUNT {
            match rd_uref(b, j) {
                None => None,
                Some((main_purse, k)) => match rd_named_keys(b, k) {
                    None => None,
                    Some((named_keys, l)) => Some(
                        (StoredValueView::Account { main_purse, named_keys }, l),
                    ),
                },
            }
        } else if tag == TAG_CONTRACT {
            match rd_named_keys(b, j) {
                None => None,
                Some((named_keys, k)) => match rd_bytes(b, k) {
                    None => None,
                    Some((body, l)) => Some((StoredValueView::Contract { named_keys, body }, l)),
                },
            }
        } else {
            None
        },
    }
}

/// Reads one branch-pointer slot.
pub open spec fn rd_pointer(b: Seq<u8>, i: int) -> Option<((u8, Seq<u8>), int)> {
    match rd_u8(b, i) {
        None => None,
        Some((index, j)) => match rd_bytes(b, j) {
            None => None,
            Some((hash, k)) => Some(((index, hash), k)),
        },
    }
}

/// Reads a run of `n` branch-pointer slots.
pub open spec fn rd_pointers_run(b: Seq<u8>, i: int, n: u64) -> Option<(Seq<(u8, Seq<u8>)>, int)>
    decreases n,
{
    if n == 0 {
        Some((Seq::empty(), i))
    } else {
        match rd_pointer(b, i) {
            None => None,
            Some((p, j)) => match rd_pointers_run(b, j, (n - 1) as u64) {
                None => None,
                Some((rest, k)) => Some((seq![p] + rest, k)),
            },
        }
    }
}

/// Reads a trie node.
pub open spec fn rd_node(b: Seq<u8>, i: int) -> Option<(TrieNodeView, int)> {
    match rd_u8(b, i) {
        None => None,
        Some((tag, j)) => if tag == TAG_LEAF {
            match rd_bytes(b, j) {
                None => None,
                Some((key, k)) => match rd_stored_value(b, k) {
                    None => None,
                    Some((value, l)) => Some((TrieNodeView::Leaf { key, value }, l)),
                },
            }
        } else if tag == TAG_EXTENSION {
            match rd_bytes(b, j) {
                None => None,
                Some((affix, k)) => match rd_bytes(b, k) {
                    None => None,
                    Some((pointer, l)) => Some((TrieNodeView::Extension { affix, pointer }, l)),
                },
            }
        } else if tag == TAG_BRANCH {
            match rd_u64(b, j) {
                None => None,
                Some((n, k)) => match rd_pointers_run(b, k, n) {
                    None => None,
                    Some((pointers, l)) => Some((TrieNodeView::Branch { pointers }, l)),
                },
            }
        } else {
            None
        },
    }
}

/// Reads one proof step.
pub open spec fn rd_step(b: Seq<u8>, i: int) -> Option<(ProofStepView, int)> {
    match rd_node(b, i) {
        None => None,
        Some((node, j)) => match rd_bytes(b, j) {
            None => None,
            Some((segment, k)) => Some((ProofStepView { node, segment }, k)),
        },
    }
}

/// Reads a run of `n` proof steps.
pub open spec fn rd_steps_run(b: Seq<u8>, i: int, n: u64) -> Option<(Seq<ProofStepView>, int)>
    decreases n,
{
    if n == 0 {
        Some((Seq::empty(), i))
    } else {
        match rd_step(b, i) {
            None => None,
            Some((s, j)) => match rd_steps_run(b, j, (n - 1) as u64) {
                None => None,
                Some((rest, k)) => Some((seq![s] + rest, k)),
            },
        }
    }
}

/// Reads one count-prefixed proof chain.
pub open spec fn rd_proof(b: Seq<u8>, i: int) -> Option<(Seq<ProofStepView>, int)> {
    match rd_u64(b, i) {
        None => None,
        Some((n, j)) => rd_steps_run(b, j, n),
    }
}

/// Reads a run of `n` proof chains.
pub open spec fn rd_proofs_run(b: Seq<u8>, i: int, n: u64) -> Option<(Seq<Seq<ProofStepView>>, int)>
    decreases n,
{
    if n == 0 {
        Some((Seq::empty(), i))
    } else {
        match rd_proof(b, i) {
            None => None,
            Some((p, j)) => match rd_proofs_run(b, j, (n - 1) as u64) {
                None => None,
                Some((rest, k)) => Some((seq![p] + rest, k)),
            },
        }
    }
}

/// The proof material of a key/value query: a count-prefixed sequence of
/// proof chains, with nothing left over.
pub open spec fn rd_query_proofs(b: Seq<u8>) -> Option<Seq<Seq<ProofStepView>>> {
    match rd_u64(b, 0) {
        None => None,
        Some((n, j)) => match rd_proofs_run(b, j, n) {
            None => None,
            Some((proofs, k)) => if k == b.len() {
                Some(proofs)
            } else {
                None
            },
        },
    }
}

/// The proof material of a balance query: exactly two proof chains, with
/// nothing left over.
pub open spec fn rd_balance_proofs(b: Seq<u8>) -> Option<(Seq<ProofStepView>, Seq<ProofStepView>)> {
    match rd_proof(b, 0) {
        None => None,
        Some((purse, j)) => match rd_proof(b, j) {
            None => None,
            Some((balance, k)) => if k == b.len() {
                Some((purse, balance))
            } else {
                None
            },
        },
    }
}

/// A purse reference spelled by a value's bytes, with nothing left over:
/// how a purse pointer is read out of a proven value.
pub open spec fn rd_uref_exact(b: Seq<u8>) -> Option<UrefView> {
    match rd_uref(b, 0) {
        None => None,
        Some((u, j)) => if j == b.len() {
            Some(u)
        } else {
            None
        },
    }
}

} // verus!
