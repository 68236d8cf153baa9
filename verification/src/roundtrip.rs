//! The canonical encoding decodes back to what was encoded. Together with
//! determinism of the encoders this makes the encoding injective: two
//! structurally different values never share an encoding, so a proof
//! chain's wire form pins the chain.

use vstd::prelude::*;

use crate::codec::{
    enc_balance_proofs, enc_bytes, enc_key, enc_named_key, enc_named_keys, enc_named_keys_run,
    enc_node, enc_pointer, enc_pointers_run, enc_proof, enc_proofs_run, enc_query_proofs,
    enc_step, enc_steps_run, enc_stored_value, enc_u64, enc_uref, rd_balance_proofs, rd_bytes,
    rd_key, rd_named_key, rd_named_keys, rd_named_keys_run, rd_node, rd_pointer, rd_pointers_run,
    rd_proof, rd_proofs_run, rd_query_proofs, rd_step, rd_steps_run, rd_stored_value, rd_u64,
    rd_u8, rd_uref, u64_from_le,
};
use crate::model::{
    view_named_keys, view_pointers, view_proofs, view_steps, BranchPointer, Key, NamedKey,
    ProofStep, StoredValue, TrieMerkleProof, TrieNode, URef,
};

verus! {

/// The encoding of `e` stands in `b` at offset `i`.
pub open spec fn encoded_at(b: Seq<u8>, i: int, e: Seq<u8>) -> bool {
    0 <= i && i + e.len() <= b.len() && b.subrange(i, i + e.len()) == e
}

proof fn lemma_rt_u64(b: Seq<u8>, i: int, n: u64)
    requires
        encoded_at(b, i, enc_u64(n)),
    ensures
        rd_u64(b, i) == Some((n, i + 8)),
{
    let e = enc_u64(n);
    assert(e.len() == 8);
    assert forall|k: int| 0 <= k < 8 implies b[i + k] == e[k] by {
        assert(b.subrange(i, i + 8)[k] == b[i + k]);
    }
    assert(b[i] == (n & 0xff) as u8);
    assert(b[i + 1] == ((n >> 8) & 0xff) as u8);
    assert(b[i + 2] == ((n >> 16) & 0xff) as u8);
    assert(b[i + 3] == ((n >> 24) & 0xff) as u8);
    assert(b[i + 4] == ((n >> 32) & 0xff) as u8);
    assert(b[i + 5] == ((n >> 40) & 0xff) as u8);
    assert(b[i + 6] == ((n >> 48) & 0xff) as u8);
    assert(b[i + 7] == ((n >> 56) & 0xff) as u8);
    assert((((n & 0xff) as u8) as u64) | ((((n >> 8) & 0xff) as u8) as u64) << 8 | ((((n >> 16)
        & 0xff) as u8) as u64) << 16 | ((((n >> 24) & 0xff) as u8) as u64) << 24 | ((((n >> 32)
        & 0xff) as u8) as u64) << 32 | ((((n >> 40) & 0xff) as u8) as u64) << 40 | ((((n >> 48)
        & 0xff) as u8) as u64) << 48 | ((((n >> 56) & 0xff) as u8) as u64) << 56 == n)
        by (bit_vector);
    assert(u64_from_le(b, i) == n);
}

proof fn lemma_rt_bytes(b: Seq<u8>, i: int, vec: &Vec<u8>)
    requires
        encoded_at(b, i, enc_bytes(vec@)),
    ensures
        rd_bytes(b, i) == Some((vec@, i + enc_bytes(vec@).len())),
{
    let v = vec@;
    vstd::std_specs::vec::axiom_spec_len(vec);
    assert(v.len() <= usize::MAX);
    let e = enc_bytes(v);
    assert(e.len() == 8 + v.len());
    assert(b.subrange(i, i + 8) =~= e.subrange(0, 8));
    assert(e.subrange(0, 8) =~= enc_u64(v.len() as u64));
    lemma_rt_u64(b, i, v.len() as u64);
    assert(b.subrange(i + 8, i + 8 + v.len()) =~= e.subrange(8, e.len() as int));
    assert(e.subrange(8, e.len() as int) =~= v);
}

proof fn lemma_split(b: Seq<u8>, i: int, e1: Seq<u8>, e2: Seq<u8>)
    requires
        encoded_at(b, i, e1 + e2),
    ensures
        encoded_at(b, i, e1),
        encoded_at(b, i + e1.len(), e2),
{
    let e = e1 + e2;
    assert(b.subrange(i, i + e1.len()) =~= e.subrange(0, e1.len() as int));
    assert(e.subrange(0, e1.len() as int) =~= e1);
    assert(b.subrange(i + e1.len(), i + e.len()) =~= e.subrange(e1.len() as int, e.len() as int));
    assert(e.subrange(e1.len() as int, e.len() as int) =~= e2);
}

proof fn lemma_rt_u8(b: Seq<u8>, i: int, c: u8)
    requires
        encoded_at(b, i, seq![c]),
    ensures
        rd_u8(b, i) == Some((c, i + 1)),
{
    assert(b.subrange(i, i + 1)[0] == b[i]);
}

proof fn lemma_rt_uref(b: Seq<u8>, i: int, u: URef)
    requires
        encoded_at(b, i, enc_uref(u@)),
    ensures
        rd_uref(b, i) == Some((u@, i + enc_uref(u@).len())),
{
    lemma_split(b, i, enc_bytes(u.addr@), seq![u.access]);
    lemma_rt_bytes(b, i, &u.addr);
    lemma_rt_u8(b, i + enc_bytes(u.addr@).len(), u.access);
}

proof fn lemma_rt_key(b: Seq<u8>, i: int, k: Key)
    requires
        encoded_at(b, i, enc_key(k@)),
    ensures
        rd_key(b, i) == Some((k@, i + enc_key(k@).len())),
{
    match k {
        Key::Account { addr } => {
            lemma_split(b, i, seq![crate::codec::TAG_KEY_ACCOUNT], enc_bytes(addr@));
            lemma_rt_u8(b, i, crate::codec::TAG_KEY_ACCOUNT);
            lemma_rt_bytes(b, i + 1, &addr);
        },
        Key::Hash { addr } => {
            lemma_split(b, i, seq![crate::codec::TAG_KEY_HASH], enc_bytes(addr@));
            lemma_rt_u8(b, i, crate::codec::TAG_KEY_HASH);
            lemma_rt_bytes(b, i + 1, &addr);
        },
        Key::Uref { uref } => {
            lemma_split(b, i, seq![crate::codec::TAG_KEY_UREF], enc_uref(uref@));
            lemma_rt_u8(b, i, crate::codec::TAG_KEY_UREF);
            lemma_rt_uref(b, i + 1, uref);
        },
        Key::Balance { addr } => {
            lemma_split(b, i, seq![crate::codec::TAG_KEY_BALANCE], enc_bytes(addr@));
            lemma_rt_u8(b, i, crate::codec::TAG_KEY_BALANCE);
            lemma_rt_bytes(b, i + 1, &addr);
        },
    }
}

proof fn lemma_rt_named_key(b: Seq<u8>, i: int, nk: NamedKey)
    requires
        encoded_at(b, i, enc_named_key(nk@)),
    ensures
        rd_named_key(b, i) == Some((nk@, i + enc_named_key(nk@).len())),
{
    lemma_split(b, i, enc_bytes(nk.name@), enc_key(nk.key@));
    lemma_rt_bytes(b, i, &nk.name);
    lemma_rt_key(b, i + enc_bytes(nk.name@).len(), nk.key);
}

#[verifier::rlimit(100)]
proof fn lemma_rt_named_keys_run(b: Seq<u8>, i: int, nks: Vec<NamedKey>, j: int)
    requires
        0 <= j <= nks@.len(),
        encoded_at(b, i, enc_named_keys_run(view_named_keys(nks@).skip(j))),
    ensures
        rd_named_keys_run(b, i, (nks@.len() - j) as u64) == Some(
            (
                view_named_keys(nks@).skip(j),
                i + enc_named_keys_run(view_named_keys(nks@).skip(j)).len(),
            ),
        ),
    decreases nks@.len() - j,
{
    let s = view_named_keys(nks@);
    vstd::std_specs::vec::axiom_spec_len(&nks);
    if j == nks@.len() {
        assert(s.skip(j) =~= Seq::<crate::model::NamedKeyView>::empty());
    } else {
        assert(s[j] == nks@[j]@);
        assert(s.skip(j)[0] == s[j]);
        assert(s.skip(j).drop_first() =~= s.skip(j + 1));
        lemma_split(b, i, enc_named_key(s[j]), enc_named_keys_run(s.skip(j + 1)));
        lemma_rt_named_key(b, i, nks[j]);
        lemma_rt_named_keys_run(b, i + enc_named_key(s[j]).len(), nks, j + 1);
        assert(s.skip(j) =~= seq![s[j]] + s.skip(j + 1));
    }
}

proof fn lemma_rt_named_keys(b: Seq<u8>, i: int, nks: Vec<NamedKey>)
    requires
        encoded_at(b, i, enc_named_keys(view_named_keys(nks@))),
    ensures
        rd_named_keys(b, i) == Some(
            (view_named_keys(nks@), i + enc_named_keys(view_named_keys(nks@)).len()),
        ),
{
    let s = view_named_keys(nks@);
    lemma_split(b, i, enc_u64(s.len() as u64), enc_named_keys_run(s));
    lemma_rt_u64(b, i, s.len() as u64);
    assert(s.skip(0) =~= s);
    lemma_rt_named_keys_run(b, i + 8, nks, 0);
}

#[verifier::rlimit(100)]
proof fn lemma_rt_stored_value(b: Seq<u8>, i: int, v: StoredValue)
    requires
        encoded_at(b, i, enc_stored_value(v@)),
    ensures
        rd_stored_value(b, i) == Some((v@, i + enc_stored_value(v@).len())),
{
    match v {
        StoredValue::CLValue { tag, bytes } => {
            assert(seq![crate::codec::TAG_CLVALUE, tag] =~= seq![crate::codec::TAG_CLVALUE]
                + seq![tag]);
            assert(enc_stored_value(v@) =~= (seq![crate::codec::TAG_CLVALUE] + seq![tag])
                + enc_bytes(bytes@));
            lemma_split(
                b,
                i,
                seq![crate::codec::TAG_CLVALUE] + seq![tag],
                enc_bytes(bytes@),
            );
            lemma_split(b, i, seq![crate::codec::TAG_CLVALUE], seq![tag]);
            lemma_rt_u8(b, i, crate::codec::TAG_CLVALUE);
            lemma_rt_u8(b, i + 1, tag);
            lemma_rt_bytes(b, i + 2, &bytes);
        },
        StoredValue::Account { main_purse, named_keys } => {
            assert(enc_stored_value(v@) =~= seq![crate::codec::TAG_ACCOUNT] + (enc_uref(
            main_purse@) + enc_named_keys(view_named_keys(named_keys@))));
            lemma_split(
                b,
                i,
                seq![crate::codec::TAG_ACCOUNT],
                enc_uref(main_purse@) + enc_named_keys(view_named_keys(named_keys@)),
            );
            lemma_rt_u8(b, i, crate::codec::TAG_ACCOUNT);
            lemma_split(
                b,
                i + 1,
                enc_uref(main_purse@),
                enc_named_keys(view_named_keys(named_keys@)),
            );
            lemma_rt_uref(b, i + 1, main_purse);
            lemma_rt_named_keys(b, i + 1 + enc_uref(main_purse@).len(), named_keys);
        },
        StoredValue::Contract { named_keys, body } => {
            assert(enc_stored_value(v@) =~= seq![crate::codec::TAG_CONTRACT] + (enc_named_keys(
            view_named_keys(named_keys@)) + enc_bytes(body@)));
            lemma_split(
                b,
                i,
                seq![crate::codec::TAG_CONTRACT],
                enc_named_keys(view_named_keys(named_keys@)) + enc_bytes(body@),
            );
            lemma_rt_u8(b, i, crate::codec::TAG_CONTRACT);
            lemma_split(
                b,
                i + 1,
                enc_named_keys(view_named_keys(named_keys@)),
                enc_bytes(body@),
            );
            lemma_rt_named_keys(b, i + 1, named_keys);
            lemma_rt_bytes(
                b,
                i + 1 + enc_named_keys(view_named_keys(named_keys@)).len(),
                &body,
            );
        },
    }
}

proof fn lemma_rt_pointer(b: Seq<u8>, i: int, p: BranchPointer)
    requires
        encoded_at(b, i, enc_pointer(p@)),
    ensures
        rd_pointer(b, i) == Some((p@, i + enc_pointer(p@).len())),
{
    lemma_split(b, i, seq![p.index], enc_bytes(p.hash@));
    lemma_rt_u8(b, i, p.index);
    lemma_rt_bytes(b, i + 1, &p.hash.bytes);
}

#[verifier::rlimit(100)]
proof fn lemma_rt_pointers_run(b: Seq<u8>, i: int, ps: Vec<BranchPointer>, j: int)
    requires
        0 <= j <= ps@.len(),
        encoded_at(b, i, enc_pointers_run(view_pointers(ps@).skip(j))),
    ensures
        rd_pointers_run(b, i, (ps@.len() - j) as u64) == Some(
            (view_pointers(ps@).skip(j), i + enc_pointers_run(view_pointers(ps@).skip(j)).len()),
        ),
    decreases ps@.len() - j,
{
    let s = view_pointers(ps@);
    vstd::std_specs::vec::axiom_spec_len(&ps);
    if j == ps@.len() {
        assert(s.skip(j) =~= Seq::<(u8, Seq<u8>)>::empty());
    } else {
        assert(s[j] == ps@[j]@);
        assert(s.skip(j)[0] == s[j]);
        assert(s.skip(j).drop_first() =~= s.skip(j + 1));
        lemma_split(b, i, enc_pointer(s[j]), enc_pointers_run(s.skip(j + 1)));
        lemma_rt_pointer(b, i, ps[j]);
        lemma_rt_pointers_run(b, i + enc_pointer(s[j]).len(), ps, j + 1);
        assert(s.skip(j) =~= seq![s[j]] + s.skip(j + 1));
    }
}

#[verifier::rlimit(100)]
proof fn lemma_rt_node(b: Seq<u8>, i: int, n: TrieNode)
    requires
        encoded_at(b, i, enc_node(n@)),
    ensures
        rd_node(b, i) == Some((n@, i + enc_node(n@).len())),
{
    match n {
        TrieNode::Leaf { key, value } => {
            assert(enc_node(n@) =~= seq![crate::codec::TAG_LEAF] + (enc_bytes(key@)
                + enc_stored_value(value@)));
            lemma_split(
                b,
                i,
                seq![crate::codec::TAG_LEAF],
                enc_bytes(key@) + enc_stored_value(value@),
            );
            lemma_rt_u8(b, i, crate::codec::TAG_LEAF);
            lemma_split(b, i + 1, enc_bytes(key@), enc_stored_value(value@));
            lemma_rt_bytes(b, i + 1, &key);
            lemma_rt_stored_value(b, i + 1 + enc_bytes(key@).len(), value);
        },
        TrieNode::Extension { affix, pointer } => {
            assert(enc_node(n@) =~= seq![crate::codec::TAG_EXTENSION] + (enc_bytes(affix@)
                + enc_bytes(pointer@)));
            lemma_split(
                b,
                i,
                seq![crate::codec::TAG_EXTENSION],
                enc_bytes(affix@) + enc_bytes(pointer@),
            );
            lemma_rt_u8(b, i, crate::codec::TAG_EXTENSION);
            lemma_split(b, i + 1, enc_bytes(affix@), enc_bytes(pointer@));
            lemma_rt_bytes(b, i + 1, &affix);
            lemma_rt_bytes(b, i + 1 + enc_bytes(affix@).len(), &pointer.bytes);
        },
        TrieNode::Branch { pointers } => {
            let s = view_pointers(pointers@);
            assert(enc_node(n@) =~= seq![crate::codec::TAG_BRANCH] + (enc_u64(s.len() as u64)
                + enc_pointers_run(s)));
            lemma_split(
                b,
                i,
                seq![crate::codec::TAG_BRANCH],
                enc_u64(s.len() as u64) + enc_pointers_run(s),
            );
            lemma_rt_u8(b, i, crate::codec::TAG_BRANCH);
            lemma_split(b, i + 1, enc_u64(s.len() as u64), enc_pointers_run(s));
            lemma_rt_u64(b, i + 1, s.len() as u64);
            assert(s.skip(0) =~= s);
            lemma_rt_pointers_run(b, i + 9, pointers, 0);
        },
    }
}

proof fn lemma_rt_step(b: Seq<u8>, i: int, s: ProofStep)
    requires
        encoded_at(b, i, enc_step(s@)),
    ensures
        rd_step(b, i) == Some((s@, i + enc_step(s@).len())),
{
    lemma_split(b, i, enc_node(s.node@), enc_bytes(s.segment@));
    lemma_rt_node(b, i, s.node);
    lemma_rt_bytes(b, i + enc_node(s.node@).len(), &s.segment);
}

#[verifier::rlimit(100)]
proof fn lemma_rt_steps_run(b: Seq<u8>, i: int, steps: Vec<ProofStep>, j: int)
    requires
        0 <= j <= steps@.len(),
        encoded_at(b, i, enc_steps_run(view_steps(steps@).skip(j))),
    ensures
        rd_steps_run(b, i, (steps@.len() - j) as u64) == Some(
            (view_steps(steps@).skip(j), i + enc_steps_run(view_steps(steps@).skip(j)).len()),
        ),
    decreases steps@.len() - j,
{
    let s = view_steps(steps@);
    vstd::std_specs::vec::axiom_spec_len(&steps);
    if j == steps@.len() {
        assert(s.skip(j) =~= Seq::<crate::model::ProofStepView>::empty());
    } else {
        assert(s[j] == steps@[j]@);
        assert(s.skip(j)[0] == s[j]);
        assert(s.skip(j).drop_first() =~= s.skip(j + 1));
        lemma_split(b, i, enc_step(s[j]), enc_steps_run(s.skip(j + 1)));
        lemma_rt_step(b, i, steps[j]);
        lemma_rt_steps_run(b, i + enc_step(s[j]).len(), steps, j + 1);
        assert(s.skip(j) =~= seq![s[j]] + s.skip(j + 1));
    }
}

proof fn lemma_rt_proof(b: Seq<u8>, i: int, p: TrieMerkleProof)
    requires
        encoded_at(b, i, enc_proof(p@)),
    ensures
        rd_proof(b, i) == Some((p@, i + enc_proof(p@).len())),
{
    let s = view_steps(p.steps@);
    lemma_split(b, i, enc_u64(s.len() as u64), enc_steps_run(s));
    lemma_rt_u64(b, i, s.len() as u64);
    assert(s.skip(0) =~= s);
    lemma_rt_steps_run(b, i + 8, p.steps, 0);
}

#[verifier::rlimit(100)]
proof fn lemma_rt_proofs_run(b: Seq<u8>, i: int, proofs: Vec<TrieMerkleProof>, j: int)
    requires
        0 <= j <= proofs@.len(),
        encoded_at(b, i, enc_proofs_run(view_proofs(proofs@).skip(j))),
    ensures
        rd_proofs_run(b, i, (proofs@.len() - j) as u64) == Some(
            (view_proofs(proofs@).skip(j), i + enc_proofs_run(view_proofs(proofs@).skip(j)).len()),
        ),
    decreases proofs@.len() - j,
{
    let s = view_proofs(proofs@);
    vstd::std_specs::vec::axiom_spec_len(&proofs);
    if j == proofs@.len() {
        assert(s.skip(j) =~= Seq::<Seq<crate::model::ProofStepView>>::empty());
    } else {
        assert(s[j] == proofs@[j]@);
        assert(s.skip(j)[0] == s[j]);
        assert(s.skip(j).drop_first() =~= s.skip(j + 1));
        lemma_split(b, i, enc_proof(s[j]), enc_proofs_run(s.skip(j + 1)));
        lemma_rt_proof(b, i, proofs[j]);
        lemma_rt_proofs_run(b, i + enc_proof(s[j]).len(), proofs, j + 1);
        assert(s.skip(j) =~= seq![s[j]] + s.skip(j + 1));
    }
}

/// The wire form of a query's proof material decodes back to exactly the
/// chains that were encoded.
#[verifier::rlimit(100)]
pub proof fn lemma_query_proofs_roundtrip(proofs: Vec<TrieMerkleProof>)
    ensures
        rd_query_proofs(enc_query_proofs(view_proofs(proofs@))) == Some(view_proofs(proofs@)),
{
    let s = view_proofs(proofs@);
    let b = enc_query_proofs(s);
    assert(b =~= enc_u64(s.len() as u64) + enc_proofs_run(s));
    assert(encoded_at(b, 0, enc_u64(s.len() as u64) + enc_proofs_run(s))) by {
        assert(b.subrange(0, b.len() as int) =~= b);
    }
    lemma_split(b, 0, enc_u64(s.len() as u64), enc_proofs_run(s));
    lemma_rt_u64(b, 0, s.len() as u64);
    assert(s.skip(0) =~= s);
    lemma_rt_proofs_run(b, 8, proofs, 0);
}

/// The wire form of a balance query's proof material decodes back to
/// exactly the two chains that were encoded.
#[verifier::rlimit(100)]
pub proof fn lemma_balance_proofs_roundtrip(purse: TrieMerkleProof, balance: TrieMerkleProof)
    ensures
        rd_balance_proofs(enc_balance_proofs(purse@, balance@)) == Some((purse@, balance@)),
{
    let b = enc_balance_proofs(purse@, balance@);
    assert(encoded_at(b, 0, enc_proof(purse@) + enc_proof(balance@))) by {
        assert(b.subrange(0, b.len() as int) =~= b);
    }
    lemma_split(b, 0, enc_proof(purse@), enc_proof(balance@));
    lemma_rt_proof(b, 0, purse);
    lemma_rt_proof(b, enc_proof(purse@).len() as int, balance);
}

/// The canonical encoding is injective: two runs of proof chains with one
/// wire form are the same chains. A chain's wire bytes pin the chain.
pub proof fn lemma_encoding_injective(a: Vec<TrieMerkleProof>, b: Vec<TrieMerkleProof>)
    requires
        enc_query_proofs(view_proofs(a@)) == enc_query_proofs(view_proofs(b@)),
    ensures
        view_proofs(a@) == view_proofs(b@),
{
    lemma_query_proofs_roundtrip(a);
    lemma_query_proofs_roundtrip(b);
}

} // verus!
