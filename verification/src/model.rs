//! Data model: ledger keys, stored values, trie nodes and proof chains.
//!
//! Each executable type has a mathematical view used by every contract.

use vstd::prelude::*;

use crate::digest::Digest;

verus! {

// ---------------------------------------------------------------------------
// Views
// ---------------------------------------------------------------------------

/// View of an unforgeable reference to a purse.
#[verifier::ext_equal]
pub struct UrefView {
    pub addr: Seq<u8>,
    pub access: u8,
}

/// View of a ledger key.
#[verifier::ext_equal]
pub enum KeyView {
    Account { addr: Seq<u8> },
    Hash { addr: Seq<u8> },
    Uref { uref: UrefView },
    Balance { addr: Seq<u8> },
}

/// View of one named-key entry of an account or contract.
#[verifier::ext_equal]
pub struct NamedKeyView {
    pub name: Seq<u8>,
    pub key: KeyView,
}

/// View of a stored ledger value.
#[verifier::ext_equal]
pub enum StoredValueView {
    CLValue { tag: u8, bytes: Seq<u8> },
    Account { main_purse: UrefView, named_keys: Seq<NamedKeyView> },
    Contract { named_keys: Seq<NamedKeyView>, body: Seq<u8> },
}

/// View of the JSON-compatible form of a stored value.
#[verifier::ext_equal]
pub enum JsonStoredValueView {
    CLValue { tag: u8, bytes: Seq<u8> },
    Account { main_purse: UrefView },
}

/// View of a trie node.
#[verifier::ext_equal]
pub enum TrieNodeView {
    Leaf { key: Seq<u8>, value: StoredValueView },
    Extension { affix: Seq<u8>, pointer: Seq<u8> },
    Branch { pointers: Seq<(u8, Seq<u8>)> },
}

/// View of one proof step.
#[verifier::ext_equal]
pub struct ProofStepView {
    pub node: TrieNodeView,
    pub segment: Seq<u8>,
}

// ---------------------------------------------------------------------------
// Executable types
// ---------------------------------------------------------------------------

/// An unforgeable reference: the address of a purse plus its access rights.
#[derive(Debug)]
pub struct URef {
    pub addr: Vec<u8>,
    pub access: u8,
}

impl View for URef {
    type V = UrefView;

    open spec fn view(&self) -> UrefView {
        UrefView { addr: self.addr@, access: self.access }
    }
}

/// A ledger key: the address space of the state trie.
#[derive(Debug)]
pub enum Key {
    /// An account, addressed by the hash of its public key.
    Account { addr: Vec<u8> },
    /// A stored contract, addressed by hash.
    Hash { addr: Vec<u8> },
    /// A purse reference.
    Uref { uref: URef },
    /// The balance record of a purse, addressed by the purse's address.
    Balance { addr: Vec<u8> },
}

impl View for Key {
    type V = KeyView;

    open spec fn view(&self) -> KeyView {
        match self {
            Key::Account { addr } => KeyView::Account { addr: addr@ },
            Key::Hash { addr } => KeyView::Hash { addr: addr@ },
            Key::Uref { uref } => KeyView::Uref { uref: uref@ },
            Key::Balance { addr } => KeyView::Balance { addr: addr@ },
        }
    }
}

/// A named-key entry: a human-readable name bound to a key.
#[derive(Debug)]
pub struct NamedKey {
    pub name: Vec<u8>,
    pub key: Key,
}

impl View for NamedKey {
    type V = NamedKeyView;

    open spec fn view(&self) -> NamedKeyView {
        NamedKeyView { name: self.name@, key: self.key@ }
    }
}

/// The views of a run of named keys, in order.
pub open spec fn view_named_keys(s: Seq<NamedKey>) -> Seq<NamedKeyView> {
    s.map_values(|nk: NamedKey| nk@)
}

/// A value stored in the ledger at some key.
#[derive(Debug)]
pub enum StoredValue {
    /// A type-tagged value in its canonical byte encoding.
    CLValue { tag: u8, bytes: Vec<u8> },
    /// An account: its main purse and its named keys.
    Account { main_purse: URef, named_keys: Vec<NamedKey> },
    /// A contract: its named keys and its body.
    Contract { named_keys: Vec<NamedKey>, body: Vec<u8> },
}

impl View for StoredValue {
    type V = StoredValueView;

    open spec fn view(&self) -> StoredValueView {
        match self {
            StoredValue::CLValue { tag, bytes } => StoredValueView::CLValue {
                tag: *tag,
                bytes: bytes@,
            },
            StoredValue::Account { main_purse, named_keys } => StoredValueView::Account {
                main_purse: main_purse@,
                named_keys: view_named_keys(named_keys@),
            },
            StoredValue::Contract { named_keys, body } => StoredValueView::Contract {
                named_keys: view_named_keys(named_keys@),
                body: body@,
            },
        }
    }
}

/// The JSON-compatible form of a stored value, as carried in the
/// human-readable part of a response. Not every stored value has such a
/// form: a contract does not.
#[derive(Debug)]
pub enum JsonStoredValue {
    /// A type-tagged value in its canonical byte encoding.
    CLValue { tag: u8, bytes: Vec<u8> },
    /// An account, reduced to its main purse.
    Account { main_purse: URef },
}

impl View for JsonStoredValue {
    type V = JsonStoredValueView;

    open spec fn view(&self) -> JsonStoredValueView {
        match self {
            JsonStoredValue::CLValue { tag, bytes } => JsonStoredValueView::CLValue {
                tag: *tag,
                bytes: bytes@,
            },
            JsonStoredValue::Account { main_purse } => JsonStoredValueView::Account {
                main_purse: main_purse@,
            },
        }
    }
}

/// The views of a run of byte strings, in order.
pub open spec fn view_segments(s: Seq<Vec<u8>>) -> Seq<Seq<u8>> {
    s.map_values(|v: Vec<u8>| v@)
}

/// The views of a run of branch-pointer slots, in order.
pub open spec fn view_pointers(s: Seq<BranchPointer>) -> Seq<(u8, Seq<u8>)> {
    s.map_values(|p: BranchPointer| p@)
}

/// The views of a run of proof steps, in order.
pub open spec fn view_steps(s: Seq<ProofStep>) -> Seq<ProofStepView> {
    s.map_values(|st: ProofStep| st@)
}

/// The views of a run of proof chains, in order.
pub open spec fn view_proofs(s: Seq<TrieMerkleProof>) -> Seq<Seq<ProofStepView>> {
    s.map_values(|p: TrieMerkleProof| p@)
}

/// One pointer slot of a branch node: the key byte it is indexed by and the
/// digest of the child below it.
#[derive(Debug)]
pub struct BranchPointer {
    pub index: u8,
    pub hash: Digest,
}

impl View for BranchPointer {
    type V = (u8, Seq<u8>);

    open spec fn view(&self) -> (u8, Seq<u8>) {
        (self.index, self.hash@)
    }
}

/// A node of the path-compressed radix trie, branching factor 256.
#[derive(Debug)]
pub enum TrieNode {
    /// Holds the full remaining key and the stored value.
    Leaf { key: Vec<u8>, value: StoredValue },
    /// Holds a key segment shared by all keys below it and one child pointer.
    Extension { affix: Vec<u8>, pointer: Digest },
    /// Holds up to 256 child pointers indexed by the next key byte.
    Branch { pointers: Vec<BranchPointer> },
}

impl View for TrieNode {
    type V = TrieNodeView;

    open spec fn view(&self) -> TrieNodeView {
        match self {
            TrieNode::Leaf { key, value } => TrieNodeView::Leaf { key: key@, value: value@ },
            TrieNode::Extension { affix, pointer } => TrieNodeView::Extension {
                affix: affix@,
                pointer: pointer@,
            },
            TrieNode::Branch { pointers } => TrieNodeView::Branch {
                pointers: view_pointers(pointers@),
            },
        }
    }
}

/// One step of a proof chain: a node and the key segment it consumes.
#[derive(Debug)]
pub struct ProofStep {
    pub node: TrieNode,
    pub segment: Vec<u8>,
}

impl View for ProofStep {
    type V = ProofStepView;

    open spec fn view(&self) -> ProofStepView {
        ProofStepView { node: self.node@, segment: self.segment@ }
    }
}

/// An ordered proof chain, from the step nearest the root to the step
/// nearest the leaf. The last step's node carries the value being proven.
#[derive(Debug)]
pub struct TrieMerkleProof {
    pub steps: Vec<ProofStep>,
}

impl View for TrieMerkleProof {
    type V = Seq<ProofStepView>;

    open spec fn view(&self) -> Seq<ProofStepView> {
        view_steps(self.steps@)
    }
}

/// Type tag of a value holding an arbitrary-precision unsigned integer.
pub const CL_TAG_U512: u8 = 8;

/// Type tag of a value holding a purse reference.
pub const CL_TAG_UREF: u8 = 12;

/// The value a proof chain carries: the value of its leaf-most step, when
/// that step holds a leaf.
pub open spec fn proof_value(steps: Seq<ProofStepView>) -> Option<StoredValueView> {
    if steps.len() > 0 {
        match steps.last().node {
            TrieNodeView::Leaf { value, .. } => Some(value),
            _ => None,
        }
    } else {
        None
    }
}

impl TrieMerkleProof {
    /// The value this proof chain carries, from its leaf-most step.
    pub fn value(&self) -> (r: Option<&StoredValue>)
        ensures
            match r {
                Some(v) => proof_value(self@) == Some(v@),
                None => proof_value(self@) is None,
            },
    {
        let n: usize = self.steps.len();
        if n == 0 {
            return None;
        }
        match &self.steps[n - 1].node {
            TrieNode::Leaf { value, .. } => Some(value),
            _ => None,
        }
    }
}

// ---------------------------------------------------------------------------
// Equality checks used by the validators
// ---------------------------------------------------------------------------

/// Equality of two purse references.
pub fn uref_eq(a: &URef, b: &URef) -> (r: bool)
    ensures
        r == (a@ == b@),
{
    let same = crate::digest::bytes_eq(a.addr.as_slice(), b.addr.as_slice()) && a.access
        == b.access;
    if same {
        assert(a@ =~= b@);
    }
    same
}

/// Equality of two ledger keys.
pub fn key_eq(a: &Key, b: &Key) -> (r: bool)
    ensures
        r == (a@ == b@),
{
    let r = match (a, b) {
        (Key::Account { addr: x }, Key::Account { addr: y }) => crate::digest::bytes_eq(
            x.as_slice(),
            y.as_slice(),
        ),
        (Key::Hash { addr: x }, Key::Hash { addr: y }) => crate::digest::bytes_eq(
            x.as_slice(),
            y.as_slice(),
        ),
        (Key::Uref { uref: x }, Key::Uref { uref: y }) => uref_eq(x, y),
        (Key::Balance { addr: x }, Key::Balance { addr: y }) => crate::digest::bytes_eq(
            x.as_slice(),
            y.as_slice(),
        ),
        _ => false,
    };
    if r {
        assert(a@ =~= b@);
    }
    r
}

/// The key a name resolves to among named keys: the first entry bearing the
/// name, if any.
pub open spec fn named_lookup(named_keys: Seq<NamedKeyView>, name: Seq<u8>) -> Option<KeyView>
    decreases named_keys.len(),
{
    if named_keys.len() == 0 {
        None
    } else if named_keys[0].name == name {
        Some(named_keys[0].key)
    } else {
        named_lookup(named_keys.drop_first(), name)
    }
}

/// Looks up a name among the named keys, returning the position of the
/// first entry bearing it.
pub fn find_named_key(named_keys: &Vec<NamedKey>, name: &[u8]) -> (r: Option<usize>)
    ensures
        match r {
            Some(i) => i < named_keys@.len() && named_lookup(view_named_keys(named_keys@), name@)
                == Some(named_keys@[i as int]@.key),
            None => named_lookup(view_named_keys(named_keys@), name@) is None,
        },
{
    let ghost s = view_named_keys(named_keys@);
    proof {
        assert(s.skip(0) =~= s);
    }
    let n: usize = named_keys.len();
    for i in 0..n
        invariant
            n == named_keys@.len(),
            s == view_named_keys(named_keys@),
            named_lookup(s, name@) == named_lookup(s.skip(i as int), name@),
    {
        proof {
            assert(s.skip(i as int)[0] == s[i as int]);
            assert(s.skip(i as int).drop_first() =~= s.skip(i + 1));
        }
        if crate::digest::bytes_eq(named_keys[i].name.as_slice(), name) {
            return Some(i);
        }
    }
    proof {
        assert(s.skip(n as int) =~= Seq::<NamedKeyView>::empty());
    }
    None
}

/// Equality of two runs of named keys.
pub fn named_keys_eq(a: &Vec<NamedKey>, b: &Vec<NamedKey>) -> (r: bool)
    ensures
        r == (view_named_keys(a@) == view_named_keys(b@)),
{
    let ghost sa = view_named_keys(a@);
    let ghost sb = view_named_keys(b@);
    if a.len() != b.len() {
        assert(sa.len() != sb.len());
        return false;
    }
    let n: usize = a.len();
    for i in 0..n
        invariant
            n == a@.len(),
            n == b@.len(),
            sa == view_named_keys(a@),
            sb == view_named_keys(b@),
            forall|j: int| 0 <= j < i ==> sa[j] == sb[j],
    {
        let name_same = crate::digest::bytes_eq(a[i].name.as_slice(), b[i].name.as_slice());
        let key_same = key_eq(&a[i].key, &b[i].key);
        if !(name_same && key_same) {
            assert(sa[i as int] != sb[i as int]);
            return false;
        }
        assert(sa[i as int] =~= sb[i as int]);
    }
    assert(sa =~= sb);
    true
}

/// Deep equality of two stored values.
pub fn stored_value_eq(a: &StoredValue, b: &StoredValue) -> (r: bool)
    ensures
        r == (a@ == b@),
{
    let r = match (a, b) {
        (
            StoredValue::CLValue { tag: t1, bytes: b1 },
            StoredValue::CLValue { tag: t2, bytes: b2 },
        ) => *t1 == *t2 && crate::digest::bytes_eq(b1.as_slice(), b2.as_slice()),
        (
            StoredValue::Account { main_purse: p1, named_keys: n1 },
            StoredValue::Account { main_purse: p2, named_keys: n2 },
        ) => uref_eq(p1, p2) && named_keys_eq(n1, n2),
        (
            StoredValue::Contract { named_keys: n1, body: b1 },
            StoredValue::Contract { named_keys: n2, body: b2 },
        ) => named_keys_eq(n1, n2) && crate::digest::bytes_eq(b1.as_slice(), b2.as_slice()),
        _ => false,
    };
    if r {
        assert(a@ =~= b@);
    }
    r
}

/// The JSON-compatible form of a stored value, where one exists.
pub open spec fn json_form(v: StoredValueView) -> Option<JsonStoredValueView> {
    match v {
        StoredValueView::CLValue { tag, bytes } => Some(
            JsonStoredValueView::CLValue { tag, bytes },
        ),
        StoredValueView::Account { main_purse, named_keys } => Some(
            JsonStoredValueView::Account { main_purse },
        ),
        StoredValueView::Contract { .. } => None,
    }
}

/// Whether the human-readable value equals the JSON-compatible form of the
/// proven value.
pub open spec fn json_matches(proven: StoredValueView, given: JsonStoredValueView) -> bool {
    json_form(proven) == Some(given)
}

/// Decides [`json_matches`] on executable values.
pub fn check_json_matches(proven: &StoredValue, given: &JsonStoredValue) -> (r: bool)
    ensures
        r == json_matches(proven@, given@),
{
    let r = match (proven, given) {
        (
            StoredValue::CLValue { tag: t1, bytes: b1 },
            JsonStoredValue::CLValue { tag: t2, bytes: b2 },
        ) => *t1 == *t2 && crate::digest::bytes_eq(b1.as_slice(), b2.as_slice()),
        (
            StoredValue::Account { main_purse: p1, named_keys: _ },
            JsonStoredValue::Account { main_purse: p2 },
        ) => uref_eq(p1, p2),
        _ => false,
    };
    if r {
        assert(json_form(proven@) matches Some(j) && j =~= given@);
    }
    r
}

} // verus!
