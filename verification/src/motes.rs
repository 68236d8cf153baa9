//! Arbitrary-precision unsigned balances, parsed from decimal strings.
//!
//! A balance is held in its canonical form: the sequence of its decimal
//! digit values, most significant first, with no leading zero (so zero is
//! the empty sequence). The canonical form of a number is unique, so two
//! balances are equal exactly when their digit sequences are.

use vstd::prelude::*;

verus! {

/// Whether the bytes spell a decimal number: nonempty, all ASCII digits.
pub open spec fn is_dec_string(s: Seq<u8>) -> bool {
    s.len() > 0 && forall|i: int| 0 <= i < s.len() ==> 48 <= #[trigger] s[i] <= 57
}

/// The digit values of ASCII digits.
pub open spec fn digit_values(s: Seq<u8>) -> Seq<u8> {
    s.map_values(|c: u8| (c - 48) as u8)
}

/// The canonical digit sequence a decimal string spells: its digit values
/// with the leading zeros stripped.
pub open spec fn dec_digits(s: Seq<u8>) -> Seq<u8>
    decreases s.len(),
{
    if s.len() > 0 && s[0] == 48 {
        dec_digits(s.drop_first())
    } else {
        digit_values(s)
    }
}

/// The number a digit sequence spells, most significant digit first.
pub open spec fn dec_value(ds: Seq<u8>) -> nat
    decreases ds.len(),
{
    if ds.len() == 0 {
        0
    } else {
        (dec_value(ds.drop_last()) * 10 + ds.last()) as nat
    }
}

/// Whether a digit sequence is canonical: digit values only, no leading
/// zero.
pub open spec fn canonical_digits(ds: Seq<u8>) -> bool {
    (forall|i: int| 0 <= i < ds.len() ==> #[trigger] ds[i] < 10) && (ds.len() > 0 ==> ds[0] != 0)
}

/// An arbitrary-precision unsigned balance in canonical decimal form.
#[derive(Debug)]
pub struct Motes {
    pub digits: Vec<u8>,
}

impl View for Motes {
    type V = Seq<u8>;

    open spec fn view(&self) -> Seq<u8> {
        self.digits@
    }
}

proof fn lemma_dec_value_leading_zero(t: Seq<u8>)
    ensures
        dec_value(seq![0u8] + t) == dec_value(t),
    decreases t.len(),
{
    if t.len() == 0 {
        assert(seq![0u8] + t =~= seq![0u8]);
        assert((seq![0u8]).drop_last() =~= Seq::<u8>::empty());
        assert(dec_value(Seq::<u8>::empty()) == 0);
        assert((seq![0u8]).last() == 0);
        assert(dec_value(seq![0u8]) == dec_value((seq![0u8]).drop_last()) * 10 + (
        seq![0u8]).last());
    } else {
        let u = seq![0u8] + t;
        assert(u.len() == t.len() + 1);
        assert(u.drop_last() =~= seq![0u8] + t.drop_last());
        assert(u.last() == t.last());
        assert(dec_value(u) == dec_value(u.drop_last()) * 10 + u.last());
        lemma_dec_value_leading_zero(t.drop_last());
        assert(dec_value(t) == dec_value(t.drop_last()) * 10 + t.last());
    }
}

/// Stripping leading zeros does not change the number spelled.
proof fn lemma_dec_digits_value(s: Seq<u8>)
    ensures
        dec_value(dec_digits(s)) == dec_value(digit_values(s)),
    decreases s.len(),
{
    if s.len() > 0 && s[0] == 48 {
        lemma_dec_digits_value(s.drop_first());
        assert(digit_values(s) =~= seq![0u8] + digit_values(s.drop_first()));
        lemma_dec_value_leading_zero(digit_values(s.drop_first()));
    }
}

proof fn lemma_dec_digits_skip(s: Seq<u8>, k: int)
    requires
        0 <= k <= s.len(),
        forall|j: int| 0 <= j < k ==> #[trigger] s[j] == 48,
        k < s.len() ==> s[k] != 48,
    ensures
        dec_digits(s) == digit_values(s.skip(k)),
    decreases k,
{
    if k == 0 {
        assert(s.skip(0) =~= s);
    } else {
        assert(s[0] == 48);
        assert(s.len() > 0);
        lemma_dec_digits_skip(s.drop_first(), k - 1);
        assert(s.drop_first().skip(k - 1) =~= s.skip(k));
    }
}

/// Parses a decimal string into a balance. Succeeds exactly on nonempty
/// all-digit strings; the result is the canonical digit sequence the
/// string spells, and so carries exactly the number it spells.
pub fn from_dec_str(s: &[u8]) -> (r: Option<Motes>)
    ensures
        match r {
            Some(m) => {
                &&& is_dec_string(s@)
                &&& m@ == dec_digits(s@)
                &&& canonical_digits(m@)
                &&& dec_value(m@) == dec_value(digit_values(s@))
            },
            None => !is_dec_string(s@),
        },
{
    let n: usize = s.len();
    if n == 0 {
        return None;
    }
    for i in 0..n
        invariant
            n == s@.len(),
            forall|j: int| 0 <= j < i ==> 48 <= #[trigger] s@[j] <= 57,
    {
        if !(48 <= s[i] && s[i] <= 57) {
            return None;
        }
    }
    let mut start: usize = 0;
    while start < n && s[start] == 48
        invariant
            n == s@.len(),
            start <= n,
            forall|j: int| 0 <= j < start ==> #[trigger] s@[j] == 48,
        decreases n - start,
    {
        start = start + 1;
    }
    let mut digits: Vec<u8> = Vec::new();
    let ghost tail = s@.skip(start as int);
    assert(digit_values(tail.take(0)) =~= Seq::<u8>::empty());
    let mut i: usize = start;
    while i < n
        invariant
            n == s@.len(),
            start <= i <= n,
            tail == s@.skip(start as int),
            forall|j: int| 0 <= j < n ==> 48 <= #[trigger] s@[j] <= 57,
            digits@ == digit_values(tail.take(i - start)),
        decreases n - i,
    {
        digits.push(s[i] - 48);
        proof {
            assert(tail.take(i + 1 - start) =~= tail.take(i - start).push(s@[i as int]));
            assert(digit_values(tail.take(i + 1 - start)) =~= digit_values(
                tail.take(i - start),
            ).push((s@[i as int] - 48) as u8));
        }
        i = i + 1;
    }
    proof {
        assert(tail.take(n - start) =~= tail);
        lemma_dec_digits_skip(s@, start as int);
        lemma_dec_digits_value(s@);
        assert(forall|j: int| 0 <= j < tail.len() ==> #[trigger] digit_values(tail)[j] < 10);
        if tail.len() > 0 {
            assert(digit_values(tail)[0] != 0);
        }
    }
    Some(Motes { digits })
}

/// Equality of two balances: equality of their canonical digit sequences.
pub fn motes_eq(a: &Motes, b: &Motes) -> (r: bool)
    ensures
        r == (a@ == b@),
{
    crate::digest::bytes_eq(a.digits.as_slice(), b.digits.as_slice())
}

} // verus!
