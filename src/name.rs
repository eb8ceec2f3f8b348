//! Names: fixed-width coordinates of the address space, ordered
//! lexicographically as byte sequences.

use std::cmp::Ordering;
use vstd::prelude::*;

verus! {

/// The SHA3-256 digest of a byte sequence.
pub uninterp spec fn sha3_256_of(data: Seq<u8>) -> Seq<u8>;

/// Relies on `tiny_keccak::sha3_256`: the SHA3-256 digest of `data`, which
/// depends on the bytes alone.
#[verifier::external_body]
pub(crate) fn sha3_256(data: &[u8; 32]) -> (r: [u8; 32])
    ensures
        r@ == sha3_256_of(data@),
{
    tiny_keccak::sha3_256(data)
}

/// Lexicographic comparison of `a` and `b` from position `i` on.
pub open spec fn lex_cmp_from(a: Seq<u8>, b: Seq<u8>, i: int) -> Ordering
    decreases a.len() - i,
{
    if i < 0 || i >= a.len() || i >= b.len() {
        Ordering::Equal
    } else if a[i] < b[i] {
        Ordering::Less
    } else if a[i] > b[i] {
        Ordering::Greater
    } else {
        lex_cmp_from(a, b, i + 1)
    }
}

/// Lexicographic comparison of two byte sequences of equal length.
pub open spec fn lex_cmp(a: Seq<u8>, b: Seq<u8>) -> Ordering {
    lex_cmp_from(a, b, 0)
}

/// The ordering with its two sides swapped.
pub open spec fn flip(o: Ordering) -> Ordering {
    match o {
        Ordering::Less => Ordering::Greater,
        Ordering::Equal => Ordering::Equal,
        Ordering::Greater => Ordering::Less,
    }
}

/// `a <= b` in the lexicographic order.
pub open spec fn lex_le(a: Seq<u8>, b: Seq<u8>) -> bool {
    lex_cmp(a, b) != Ordering::Greater
}

/// Swapping the sides of a comparison flips its result.
pub proof fn lemma_lex_cmp_flip(a: Seq<u8>, b: Seq<u8>, i: int)
    ensures
        lex_cmp_from(b, a, i) == flip(lex_cmp_from(a, b, i)),
    decreases a.len() - i,
{
    if i < 0 || i >= a.len() || i >= b.len() {
    } else if a[i] != b[i] {
    } else {
        lemma_lex_cmp_flip(a, b, i + 1);
    }
}

/// Two sequences of one length compare equal from `i` on exactly when they
/// agree at every position from `i` on.
pub proof fn lemma_lex_cmp_equal(a: Seq<u8>, b: Seq<u8>, i: int)
    requires
        a.len() == b.len(),
        0 <= i,
    ensures
        lex_cmp_from(a, b, i) == Ordering::Equal <==> (forall|j: int|
            i <= j < a.len() ==> a[j] == b[j]),
    decreases a.len() - i,
{
    if i >= a.len() {
    } else if a[i] != b[i] {
    } else {
        lemma_lex_cmp_equal(a, b, i + 1);
    }
}

/// The lexicographic order is transitive, and strictly so where either step
/// is strict.
pub proof fn lemma_lex_cmp_trans(a: Seq<u8>, b: Seq<u8>, c: Seq<u8>, i: int)
    requires
        a.len() == b.len(),
        b.len() == c.len(),
        0 <= i,
    ensures
        lex_cmp_from(a, b, i) != Ordering::Greater && lex_cmp_from(b, c, i) != Ordering::Greater
            ==> lex_cmp_from(a, c, i) != Ordering::Greater,
        lex_cmp_from(a, b, i) == Ordering::Less && lex_cmp_from(b, c, i) != Ordering::Greater
            ==> lex_cmp_from(a, c, i) == Ordering::Less,
        lex_cmp_from(a, b, i) != Ordering::Greater && lex_cmp_from(b, c, i) == Ordering::Less
            ==> lex_cmp_from(a, c, i) == Ordering::Less,
    decreases a.len() - i,
{
    if i < a.len() {
        lemma_lex_cmp_trans(a, b, c, i + 1);
    }
}

/// A name covers the whole address space between `start` and `end` when
/// every sequence of name width lies in `[start, end]`.
pub open spec fn covers_all(start: Seq<u8>, end: Seq<u8>) -> bool {
    forall|n: Seq<u8>| n.len() == 32 ==> #[trigger] lex_le(start, n) && lex_le(n, end)
}

/// All zeros lies at or below every sequence of its width, and all `0xff`
/// bytes at or above it, from position `i` on.
pub proof fn lemma_lex_cmp_extremes(lo: Seq<u8>, hi: Seq<u8>, n: Seq<u8>, i: int)
    requires
        lo.len() == n.len(),
        hi.len() == n.len(),
        0 <= i,
        forall|j: int| 0 <= j < lo.len() ==> lo[j] == 0,
        forall|j: int| 0 <= j < hi.len() ==> hi[j] == 0xff,
    ensures
        lex_cmp_from(lo, n, i) != Ordering::Greater,
        lex_cmp_from(n, hi, i) != Ordering::Greater,
    decreases n.len() - i,
{
    if i < n.len() {
        lemma_lex_cmp_extremes(lo, hi, n, i + 1);
    }
}

/// The range from the all-zero name to the all-`0xff` name is the whole
/// address space.
pub proof fn lemma_full_range_covers_all(start: XorName, end: XorName)
    requires
        forall|j: int| 0 <= j < 32 ==> start@[j] == 0,
        forall|j: int| 0 <= j < 32 ==> end@[j] == 0xff,
    ensures
        covers_all(start@, end@),
{
    assert forall|n: Seq<u8>| n.len() == 32 implies #[trigger] lex_le(start@, n) && lex_le(n, end@) by {
        lemma_lex_cmp_extremes(start@, end@, n, 0);
    }
}

/// Compares two 32-byte arrays lexicographically.
pub fn compare_bytes(a: &[u8; 32], b: &[u8; 32]) -> (r: Ordering)
    ensures
        r == lex_cmp(a@, b@),
{
    let mut i: usize = 0;
    while i < 32
        invariant
            0 <= i <= 32,
            lex_cmp(a@, b@) == lex_cmp_from(a@, b@, i as int),
        decreases 32 - i,
    {
        if a[i] < b[i] {
            return Ordering::Less;
        }
        if a[i] > b[i] {
            return Ordering::Greater;
        }
        i += 1;
    }
    Ordering::Equal
}

/// A coordinate of the address space.
#[derive(Clone, Copy, Debug, PartialEq, Eq, Ord, Hash)]
pub struct XorName(pub [u8; 32]);

impl View for XorName {
    type V = Seq<u8>;

    open spec fn view(&self) -> Seq<u8> {
        self.0@
    }
}

impl XorName {
    /// Compares two names byte by byte.
    pub fn compare(&self, other: &XorName) -> (r: Ordering)
        ensures
            r == lex_cmp(self@, other@),
    {
        compare_bytes(&self.0, &other.0)
    }

    /// Whether this name lies in the closed interval `[start, end]`.
    pub fn is_within(&self, start: &XorName, end: &XorName) -> (r: bool)
        ensures
            r == (lex_le(start@, self@) && lex_le(self@, end@)),
    {
        let lo = start.compare(self);
        let hi = self.compare(end);
        !matches!(lo, Ordering::Greater) && !matches!(hi, Ordering::Greater)
    }
}

impl PartialOrd for XorName {
    fn partial_cmp(&self, other: &XorName) -> (r: Option<Ordering>) {
        Some(self.compare(other))
    }
}

impl vstd::std_specs::cmp::PartialOrdSpecImpl for XorName {
    open spec fn obeys_partial_cmp_spec() -> bool {
        true
    }

    open spec fn partial_cmp_spec(&self, other: &XorName) -> Option<Ordering> {
        Some(lex_cmp(self@, other@))
    }
}

} // verus!
