//! Public and full identities of a node.

use crate::keys::{KeyGenerator, PublicEncryptKey, PublicSignKey, SecretEncryptKey, SecretSignKey};
use crate::name::{
    compare_bytes, covers_all, flip, lemma_lex_cmp_equal, lemma_lex_cmp_flip, lemma_lex_cmp_trans, lex_cmp, lex_le, sha3_256, sha3_256_of,
    XorName,
};
use std::cmp::Ordering;
use vstd::prelude::*;

verus! {

/// Why an identity could not be made.
#[derive(Clone, Copy, Debug, PartialEq, Eq, Structural)]
pub enum IdError {
    /// Encoded key material does not have the fixed width of the wire form.
    MalformedKeyData,
    /// A range of names whose start lies above its end.
    InvalidArgument,
    /// No drawn signing key gave a name in the range within the allowed
    /// number of attempts.
    AttemptsExhausted,
}

/// Length in bytes of the wire form of a `PublicId`.
pub const WIRE_LEN: usize = 64;

/// Network identity component containing name and public keys.
///
/// The name is not part of the wire form: it is recomputed from the public
/// signing key when decoding.
#[derive(Clone, Copy, Debug, PartialEq, Eq, Ord, Hash)]
pub struct PublicId {
    name: XorName,
    public_sign_key: PublicSignKey,
    public_encrypt_key: PublicEncryptKey,
}

impl PublicId {
    /// The name.
    pub closed spec fn spec_name(self) -> XorName {
        self.name
    }

    /// The public signing key.
    pub closed spec fn spec_sign_key(self) -> PublicSignKey {
        self.public_sign_key
    }

    /// The public encryption key.
    pub closed spec fn spec_encrypt_key(self) -> PublicEncryptKey {
        self.public_encrypt_key
    }

    /// The name is the digest of the public signing key.
    pub open spec fn wf(self) -> bool {
        self.spec_name()@ == sha3_256_of(self.spec_sign_key()@)
    }

    /// The wire form: the public encryption key, then the public signing key.
    pub open spec fn wire(self) -> Seq<u8> {
        self.spec_encrypt_key()@ + self.spec_sign_key()@
    }

    /// This identity is what decoding `bytes` gives.
    pub open spec fn decoded_from(self, bytes: Seq<u8>) -> bool {
        &&& bytes.len() == WIRE_LEN
        &&& self.spec_encrypt_key()@ == bytes.subrange(0, 32)
        &&& self.spec_sign_key()@ == bytes.subrange(32, 64)
        &&& self.wf()
    }

    /// Return initial/relocated name.
    pub fn name(&self) -> (r: &XorName)
        ensures
            *r == self.spec_name(),
    {
        &self.name
    }

    /// Return public encryption key.
    pub fn encrypting_public_key(&self) -> (r: &PublicEncryptKey)
        ensures
            *r == self.spec_encrypt_key(),
    {
        &self.public_encrypt_key
    }

    /// Return public signing key.
    pub fn signing_public_key(&self) -> (r: &PublicSignKey)
        ensures
            *r == self.spec_sign_key(),
    {
        &self.public_sign_key
    }

    pub(crate) fn new(public_encrypt_key: PublicEncryptKey, public_sign_key: PublicSignKey) -> (r: PublicId)
        ensures
            r.spec_encrypt_key() == public_encrypt_key,
            r.spec_sign_key() == public_sign_key,
            r.wf(),
    {
        PublicId { public_encrypt_key, public_sign_key, name: Self::name_from_key(&public_sign_key) }
    }

    /// Encodes the public keys for the wire: the encryption key, then the
    /// signing key. The name is left out.
    pub fn encode(&self) -> (r: Vec<u8>)
        ensures
            r@ == self.wire(),
    {
        let mut out: Vec<u8> = Vec::with_capacity(WIRE_LEN);
        let mut i: usize = 0;
        while i < 32
            invariant
                0 <= i <= 32,
                out@ == self.spec_encrypt_key()@.subrange(0, i as int),
            decreases 32 - i,
        {
            out.push(self.public_encrypt_key.0[i]);
            i += 1;
        }
        let mut j: usize = 0;
        while j < 32
            invariant
                0 <= j <= 32,
                out@ == self.spec_encrypt_key()@ + self.spec_sign_key()@.subrange(0, j as int),
            decreases 32 - j,
        {
            out.push(self.public_sign_key.0[j]);
            j += 1;
        }
        assert(self.spec_encrypt_key()@.subrange(0, 32) =~= self.spec_encrypt_key()@);
        assert(self.spec_sign_key()@.subrange(0, 32) =~= self.spec_sign_key()@);
        out
    }

    /// Decodes the wire form, recomputing the name from the signing key.
    /// Fails with `MalformedKeyData` unless `bytes` has exactly the width of
    /// the two keys.
    pub fn decode(bytes: &[u8]) -> (r: Result<PublicId, IdError>)
        ensures
            r is Ok <==> bytes@.len() == WIRE_LEN,
            r matches Ok(p) ==> p.decoded_from(bytes@),
            r matches Err(e) ==> e == IdError::MalformedKeyData,
    {
        if bytes.len() != WIRE_LEN {
            return Err(IdError::MalformedKeyData);
        }
        let mut encrypt_key = [0u8; 32];
        let mut sign_key = [0u8; 32];
        let mut i: usize = 0;
        while i < 32
            invariant
                bytes@.len() == WIRE_LEN,
                0 <= i <= 32,
                forall|k: int| 0 <= k < i ==> encrypt_key@[k] == bytes@[k],
                forall|k: int| 0 <= k < i ==> sign_key@[k] == bytes@[32 + k],
            decreases 32 - i,
        {
            encrypt_key[i] = bytes[i];
            sign_key[i] = bytes[32 + i];
            i += 1;
        }
        assert(encrypt_key@ =~= bytes@.subrange(0, 32));
        assert(sign_key@ =~= bytes@.subrange(32, 64));
        Ok(PublicId::new(PublicEncryptKey(encrypt_key), PublicSignKey(sign_key)))
    }

    /// Compares two identities: by name, then by signing key, then by
    /// encryption key.
    pub fn compare(&self, other: &PublicId) -> (r: Ordering)
        ensures
            r == id_cmp(*self, *other),
    {
        let by_name = compare_bytes(&self.name.0, &other.name.0);
        if !matches!(by_name, Ordering::Equal) {
            return by_name;
        }
        let by_sign = compare_bytes(&self.public_sign_key.0, &other.public_sign_key.0);
        if !matches!(by_sign, Ordering::Equal) {
            return by_sign;
        }
        compare_bytes(&self.public_encrypt_key.0, &other.public_encrypt_key.0)
    }

    /// Derives the name that belongs to a public signing key.
    pub fn name_from_key(public_sign_key: &PublicSignKey) -> (r: XorName)
        ensures
            r@ == sha3_256_of(public_sign_key@),
    {
        XorName(sha3_256(&public_sign_key.0))
    }
}

/// The order of identities: by name, then by signing key, then by
/// encryption key, each compared byte by byte.
pub open spec fn id_cmp(a: PublicId, b: PublicId) -> Ordering {
    let by_name = lex_cmp(a.spec_name()@, b.spec_name()@);
    let by_sign = lex_cmp(a.spec_sign_key()@, b.spec_sign_key()@);
    if by_name != Ordering::Equal {
        by_name
    } else if by_sign != Ordering::Equal {
        by_sign
    } else {
        lex_cmp(a.spec_encrypt_key()@, b.spec_encrypt_key()@)
    }
}

impl PartialOrd for PublicId {
    fn partial_cmp(&self, other: &PublicId) -> (r: Option<Ordering>) {
        Some(self.compare(other))
    }
}

impl vstd::std_specs::cmp::PartialOrdSpecImpl for PublicId {
    open spec fn obeys_partial_cmp_spec() -> bool {
        true
    }

    open spec fn partial_cmp_spec(&self, other: &PublicId) -> Option<Ordering> {
        Some(id_cmp(*self, *other))
    }
}

/// Network identity component containing name, and public and private keys.
#[derive(Clone)]
pub struct FullId {
    public_id: PublicId,
    private_encrypt_key: SecretEncryptKey,
    private_sign_key: SecretSignKey,
}

impl FullId {
    /// The public half.
    pub closed spec fn spec_public_id(self) -> PublicId {
        self.public_id
    }

    /// The secret encryption key.
    pub closed spec fn spec_encrypt_secret(self) -> SecretEncryptKey {
        self.private_encrypt_key
    }

    /// The secret signing key.
    pub closed spec fn spec_sign_secret(self) -> SecretSignKey {
        self.private_sign_key
    }

    /// The public half names itself by its signing key.
    pub open spec fn wf(self) -> bool {
        self.spec_public_id().wf()
    }

    /// Construct a `FullId` with keys newly drawn from `keys`.
    pub fn new<G: KeyGenerator>(keys: &mut G) -> (r: FullId)
        ensures
            r.wf(),
    {
        let encrypt_keys = keys.gen_encrypt_keypair();
        let sign_keys = keys.gen_sign_keypair();
        FullId::with_keys(encrypt_keys, sign_keys)
    }

    /// Construct with given keys. That the public and secret halves of each
    /// pair belong together is the caller's obligation: it is not checked.
    pub fn with_keys(
        encrypt_keys: (PublicEncryptKey, SecretEncryptKey),
        sign_keys: (PublicSignKey, SecretSignKey),
    ) -> (r: FullId)
        ensures
            r.spec_public_id().spec_encrypt_key() == encrypt_keys.0,
            r.spec_public_id().spec_sign_key() == sign_keys.0,
            r.spec_encrypt_secret() == encrypt_keys.1,
            r.spec_sign_secret() == sign_keys.1,
            r.wf(),
    {
        FullId {
            public_id: PublicId::new(encrypt_keys.0, sign_keys.0),
            private_encrypt_key: encrypt_keys.1,
            private_sign_key: sign_keys.1,
        }
    }

    /// Construct a `FullId` whose name is in the interval `[start, end]`
    /// (both endpoints inclusive), drawing signing key pairs from `keys`
    /// until one names itself inside the interval, at most `max_attempts`
    /// times. The encryption key pair is drawn once, after a signing key pair
    /// has been accepted. Pass `u64::MAX` for a search that in practice never
    /// gives up.
    pub fn within_range<G: KeyGenerator>(
        start: &XorName,
        end: &XorName,
        max_attempts: u64,
        keys: &mut G,
    ) -> (r: Result<FullId, IdError>)
        ensures
            !lex_le(start@, end@) ==> r matches Err(IdError::InvalidArgument),
            lex_le(start@, end@) ==> r matches Ok(_) || r matches Err(IdError::AttemptsExhausted),
            max_attempts == 0 && lex_le(start@, end@) ==> r matches Err(
                IdError::AttemptsExhausted,
            ),
            max_attempts > 0 && covers_all(start@, end@) ==> r is Ok,
            r matches Ok(f) ==> {
                &&& f.wf()
                &&& lex_le(start@, f.spec_public_id().spec_name()@)
                &&& lex_le(f.spec_public_id().spec_name()@, end@)
            },
    {
        if matches!(start.compare(end), Ordering::Greater) {
            proof {
                if covers_all(start@, end@) {
                    assert(lex_le(start@, start@) && lex_le(start@, end@));
                }
            }
            return Err(IdError::InvalidArgument);
        }
        let mut attempts: u64 = 0;
        while attempts < max_attempts
            invariant
                lex_le(start@, end@),
                covers_all(start@, end@) ==> attempts == 0,
            decreases max_attempts - attempts,
        {
            let sign_keys = keys.gen_sign_keypair();
            let name = PublicId::name_from_key(&sign_keys.0);
            if name.is_within(start, end) {
                let encrypt_keys = keys.gen_encrypt_keypair();
                let full_id = FullId::with_keys(encrypt_keys, sign_keys);
                return Ok(full_id);
            }
            attempts += 1;
        }
        Err(IdError::AttemptsExhausted)
    }

    /// Returns public ID reference.
    pub fn public_id(&self) -> (r: &PublicId)
        ensures
            *r == self.spec_public_id(),
    {
        &self.public_id
    }

    /// Returns mutable reference to public ID. The secret keys stay as they
    /// are; a replacement must belong to them.
    pub fn public_id_mut(&mut self) -> (r: &mut PublicId)
        ensures
            *r == old(self).spec_public_id(),
            final(self).spec_public_id() == *final(r),
            final(self).spec_encrypt_secret() == old(self).spec_encrypt_secret(),
            final(self).spec_sign_secret() == old(self).spec_sign_secret(),
    {
        &mut self.public_id
    }

    /// Secret signing key.
    pub fn signing_private_key(&self) -> (r: &SecretSignKey)
        ensures
            *r == self.spec_sign_secret(),
    {
        &self.private_sign_key
    }

    /// Private encryption key.
    pub fn encrypting_private_key(&self) -> (r: &SecretEncryptKey)
        ensures
            *r == self.spec_encrypt_secret(),
    {
        &self.private_encrypt_key
    }
}

/// Deriving a name is a function of the key: two names derived from one
/// public signing key are the same name.
pub proof fn lemma_name_deterministic(key: PublicSignKey, first: XorName, second: XorName)
    requires
        first@ == sha3_256_of(key@),
        second@ == sha3_256_of(key@),
    ensures
        first == second,
{
    assert(first.0 =~= second.0);
}

/// Decoding the wire form of a well-formed identity gives that identity back:
/// the keys are read back and the recomputed name is the original name.
pub proof fn lemma_wire_round_trip(p: PublicId, q: PublicId)
    requires
        p.wf(),
        q.decoded_from(p.wire()),
    ensures
        q == p,
{
    let w = p.wire();
    assert(w.subrange(0, 32) =~= p.public_encrypt_key@);
    assert(w.subrange(32, 64) =~= p.public_sign_key@);
    assert(q.public_encrypt_key.0 =~= p.public_encrypt_key.0);
    assert(q.public_sign_key.0 =~= p.public_sign_key.0);
    assert(q.name.0 =~= p.name.0);
}

/// Names dominate the order of identities: of two identities with distinct
/// names exactly one is less than the other, swapping them swaps the
/// outcome, and the one with the lesser name is the lesser identity whatever
/// their keys.
pub proof fn lemma_order_by_name(a: PublicId, b: PublicId)
    requires
        a.spec_name()@ != b.spec_name()@,
    ensures
        id_cmp(a, b) == Ordering::Less || id_cmp(a, b) == Ordering::Greater,
        id_cmp(b, a) == flip(id_cmp(a, b)),
        lex_cmp(a.spec_name()@, b.spec_name()@) == Ordering::Less ==> id_cmp(a, b)
            == Ordering::Less,
{
    let x = a.spec_name()@;
    let y = b.spec_name()@;
    lemma_lex_cmp_equal(x, y, 0);
    if lex_cmp(x, y) == Ordering::Equal {
        assert(x =~= y);
    }
    lemma_lex_cmp_flip(x, y, 0);
}

/// An identity is determined by its name and its two public keys.
pub proof fn lemma_public_id_ext(p: PublicId, q: PublicId)
    requires
        p.spec_name() == q.spec_name(),
        p.spec_sign_key() == q.spec_sign_key(),
        p.spec_encrypt_key() == q.spec_encrypt_key(),
    ensures
        p == q,
{
}

/// A well-formed identity is determined by its two public keys: identities
/// are equal exactly when their keys are, since the name follows from the
/// signing key.
pub proof fn lemma_public_id_by_keys(p: PublicId, q: PublicId)
    requires
        p.wf(),
        q.wf(),
    ensures
        p == q <==> (p.spec_sign_key() == q.spec_sign_key() && p.spec_encrypt_key()
            == q.spec_encrypt_key()),
{
    if p.spec_sign_key() == q.spec_sign_key() {
        assert(p.name.0 =~= q.name.0);
    }
}

/// The order of identities is a total order consistent with `==`: swapping
/// the sides flips the outcome, two identities compare equal exactly when
/// they are equal, and `<=` is transitive.
pub proof fn lemma_order_total(p: PublicId, q: PublicId, r: PublicId)
    ensures
        id_cmp(q, p) == flip(id_cmp(p, q)),
        id_cmp(p, q) == Ordering::Equal <==> p == q,
        id_cmp(p, q) != Ordering::Greater && id_cmp(q, r) != Ordering::Greater ==> id_cmp(p, r)
            != Ordering::Greater,
{
    lemma_lex_cmp_flip(p.name@, q.name@, 0);
    lemma_lex_cmp_flip(p.public_sign_key@, q.public_sign_key@, 0);
    lemma_lex_cmp_flip(p.public_encrypt_key@, q.public_encrypt_key@, 0);
    lemma_lex_cmp_equal(p.name@, q.name@, 0);
    lemma_lex_cmp_equal(p.public_sign_key@, q.public_sign_key@, 0);
    lemma_lex_cmp_equal(p.public_encrypt_key@, q.public_encrypt_key@, 0);
    lemma_lex_cmp_equal(q.name@, r.name@, 0);
    lemma_lex_cmp_equal(q.public_sign_key@, r.public_sign_key@, 0);
    lemma_lex_cmp_equal(q.public_encrypt_key@, r.public_encrypt_key@, 0);
    lemma_lex_cmp_trans(p.name@, q.name@, r.name@, 0);
    lemma_lex_cmp_trans(p.public_sign_key@, q.public_sign_key@, r.public_sign_key@, 0);
    lemma_lex_cmp_trans(p.public_encrypt_key@, q.public_encrypt_key@, r.public_encrypt_key@, 0);
    if id_cmp(p, q) == Ordering::Equal {
        assert(p.name.0 =~= q.name.0);
        assert(p.public_sign_key.0 =~= q.public_sign_key.0);
        assert(p.public_encrypt_key.0 =~= q.public_encrypt_key.0);
    }
    if lex_cmp(p.name@, q.name@) == Ordering::Equal {
        assert(p.name@ =~= q.name@);
    }
    if lex_cmp(q.name@, r.name@) == Ordering::Equal {
        assert(q.name@ =~= r.name@);
    }
    if lex_cmp(p.public_sign_key@, q.public_sign_key@) == Ordering::Equal {
        assert(p.public_sign_key@ =~= q.public_sign_key@);
    }
    if lex_cmp(q.public_sign_key@, r.public_sign_key@) == Ordering::Equal {
        assert(q.public_sign_key@ =~= r.public_sign_key@);
    }
}

} // verus!
