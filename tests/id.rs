use routing_id::{
    FullId, IdError, KeyGenerator, PublicEncryptKey, PublicId, PublicSignKey, SecretEncryptKey,
    SecretSignKey, XorName,
};
use std::cmp::Ordering;

/// A seeded, deterministic source of key bytes (xorshift64).
#[derive(Clone)]
struct SeededKeys {
    state: u64,
}

impl SeededKeys {
    fn new(seed: u64) -> SeededKeys {
        SeededKeys { state: seed | 1 }
    }

    fn next_byte(&mut self) -> u8 {
        let mut x = self.state;
        x ^= x << 13;
        x ^= x >> 7;
        x ^= x << 17;
        self.state = x;
        (x >> 24) as u8
    }

    fn fill<const N: usize>(&mut self) -> [u8; N] {
        let mut out = [0u8; N];
        for b in out.iter_mut() {
            *b = self.next_byte();
        }
        out
    }
}

impl KeyGenerator for SeededKeys {
    fn gen_sign_keypair(&mut self) -> (PublicSignKey, SecretSignKey) {
        (PublicSignKey(self.fill()), SecretSignKey(self.fill()))
    }

    fn gen_encrypt_keypair(&mut self) -> (PublicEncryptKey, SecretEncryptKey) {
        (PublicEncryptKey(self.fill()), SecretEncryptKey(self.fill()))
    }
}

fn hex(s: &str) -> [u8; 32] {
    let mut out = [0u8; 32];
    for i in 0..32 {
        out[i] = u8::from_str_radix(&s[2 * i..2 * i + 2], 16).unwrap();
    }
    out
}

/// Confirm `PublicId` order favours name over sign or encryption keys.
#[test]
fn public_id_order() {
    let mut rng = SeededKeys::new(0x5eed);
    let pub_id_1 = *FullId::new(&mut rng).public_id();
    let pub_id_2;
    loop {
        let temp_pub_id = *FullId::new(&mut rng).public_id();
        if *temp_pub_id.name() > *pub_id_1.name()
            && *temp_pub_id.signing_public_key() < *pub_id_1.signing_public_key()
            && *temp_pub_id.encrypting_public_key() < *pub_id_1.encrypting_public_key()
        {
            pub_id_2 = temp_pub_id;
            break;
        }
    }
    assert!(pub_id_1 < pub_id_2);
}

#[test]
fn serialisation() {
    let mut rng = SeededKeys::new(7);
    let full_id = FullId::new(&mut rng);
    let serialised = full_id.public_id().encode();
    let parsed = PublicId::decode(&serialised).unwrap();
    assert_eq!(*full_id.public_id(), parsed);
}

#[test]
fn name_is_sha3_of_signing_key() {
    let zero = PublicSignKey([0u8; 32]);
    let expected = hex("9e6291970cb44dd94008c79bcaf9d86f18b4b49ba5b2a04781db7199ed3b9e4e");
    assert_eq!(PublicId::name_from_key(&zero), XorName(expected));
    let mut counting = [0u8; 32];
    for (i, b) in counting.iter_mut().enumerate() {
        *b = i as u8;
    }
    let expected = hex("050a48733bd5c2756ba95c5828cc83ee16fabcd3c086885b7744f84a0f9e0d94");
    assert_eq!(PublicId::name_from_key(&PublicSignKey(counting)), XorName(expected));
}

#[test]
fn name_derivation_is_deterministic() {
    let mut rng = SeededKeys::new(99);
    let (key, _) = rng.gen_sign_keypair();
    let first = PublicId::name_from_key(&key);
    let second = PublicId::name_from_key(&key);
    assert_eq!(first, second);
    assert_ne!(first.0, key.0);
}

#[test]
fn constructed_identities_name_themselves_by_signing_key() {
    let mut rng = SeededKeys::new(3);
    let generated = FullId::new(&mut rng);
    let p = generated.public_id();
    assert_eq!(*p.name(), PublicId::name_from_key(p.signing_public_key()));

    let enc = (PublicEncryptKey([1u8; 32]), SecretEncryptKey([2u8; 32]));
    let sign = (PublicSignKey([3u8; 32]), SecretSignKey([4u8; 64]));
    let given = FullId::with_keys(enc, sign);
    let p = given.public_id();
    assert_eq!(*p.encrypting_public_key(), PublicEncryptKey([1u8; 32]));
    assert_eq!(*p.signing_public_key(), PublicSignKey([3u8; 32]));
    assert_eq!(*p.name(), PublicId::name_from_key(&PublicSignKey([3u8; 32])));
    assert!(*given.encrypting_private_key() == SecretEncryptKey([2u8; 32]));
    assert!(*given.signing_private_key() == SecretSignKey([4u8; 64]));

    let mut bytes = vec![5u8; 32];
    bytes.extend_from_slice(&[6u8; 32]);
    let decoded = PublicId::decode(&bytes).unwrap();
    assert_eq!(*decoded.name(), PublicId::name_from_key(decoded.signing_public_key()));
}

#[test]
fn encode_puts_encryption_key_first() {
    let enc = (PublicEncryptKey([0xaa; 32]), SecretEncryptKey([0; 32]));
    let sign = (PublicSignKey([0xbb; 32]), SecretSignKey([0; 64]));
    let id = FullId::with_keys(enc, sign);
    let bytes = id.public_id().encode();
    assert_eq!(bytes.len(), 64);
    assert!(bytes[..32].iter().all(|b| *b == 0xaa));
    assert!(bytes[32..].iter().all(|b| *b == 0xbb));
}

#[test]
fn round_trip_of_many_identities() {
    let mut rng = SeededKeys::new(11);
    for _ in 0..20 {
        let id = FullId::new(&mut rng);
        let back = PublicId::decode(&id.public_id().encode()).unwrap();
        assert_eq!(back, *id.public_id());
    }
}

#[test]
fn decode_rejects_wrong_lengths() {
    for len in [0usize, 1, 32, 63, 65, 128] {
        let bytes = vec![7u8; len];
        assert_eq!(PublicId::decode(&bytes), Err(IdError::MalformedKeyData));
    }
}

#[test]
fn within_full_range_accepts_first_draw() {
    let mut rng = SeededKeys::new(21);
    let mut twin = rng.clone();
    let start = XorName([0u8; 32]);
    let end = XorName([0xff; 32]);
    let id = FullId::within_range(&start, &end, 1, &mut rng).unwrap();
    let (first_sign, _) = twin.gen_sign_keypair();
    assert_eq!(*id.public_id().signing_public_key(), first_sign);
    assert!(start <= *id.public_id().name() && *id.public_id().name() <= end);
}

#[test]
fn within_single_name_range() {
    let rng = SeededKeys::new(42);
    let mut peek = rng.clone();
    let mut target = None;
    for _ in 0..5 {
        let (key, _) = peek.gen_sign_keypair();
        target = Some(PublicId::name_from_key(&key));
    }
    let target = target.unwrap();
    let mut rng = rng;
    let id = FullId::within_range(&target, &target, 100, &mut rng).unwrap();
    assert_eq!(*id.public_id().name(), target);
}

#[test]
fn within_narrow_range() {
    let mut rng = SeededKeys::new(77);
    let mut start = [0u8; 32];
    start[0] = 0x40;
    let mut end = [0xffu8; 32];
    end[0] = 0x4f;
    let (start, end) = (XorName(start), XorName(end));
    let id = FullId::within_range(&start, &end, u64::MAX, &mut rng).unwrap();
    let name = *id.public_id().name();
    assert!(start <= name && name <= end);
    assert_eq!(name.0[0] >> 4, 4);
}

#[test]
fn within_range_rejects_inverted_range() {
    let mut rng = SeededKeys::new(5);
    let start = XorName([2u8; 32]);
    let end = XorName([1u8; 32]);
    assert_eq!(
        FullId::within_range(&start, &end, 10, &mut rng).err(),
        Some(IdError::InvalidArgument)
    );
}

#[test]
fn within_range_gives_up_after_attempts() {
    let mut rng = SeededKeys::new(5);
    let start = XorName([1u8; 32]);
    assert_eq!(
        FullId::within_range(&start, &start, 0, &mut rng).err(),
        Some(IdError::AttemptsExhausted)
    );
    assert_eq!(
        FullId::within_range(&start, &start, 50, &mut rng).err(),
        Some(IdError::AttemptsExhausted)
    );
}

#[test]
fn name_comparison_is_lexicographic() {
    let mut a = [0u8; 32];
    let mut b = [0u8; 32];
    a[3] = 1;
    b[31] = 0xff;
    assert_eq!(XorName(a).compare(&XorName(b)), Ordering::Greater);
    assert_eq!(XorName(b).compare(&XorName(a)), Ordering::Less);
    assert_eq!(XorName(a).compare(&XorName(a)), Ordering::Equal);
    assert!(XorName(b) < XorName(a));
    assert!(XorName(a).is_within(&XorName(b), &XorName(a)));
    assert!(!XorName(b).is_within(&XorName(a), &XorName([0xff; 32])));
}

#[test]
fn order_is_decided_by_name() {
    let mut rng = SeededKeys::new(13);
    let ids: Vec<PublicId> = (0..30).map(|_| *FullId::new(&mut rng).public_id()).collect();
    for a in &ids {
        for b in &ids {
            if a.name() == b.name() {
                continue;
            }
            assert!((a < b) != (a > b));
            assert_eq!(a < b, a.name() < b.name());
            assert_eq!(a.compare(b), a.name().compare(b.name()));
            assert_eq!(a.partial_cmp(b), Some(a.cmp(b)));
        }
    }
}

#[test]
fn two_generated_identities() {
    let mut rng = SeededKeys::new(2024);
    let a = FullId::new(&mut rng);
    let b = FullId::new(&mut rng);
    assert_ne!(a.public_id().name(), b.public_id().name());
    let decoded = PublicId::decode(&a.public_id().encode()).unwrap();
    assert_eq!(decoded, *a.public_id());
    assert_eq!(
        a.public_id() < b.public_id(),
        a.public_id().name().0 < b.public_id().name().0
    );
}

#[test]
fn replacing_public_id_keeps_private_keys() {
    let mut rng = SeededKeys::new(8);
    let mut full = FullId::new(&mut rng);
    let other = FullId::new(&mut rng);
    let secret_sign = *full.signing_private_key();
    let secret_enc = *full.encrypting_private_key();
    *full.public_id_mut() = *other.public_id();
    assert_eq!(*full.public_id(), *other.public_id());
    assert!(*full.signing_private_key() == secret_sign);
    assert!(*full.encrypting_private_key() == secret_enc);
}

#[test]
fn order_is_total_and_consistent_with_equality() {
    let mut rng = SeededKeys::new(31);
    let mut ids: Vec<PublicId> = (0..12).map(|_| *FullId::new(&mut rng).public_id()).collect();
    ids.push(ids[3]);
    for p in &ids {
        for q in &ids {
            assert_eq!(q.compare(p), p.compare(q).reverse());
            assert_eq!(p.compare(q) == Ordering::Equal, p == q);
            for r in &ids {
                if p <= q && q <= r {
                    assert!(p <= r);
                }
            }
        }
    }
    let same_keys = FullId::with_keys(
        (*ids[0].encrypting_public_key(), SecretEncryptKey([0u8; 32])),
        (*ids[0].signing_public_key(), SecretSignKey([0u8; 64])),
    );
    assert_eq!(*same_keys.public_id(), ids[0]);
}
