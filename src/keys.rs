//! Key material of an identity, held as fixed-width bytes, and the
//! capability that draws fresh key pairs.

use vstd::prelude::*;

verus! {

/// Public half of a signing key pair.
#[derive(Clone, Copy, Debug, PartialEq, Eq, PartialOrd, Ord, Hash)]
pub struct PublicSignKey(pub [u8; 32]);

/// Secret half of a signing key pair.
#[derive(Clone, Copy, PartialEq, Eq, Hash)]
pub struct SecretSignKey(pub [u8; 64]);

/// Public half of an encryption key pair.
#[derive(Clone, Copy, Debug, PartialEq, Eq, PartialOrd, Ord, Hash)]
pub struct PublicEncryptKey(pub [u8; 32]);

/// Secret half of an encryption key pair.
#[derive(Clone, Copy, PartialEq, Eq, Hash)]
pub struct SecretEncryptKey(pub [u8; 32]);

impl View for PublicSignKey {
    type V = Seq<u8>;

    open spec fn view(&self) -> Seq<u8> {
        self.0@
    }
}

impl View for SecretSignKey {
    type V = Seq<u8>;

    open spec fn view(&self) -> Seq<u8> {
        self.0@
    }
}

impl View for PublicEncryptKey {
    type V = Seq<u8>;

    open spec fn view(&self) -> Seq<u8> {
        self.0@
    }
}

impl View for SecretEncryptKey {
    type V = Seq<u8>;

    open spec fn view(&self) -> Seq<u8> {
        self.0@
    }
}

/// A source of fresh key pairs. In production it must draw from a
/// cryptographically secure random source; tests may plug in a seeded one.
/// Nothing is assumed of the keys it hands out: each draw may be anything.
pub trait KeyGenerator {
    /// Draws a fresh signing key pair (public half, secret half).
    fn gen_sign_keypair(&mut self) -> (PublicSignKey, SecretSignKey);

    /// Draws a fresh encryption key pair (public half, secret half).
    fn gen_encrypt_keypair(&mut self) -> (PublicEncryptKey, SecretEncryptKey);
}

} // verus!
