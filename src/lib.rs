//! Node identities for an address-space-partitioned network: key material,
//! the names derived from public signing keys, and identities minted inside
//! a given range of names.

pub mod id;
pub mod keys;
pub mod name;

pub use id::{FullId, IdError, PublicId};
pub use keys::{KeyGenerator, PublicEncryptKey, PublicSignKey, SecretEncryptKey, SecretSignKey};
pub use name::XorName;
