//! Self-certifying decentralized identities: a key pair yields a public
//! identifier (a DID) that embeds the exact public-key bytes used for
//! signature checks, so the identifier itself is enough to verify claims
//! made by its holder.
//!
//! The crate has three layers. `keys` generates, signs with and verifies
//! against Ed25519 key pairs. `codec` is the reversible, self-describing
//! binary-to-text transform: a fixed two-byte multicodec tag, then the
//! multibase base-58 text of the tagged bytes. `did` composes the codec over
//! a public key to produce the `did:dverse:` string and parses such a string
//! back into a validated public key, rejecting a wrong method prefix, a
//! wrong alphabet, a wrong tag, and a wrong key length, each with its own
//! error of `errors::IdentityError`.

pub mod codec;
pub mod did;
pub mod errors;
pub mod keys;

pub use crate::did::Did;
pub use crate::errors::IdentityError;
pub use crate::keys::{KeyPair, PrivateKey, PublicKey};
