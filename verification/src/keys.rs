use vstd::prelude::*;
use vstd::string::StringExecFns;

use ed25519_dalek::Signer;
use ed25519_dalek::Verifier;

use crate::errors::IdentityError;

verus! {

/// The public key that the Ed25519 signature scheme derives from a 32-byte
/// secret key; always 32 bytes.
pub uninterp spec fn ed25519_public_of(sk: Seq<u8>) -> Seq<u8>;

/// The 64-byte Ed25519 signature over a message under a 32-byte secret key.
/// Ed25519 signing is deterministic: the signature is a function of the
/// secret key and the message alone.
pub uninterp spec fn ed25519_sign_of(sk: Seq<u8>, msg: Seq<u8>) -> Seq<u8>;

/// Whether an Ed25519 verification of a signature over a message under a
/// 32-byte public key passes; a function of the three byte strings alone.
pub uninterp spec fn ed25519_verify_of(pk: Seq<u8>, msg: Seq<u8>, sig: Seq<u8>) -> bool;

/// Relies on ed25519_dalek::SigningKey::generate: it fills 32 bytes from the
/// operating system's secure random source. Nothing is promised of the value
/// beyond its length; an unavailable entropy source aborts the process
/// rather than returning.
#[verifier::external_body]
fn generate_secret_key() -> (r: Vec<u8>)
    ensures
        r@.len() == 32,
{
    let mut csprng = rand_core::OsRng;
    ed25519_dalek::SigningKey::generate(&mut csprng).to_bytes().to_vec()
}

/// Relies on ed25519_dalek::SigningKey::verifying_key: the public key is
/// derived from the 32 secret bytes alone and is always 32 bytes.
#[verifier::external_body]
fn derive_public_key(sk: &[u8]) -> (r: Vec<u8>)
    requires
        sk@.len() == 32,
    ensures
        r@ == ed25519_public_of(sk@),
        r@.len() == 32,
{
    let mut bytes = [0u8; 32];
    bytes.copy_from_slice(sk);
    ed25519_dalek::SigningKey::from_bytes(&bytes).verifying_key().to_bytes().to_vec()
}

/// Relies on ed25519_dalek::Signer::sign for SigningKey: Ed25519 signing is
/// deterministic (RFC 8032), never fails for a 32-byte secret key, yields 64
/// bytes, and the signature passes verification under the derived public key.
#[verifier::external_body]
fn sign_with_key(sk: &[u8], message: &[u8]) -> (r: Vec<u8>)
    requires
        sk@.len() == 32,
    ensures
        r@ == ed25519_sign_of(sk@, message@),
        r@.len() == 64,
        ed25519_verify_of(ed25519_public_of(sk@), message@, r@),
{
    let mut bytes = [0u8; 32];
    bytes.copy_from_slice(sk);
    let signing_key = ed25519_dalek::SigningKey::from_bytes(&bytes);
    signing_key.sign(message).to_bytes().to_vec()
}

/// Relies on ed25519_dalek::VerifyingKey::from_bytes and Verifier::verify:
/// whether the triple passes is a function of the three byte strings alone.
/// A 32-byte string that is not a valid curve point is reported here the
/// same way as a signature that does not check out.
#[verifier::external_body]
fn verify_with_key(pk: &[u8], message: &[u8], signature: &[u8]) -> (r: bool)
    requires
        pk@.len() == 32,
        signature@.len() == 64,
    ensures
        r == ed25519_verify_of(pk@, message@, signature@),
{
    let mut key_bytes = [0u8; 32];
    key_bytes.copy_from_slice(pk);
    let mut sig_bytes = [0u8; 64];
    sig_bytes.copy_from_slice(signature);
    match ed25519_dalek::VerifyingKey::from_bytes(&key_bytes) {
        Ok(vk) => {
            let sig = ed25519_dalek::Signature::from_bytes(&sig_bytes);
            vk.verify(message, &sig).is_ok()
        },
        Err(_) => false,
    }
}

/// Byte-wise equality of two byte vectors.
pub(crate) fn bytes_eq(a: &Vec<u8>, b: &Vec<u8>) -> (r: bool)
    ensures
        r == (a@ == b@),
{
    if a.len() != b.len() {
        return false;
    }
    let mut i: usize = 0;
    while i < a.len()
        invariant
            i <= a@.len(),
            a@.len() == b@.len(),
            forall|j: int| 0 <= j < i ==> a@[j] == b@[j],
        decreases a@.len() - i,
    {
        if a[i] != b[i] {
            return false;
        }
        i += 1;
    }
    proof {
        assert(a@ =~= b@);
    }
    true
}

/// The private half of a key pair: an opaque byte sequence, 32 bytes for
/// every key this scheme generates. It never appears in a DID string.
#[derive(Debug, Clone)]
pub struct PrivateKey {
    bytes: Vec<u8>,
}

impl View for PrivateKey {
    type V = Seq<u8>;

    closed spec fn view(&self) -> Seq<u8> {
        self.bytes@
    }
}

impl PartialEq for PrivateKey {
    fn eq(&self, other: &PrivateKey) -> (r: bool) {
        bytes_eq(&self.bytes, &other.bytes)
    }
}

impl vstd::std_specs::cmp::PartialEqSpecImpl for PrivateKey {
    open spec fn obeys_eq_spec() -> bool {
        true
    }

    open spec fn eq_spec(&self, other: &PrivateKey) -> bool {
        self@ == other@
    }
}

impl PrivateKey {
    pub fn from_bytes(bytes: Vec<u8>) -> (r: Self)
        ensures
            r@ == bytes@,
    {
        PrivateKey { bytes }
    }

    pub fn as_bytes(&self) -> (r: &[u8])
        ensures
            r@ == self@,
    {
        self.bytes.as_slice()
    }
}

/// The public half of a key pair: an opaque byte sequence, 32 bytes for
/// every key this scheme generates or decodes. Equality is byte-wise.
#[derive(Debug, Clone)]
pub struct PublicKey {
    bytes: Vec<u8>,
}

impl View for PublicKey {
    type V = Seq<u8>;

    closed spec fn view(&self) -> Seq<u8> {
        self.bytes@
    }
}

impl PublicKey {
    pub fn from_bytes(bytes: Vec<u8>) -> (r: Self)
        ensures
            r@ == bytes@,
    {
        PublicKey { bytes }
    }

    pub fn as_bytes(&self) -> (r: &[u8])
        ensures
            r@ == self@,
    {
        self.bytes.as_slice()
    }
}

impl PartialEq for PublicKey {
    fn eq(&self, other: &PublicKey) -> (r: bool) {
        bytes_eq(&self.bytes, &other.bytes)
    }
}

impl vstd::std_specs::cmp::PartialEqSpecImpl for PublicKey {
    open spec fn obeys_eq_spec() -> bool {
        true
    }

    open spec fn eq_spec(&self, other: &PublicKey) -> bool {
        self@ == other@
    }
}

/// A private/public key pair. Only generate() guarantees that the public
/// half is the one derived from the private half; a pair put together from
/// raw bytes carries no such promise, and its contract says nothing of the
/// relation between the two halves.
#[derive(Debug, Clone)]
pub struct KeyPair {
    pub private_key: PrivateKey,
    pub public_key: PublicKey,
}

impl PartialEq for KeyPair {
    fn eq(&self, other: &KeyPair) -> (r: bool) {
        self.private_key == other.private_key && self.public_key == other.public_key
    }
}

impl vstd::std_specs::cmp::PartialEqSpecImpl for KeyPair {
    open spec fn obeys_eq_spec() -> bool {
        true
    }

    open spec fn eq_spec(&self, other: &KeyPair) -> bool {
        self.private_key@ == other.private_key@ && self.public_key@ == other.public_key@
    }
}

impl KeyPair {
    /// The invariant that generation establishes: both halves have their
    /// fixed length and the public half is derived from the private half.
    pub open spec fn wf(&self) -> bool {
        &&& self.private_key@.len() == 32
        &&& self.public_key@.len() == 32
        &&& self.public_key@ == ed25519_public_of(self.private_key@)
    }

    /// Draws a fresh 32-byte private key from the secure random source and
    /// derives its public key. Never returns an error: an unavailable
    /// random source is fatal, not a recoverable condition.
    pub fn generate() -> (r: Result<KeyPair, IdentityError>)
        ensures
            r is Ok,
            (match r {
                Ok(kp) => kp.wf(),
                Err(_) => true,
            }),
    {
        let sk = generate_secret_key();
        let pk = derive_public_key(sk.as_slice());
        Ok(KeyPair { private_key: PrivateKey::from_bytes(sk), public_key: PublicKey::from_bytes(pk) })
    }

    /// Signs a message with the held private key. Succeeds exactly when the
    /// private key has its fixed 32-byte length; the signature is 64 bytes,
    /// a function of key and message alone, and passes verification under
    /// the public key derived from the private key — so on a well-formed
    /// pair, verify accepts what sign produced for the same message.
    pub fn sign(&self, message: &[u8]) -> (r: Result<Vec<u8>, IdentityError>)
        ensures
            r is Ok <==> self.private_key@.len() == 32,
            (match r {
                Ok(sig) => {
                    &&& sig@ == ed25519_sign_of(self.private_key@, message@)
                    &&& sig@.len() == 64
                    &&& ed25519_verify_of(ed25519_public_of(self.private_key@), message@, sig@)
                    &&& (self.wf() ==> ed25519_verify_of(self.public_key@, message@, sig@))
                },
                Err(e) => e is InvalidKey,
            }),
    {
        if self.private_key.bytes.len() != 32 {
            return Err(IdentityError::InvalidKey(
                String::from_str("private key bytes are not 32 bytes long"),
            ));
        }
        Ok(sign_with_key(self.private_key.as_bytes(), message))
    }

    /// Checks a signature over a message against the held public key.
    /// Succeeds exactly when the key is 32 bytes, the signature is 64 bytes
    /// and the cryptographic check passes; each wrong length is reported
    /// apart from a failed check, which does not say what went wrong.
    pub fn verify(&self, message: &[u8], signature: &[u8]) -> (r: Result<(), IdentityError>)
        ensures
            r is Ok <==> {
                &&& self.public_key@.len() == 32
                &&& signature@.len() == 64
                &&& ed25519_verify_of(self.public_key@, message@, signature@)
            },
            (match r {
                Ok(_) => true,
                Err(e) => {
                    &&& (e is InvalidKey <==> self.public_key@.len() != 32)
                    &&& (e is SignatureError <==> (self.public_key@.len() == 32 && signature@.len()
                        != 64))
                    &&& (e is DalekError <==> {
                        &&& self.public_key@.len() == 32
                        &&& signature@.len() == 64
                        &&& !ed25519_verify_of(self.public_key@, message@, signature@)
                    })
                },
            }),
    {
        if self.public_key.bytes.len() != 32 {
            return Err(IdentityError::InvalidKey(
                String::from_str("public key bytes are not 32 bytes long"),
            ));
        }
        if signature.len() != 64 {
            return Err(IdentityError::SignatureError(
                String::from_str("signature bytes are not 64 bytes long"),
            ));
        }
        if verify_with_key(self.public_key.as_bytes(), message, signature) {
            Ok(())
        } else {
            Err(IdentityError::DalekError(String::from_str("signature verification failed")))
        }
    }
}

} // verus!
