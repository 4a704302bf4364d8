use vstd::prelude::*;
use vstd::string::StrSliceExecFns;
use vstd::string::StringExecFns;

use crate::codec;
use crate::codec::multibase_decode;
use crate::codec::mb_ok;
use crate::codec::spec_decode_ok;
use crate::codec::spec_decoded_key;
use crate::codec::spec_key_text;
use crate::codec::spec_tagged_key;
use crate::errors::IdentityError;
use crate::keys::PublicKey;

verus! {

/// The fixed method prefix every DID of this scheme begins with.
pub open spec fn spec_did_prefix() -> Seq<char> {
    "did:dverse:"@
}

/// Whether a string begins with the exact method prefix.
pub open spec fn spec_has_prefix(s: Seq<char>) -> bool {
    s.len() >= 11 && s.subrange(0, 11) == spec_did_prefix()
}

/// The DID text of a public key: the method prefix, then the codec's text
/// of the tagged key bytes.
pub open spec fn spec_did_of(key: Seq<u8>) -> Seq<char> {
    spec_did_prefix() + spec_key_text(key)
}

/// Whether a DID string decodes to a public key: it must carry the method
/// prefix, and what follows must decode under the codec's rules.
pub open spec fn spec_parse_ok(s: Seq<char>) -> bool {
    spec_has_prefix(s) && spec_decode_ok(s.skip(11))
}

/// The public key bytes a valid DID string decodes to.
pub open spec fn spec_parsed_key(s: Seq<char>) -> Seq<u8> {
    spec_decoded_key(s.skip(11))
}

/// A decentralized identifier: an immutable text value. Building one from a
/// string validates nothing; every check is made when a public key is asked
/// for, so a Did may be held, compared and passed on without being decoded.
#[derive(Debug, Clone)]
pub struct Did {
    value: String,
}

impl View for Did {
    type V = Seq<char>;

    closed spec fn view(&self) -> Seq<char> {
        self.value@
    }
}

impl PartialEq for Did {
    fn eq(&self, other: &Did) -> (r: bool) {
        self.value == other.value
    }
}

impl vstd::std_specs::cmp::PartialEqSpecImpl for Did {
    open spec fn obeys_eq_spec() -> bool {
        true
    }

    open spec fn eq_spec(&self, other: &Did) -> bool {
        self@ == other@
    }
}

impl Did {
    /// Encodes a public key as a DID: tag the key bytes, text-encode them
    /// under the one accepted alphabet, prepend the method prefix. Never
    /// fails, whatever the key's length; the result is a function of the
    /// key alone. For a 32-byte key the result decodes back to the key.
    pub fn from_public_key(public_key: &PublicKey) -> (r: Result<Did, IdentityError>)
        ensures
            r is Ok,
            (match r {
                Ok(d) => {
                    &&& d@ == spec_did_of(public_key@)
                    &&& spec_has_prefix(d@)
                    &&& multibase_decode(d@.skip(11)) == mb_ok('z', spec_tagged_key(public_key@))
                    &&& public_key@.len() == 32 ==> spec_parse_ok(d@) && spec_parsed_key(d@)
                        == public_key@
                },
                Err(_) => true,
            }),
    {
        let text = codec::encode_public_key(public_key.as_bytes());
        let did_string = String::from_str("did:dverse:").concat(text.as_str());
        proof {
            reveal_strlit("did:dverse:");
            assert(did_string@.subrange(0, 11) =~= spec_did_prefix());
            assert(did_string@.skip(11) =~= text@);
        }
        Ok(Did { value: did_string })
    }

    /// Parses the DID back into a public key, validating each step: the
    /// exact method prefix, the declared alphabet, the multicodec tag, and
    /// the exact key length. Succeeds exactly on the strings that carry a
    /// 32-byte key, and each rejection carries its own error kind.
    pub fn to_public_key(&self) -> (r: Result<PublicKey, IdentityError>)
        ensures
            r is Ok <==> spec_parse_ok(self@),
            (match r {
                Ok(pk) => pk@ == spec_parsed_key(self@) && pk@.len() == 32,
                Err(e) => {
                    &&& (e is InvalidDidFormat <==> !spec_has_prefix(self@))
                    &&& (spec_has_prefix(self@) ==> codec::spec_decode_err(e, self@.skip(11)))
                },
            }),
    {
        let s: &str = self.value.as_str();
        let n: usize = s.unicode_len();
        if n < 11 {
            return Err(IdentityError::InvalidDidFormat(
                String::from_str("the DID does not start with the expected method prefix"),
            ));
        }
        let head = s.substring_char(0, 11);
        let head_string = String::from_str(head);
        let prefix_string = String::from_str("did:dverse:");
        if !(head_string == prefix_string) {
            return Err(IdentityError::InvalidDidFormat(
                String::from_str("the DID does not start with the expected method prefix"),
            ));
        }
        let rest = s.substring_char(11, n);
        proof {
            assert(rest@ =~= self@.skip(11));
        }
        match codec::decode_text(rest) {
            Ok(key) => Ok(PublicKey::from_bytes(key)),
            Err(e) => {
                proof {
                    let d = multibase_decode(self@.skip(11));
                    match d {
                        Ok(p) => {},
                        Err(u) => {
                            assert(d == codec::mb_err(u));
                        },
                    }
                    assert(e is UnsupportedMultibase || e is DecodingError
                        || e is UnsupportedMulticodec || e is InvalidKey);
                }
                Err(e)
            },
        }
    }

    /// The DID as text.
    pub fn as_str(&self) -> (r: &str)
        ensures
            r@ == self@,
    {
        self.value.as_str()
    }

    /// The DID as an owned string, as it is displayed or transmitted.
    pub fn display_string(&self) -> (r: String)
        ensures
            r@ == self@,
    {
        self.value.clone()
    }
}

impl From<String> for Did {
    /// Wraps a string as a Did without validating anything.
    fn from(s: String) -> (r: Did)
        ensures
            r@ == s@,
    {
        Did { value: s }
    }
}

impl vstd::std_specs::convert::FromSpecImpl<String> for Did {
    open spec fn obeys_from_spec() -> bool {
        true
    }

    closed spec fn from_spec(s: String) -> Did {
        Did { value: s }
    }
}

impl From<&str> for Did {
    /// Wraps a string as a Did without validating anything.
    fn from(s: &str) -> (r: Did)
        ensures
            r@ == s@,
    {
        Did { value: s.to_owned() }
    }
}

// No owned string can be written down in specification code for a borrowed
// one, so the trait-level contract stays disabled here; the contract of the
// conversion is the ensures on from itself.
impl vstd::std_specs::convert::FromSpecImpl<&str> for Did {
    open spec fn obeys_from_spec() -> bool {
        false
    }

    closed spec fn from_spec(s: &str) -> Did {
        choose|d: Did| d@ == s@
    }
}

} // verus!
