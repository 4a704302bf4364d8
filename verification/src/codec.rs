use vstd::prelude::*;
use vstd::string::StringExecFns;

use crate::errors::IdentityError;

verus! {

/// First byte of the fixed multicodec tag for this key type.
pub const MULTICODEC_TAG_BYTE_0: u8 = 0xed;

/// Second byte of the fixed multicodec tag for this key type.
pub const MULTICODEC_TAG_BYTE_1: u8 = 0x01;

/// The single multibase code character of the one accepted alphabet, the
/// base-58 variant with the bitcoin ordering.
pub const BASE58_BTC_CODE: char = 'z';

/// The text that multibase::encode produces for a byte string under the
/// base-58 bitcoin alphabet: the code character 'z', then the base-58 text.
pub uninterp spec fn base58btc_encode(bytes: Seq<u8>) -> Seq<char>;

/// What multibase::decode returns for a text: on success the code character
/// of the alphabet the text declares and the decoded bytes; Err(true) when
/// the leading character names no known alphabet, Err(false) when the rest
/// of the text is not valid output of the named alphabet.
pub uninterp spec fn multibase_decode(s: Seq<char>) -> Result<(char, Seq<u8>), bool>;

/// A successful multibase decoding: the declared code character and the bytes.
pub open spec fn mb_ok(c: char, b: Seq<u8>) -> Result<(char, Seq<u8>), bool> {
    Ok((c, b))
}

/// A failed multibase decoding; see multibase_decode for what the flag means.
pub open spec fn mb_err(unknown_base: bool) -> Result<(char, Seq<u8>), bool> {
    Err(unknown_base)
}

/// Relies on multibase::encode with Base58Btc: it prepends the base's code
/// character 'z' to the base-58 text of the bytes, always succeeds, and
/// multibase::decode inverts it.
#[verifier::external_body]
fn multibase_encode_base58btc(bytes: &Vec<u8>) -> (r: String)
    ensures
        r@ == base58btc_encode(bytes@),
        r@.len() >= 1,
        r@[0] == 'z',
        multibase_decode(r@) == mb_ok('z', bytes@),
{
    multibase::encode(multibase::Base::Base58Btc, bytes)
}

/// Relies on multibase::decode: it splits off the leading code character,
/// looks the alphabet up by it, and decodes the remainder in that alphabet.
/// The result is a function of the text alone. Err(true) stands for its
/// unknown-base error, Err(false) for its invalid-string error.
#[verifier::external_body]
fn multibase_decode_text(text: &str) -> (r: Result<(char, Vec<u8>), bool>)
    ensures
        (match r {
            Ok((c, b)) => multibase_decode(text@) == mb_ok(c, b@),
            Err(u) => multibase_decode(text@) == mb_err(u),
        }),
{
    match multibase::decode(text) {
        Ok((base, bytes)) => Ok((base.code(), bytes)),
        Err(multibase::Error::UnknownBase(_)) => Err(true),
        Err(multibase::Error::InvalidBaseString) => Err(false),
    }
}

/// The self-describing binary payload of a key: the fixed two-byte
/// multicodec tag, then the key bytes.
pub open spec fn spec_tagged_key(key: Seq<u8>) -> Seq<u8> {
    seq![MULTICODEC_TAG_BYTE_0, MULTICODEC_TAG_BYTE_1] + key
}

/// Whether a decoded payload begins with the fixed multicodec tag.
pub open spec fn spec_has_tag(payload: Seq<u8>) -> bool {
    &&& payload.len() >= 2
    &&& payload[0] == MULTICODEC_TAG_BYTE_0
    &&& payload[1] == MULTICODEC_TAG_BYTE_1
}

/// The text this codec produces for a key: the multibase form of the tagged
/// key bytes under the one accepted alphabet.
pub open spec fn spec_key_text(key: Seq<u8>) -> Seq<char> {
    base58btc_encode(spec_tagged_key(key))
}

/// Whether a text decodes, under this codec's rules, to a tagged payload
/// carrying a key of the exact 32-byte length.
pub open spec fn spec_decode_ok(text: Seq<char>) -> bool {
    &&& multibase_decode(text) matches Ok(p)
    &&& p.0 == BASE58_BTC_CODE
    &&& spec_has_tag(p.1)
    &&& p.1.len() == 34
}

/// The key bytes a text decodes to: everything after the two tag bytes.
pub open spec fn spec_decoded_key(text: Seq<char>) -> Seq<u8> {
    match multibase_decode(text) {
        Ok(p) => p.1.skip(2),
        Err(_) => Seq::empty(),
    }
}

/// Which error a failed decoding carries, for each way a text can fail the
/// codec's rules: the declared alphabet is unknown or not the accepted one,
/// the text is malformed for its alphabet, the tag is wrong, or the key
/// length is wrong.
pub open spec fn spec_decode_err(e: IdentityError, text: Seq<char>) -> bool {
    &&& (e is UnsupportedMultibase <==> (multibase_decode(text) == mb_err(true) || (
    multibase_decode(text) matches Ok(p) && p.0 != BASE58_BTC_CODE)))
    &&& (e is DecodingError <==> multibase_decode(text) == mb_err(false))
    &&& (e is UnsupportedMulticodec <==> (multibase_decode(text) matches Ok(p) && p.0
        == BASE58_BTC_CODE && !spec_has_tag(p.1)))
    &&& (e is InvalidKey <==> (multibase_decode(text) matches Ok(p) && p.0 == BASE58_BTC_CODE
        && spec_has_tag(p.1) && p.1.len() != 34))
}

/// Encodes tagged key bytes as text: tag, then key, then the multibase
/// base-58 transform. Cannot fail, whatever the key's length; the result
/// always decodes back to the same tagged payload.
pub fn encode_public_key(key: &[u8]) -> (r: String)
    ensures
        r@ == spec_key_text(key@),
        r@.len() >= 1,
        r@[0] == BASE58_BTC_CODE,
        multibase_decode(r@) == mb_ok('z', spec_tagged_key(key@)),
        key@.len() == 32 ==> spec_decode_ok(r@) && spec_decoded_key(r@) == key@,
{
    let mut payload: Vec<u8> = Vec::new();
    payload.push(MULTICODEC_TAG_BYTE_0);
    payload.push(MULTICODEC_TAG_BYTE_1);
    payload.extend_from_slice(key);
    proof {
        assert(payload@ =~= spec_tagged_key(key@));
    }
    let encoded = multibase_encode_base58btc(&payload);
    proof {
        if key@.len() == 32 {
            assert(spec_tagged_key(key@).skip(2) =~= key@);
        }
    }
    encoded
}

/// Decodes a text back to key bytes, validating each step: the declared
/// alphabet must be the one accepted base-58 alphabet, the payload must
/// begin with the fixed multicodec tag, and what follows the tag must be
/// exactly 32 bytes. Each rejection carries its own error kind.
pub fn decode_text(text: &str) -> (r: Result<Vec<u8>, IdentityError>)
    ensures
        r is Ok <==> spec_decode_ok(text@),
        (match r {
            Ok(key) => key@ == spec_decoded_key(text@) && key@.len() == 32,
            Err(e) => spec_decode_err(e, text@),
        }),
{
    let decoded = match multibase_decode_text(text) {
        Ok(d) => d,
        Err(true) => {
            return Err(IdentityError::UnsupportedMultibase(
                String::from_str("the leading character names no known alphabet"),
            ));
        },
        Err(false) => {
            return Err(IdentityError::DecodingError(
                String::from_str("the text is not valid for its declared alphabet"),
            ));
        },
    };
    let (code, payload) = decoded;
    if code != BASE58_BTC_CODE {
        return Err(IdentityError::UnsupportedMultibase(
            String::from_str("only the base-58 bitcoin alphabet is accepted"),
        ));
    }
    if payload.len() < 2 || payload[0] != MULTICODEC_TAG_BYTE_0 || payload[1]
        != MULTICODEC_TAG_BYTE_1 {
        return Err(IdentityError::UnsupportedMulticodec(
            String::from_str("the payload does not begin with the expected tag"),
        ));
    }
    if payload.len() != 34 {
        return Err(IdentityError::InvalidKey(
            String::from_str("the payload does not carry exactly 32 key bytes"),
        ));
    }
    let mut key: Vec<u8> = Vec::new();
    let mut i: usize = 2;
    while i < payload.len()
        invariant
            2 <= i <= payload@.len(),
            payload@.len() == 34,
            key@ == payload@.subrange(2, i as int),
        decreases payload@.len() - i,
    {
        key.push(payload[i]);
        proof {
            assert(key@ =~= payload@.subrange(2, i + 1 as int));
        }
        i += 1;
    }
    proof {
        assert(key@ =~= payload@.skip(2));
    }
    Ok(key)
}

} // verus!
