use vstd::prelude::*;
use vstd::string::StringExecFns;

verus! {

/// The error taxonomy of the identity scheme. Every fallible operation
/// returns one of these values; each variant carries a plain description
/// string rather than a value of some third-party error type.
#[derive(Debug, Clone)]
pub enum IdentityError {
    KeyGenerationError(String),
    SignatureError(String),
    InvalidKey(String),
    InvalidDidFormat(String),
    EncodingError(String),
    DecodingError(String),
    UnsupportedMulticodec(String),
    UnsupportedMultibase(String),
    DalekError(String),
    MultibaseError(String),
    ArrayConversionError(String),
}

impl IdentityError {
    /// The text of an error: a fixed label for its kind, then the detail
    /// that was recorded when the error was raised.
    pub open spec fn spec_message(&self) -> Seq<char> {
        match self {
            IdentityError::KeyGenerationError(m) => "Key Generation Error: "@ + m@,
            IdentityError::SignatureError(m) => "Signature Error: "@ + m@,
            IdentityError::InvalidKey(m) => "Invalid Key: "@ + m@,
            IdentityError::InvalidDidFormat(m) => "Invalid DID Format: "@ + m@,
            IdentityError::EncodingError(m) => "Encoding Error: "@ + m@,
            IdentityError::DecodingError(m) => "Decoding Error: "@ + m@,
            IdentityError::UnsupportedMulticodec(m) => "Unsupported Multicodec: "@ + m@,
            IdentityError::UnsupportedMultibase(m) => "Unsupported Multibase: "@ + m@,
            IdentityError::DalekError(m) => "Cryptographic Error: "@ + m@,
            IdentityError::MultibaseError(m) => "Multibase Error: "@ + m@,
            IdentityError::ArrayConversionError(m) => "Array Conversion Error: "@ + m@,
        }
    }

    /// Renders the error as one line of text, label first.
    pub fn message(&self) -> (r: String)
        ensures
            r@ == self.spec_message(),
    {
        match self {
            IdentityError::KeyGenerationError(m) => {
                String::from_str("Key Generation Error: ").concat(m.as_str())
            },
            IdentityError::SignatureError(m) => {
                String::from_str("Signature Error: ").concat(m.as_str())
            },
            IdentityError::InvalidKey(m) => String::from_str("Invalid Key: ").concat(m.as_str()),
            IdentityError::InvalidDidFormat(m) => {
                String::from_str("Invalid DID Format: ").concat(m.as_str())
            },
            IdentityError::EncodingError(m) => {
                String::from_str("Encoding Error: ").concat(m.as_str())
            },
            IdentityError::DecodingError(m) => {
                String::from_str("Decoding Error: ").concat(m.as_str())
            },
            IdentityError::UnsupportedMulticodec(m) => {
                String::from_str("Unsupported Multicodec: ").concat(m.as_str())
            },
            IdentityError::UnsupportedMultibase(m) => {
                String::from_str("Unsupported Multibase: ").concat(m.as_str())
            },
            IdentityError::DalekError(m) => {
                String::from_str("Cryptographic Error: ").concat(m.as_str())
            },
            IdentityError::MultibaseError(m) => {
                String::from_str("Multibase Error: ").concat(m.as_str())
            },
            IdentityError::ArrayConversionError(m) => {
                String::from_str("Array Conversion Error: ").concat(m.as_str())
            },
        }
    }
}

} // verus!
