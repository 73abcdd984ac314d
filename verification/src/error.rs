//! The ways in which a verification can fail before it yields a verdict.

use vstd::prelude::*;

verus! {

/// Why no verdict could be reached.
///
/// A signature that does not match is not an error: it is the verdict `false`.
#[derive(Debug, Clone, Copy, PartialEq, Eq, Structural)]
pub enum VerificationError {
    /// A value handed over by the host did not have the expected shape.
    InputDecoding,
    /// The public key is not the SEC1 encoding of a point of P-256.
    KeyParse,
    /// The signature is not a DER-encoded ECDSA signature.
    SignatureParse,
    /// The client data could not be written as JSON.
    Serialization,
}

impl VerificationError {
    /// The text of the message that goes with each error.
    pub open spec fn message(self) -> Seq<char> {
        match self {
            VerificationError::InputDecoding => "input decoding error"@,
            VerificationError::KeyParse => "public key parse error"@,
            VerificationError::SignatureParse => "signature parse error"@,
            VerificationError::Serialization => "client data serialization error"@,
        }
    }

    /// A short description, for the caller to report.
    pub fn describe(&self) -> (text: String)
        ensures
            text@ == self.message(),
    {
        match self {
            VerificationError::InputDecoding => "input decoding error".to_string(),
            VerificationError::KeyParse => "public key parse error".to_string(),
            VerificationError::SignatureParse => "signature parse error".to_string(),
            VerificationError::Serialization => "client data serialization error".to_string(),
        }
    }
}

} // verus!
