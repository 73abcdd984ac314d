//! The verdict on an assertion.

use vstd::prelude::*;
use crate::assertion::{RPConfig, RPConfigView, Verification, VerificationView};
use crate::error::VerificationError;
use crate::payload::{build_signed_payload, expected_payload};
use crate::primitives::{
    ecdsa_p256_accepts, ecdsa_verify, public_key_decodes, signature_decodes, valid_public_key,
    valid_signature,
};

verus! {

/// The error, if any, with which a key and a signature are refused before
/// anything is verified. The key is looked at first.
pub open spec fn encoding_error(key: Seq<u8>, signature: Seq<u8>) -> Option<VerificationError> {
    if !valid_public_key(key) {
        Some(VerificationError::KeyParse)
    } else if !valid_signature(signature) {
        Some(VerificationError::SignatureParse)
    } else {
        None
    }
}

/// What the check of `signature` over `payload` under `key` yields: an error
/// where the key or the signature is malformed, else whether ECDSA accepts
/// the signature.
pub open spec fn signature_verdict(key: Seq<u8>, signature: Seq<u8>, payload: Seq<u8>) -> Result<
    bool,
    VerificationError,
> {
    match encoding_error(key, signature) {
        Some(e) => Err(e),
        None => Ok(ecdsa_p256_accepts(key, signature, payload)),
    }
}

/// What the verification of an assertion yields.
///
/// A malformed key or signature is reported first. Then the message that the
/// authenticator should have signed is built, which fails where the client
/// data cannot be written. The verdict is whether ECDSA accepts the signature
/// over that message under the key.
pub open spec fn verdict(
    challenge: Seq<u8>,
    rp_config: RPConfigView,
    verification: VerificationView,
) -> Result<bool, VerificationError> {
    match encoding_error(verification.pub_key, verification.signature) {
        Some(e) => Err(e),
        None => match expected_payload(challenge, rp_config, verification.authenticator_data) {
            Some(payload) => Ok(
                ecdsa_p256_accepts(verification.pub_key, verification.signature, payload),
            ),
            None => Err(VerificationError::Serialization),
        },
    }
}

/// Decodes the key, then the signature, and reports the first that fails.
fn check_encodings(key: &[u8], signature: &[u8]) -> (res: Result<(), VerificationError>)
    ensures
        match res {
            Ok(_) => encoding_error(key@, signature@) is None,
            Err(e) => encoding_error(key@, signature@) == Some(e),
        },
{
    if !public_key_decodes(key) {
        Err(VerificationError::KeyParse)
    } else if !signature_decodes(signature) {
        Err(VerificationError::SignatureParse)
    } else {
        Ok(())
    }
}

/// Checks `signature` over `payload` under `public_key`.
///
/// `payload` is the whole message as it was signed: ECDSA hashes it with
/// SHA-256 itself. `Ok(false)` means that the key and the signature are well
/// formed and the signature does not match; a malformed key or signature is
/// an error.
pub fn verify_signature(public_key: &[u8], signature: &[u8], payload: &[u8]) -> (res: Result<
    bool,
    VerificationError,
>)
    ensures
        res == signature_verdict(public_key@, signature@, payload@),
{
    match check_encodings(public_key, signature) {
        Ok(_) => Ok(ecdsa_verify(public_key, signature, payload)),
        Err(e) => Err(e),
    }
}

/// Verifies an assertion made for `challenge` against the relying party's
/// configuration.
///
/// `Ok(true)` means that the signature is a valid signature, under the
/// presented key, of the authenticator data followed by the digest of the
/// client data that `challenge` and `rp_config` determine. `Ok(false)` means
/// that it is not. An error means that no verdict was reached.
pub fn verify(challenge: &[u8], rp_config: &RPConfig, verification: &Verification) -> (res: Result<
    bool,
    VerificationError,
>)
    ensures
        res == verdict(challenge@, rp_config@, verification@),
{
    match check_encodings(verification.pub_key.as_slice(), verification.signature.as_slice()) {
        Ok(_) => {},
        Err(e) => return Err(e),
    }
    match build_signed_payload(challenge, rp_config, verification.authenticator_data.as_slice()) {
        Ok(payload) => Ok(
            ecdsa_verify(
                verification.pub_key.as_slice(),
                verification.signature.as_slice(),
                payload.as_slice(),
            ),
        ),
        Err(e) => Err(e),
    }
}

/// Where the message that the authenticator should have signed can be built,
/// verifying the assertion is checking its signature over that message.
pub proof fn lemma_verdict_is_signature_verdict_over_expected_payload(
    challenge: Seq<u8>,
    rp_config: RPConfigView,
    verification: VerificationView,
)
    requires
        expected_payload(challenge, rp_config, verification.authenticator_data) is Some,
    ensures
        verdict(challenge, rp_config, verification) == signature_verdict(
            verification.pub_key,
            verification.signature,
            expected_payload(challenge, rp_config, verification.authenticator_data)->0,
        ),
{
}

/// A signature that ECDSA accepts, under a well-formed key, over the message
/// that the challenge and the configuration determine is accepted.
pub proof fn lemma_matching_signature_is_accepted(
    challenge: Seq<u8>,
    rp_config: RPConfigView,
    verification: VerificationView,
)
    requires
        valid_public_key(verification.pub_key),
        valid_signature(verification.signature),
        expected_payload(challenge, rp_config, verification.authenticator_data) is Some,
        ecdsa_p256_accepts(
            verification.pub_key,
            verification.signature,
            expected_payload(challenge, rp_config, verification.authenticator_data)->0,
        ),
    ensures
        verdict(challenge, rp_config, verification) == Ok::<bool, VerificationError>(true),
{
}

/// A well-formed signature that ECDSA does not accept over the message that
/// the challenge and the configuration determine gives `false`, not an error.
pub proof fn lemma_mismatch_is_false(
    challenge: Seq<u8>,
    rp_config: RPConfigView,
    verification: VerificationView,
)
    requires
        valid_public_key(verification.pub_key),
        valid_signature(verification.signature),
        expected_payload(challenge, rp_config, verification.authenticator_data) is Some,
        !ecdsa_p256_accepts(
            verification.pub_key,
            verification.signature,
            expected_payload(challenge, rp_config, verification.authenticator_data)->0,
        ),
    ensures
        verdict(challenge, rp_config, verification) == Ok::<bool, VerificationError>(false),
{
}

/// A malformed key is an error of its own, whatever else is presented.
pub proof fn lemma_malformed_key_is_reported(
    challenge: Seq<u8>,
    rp_config: RPConfigView,
    verification: VerificationView,
)
    requires
        !valid_public_key(verification.pub_key),
    ensures
        verdict(challenge, rp_config, verification) == Err::<bool, VerificationError>(
            VerificationError::KeyParse,
        ),
{
}

/// A key that is neither 33 nor 65 bytes long is reported as malformed.
pub proof fn lemma_key_of_wrong_length_is_reported(
    challenge: Seq<u8>,
    rp_config: RPConfigView,
    verification: VerificationView,
)
    requires
        verification.pub_key.len() != 33,
        verification.pub_key.len() != 65,
    ensures
        verdict(challenge, rp_config, verification) == Err::<bool, VerificationError>(
            VerificationError::KeyParse,
        ),
{
}

/// A malformed signature, presented with a well-formed key, is an error of
/// its own.
pub proof fn lemma_malformed_signature_is_reported(
    challenge: Seq<u8>,
    rp_config: RPConfigView,
    verification: VerificationView,
)
    requires
        valid_public_key(verification.pub_key),
        !valid_signature(verification.signature),
    ensures
        verdict(challenge, rp_config, verification) == Err::<bool, VerificationError>(
            VerificationError::SignatureParse,
        ),
{
}

/// A well-formed signature that has lost bytes at its end is reported as
/// malformed.
pub proof fn lemma_truncated_signature_is_reported(
    challenge: Seq<u8>,
    rp_config: RPConfigView,
    verification: VerificationView,
    kept: int,
)
    requires
        valid_public_key(verification.pub_key),
        valid_signature(verification.signature),
        0 <= kept < verification.signature.len(),
    ensures
        verdict(
            challenge,
            rp_config,
            (VerificationView { signature: verification.signature.take(kept), ..verification }),
        ) == Err::<bool, VerificationError>(VerificationError::SignatureParse),
{
}

/// Whether a verdict is reached does not depend on the authenticator data:
/// with other authenticator data the outcome is an error if and only if it was
/// one, and then the same error.
pub proof fn lemma_authenticator_data_causes_no_error(
    challenge: Seq<u8>,
    rp_config: RPConfigView,
    verification: VerificationView,
    authenticator_data: Seq<u8>,
)
    ensures
        verdict(challenge, rp_config, verification) is Err <==> verdict(
            challenge,
            rp_config,
            (VerificationView { authenticator_data, ..verification }),
        ) is Err,
        verdict(challenge, rp_config, verification) is Err ==> verdict(
            challenge,
            rp_config,
            (VerificationView { authenticator_data, ..verification }),
        ) == verdict(challenge, rp_config, verification),
{
}

/// The verdict is never an error of input decoding: what reaches the
/// verification has been decoded.
pub proof fn lemma_verdict_is_no_decoding_error(
    challenge: Seq<u8>,
    rp_config: RPConfigView,
    verification: VerificationView,
)
    ensures
        verdict(challenge, rp_config, verification) != Err::<bool, VerificationError>(
            VerificationError::InputDecoding,
        ),
{
}

} // verus!
