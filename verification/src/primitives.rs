//! What this crate takes from other crates: SHA-256, base64url, the JSON
//! encoding of a string, and ECDSA over P-256.
//!
//! Nothing in this file is proved. Each function below hands its arguments to
//! another crate, and its contract is believed as written. Where the result of
//! a call cannot be stated in a few lines, the contract gives it a name and
//! says no more of it than that equal arguments give equal results.
//!
//! The functions take and return bytes and text only. A key or a signature is
//! therefore decoded wherever it is needed, and no decoded value leaves this
//! file.

use vstd::prelude::*;
use base64::Engine;
use p256::ecdsa::signature::Verifier;
use sha2::Digest;

verus! {

/// The error of `serde_json::to_vec`.
#[verifier::external_type_specification]
#[verifier::external_body]
pub struct ExJsonError(serde_json::Error);

/// The SHA-256 digest of `data`, as `sha2::Sha256::digest` computes it.
pub uninterp spec fn sha256(data: Seq<u8>) -> [u8; 32];

/// Calls `sha2::Sha256::digest` and hands its 32 bytes back as an array.
///
/// Believed: the result is the digest named [`sha256`] of the same bytes.
#[verifier::external_body]
pub(crate) fn sha256_digest(data: &[u8]) -> (digest: [u8; 32])
    ensures
        digest == sha256(data@),
{
    sha2::Sha256::digest(data).into()
}

/// The base64 text of `bytes` in the URL-safe alphabet, without padding, as
/// `base64::engine::general_purpose::URL_SAFE_NO_PAD` encodes it.
pub uninterp spec fn base64url_no_pad(bytes: Seq<u8>) -> Seq<char>;

/// Calls `Engine::encode` of `URL_SAFE_NO_PAD` on the 32 bytes of a digest.
///
/// Believed: the result is the text named [`base64url_no_pad`] of the same
/// bytes. The call panics only when the length of the text does not fit in a
/// `usize`, which 32 bytes of input rule out.
#[verifier::external_body]
pub(crate) fn base64url_encode(bytes: &[u8; 32]) -> (text: String)
    ensures
        text@ == base64url_no_pad(bytes@),
{
    base64::engine::general_purpose::URL_SAFE_NO_PAD.encode(bytes)
}

/// The JSON encoding of the string `text`, quotes included, as
/// `serde_json::to_vec` writes it; `None` where that call fails.
pub uninterp spec fn json_string(text: Seq<char>) -> Option<Seq<u8>>;

/// Calls `serde_json::to_vec` on a string slice.
///
/// Believed: the outcome is the one named [`json_string`] of the same text,
/// so that the same text is always encoded alike. Nothing is claimed about
/// which texts are encoded and which are refused.
#[verifier::external_body]
pub(crate) fn json_encode_str(text: &str) -> (res: Result<Vec<u8>, serde_json::Error>)
    ensures
        match res {
            Ok(bytes) => json_string(text@) == Some(bytes@),
            Err(_) => json_string(text@) is None,
        },
{
    serde_json::to_vec(text)
}

/// The length and the leading byte that SEC1 prescribes for an encoded point
/// of P-256 other than the point at infinity: 33 bytes that start with 2, 3
/// or 5, or 65 bytes that start with 4.
pub open spec fn sec1_point_shape(key: Seq<u8>) -> bool {
    ||| key.len() == 33 && (key[0] == 2 || key[0] == 3 || key[0] == 5)
    ||| key.len() == 65 && key[0] == 4
}

/// Whether the coordinates in `key` are those of a point of P-256, as
/// `p256::PublicKey::from_sec1_bytes` decides it.
pub uninterp spec fn p256_point_decodes(key: Seq<u8>) -> bool;

/// The byte strings that `p256::PublicKey::from_sec1_bytes` accepts.
pub open spec fn valid_public_key(key: Seq<u8>) -> bool {
    sec1_point_shape(key) && p256_point_decodes(key)
}

/// Calls `p256::PublicKey::from_sec1_bytes` and tells whether it succeeded.
///
/// Believed: the call succeeds exactly on the byte strings that
/// [`valid_public_key`] describes. Of these the shape is stated in full: the
/// call refuses an empty input, a leading byte other than 0, 2, 3, 4 and 5, a
/// length other than the one that belongs to the leading byte, and the point
/// at infinity. Whether the coordinates lie on the curve is left to the call.
#[verifier::external_body]
pub(crate) fn public_key_decodes(key: &[u8]) -> (ok: bool)
    ensures
        ok == (sec1_point_shape(key@) && p256_point_decodes(key@)),
{
    p256::PublicKey::from_sec1_bytes(key).is_ok()
}

/// The outer frame of a DER-encoded ECDSA signature for P-256: the tag of a
/// SEQUENCE, then one byte that counts all the bytes after it.
///
/// Each of the two integers takes at most 35 bytes, so the count is below 128
/// and DER writes it in a single byte.
pub open spec fn der_sequence_shape(signature: Seq<u8>) -> bool {
    &&& signature.len() >= 2
    &&& signature[0] == 0x30
    &&& signature[1] as int + 2 == signature.len()
}

/// Whether the bytes inside the frame are two DER integers that
/// `p256::ecdsa::DerSignature::from_bytes` accepts as `r` and `s`.
pub uninterp spec fn der_integers_decode(signature: Seq<u8>) -> bool;

/// The byte strings that `p256::ecdsa::DerSignature::from_bytes` accepts.
pub open spec fn valid_signature(signature: Seq<u8>) -> bool {
    der_sequence_shape(signature) && der_integers_decode(signature)
}

/// Calls `p256::ecdsa::DerSignature::from_bytes` and tells whether it
/// succeeded.
///
/// Believed: the call succeeds exactly on the byte strings that
/// [`valid_signature`] describes. Of these the frame is stated in full: the
/// call reads the tag of a SEQUENCE and a length, refuses a length that is not
/// in its shortest form, refuses bytes left over after the sequence, and
/// refuses an integer of more than 32 significant bytes. What makes the two
/// integers well formed is left to the call.
#[verifier::external_body]
pub(crate) fn signature_decodes(signature: &[u8]) -> (ok: bool)
    ensures
        ok == (der_sequence_shape(signature@) && der_integers_decode(signature@)),
{
    p256::ecdsa::DerSignature::from_bytes(signature).is_ok()
}

/// Whether `signature` is an ECDSA signature of `message`, hashed with
/// SHA-256, under the key `key`, as `VerifyingKey::verify` of `p256` decides
/// it. It is `false` where the key or the signature does not decode.
pub uninterp spec fn ecdsa_p256_accepts(key: Seq<u8>, signature: Seq<u8>, message: Seq<u8>) -> bool;

/// Decodes the key and the signature, turns the key into a
/// `p256::ecdsa::VerifyingKey` and calls its `verify` on the message.
///
/// Believed: the answer is the one named [`ecdsa_p256_accepts`] of the same
/// three byte strings.
#[verifier::external_body]
pub(crate) fn ecdsa_verify(key: &[u8], signature: &[u8], message: &[u8]) -> (accepted: bool)
    ensures
        accepted == ecdsa_p256_accepts(key@, signature@, message@),
{
    match (p256::PublicKey::from_sec1_bytes(key), p256::ecdsa::DerSignature::from_bytes(signature)) {
        (Ok(key), Ok(signature)) => {
            p256::ecdsa::VerifyingKey::from(&key).verify(message, &signature).is_ok()
        },
        _ => false,
    }
}

} // verus!
