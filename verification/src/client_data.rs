//! The client data of an assertion: the structure that the authenticator
//! signs, through its digest, and the bytes it is written as.
//!
//! The client data is never taken from the caller. It is built anew from the
//! challenge and the relying party's configuration, and written as JSON with
//! the keys `type`, `challenge`, `origin` and `crossOrigin`, in this order and
//! without white space.

use vstd::prelude::*;
use vstd::string::*;
use vstd::utf8::{is_ascii_chars, is_ascii_chars_encode_utf8};
use crate::assertion::{RPConfig, RPConfigView};
use crate::bytes::append;
use crate::error::VerificationError;
use crate::primitives::{
    base64url_encode, base64url_no_pad, json_encode_str, json_string, sha256, sha256_digest,
};

verus! {

/// The ceremony that a client data belongs to.
#[derive(Debug, Clone, Copy, PartialEq, Eq, Structural)]
pub enum ClientDataType {
    /// A credential is being created.
    Create,
    /// An assertion is being made with an existing credential.
    Get,
}

impl ClientDataType {
    /// The string that stands for the ceremony in the client data.
    pub open spec fn wire_name(self) -> Seq<char> {
        match self {
            ClientDataType::Create => "webauthn.create"@,
            ClientDataType::Get => "webauthn.get"@,
        }
    }

    /// The string that stands for the ceremony in the client data.
    pub fn as_str(&self) -> (name: &'static str)
        ensures
            name@ == self.wire_name(),
    {
        match self {
            ClientDataType::Create => "webauthn.create",
            ClientDataType::Get => "webauthn.get",
        }
    }
}

/// The client data that the authenticator is expected to have signed.
#[derive(Debug, Clone)]
pub struct CollectedClientData {
    /// The ceremony. It keeps a signature made in one ceremony from being
    /// presented in the other.
    pub ty: ClientDataType,
    /// The base64url text of the digest of the relying party's challenge.
    pub challenge: String,
    /// The origin of the requester.
    pub origin: String,
    /// Whether the request came from another origin than its ancestors'.
    pub cross_origin: Option<bool>,
}

/// A [`CollectedClientData`] with its strings as sequences of characters.
pub struct ClientDataView {
    pub ty: ClientDataType,
    pub challenge: Seq<char>,
    pub origin: Seq<char>,
    pub cross_origin: Option<bool>,
}

impl View for CollectedClientData {
    type V = ClientDataView;

    open spec fn view(&self) -> ClientDataView {
        ClientDataView {
            ty: self.ty,
            challenge: self.challenge@,
            origin: self.origin@,
            cross_origin: self.cross_origin,
        }
    }
}

/// The `challenge` member for a challenge: the challenge is hashed first, and
/// the digest is written in base64url without padding.
pub open spec fn challenge_field(challenge: Seq<u8>) -> Seq<char> {
    base64url_no_pad(sha256(challenge)@)
}

/// The client data of an assertion made for `challenge` under `rp_config`.
pub open spec fn assertion_client_data(challenge: Seq<u8>, rp_config: RPConfigView) -> ClientDataView {
    ClientDataView {
        ty: ClientDataType::Get,
        challenge: challenge_field(challenge),
        origin: rp_config.origin,
        cross_origin: Some(rp_config.cross_origin),
    }
}

/// The JSON text of the `crossOrigin` member.
pub open spec fn json_flag(flag: Option<bool>) -> Seq<u8> {
    match flag {
        Some(true) => "true".spec_bytes(),
        Some(false) => "false".spec_bytes(),
        None => "null".spec_bytes(),
    }
}

/// The bytes that a client data is written as, where each of its three
/// strings can be encoded.
pub open spec fn client_data_json(data: ClientDataView) -> Option<Seq<u8>> {
    match (json_string(data.ty.wire_name()), json_string(data.challenge), json_string(data.origin)) {
        (Some(ty), Some(challenge), Some(origin)) => Some(
            "{\"type\":".spec_bytes() + ty
                + ",\"challenge\":".spec_bytes() + challenge
                + ",\"origin\":".spec_bytes() + origin
                + ",\"crossOrigin\":".spec_bytes() + json_flag(data.cross_origin)
                + "}".spec_bytes(),
        ),
        _ => None,
    }
}

impl CollectedClientData {
    /// Builds the client data of an assertion made for `challenge` under
    /// `rp_config`.
    pub fn for_assertion(challenge: &[u8], rp_config: &RPConfig) -> (data: CollectedClientData)
        ensures
            data@ == assertion_client_data(challenge@, rp_config@),
    {
        let digest = sha256_digest(challenge);
        CollectedClientData {
            ty: ClientDataType::Get,
            challenge: base64url_encode(&digest),
            origin: rp_config.origin.clone(),
            cross_origin: Some(rp_config.cross_origin),
        }
    }

    /// Writes the client data as JSON.
    ///
    /// The result is `Err(VerificationError::Serialization)` exactly when one
    /// of the three strings cannot be encoded.
    pub fn to_json(&self) -> (res: Result<Vec<u8>, VerificationError>)
        ensures
            match res {
                Ok(bytes) => client_data_json(self@) == Some(bytes@),
                Err(e) => e == VerificationError::Serialization && client_data_json(self@) is None,
            },
    {
        let ty = match json_encode_str(self.ty.as_str()) {
            Ok(bytes) => bytes,
            Err(_) => return Err(VerificationError::Serialization),
        };
        let challenge = match json_encode_str(self.challenge.as_str()) {
            Ok(bytes) => bytes,
            Err(_) => return Err(VerificationError::Serialization),
        };
        let origin = match json_encode_str(self.origin.as_str()) {
            Ok(bytes) => bytes,
            Err(_) => return Err(VerificationError::Serialization),
        };
        let mut out: Vec<u8> = Vec::new();
        append(&mut out, "{\"type\":".as_bytes());
        append(&mut out, ty.as_slice());
        append(&mut out, ",\"challenge\":".as_bytes());
        append(&mut out, challenge.as_slice());
        append(&mut out, ",\"origin\":".as_bytes());
        append(&mut out, origin.as_slice());
        append(&mut out, ",\"crossOrigin\":".as_bytes());
        match self.cross_origin {
            Some(true) => append(&mut out, "true".as_bytes()),
            Some(false) => append(&mut out, "false".as_bytes()),
            None => append(&mut out, "null".as_bytes()),
        }
        append(&mut out, "}".as_bytes());
        Ok(out)
    }
}

/// The `challenge` member is determined by the challenge alone: equal
/// challenges give equal members, whatever the origin and the flag are.
pub proof fn lemma_challenge_field_is_determined_by_challenge(
    first: Seq<u8>,
    first_config: RPConfigView,
    second: Seq<u8>,
    second_config: RPConfigView,
)
    requires
        first == second,
    ensures
        assertion_client_data(first, first_config).challenge == assertion_client_data(
            second,
            second_config,
        ).challenge,
        assertion_client_data(first, first_config).challenge == challenge_field(first),
{
}

/// The flag is part of what is signed: where the client data can be written,
/// the client data for one challenge and one origin is written differently
/// for the two values of the flag.
pub proof fn lemma_cross_origin_flag_changes_client_data(challenge: Seq<u8>, origin: Seq<char>)
    requires
        client_data_json(
            assertion_client_data(challenge, (RPConfigView { origin, cross_origin: true })),
        ) is Some,
    ensures
        client_data_json(
            assertion_client_data(challenge, (RPConfigView { origin, cross_origin: true })),
        ) != client_data_json(
            assertion_client_data(challenge, (RPConfigView { origin, cross_origin: false })),
        ),
{
    reveal_strlit("true");
    reveal_strlit("false");
    assert(is_ascii_chars("true"@) && is_ascii_chars("false"@));
    is_ascii_chars_encode_utf8("true"@);
    is_ascii_chars_encode_utf8("false"@);
    let with_flag = client_data_json(
        assertion_client_data(challenge, RPConfigView { origin, cross_origin: true }),
    );
    let without_flag = client_data_json(
        assertion_client_data(challenge, RPConfigView { origin, cross_origin: false }),
    );
    assert("true".spec_bytes().len() == 4);
    assert("false".spec_bytes().len() == 5);
    assert(without_flag is Some);
    assert(with_flag->0.len() + 1 == without_flag->0.len());
}

} // verus!
