//! The message that the authenticator signs: its own data, followed by the
//! digest of the client data.

use vstd::prelude::*;
use crate::assertion::{RPConfig, RPConfigView};
use crate::bytes::append;
use crate::client_data::{assertion_client_data, client_data_json, CollectedClientData};
use crate::error::VerificationError;
use crate::primitives::{sha256, sha256_digest};

verus! {

/// The signed message for the authenticator data and the bytes of the client
/// data: the first, then the SHA-256 digest of the second, with nothing in
/// between.
pub open spec fn signed_payload(authenticator_data: Seq<u8>, client_data: Seq<u8>) -> Seq<u8> {
    authenticator_data + sha256(client_data)@
}

/// The message that an authenticator signs for `challenge` under `rp_config`,
/// where the client data can be written.
pub open spec fn expected_payload(
    challenge: Seq<u8>,
    rp_config: RPConfigView,
    authenticator_data: Seq<u8>,
) -> Option<Seq<u8>> {
    match client_data_json(assertion_client_data(challenge, rp_config)) {
        Some(json) => Some(signed_payload(authenticator_data, json)),
        None => None,
    }
}

/// Joins the authenticator data and the digest of the client data.
pub fn assemble(authenticator_data: &[u8], client_data_hash: &[u8; 32]) -> (payload: Vec<u8>)
    ensures
        payload@ == authenticator_data@ + client_data_hash@,
        payload@.len() == authenticator_data@.len() + 32,
{
    let mut payload: Vec<u8> = Vec::new();
    append(&mut payload, authenticator_data);
    append(&mut payload, client_data_hash.as_slice());
    payload
}

/// Builds the message that an authenticator signs for `challenge` under
/// `rp_config`: the client data is built, written as JSON and hashed, and the
/// digest is put behind the authenticator data.
///
/// The result is `Err(VerificationError::Serialization)` exactly when the
/// client data cannot be written.
pub fn build_signed_payload(
    challenge: &[u8],
    rp_config: &RPConfig,
    authenticator_data: &[u8],
) -> (res: Result<Vec<u8>, VerificationError>)
    ensures
        match res {
            Ok(payload) => {
                &&& expected_payload(challenge@, rp_config@, authenticator_data@) == Some(payload@)
                &&& payload@.len() == authenticator_data@.len() + 32
            },
            Err(e) => e == VerificationError::Serialization && expected_payload(
                challenge@,
                rp_config@,
                authenticator_data@,
            ) is None,
        },
{
    let client_data = CollectedClientData::for_assertion(challenge, rp_config);
    match client_data.to_json() {
        Ok(json) => {
            let hash = sha256_digest(json.as_slice());
            Ok(assemble(authenticator_data, &hash))
        },
        Err(e) => Err(e),
    }
}

/// The signed message can be taken apart in one way only: the digest has a
/// fixed length, so two messages are equal only where the authenticator data
/// are equal and the digests are equal.
pub proof fn lemma_signed_payload_is_unambiguous(
    first_data: Seq<u8>,
    first_client_data: Seq<u8>,
    second_data: Seq<u8>,
    second_client_data: Seq<u8>,
)
    requires
        signed_payload(first_data, first_client_data) == signed_payload(
            second_data,
            second_client_data,
        ),
    ensures
        first_data == second_data,
        sha256(first_client_data) == sha256(second_client_data),
{
    let first = signed_payload(first_data, first_client_data);
    let second = signed_payload(second_data, second_client_data);
    let first_hash = sha256(first_client_data);
    let second_hash = sha256(second_client_data);
    assert(first.len() == first_data.len() + 32);
    assert(second.len() == second_data.len() + 32);
    assert forall|i: int| 0 <= i < first_data.len() implies first_data[i] == second_data[i] by {
        assert(first[i] == first_data[i]);
        assert(second[i] == second_data[i]);
    }
    assert(first_data =~= second_data);
    assert forall|i: int| 0 <= i < 32 implies first_hash@[i] == second_hash@[i] by {
        assert(first[first_data.len() + i] == first_hash@[i]);
        assert(second[second_data.len() + i] == second_hash@[i]);
    }
    assert(first_hash@ =~= second_hash@);
    assert(first_hash =~= second_hash);
}

/// Authenticator data that differ in any way are signed as different
/// messages, whatever the client data is.
pub proof fn lemma_signed_payload_carries_authenticator_data(
    first_data: Seq<u8>,
    second_data: Seq<u8>,
    client_data: Seq<u8>,
)
    requires
        first_data != second_data,
    ensures
        signed_payload(first_data, client_data) != signed_payload(second_data, client_data),
{
    if signed_payload(first_data, client_data) == signed_payload(second_data, client_data) {
        lemma_signed_payload_is_unambiguous(first_data, client_data, second_data, client_data);
    }
}

} // verus!
