use p256::ecdsa::signature::Signer;
use p256::ecdsa::{DerSignature, SigningKey};
use webauthn_verify::payload::build_signed_payload;
use webauthn_verify::verdict::verify_signature;
use webauthn_verify::{verify, RPConfig, Verification, VerificationError};

const ORIGIN: &str = "https://example.test";

fn config(origin: &str, cross_origin: bool) -> RPConfig {
    RPConfig { origin: origin.to_string(), cross_origin }
}

fn signing_key(seed: u8) -> SigningKey {
    let mut secret = [0u8; 32];
    for (i, byte) in secret.iter_mut().enumerate() {
        *byte = seed.wrapping_mul(31).wrapping_add(i as u8).wrapping_add(1);
    }
    SigningKey::from_slice(&secret).unwrap()
}

fn public_key(key: &SigningKey, compress: bool) -> Vec<u8> {
    key.verifying_key().to_encoded_point(compress).as_bytes().to_vec()
}

fn sign(key: &SigningKey, message: &[u8]) -> Vec<u8> {
    let signature: DerSignature = key.sign(message);
    signature.as_bytes().to_vec()
}

fn assertion(key: &SigningKey, challenge: &[u8], rp_config: &RPConfig, authenticator_data: &[u8]) -> Verification {
    let payload = build_signed_payload(challenge, rp_config, authenticator_data).unwrap();
    Verification {
        pub_key: public_key(key, false),
        authenticator_data: authenticator_data.to_vec(),
        signature: sign(key, &payload),
    }
}

fn hex(text: &str) -> Vec<u8> {
    let digits: Vec<u8> = text.bytes().map(|c| (c as char).to_digit(16).unwrap() as u8).collect();
    digits.chunks(2).map(|pair| pair[0] * 16 + pair[1]).collect()
}

#[test]
fn end_to_end_example() {
    let key = signing_key(1);
    let challenge = [0u8; 32];
    let authenticator_data = [0x42u8; 37];
    let json = "{\"type\":\"webauthn.get\",\"challenge\":\"Zmh6rfhivXdsj8GLjp-OIAiXFIVu4jOzkCpZHQ1fKSU\",\"origin\":\"https://example.test\",\"crossOrigin\":false}";
    let mut payload = authenticator_data.to_vec();
    payload.extend_from_slice(&<sha2::Sha256 as sha2::Digest>::digest(json.as_bytes()));
    let verification = Verification {
        pub_key: public_key(&key, false),
        authenticator_data: authenticator_data.to_vec(),
        signature: sign(&key, &payload),
    };
    assert_eq!(verify(&challenge, &config(ORIGIN, false), &verification), Ok(true));
    assert_eq!(verify(&challenge, &config("https://evil.test", false), &verification), Ok(false));
}

#[test]
fn signature_of_a_fresh_key_is_accepted() {
    for round in 0u8..4 {
        let key = SigningKey::random(&mut p256::elliptic_curve::rand_core::OsRng);
        let challenge = [round; 32];
        let rp_config = config(ORIGIN, round % 2 == 0);
        let verification = assertion(&key, &challenge, &rp_config, &[round; 37]);
        assert_eq!(verify(&challenge, &rp_config, &verification), Ok(true));
    }
}

#[test]
fn signature_is_accepted_for_any_length_of_challenge_and_authenticator_data() {
    let key = signing_key(2);
    for length in [0usize, 1, 31, 32, 33, 64, 200] {
        let challenge = vec![0xa5u8; length];
        let authenticator_data = vec![0x5au8; 2 * length];
        let rp_config = config(ORIGIN, true);
        let verification = assertion(&key, &challenge, &rp_config, &authenticator_data);
        assert_eq!(verify(&challenge, &rp_config, &verification), Ok(true));
    }
}

#[test]
fn compressed_key_is_accepted() {
    let key = signing_key(3);
    let challenge = [1u8; 32];
    let rp_config = config(ORIGIN, false);
    let mut verification = assertion(&key, &challenge, &rp_config, &[2u8; 37]);
    verification.pub_key = public_key(&key, true);
    assert_eq!(verification.pub_key.len(), 33);
    assert_eq!(verify(&challenge, &rp_config, &verification), Ok(true));
}

#[test]
fn signature_of_another_key_is_rejected() {
    let challenge = [1u8; 32];
    let rp_config = config(ORIGIN, false);
    let mut verification = assertion(&signing_key(4), &challenge, &rp_config, &[2u8; 37]);
    verification.pub_key = public_key(&signing_key(5), false);
    assert_eq!(verify(&challenge, &rp_config, &verification), Ok(false));
}

#[test]
fn flipped_bit_in_authenticator_data_is_rejected() {
    let key = signing_key(6);
    let challenge = [0u8; 32];
    let rp_config = config(ORIGIN, false);
    let verification = assertion(&key, &challenge, &rp_config, &[0x42u8; 37]);
    for position in [0usize, 17, 36] {
        for bit in 0..8 {
            let mut tampered = verification.clone();
            tampered.authenticator_data[position] ^= 1 << bit;
            assert_eq!(verify(&challenge, &rp_config, &tampered), Ok(false));
        }
    }
    let mut longer = verification.clone();
    longer.authenticator_data.push(0);
    assert_eq!(verify(&challenge, &rp_config, &longer), Ok(false));
    assert_eq!(verify(&challenge, &rp_config, &verification), Ok(true));
}

#[test]
fn flipped_bit_in_challenge_is_rejected() {
    let key = signing_key(7);
    let challenge = [0u8; 32];
    let rp_config = config(ORIGIN, false);
    let verification = assertion(&key, &challenge, &rp_config, &[0x42u8; 37]);
    for position in [0usize, 15, 31] {
        for bit in 0..8 {
            let mut tampered = challenge;
            tampered[position] ^= 1 << bit;
            assert_eq!(verify(&tampered, &rp_config, &verification), Ok(false));
        }
    }
}

#[test]
fn flipped_bit_in_origin_is_rejected() {
    let key = signing_key(8);
    let challenge = [0u8; 32];
    let rp_config = config(ORIGIN, false);
    let verification = assertion(&key, &challenge, &rp_config, &[0x42u8; 37]);
    for position in 0..ORIGIN.len() {
        let mut bytes = ORIGIN.as_bytes().to_vec();
        bytes[position] ^= 1;
        let tampered = config(&String::from_utf8(bytes).unwrap(), false);
        assert_eq!(verify(&challenge, &tampered, &verification), Ok(false));
    }
}

#[test]
fn flipped_bit_in_signature_value_is_rejected() {
    let key = signing_key(9);
    let challenge = [0u8; 32];
    let rp_config = config(ORIGIN, false);
    let verification = assertion(&key, &challenge, &rp_config, &[0x42u8; 37]);
    let last = verification.signature.len() - 1;
    for bit in 0..8 {
        let mut tampered = verification.clone();
        tampered.signature[last] ^= 1 << bit;
        assert_eq!(verify(&challenge, &rp_config, &tampered), Ok(false));
    }
}

#[test]
fn flipped_bit_in_signature_frame_is_an_error() {
    let key = signing_key(9);
    let challenge = [0u8; 32];
    let rp_config = config(ORIGIN, false);
    let verification = assertion(&key, &challenge, &rp_config, &[0x42u8; 37]);
    for position in [0usize, 1] {
        for bit in 0..8 {
            let mut tampered = verification.clone();
            tampered.signature[position] ^= 1 << bit;
            assert_eq!(
                verify(&challenge, &rp_config, &tampered),
                Err(VerificationError::SignatureParse)
            );
        }
    }
}

#[test]
fn flipped_parity_of_compressed_key_is_rejected() {
    let key = signing_key(10);
    let challenge = [0u8; 32];
    let rp_config = config(ORIGIN, false);
    let mut verification = assertion(&key, &challenge, &rp_config, &[0x42u8; 37]);
    verification.pub_key = public_key(&key, true);
    assert_eq!(verify(&challenge, &rp_config, &verification), Ok(true));
    verification.pub_key[0] ^= 1;
    assert_eq!(verify(&challenge, &rp_config, &verification), Ok(false));
}

#[test]
fn flipped_bit_in_uncompressed_key_leaves_the_curve() {
    let key = signing_key(11);
    let challenge = [0u8; 32];
    let rp_config = config(ORIGIN, false);
    let verification = assertion(&key, &challenge, &rp_config, &[0x42u8; 37]);
    for position in [1usize, 32, 33, 64] {
        let mut tampered = verification.clone();
        tampered.pub_key[position] ^= 1;
        assert_eq!(verify(&challenge, &rp_config, &tampered), Err(VerificationError::KeyParse));
    }
}

#[test]
fn signature_made_for_cross_origin_fails_without_the_flag() {
    let key = signing_key(12);
    let challenge = [0x33u8; 32];
    let authenticator_data = [0x44u8; 37];
    let made_with_flag = assertion(&key, &challenge, &config(ORIGIN, true), &authenticator_data);
    assert_eq!(verify(&challenge, &config(ORIGIN, true), &made_with_flag), Ok(true));
    assert_eq!(verify(&challenge, &config(ORIGIN, false), &made_with_flag), Ok(false));
    let made_without_flag = assertion(&key, &challenge, &config(ORIGIN, false), &authenticator_data);
    assert_eq!(verify(&challenge, &config(ORIGIN, false), &made_without_flag), Ok(true));
    assert_eq!(verify(&challenge, &config(ORIGIN, true), &made_without_flag), Ok(false));
}

#[test]
fn signature_over_the_raw_challenge_is_rejected() {
    let key = signing_key(13);
    let challenge = [0u8; 32];
    let authenticator_data = [0x42u8; 37];
    let raw = base64::Engine::encode(&base64::engine::general_purpose::URL_SAFE_NO_PAD, challenge);
    let json = format!(
        "{{\"type\":\"webauthn.get\",\"challenge\":\"{}\",\"origin\":\"{}\",\"crossOrigin\":false}}",
        raw, ORIGIN
    );
    let mut payload = authenticator_data.to_vec();
    payload.extend_from_slice(&<sha2::Sha256 as sha2::Digest>::digest(json.as_bytes()));
    let verification = Verification {
        pub_key: public_key(&key, false),
        authenticator_data: authenticator_data.to_vec(),
        signature: sign(&key, &payload),
    };
    assert_eq!(verify(&challenge, &config(ORIGIN, false), &verification), Ok(false));
}

#[test]
fn signature_over_a_creation_ceremony_is_rejected() {
    let key = signing_key(14);
    let challenge = [0u8; 32];
    let authenticator_data = [0x42u8; 37];
    let json = "{\"type\":\"webauthn.create\",\"challenge\":\"Zmh6rfhivXdsj8GLjp-OIAiXFIVu4jOzkCpZHQ1fKSU\",\"origin\":\"https://example.test\",\"crossOrigin\":false}";
    let mut payload = authenticator_data.to_vec();
    payload.extend_from_slice(&<sha2::Sha256 as sha2::Digest>::digest(json.as_bytes()));
    let verification = Verification {
        pub_key: public_key(&key, false),
        authenticator_data: authenticator_data.to_vec(),
        signature: sign(&key, &payload),
    };
    assert_eq!(verify(&challenge, &config(ORIGIN, false), &verification), Ok(false));
}

#[test]
fn verdict_is_the_same_on_every_call() {
    let key = signing_key(15);
    let challenge = [0u8; 32];
    let rp_config = config(ORIGIN, false);
    let verification = assertion(&key, &challenge, &rp_config, &[0x42u8; 37]);
    for _ in 0..3 {
        assert_eq!(verify(&challenge, &rp_config, &verification), Ok(true));
        assert_eq!(verify(&[1u8; 32], &rp_config, &verification), Ok(false));
    }
}

#[test]
fn verdict_is_the_signature_check_over_the_signed_payload() {
    let key = signing_key(19);
    let challenge = [0x77u8; 20];
    let rp_config = config(ORIGIN, true);
    let verification = assertion(&key, &challenge, &rp_config, &[0x42u8; 37]);
    let payload = build_signed_payload(&challenge, &rp_config, &verification.authenticator_data).unwrap();
    assert_eq!(
        verify(&challenge, &rp_config, &verification),
        verify_signature(&verification.pub_key, &verification.signature, &payload)
    );
    let other = config("https://other.test", true);
    let payload = build_signed_payload(&challenge, &other, &verification.authenticator_data).unwrap();
    assert_eq!(verify(&challenge, &other, &verification), Ok(false));
    assert_eq!(verify_signature(&verification.pub_key, &verification.signature, &payload), Ok(false));
}

#[test]
fn signature_check_takes_the_message_as_it_was_signed() {
    let key = signing_key(16);
    let message = b"authenticator data and digest";
    let signature = sign(&key, message);
    assert_eq!(verify_signature(&public_key(&key, false), &signature, message), Ok(true));
    assert_eq!(verify_signature(&public_key(&key, true), &signature, message), Ok(true));
    assert_eq!(verify_signature(&public_key(&key, false), &signature, b"another message"), Ok(false));
    assert_eq!(verify_signature(&public_key(&signing_key(17), false), &signature, message), Ok(false));
    let digest = <sha2::Sha256 as sha2::Digest>::digest(message);
    assert_eq!(verify_signature(&public_key(&key, false), &signature, &digest), Ok(false));
}

#[test]
fn signature_check_accepts_a_published_signature() {
    let mut key = vec![4u8];
    key.extend(hex("60fed4ba255a9d31c961eb74c6356d68c049b8923b61fa6ce669622e60f29fb6"));
    key.extend(hex("7903fe1008b8bc99a41ae9e95628bc64f2f1b20c2d7e9f5177a3c294d4462299"));
    let r = hex("efd48b2aacb6a8fd1140dd9cd45e81d69d2c877b56aaf991c34d0ea84eaf3716");
    let s = hex("f7cb1c942d657c41d436c7a1b6e29f65f3e900dbb9aff4064dc4ab2f843acda8");
    let mut signature = vec![0x30, 0x46, 0x02, 0x21, 0x00];
    signature.extend(r);
    signature.extend([0x02, 0x21, 0x00]);
    signature.extend(s);
    assert_eq!(verify_signature(&key, &signature, b"sample"), Ok(true));
    assert_eq!(verify_signature(&key, &signature, b"test"), Ok(false));
}

#[test]
fn signature_check_reports_malformed_inputs() {
    let key = signing_key(18);
    let message = b"message";
    let signature = sign(&key, message);
    assert_eq!(verify_signature(&[], &signature, message), Err(VerificationError::KeyParse));
    assert_eq!(
        verify_signature(&public_key(&key, false), &[], message),
        Err(VerificationError::SignatureParse)
    );
    assert_eq!(verify_signature(&[], &[], message), Err(VerificationError::KeyParse));
}
