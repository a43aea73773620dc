//! Tests of sealing, resolving and the envelope ceiling, with the real
//! cryptography linked in.

use base64::Engine;
use openssl::pkey::PKey;
use openssl::rsa::{Padding, Rsa};
use pam_exec::protocol::{
    build_envelope, encode_request_body, failure_delay_secs, resolve_response, seal_request,
    RequestBody, Resolution, SealError,
};
use pam_exec::{ENVELOPE_CEILING, FAILURE_DELAY_SECS};

fn request_body() -> RequestBody {
    RequestBody {
        source: b"workstation".to_vec(),
        user: b"alice".to_vec(),
        service: b"sshd".to_vec(),
        auth_type: b"auth".to_vec(),
    }
}

fn b64(data: &[u8]) -> Vec<u8> {
    base64::engine::general_purpose::STANDARD.encode(data).into_bytes()
}

struct TestKey {
    public_b64: Vec<u8>,
    private: PKey<openssl::pkey::Private>,
}

fn test_key() -> TestKey {
    let rsa = Rsa::generate(2048).unwrap();
    let public_der = rsa.public_key_to_der().unwrap();
    TestKey { public_b64: b64(&public_der), private: PKey::from_rsa(rsa).unwrap() }
}

fn aes(key: &[u8], data: &[u8]) -> Vec<u8> {
    openssl::symm::encrypt(openssl::symm::Cipher::aes_256_ecb(), key, None, data).unwrap()
}

#[test]
fn seal_and_recover_round_trip() {
    let key = test_key();
    let body = encode_request_body(&request_body());
    let sealed = seal_request(&key.public_b64, &body).unwrap();
    assert_eq!(sealed.session_key.len(), 32);
    assert!(sealed.envelope.len() < ENVELOPE_CEILING);

    // The envelope is a JSON document with the two base64 ciphertexts.
    let text = String::from_utf8(sealed.envelope.clone()).unwrap();
    let value: serde_json::Value = serde_json::from_str(&text).unwrap();
    let engine = &base64::engine::general_purpose::STANDARD;
    let encrypted_key = engine.decode(value["encrypted_key"].as_str().unwrap()).unwrap();
    let encrypted_body = engine.decode(value["encrypted_body"].as_str().unwrap()).unwrap();

    // The device's private key recovers the session key.
    let mut dec = openssl::encrypt::Decrypter::new(&key.private).unwrap();
    dec.set_rsa_padding(Padding::PKCS1).unwrap();
    let mut out = vec![0; dec.decrypt_len(&encrypted_key).unwrap()];
    let n = dec.decrypt(&encrypted_key, &mut out).unwrap();
    out.truncate(n);
    assert_eq!(out, sealed.session_key);

    // The session key recovers the body bytes exactly.
    let plain = openssl::symm::decrypt(
        openssl::symm::Cipher::aes_256_ecb(),
        &sealed.session_key,
        None,
        &encrypted_body,
    )
    .unwrap();
    assert_eq!(plain, body);
}

#[test]
fn resolve_response_accepted() {
    let key = test_key();
    let sealed = seal_request(&key.public_b64, &encode_request_body(&request_body())).unwrap();
    let frame = aes(&sealed.session_key, b"{\"accepted\":true}");
    assert!(frame.len() <= pam_exec::RESPONSE_CAPACITY);
    assert_eq!(resolve_response(&sealed.session_key, &frame), Resolution::Accepted);
}

#[test]
fn resolve_response_rejected() {
    let key = test_key();
    let sealed = seal_request(&key.public_b64, &encode_request_body(&request_body())).unwrap();
    let frame = aes(&sealed.session_key, b"{ \"accepted\" : false }");
    assert_eq!(resolve_response(&sealed.session_key, &frame), Resolution::Rejected);
}

#[test]
fn resolve_response_failures() {
    let key = test_key();
    let sealed = seal_request(&key.public_b64, &encode_request_body(&request_body())).unwrap();
    // Not a ciphertext at all.
    assert_eq!(
        resolve_response(&sealed.session_key, &b"garbage".to_vec()),
        Resolution::Failed
    );
    // A tampered ciphertext.
    let mut frame = aes(&sealed.session_key, b"{\"accepted\":true}");
    let last = frame.len() - 1;
    frame[last] ^= 0x01;
    assert_eq!(resolve_response(&sealed.session_key, &frame), Resolution::Failed);
    // A valid ciphertext of a malformed document.
    let frame = aes(&sealed.session_key, b"{\"accepted\":1}");
    assert_eq!(resolve_response(&sealed.session_key, &frame), Resolution::Failed);
    // A frame beyond the single-frame capacity is out of protocol, even
    // when it would decrypt.
    let long = aes(&sealed.session_key, &vec![0x20u8; 600]);
    assert!(long.len() > pam_exec::RESPONSE_CAPACITY);
    assert_eq!(resolve_response(&sealed.session_key, &long), Resolution::Failed);
}

#[test]
fn failure_delay_policy() {
    assert_eq!(failure_delay_secs(&Resolution::Failed), FAILURE_DELAY_SECS);
    assert_eq!(failure_delay_secs(&Resolution::Accepted), 0);
    assert_eq!(failure_delay_secs(&Resolution::Rejected), 0);
}

#[test]
fn seal_rejects_bad_keys() {
    let body = encode_request_body(&request_body());
    assert!(matches!(seal_request(&b"not base64!".to_vec(), &body), Err(SealError::KeyDecode)));
    assert!(matches!(seal_request(&b64(b"not der"), &body), Err(SealError::KeyParse)));
}

#[test]
fn seal_oversized_body_is_fatal() {
    let key = test_key();
    let mut body = request_body();
    body.user = vec![0x61; 1200];
    let encoded = encode_request_body(&body);
    let err = match seal_request(&key.public_b64, &encoded) {
        Err(e) => e,
        Ok(_) => panic!("an oversized body must not seal"),
    };
    assert_eq!(err, SealError::EnvelopeTooLarge);
    assert!(err.is_fatal());
    assert!(!SealError::KeyDecode.is_fatal());
}

#[test]
fn envelope_ceiling_is_strict() {
    // 40 bytes of framing; base64 grows each ciphertext to 4 bytes per 3.
    // 300 + 561 source bytes give 40 + 400 + 748 = 1188 bytes: fits.
    let fits = build_envelope(&vec![0u8; 300], &vec![0u8; 561]).unwrap();
    assert_eq!(fits.len(), 1188);
    // 300 + 570 source bytes give 40 + 400 + 760 = 1200 bytes: refused.
    assert_eq!(
        build_envelope(&vec![0u8; 300], &vec![0u8; 570]),
        Err(SealError::EnvelopeTooLarge)
    );
}
