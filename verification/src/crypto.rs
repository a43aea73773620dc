//! Cryptographic primitives of the protocol, each behind a trusted wrapper:
//! base64 of the two ciphertexts, the AES-256-ECB cipher for the body and the
//! response, the RSA encryption of the session key, and the random session
//! key itself.
//!
//! The wrappers state only what the underlying crates document. The values
//! of the base64 and AES results are given names (`b64_of`, `b64_decode_of`,
//! `aes256_encrypt_of`, `aes256_decrypt_of`), as are the success of the DER
//! parse (`rsa_der_ok`) and the relation a PKCS#1 ciphertext bears to its
//! plaintext (`rsa_pkcs1_sealed`): the contracts of the callers speak of
//! those names, and nothing is claimed about the bytes themselves beyond
//! the stated length and alphabet facts and the decrypt/encrypt inversion.
//!
//! The symmetric cipher is AES-256-ECB with no IV or nonce: the same
//! plaintext under the same key always yields the same ciphertext. That is
//! a known weakness, kept deliberately for wire compatibility with the
//! deployed devices; the session key being fresh and single-use per attempt
//! limits the exposure.

use vstd::prelude::*;

verus! {

/// The base64 form (standard alphabet, `=` padding) of a byte string.
pub uninterp spec fn b64_of(b: Seq<u8>) -> Seq<u8>;

/// The AES-256-ECB encryption (PKCS padding, no IV) of `pt` under `key`.
pub uninterp spec fn aes256_encrypt_of(key: Seq<u8>, pt: Seq<u8>) -> Seq<u8>;

/// The AES-256-ECB decryption of `ct` under `key`: `None` when the
/// ciphertext does not decrypt to a correctly padded plaintext.
pub uninterp spec fn aes256_decrypt_of(key: Seq<u8>, ct: Seq<u8>) -> Option<Seq<u8>>;

/// What base64's `STANDARD` engine decodes a byte string to: `None` when
/// the input is not a valid padded base64 string.
pub uninterp spec fn b64_decode_of(s: Seq<u8>) -> Option<Seq<u8>>;

/// Whether `openssl::rsa::Rsa::public_key_from_der` parses these bytes as a
/// DER-encoded RSA public key.
pub uninterp spec fn rsa_der_ok(der: Seq<u8>) -> bool;

/// Whether `ct` is a PKCS#1 v1.5 RSA encryption of `pt` under the public
/// key that `der` carries: the private key matching `der` recovers `pt`
/// from `ct`. Producing such a ciphertext is randomized; this relation
/// over the outcome is deterministic.
pub uninterp spec fn rsa_pkcs1_sealed(der: Seq<u8>, ct: Seq<u8>, pt: Seq<u8>) -> bool;

/// A byte of the standard base64 alphabet, or the `=` pad.
pub open spec fn is_b64_byte(b: u8) -> bool {
    (0x41 <= b <= 0x5a) || (0x61 <= b <= 0x7a) || (0x30 <= b <= 0x39) || b == 0x2b || b == 0x2f
        || b == 0x3d
}

#[verifier::external_type_specification]
#[verifier::external_body]
pub struct ExErrorStack(openssl::error::ErrorStack);

#[verifier::external_type_specification]
#[verifier::external_body]
pub struct ExDecodeError(base64::DecodeError);

/// Relies on base64's `STANDARD` engine `encode`: standard alphabet with
/// `=` padding, so the output is 4 bytes for every 3 input bytes rounded up,
/// every output byte is in the alphabet or the pad, and the engine's own
/// `decode` inverts it.
#[verifier::external_body]
pub(crate) fn b64_encode(b: &Vec<u8>) -> (r: Vec<u8>)
    ensures
        r@ == b64_of(b@),
        r@.len() == ((b@.len() + 2) / 3) * 4,
        forall|i: int| 0 <= i < r@.len() ==> is_b64_byte(#[trigger] r@[i]),
        b64_decode_of(r@) == Some(b@),
{
    base64::Engine::encode(&base64::engine::general_purpose::STANDARD, b).into_bytes()
}

/// Relies on base64's `STANDARD` engine `decode`: deterministic in its
/// input, it returns the decoded bytes of a valid padded base64 string, or
/// a `DecodeError`.
#[verifier::external_body]
pub(crate) fn b64_decode(s: &Vec<u8>) -> (r: Result<Vec<u8>, base64::DecodeError>)
    ensures
        (r is Ok) == (b64_decode_of(s@) is Some),
        r matches Ok(b) ==> b64_decode_of(s@) == Some(b@),
{
    base64::Engine::decode(&base64::engine::general_purpose::STANDARD, s)
}

/// Relies on `openssl::rand::rand_bytes`: fills the buffer with random
/// bytes. Nothing holds of the values; only the length is stated.
#[verifier::external_body]
pub(crate) fn random_key_32() -> (r: Result<Vec<u8>, openssl::error::ErrorStack>)
    ensures
        r matches Ok(k) ==> k@.len() == 32,
{
    let mut k = vec![0u8; 32];
    openssl::rand::rand_bytes(&mut k)?;
    Ok(k)
}

/// Relies on `openssl::symm::encrypt` and `openssl::symm::decrypt` with
/// `Cipher::aes_256_ecb()`: AES-256-ECB with PKCS padding and no IV,
/// deterministic in key and plaintext, and decryption under the same key
/// inverts it. The length bound keeps clear of the cipher's conversion of
/// the buffer length to a C `int`, which does not tolerate 2^31 bytes or
/// more.
#[verifier::external_body]
pub(crate) fn aes256_encrypt(key: &Vec<u8>, pt: &Vec<u8>) -> (r: Result<Vec<u8>, openssl::error::ErrorStack>)
    requires
        key@.len() == 32,
        pt@.len() < 0x8000_0000,
    ensures
        r matches Ok(c) ==> c@ == aes256_encrypt_of(key@, pt@) && aes256_decrypt_of(key@, c@)
            == Some(pt@),
{
    openssl::symm::encrypt(openssl::symm::Cipher::aes_256_ecb(), key, None, pt)
}

/// Relies on `openssl::symm::decrypt` with `Cipher::aes_256_ecb()`:
/// deterministic in key and ciphertext, and fails exactly on a ciphertext
/// with no correctly padded plaintext. The length bound keeps clear of the
/// cipher's conversion of the buffer length to a C `int`, which does not
/// tolerate 2^31 bytes or more.
#[verifier::external_body]
pub(crate) fn aes256_decrypt(key: &Vec<u8>, ct: &Vec<u8>) -> (r: Result<Vec<u8>, openssl::error::ErrorStack>)
    requires
        key@.len() == 32,
        ct@.len() < 0x8000_0000,
    ensures
        (r is Ok) == (aes256_decrypt_of(key@, ct@) is Some),
        r matches Ok(p) ==> aes256_decrypt_of(key@, ct@) == Some(p@),
{
    openssl::symm::decrypt(openssl::symm::Cipher::aes_256_ecb(), key, None, ct)
}

/// Relies on `openssl::rsa::Rsa::public_key_from_der`: deterministic in
/// its input; reports whether the bytes parse as a DER-encoded RSA public
/// key.
#[verifier::external_body]
pub(crate) fn rsa_der_parses(der: &Vec<u8>) -> (r: bool)
    ensures
        r == rsa_der_ok(der@),
{
    openssl::rsa::Rsa::public_key_from_der(der).is_ok()
}

/// Relies on `openssl::rsa::Rsa::public_key_from_der`,
/// `openssl::pkey::PKey::from_rsa` and `openssl::encrypt::Encrypter` with
/// `Padding::PKCS1`: parses the DER public key and encrypts `data` under
/// it (`encrypt_len` sizes the output buffer, `encrypt` fills it and
/// reports the length written). The PKCS#1 v1.5 padding is randomized, so
/// the ciphertext bytes are not a function of the inputs; what holds of
/// every successful outcome is that the ciphertext decrypts to `data`
/// under the private key matching `der`.
#[verifier::external_body]
pub(crate) fn rsa_pkcs1_encrypt_der(der: &Vec<u8>, data: &Vec<u8>) -> (r: Result<Vec<u8>, openssl::error::ErrorStack>)
    requires
        rsa_der_ok(der@),
    ensures
        r matches Ok(c) ==> rsa_pkcs1_sealed(der@, c@, data@),
{
    let rsa = openssl::rsa::Rsa::public_key_from_der(der)?;
    let pkey = openssl::pkey::PKey::from_rsa(rsa)?;
    let mut enc = openssl::encrypt::Encrypter::new(&pkey)?;
    enc.set_rsa_padding(openssl::rsa::Padding::PKCS1)?;
    let len = enc.encrypt_len(data)?;
    let mut out = vec![0; len];
    let n = enc.encrypt(data, &mut out)?;
    out.truncate(n);
    Ok(out)
}

} // verus!
