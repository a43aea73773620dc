//! Per-attempt protocol steps: building the request body document, sealing
//! it into an envelope for one device, and resolving the device's encrypted
//! response.

use vstd::prelude::*;

use crate::codec::{
    body_json, envelope_json, parse_response, parse_response_bytes, write_body_json,
    write_envelope_json,
};
use crate::crypto::{
    aes256_decrypt, aes256_decrypt_of, aes256_encrypt, aes256_encrypt_of, b64_decode,
    b64_decode_of, b64_encode, b64_of, random_key_32, rsa_der_ok, rsa_der_parses,
    rsa_pkcs1_encrypt_der, rsa_pkcs1_sealed,
};
use crate::{ENVELOPE_CEILING, FAILURE_DELAY_SECS, RESPONSE_CAPACITY};

verus! {

/// The plaintext approval-request fields, one per invocation.
pub struct RequestBody {
    /// Display name of the request source.
    pub source: Vec<u8>,
    /// Identity of the subject that is authenticating.
    pub user: Vec<u8>,
    /// Identifier of the service asking for authentication.
    pub service: Vec<u8>,
    /// Kind of authentication event.
    pub auth_type: Vec<u8>,
}

/// One sealed attempt: the serialized envelope to transmit, and the session
/// key kept back to decrypt the eventual response.
pub struct SealedRequest {
    /// The serialized envelope document, strictly under the ceiling.
    pub envelope: Vec<u8>,
    /// The fresh 256-bit session key of this attempt.
    pub session_key: Vec<u8>,
}

/// Why sealing a request for one device failed.
#[derive(Clone, Copy, Debug, PartialEq, Eq, Structural)]
pub enum SealError {
    /// The device's configured public key is not valid base64.
    KeyDecode,
    /// The decoded public key is not a usable DER RSA key.
    KeyParse,
    /// The RSA encryption of the session key failed.
    KeyEncrypt,
    /// The random generator failed to produce a session key.
    Rng,
    /// The symmetric encryption of the body failed.
    BodyEncrypt,
    /// The serialized envelope reached the transport ceiling: a defect of
    /// the fixed request contents, not of one device.
    EnvelopeTooLarge,
}

impl SealError {
    /// An unrecoverable local defect, as opposed to a soft failure of one
    /// device's attempt: the envelope can never fit, whatever the device.
    pub fn is_fatal(&self) -> (r: bool)
        ensures
            r == (*self is EnvelopeTooLarge),
    {
        matches!(self, SealError::EnvelopeTooLarge)
    }
}

/// Serializes the request body document shared by all attempts.
pub fn encode_request_body(b: &RequestBody) -> (r: Vec<u8>)
    ensures
        r@ == body_json(b.source@, b.user@, b.service@, b.auth_type@),
{
    write_body_json(&b.source, &b.user, &b.service, &b.auth_type)
}

/// Packages the two ciphertexts as the envelope document, enforcing the
/// transport ceiling: the envelope is returned exactly when its serialized
/// form is strictly below the ceiling.
pub fn build_envelope(encrypted_key: &Vec<u8>, encrypted_body: &Vec<u8>) -> (r: Result<
    Vec<u8>,
    SealError,
>)
    ensures
        envelope_json(b64_of(encrypted_key@), b64_of(encrypted_body@)).len() < ENVELOPE_CEILING
            as int ==> (r matches Ok(v) && v@ == envelope_json(
            b64_of(encrypted_key@),
            b64_of(encrypted_body@),
        )),
        envelope_json(b64_of(encrypted_key@), b64_of(encrypted_body@)).len() >= ENVELOPE_CEILING
            as int ==> r == Err::<Vec<u8>, SealError>(SealError::EnvelopeTooLarge),
{
    let key_b64 = b64_encode(encrypted_key);
    let body_b64 = b64_encode(encrypted_body);
    let env = write_envelope_json(&key_b64, &body_b64);
    if env.len() < ENVELOPE_CEILING {
        Ok(env)
    } else {
        Err(SealError::EnvelopeTooLarge)
    }
}

/// Seals the request body for one device: a fresh random session key, the
/// body encrypted under it, the key encrypted under the device's public
/// key, both packaged as the envelope.
///
/// On success the envelope is the serialized document of the two base64
/// ciphertexts, it is strictly under the ceiling, the encrypted body
/// decrypts back to the exact body bytes under the returned session key,
/// and the encrypted key is a ciphertext of that same session key under
/// the device's public key.
///
/// A public key that is not base64 fails as `KeyDecode`, exactly then; one
/// whose decoded bytes are not a DER RSA key fails as `KeyParse`, exactly
/// then. A body so large that no envelope could ever hold it fails as
/// `EnvelopeTooLarge` before any cryptography. Sealing performs no network
/// work: the caller transmits the envelope.
pub fn seal_request(public_key_b64: &Vec<u8>, body: &Vec<u8>) -> (r: Result<
    SealedRequest,
    SealError,
>)
    ensures
        r matches Ok(s) ==> {
            &&& s.session_key@.len() == 32
            &&& aes256_decrypt_of(s.session_key@, aes256_encrypt_of(s.session_key@, body@))
                == Some(body@)
            &&& (exists|der: Seq<u8>, ek: Seq<u8>|
                b64_decode_of(public_key_b64@) == Some(der) && #[trigger] rsa_pkcs1_sealed(
                    der,
                    ek,
                    s.session_key@,
                ) && s.envelope@ == envelope_json(
                    b64_of(ek),
                    b64_of(aes256_encrypt_of(s.session_key@, body@)),
                ))
            &&& s.envelope@.len() < ENVELOPE_CEILING as int
        },
        (r == Err::<SealedRequest, SealError>(SealError::KeyDecode)) == (b64_decode_of(
            public_key_b64@,
        ) is None),
        b64_decode_of(public_key_b64@) matches Some(der) ==> ((r == Err::<
            SealedRequest,
            SealError,
        >(SealError::KeyParse)) == !rsa_der_ok(der)),
{
    let der = match b64_decode(public_key_b64) {
        Ok(d) => d,
        Err(_) => {
            return Err(SealError::KeyDecode);
        },
    };
    if !rsa_der_parses(&der) {
        return Err(SealError::KeyParse);
    }
    if body.len() >= ENVELOPE_CEILING {
        // The encrypted body alone, base64-encoded, would already exceed
        // the ceiling: fail the protocol invariant without touching the
        // cipher.
        return Err(SealError::EnvelopeTooLarge);
    }
    let session_key = match random_key_32() {
        Ok(k) => k,
        Err(_) => {
            return Err(SealError::Rng);
        },
    };
    let encrypted_body = match aes256_encrypt(&session_key, body) {
        Ok(c) => c,
        Err(_) => {
            return Err(SealError::BodyEncrypt);
        },
    };
    let encrypted_key = match rsa_pkcs1_encrypt_der(&der, &session_key) {
        Ok(c) => c,
        Err(_) => {
            return Err(SealError::KeyEncrypt);
        },
    };
    let envelope = match build_envelope(&encrypted_key, &encrypted_body) {
        Ok(e) => e,
        Err(e) => {
            return Err(e);
        },
    };
    proof {
        assert(rsa_pkcs1_sealed(der@, encrypted_key@, session_key@) && envelope@
            == envelope_json(
            b64_of(encrypted_key@),
            b64_of(aes256_encrypt_of(session_key@, body@)),
        ));
        assert(b64_decode_of(public_key_b64@) == Some(der@));
    }
    Ok(SealedRequest { envelope, session_key })
}

/// How one device answered, or failed to.
#[derive(Clone, Copy, Debug, PartialEq, Eq, Structural)]
pub enum Resolution {
    /// A well-formed response with `accepted` true.
    Accepted,
    /// A well-formed response with `accepted` false.
    Rejected,
    /// No usable response: connection, transmission, decryption or parse
    /// failure.
    Failed,
}

/// The resolution carried by a decrypted plaintext.
pub open spec fn decision_of_plain(pt: Seq<u8>) -> Resolution {
    match parse_response(pt) {
        Some(b) => if b {
            Resolution::Accepted
        } else {
            Resolution::Rejected
        },
        None => Resolution::Failed,
    }
}

/// The resolution of raw response bytes under a session key: decrypt, then
/// parse; any failure of either step is `Failed`.
pub open spec fn resolution_of(key: Seq<u8>, raw: Seq<u8>) -> Resolution {
    match aes256_decrypt_of(key, raw) {
        Some(pt) => decision_of_plain(pt),
        None => Resolution::Failed,
    }
}

/// Decrypts and parses one device's response frame. A frame longer than
/// the protocol's single-frame capacity is out of protocol and resolves
/// `Failed` outright.
pub fn resolve_response(session_key: &Vec<u8>, raw: &Vec<u8>) -> (r: Resolution)
    requires
        session_key@.len() == 32,
    ensures
        raw@.len() <= RESPONSE_CAPACITY as int ==> r == resolution_of(session_key@, raw@),
        raw@.len() > RESPONSE_CAPACITY as int ==> r is Failed,
{
    if raw.len() > RESPONSE_CAPACITY {
        return Resolution::Failed;
    }
    match aes256_decrypt(session_key, raw) {
        Ok(pt) => match parse_response_bytes(&pt) {
            Some(true) => Resolution::Accepted,
            Some(false) => Resolution::Rejected,
            None => Resolution::Failed,
        },
        Err(_) => Resolution::Failed,
    }
}

/// The anti-probing policy: a decrypt or parse failure is reported only
/// after the fixed delay; a well-formed rejection costs nothing.
pub fn failure_delay_secs(r: &Resolution) -> (d: u64)
    ensures
        d == (if *r is Failed {
            FAILURE_DELAY_SECS
        } else {
            0u64
        }),
{
    if matches!(r, Resolution::Failed) {
        FAILURE_DELAY_SECS
    } else {
        0
    }
}

} // verus!
