use vstd::prelude::*;

use crate::crypto::{argon2_hash, constant_time_str_eq, generate_random_16_bytes, hash_argon2};
use crate::data::{ServerResponse, response_is};
use crate::messages;
use crate::validation::{valid_uuid, validate_uuid};
use p256::ecdsa::signature::Verifier;

verus! {

use vstd::string::StringExecFns;

/// An email the server wants delivered: the flows build it, the caller hands
/// it to the mailer.
pub struct MailRequest {
    pub to: String,
    pub subject: String,
    pub body: String,
}

/// Draws a fresh random salt and hashes the password with it. The salt is
/// returned beside the hash: the two are only ever stored together.
pub fn hash_password(password: &str) -> (r: ([u8; 16], String))
    requires
        password@.len() <= 0x3FFF_FFFF,
    ensures
        r.1@ == argon2_hash(password@, r.0@),
{
    let mut salt: [u8; 16] = [0;16];
    generate_random_16_bytes(&mut salt);
    let hashed = hash_argon2(password, salt.as_slice());
    (salt, hashed)
}

/// Relies on uuid::Uuid::new_v4 and its hyphenated form: the text is always
/// 36 characters, hexadecimal digits in the 8-4-4-4-12 pattern. The value is
/// random, so nothing more is promised of it.
#[verifier::external_body]
pub fn generate_string_uuid() -> (r: String)
    ensures
        valid_uuid(r@),
{
    let uuid = uuid::Uuid::new_v4();
    uuid.as_hyphenated().to_string()
}

/// Generates a one-time confirmation token and builds the email that carries
/// it to `dst`. Delivering the mail is the caller's job; the token comes
/// back for the later comparison against what the peer submits.
pub fn send_token_email(dst: &str, subject: &str, token_message: &str) -> (r: (String, MailRequest))
    ensures
        valid_uuid(r.0@),
        r.1.to@ == dst@,
        r.1.subject@ == subject@,
        r.1.body@ == token_message@ + " : "@ + r.0@,
{
    let uuid = generate_string_uuid();
    let mut body = token_message.to_owned();
    body.append(" : ");
    body.append(uuid.as_str());
    (
        uuid,
        MailRequest { to: dst.to_owned(), subject: subject.to_owned(), body },
    )
}

/// A submitted token passes if and only if it is in UUID format and equal,
/// compared in constant time, to the token that was issued.
pub open spec fn token_check_ok(issued: Seq<char>, submitted: Seq<char>) -> bool {
    valid_uuid(submitted) && submitted == issued
}

/// Compares the token a peer submitted with the token that was issued and
/// builds the response to send back: the given success message on a match,
/// the bad-uuid failure otherwise.
pub fn validate_email_uuid(uuid_to_match: &str, uuid_to_test: &str, success_message: &str) -> (r: (
    bool,
    ServerResponse,
))
    ensures
        r.0 == token_check_ok(uuid_to_match@, uuid_to_test@),
        r.0 ==> response_is(r.1, success_message@, true),
        !r.0 ==> response_is(r.1, messages::bad_uuid_msg(), false),
{
    if !validate_uuid(uuid_to_test) || !constant_time_str_eq(uuid_to_test, uuid_to_match) {
        (false, ServerResponse { message: messages::bad_uuid_text(), success: false })
    } else {
        (true, ServerResponse { message: success_message.to_owned(), success: true })
    }
}

/// Whether a byte string parses as a valid SEC1-encoded point of the P-256
/// curve, as the p256 crate decides it.
pub uninterp spec fn is_valid_p256_key(key: Seq<u8>) -> bool;

/// Relies on p256::ecdsa::VerifyingKey::from_sec1_bytes: whether the bytes
/// parse as a P-256 public key depends on the bytes alone.
#[verifier::external_body]
pub fn validate_public_key(public_key: &Vec<u8>) -> (r: bool)
    ensures
        r == is_valid_p256_key(public_key@),
{
    p256::ecdsa::VerifyingKey::from_sec1_bytes(public_key).is_ok()
}

/// Whether `response` is a valid DER-encoded ECDSA-P256 signature, under the
/// public key `key`, over the SHA-256 digest of `challenge`; false whenever
/// the key or the signature is malformed. A function of the three byte
/// strings alone.
pub uninterp spec fn p256_verify(key: Seq<u8>, challenge: Seq<u8>, response: Seq<u8>) -> bool;

/// Relies on p256::EncodedPoint::from_bytes,
/// p256::ecdsa::VerifyingKey::from_encoded_point,
/// p256::ecdsa::Signature::from_der and the Verifier impl of VerifyingKey,
/// which hashes the message with SHA-256 and checks the ECDSA equation: the
/// response depends on key, message and signature alone, and a malformed key
/// or signature verifies as false.
#[verifier::external_body]
pub fn verify_challenge_yubikey(public_yubikey: &Vec<u8>, challenge: &[u8], response: &[u8]) -> (r:
    bool)
    ensures
        r == p256_verify(public_yubikey@, challenge@, response@),
{
    let encoded_point = match p256::EncodedPoint::from_bytes(public_yubikey) {
        Ok(encoded_point) => encoded_point,
        Err(_) => return false,
    };
    let verifying_key = match p256::ecdsa::VerifyingKey::from_encoded_point(&encoded_point) {
        Ok(verifying_key) => verifying_key,
        Err(_) => return false,
    };
    let signature = match p256::ecdsa::Signature::from_der(response) {
        Ok(signature) => signature,
        Err(_) => return false,
    };
    verifying_key.verify(challenge, &signature).is_ok()
}

} // verus!
