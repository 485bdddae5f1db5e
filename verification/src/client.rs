use vstd::prelude::*;

use crate::crypto::{argon2_hash, hash_argon2, hash_sha256, hashmac_sha256, hmac_sha256_of, sha256_of};
use crate::data::ServerResponse;

verus! {

use vstd::pervasive::unreached;

/// What an honest client answers to a login challenge: the HMAC of the
/// challenge under the Argon2 hash of its password with the salt the server
/// sent.
pub open spec fn client_response(challenge: Seq<u8>, salt: Seq<u8>, password: Seq<char>) -> Seq<
    u8,
> {
    hmac_sha256_of(challenge, argon2_hash(password, salt))
}

/// The client side of the password proof: hash the typed password with the
/// received salt, then answer the challenge with the keyed MAC.
pub fn compute_challenge_response(challenge: &[u8; 16], salt: &[u8; 16], password: &str) -> (r: Vec<
    u8,
>)
    requires
        password@.len() <= 0x3FFF_FFFF,
    ensures
        r@ == client_response(challenge@, salt@, password@),
{
    let hashed = hash_argon2(password, salt.as_slice());
    match hashmac_sha256(challenge, hashed.as_str()) {
        Ok(mac) => mac,
        Err(_) => unreached(),
    }
}

/// The message a hardware token signs for the second factor: tokens sign
/// digests, not raw challenges, so the client hashes the challenge first.
pub fn second_factor_digest(challenge: &[u8; 16]) -> (r: Vec<u8>)
    ensures
        r@ == sha256_of(challenge@),
        r@.len() == 32,
{
    hash_sha256(challenge)
}

/// How a client reads a server response: a success goes on, a failure ends
/// the flow carrying the server's message.
pub fn handle_server_response(response: &ServerResponse) -> (r: Result<(), String>)
    ensures
        r is Ok <==> response.success,
        r matches Err(m) ==> m@ == response.message@,
{
    if !response.success {
        Err(response.message.clone())
    } else {
        Ok(())
    }
}

} // verus!
