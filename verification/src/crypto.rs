use vstd::prelude::*;

verus! {

use vstd::string::StrSliceExecFns;

// The cryptographic primitives. Each is an outside computation whose result
// cannot be restated here in a few lines, so the result is given a name (an
// uninterpreted spec function of the inputs) and the wrapper's contract ties
// the runtime value to that name. Everything the flows conclude about hashes
// and MACs goes through these names.
/// The encoded Argon2 hash of a password with a salt, as the argon2 crate
/// computes it with its default configuration.
pub uninterp spec fn argon2_hash(data: Seq<char>, salt: Seq<u8>) -> Seq<char>;

/// The SHA-256 digest of a byte sequence.
pub uninterp spec fn sha256_of(data: Seq<u8>) -> Seq<u8>;

/// The HMAC-SHA-256 of a byte sequence under a key given as the UTF-8 bytes
/// of a string.
pub uninterp spec fn hmac_sha256_of(data: Seq<u8>, key: Seq<char>) -> Seq<u8>;

/// Fills the buffer with fresh bytes from a cryptographically secure RNG.
/// Nothing can be promised of the outcome: every caller must make sense of
/// whatever bytes come back.
///
/// Relies on rand::thread_rng and rand::RngCore::fill_bytes.
#[verifier::external_body]
pub fn generate_random_16_bytes(bytes: &mut [u8; 16]) {
    let mut rng = rand::thread_rng();
    rand::RngCore::fill_bytes(&mut rng, bytes);
}

/// Relies on argon2::hash_encoded (the rust-argon2 crate) with
/// argon2::Config::default(): the encoded hash depends on the password and
/// salt alone, and the call succeeds whenever the salt has at least 8 bytes
/// and password and salt are far below the crate's length caps.
#[verifier::external_body]
pub fn hash_argon2(data: &str, salt: &[u8]) -> (r: String)
    requires
        8 <= salt@.len() <= 0xFFFF_FFFF,
        data@.len() <= 0x3FFF_FFFF,
    ensures
        r@ == argon2_hash(data@, salt@),
{
    argon2::hash_encoded(data.as_bytes(), salt, &argon2::Config::default()).unwrap()
}

/// Relies on sha2::Sha256 through the digest traits: the digest depends on
/// the input alone and is always 32 bytes.
#[verifier::external_body]
pub fn hash_sha256(data: &[u8]) -> (r: Vec<u8>)
    ensures
        r@ == sha256_of(data@),
        r@.len() == 32,
{
    let mut hasher = <sha2::Sha256 as sha2::Digest>::new();
    sha2::Digest::update(&mut hasher, data);
    sha2::Digest::finalize(hasher)[..].to_vec()
}

/// Compares two byte strings in time that depends only on their lengths:
/// the loop inspects every position and never exits early. Required for all
/// equality checks over secret-derived material.
pub fn constant_time_bytes_eq(a: &[u8], b: &[u8]) -> (r: bool)
    ensures
        r == (a@ == b@),
{
    if a.len() != b.len() {
        return false;
    }
    let mut acc: u8 = 0;
    let mut i: usize = 0;
    while i < a.len()
        invariant
            a@.len() == b@.len(),
            i <= a@.len(),
            (acc == 0) <==> (forall|j: int| 0 <= j < i ==> a@[j] == b@[j]),
        decreases a@.len() - i,
    {
        let x = a[i];
        let y = b[i];
        let d = x ^ y;
        proof {
            assert((x ^ y == 0) == (x == y)) by (bit_vector);
            assert((acc | d == 0) == (acc == 0 && d == 0)) by (bit_vector);
        }
        acc = acc | d;
        i += 1;
    }
    if acc == 0 {
        proof {
            assert(a@ =~= b@);
        }
        true
    } else {
        false
    }
}

/// Compares two strings character by character in time that depends only on
/// their lengths: no early exit once the lengths agree.
pub fn constant_time_str_eq(a: &str, b: &str) -> (r: bool)
    ensures
        r == (a@ == b@),
{
    let na = a.unicode_len();
    let nb = b.unicode_len();
    if na != nb {
        return false;
    }
    let mut eq = true;
    let mut i: usize = 0;
    while i < na
        invariant
            na == a@.len(),
            a@.len() == b@.len(),
            i <= na,
            eq <==> (forall|j: int| 0 <= j < i ==> a@[j] == b@[j]),
        decreases na - i,
    {
        let ca = a.get_char(i);
        let cb = b.get_char(i);
        if ca != cb {
            eq = false;
        }
        i += 1;
    }
    if eq {
        proof {
            assert(a@ =~= b@);
        }
    }
    eq
}

/// Relies on hmac::Hmac<sha2::Sha256>: new_from_slice accepts keys of every
/// length (its source always returns Ok), and the finalized MAC depends on
/// the key and data alone and is 32 bytes.
#[verifier::external_body]
pub fn hashmac_sha256(data: &[u8; 16], key: &str) -> (r: Result<Vec<u8>, String>)
    ensures
        r is Ok,
        r matches Ok(mac) ==> mac@ == hmac_sha256_of(data@, key@) && mac@.len() == 32,
{
    let mut mac = match <hmac::Hmac<sha2::Sha256> as hmac::Mac>::new_from_slice(key.as_bytes()) {
        Ok(mac_result) => mac_result,
        Err(_) => return Err(String::from("An error occurred during mac generation")),
    };
    hmac::Mac::update(&mut mac, data);
    Ok(hmac::Mac::finalize(mac).into_bytes()[..].to_vec())
}

} // verus!
