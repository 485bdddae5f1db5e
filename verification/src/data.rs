use vstd::prelude::*;

verus! {

// The typed payloads exchanged between client and server, independent of the
// wire encoding (the transport serialises them outside this crate).
/// Registration request: the client's email, chosen password and the
/// SEC1-encoded public key of its hardware token.
pub struct RegisterData {
    pub email: String,
    pub password: String,
    pub public_yubikey: Vec<u8>,
}

/// Login challenge: fresh random bytes together with the account's password
/// salt (or the dummy salt when the account does not exist).
pub struct ChallengeWithSaltData {
    pub challenge: [u8; 16],
    pub salt: [u8; 16],
}

/// Reset challenge: fresh random bytes; no salt is exchanged because the
/// reset flow proves identity with the hardware key, not the password.
pub struct ChallengeData {
    pub challenge: [u8; 16],
}

/// A client's answer to a challenge: an HMAC for the password proof, or a
/// DER-encoded signature for the second factor.
pub struct ResponseData {
    pub response: Vec<u8>,
}

/// A bare email address, opening a login or reset attempt.
pub struct EmailData {
    pub email: String,
}

/// A bare password, closing a reset attempt.
pub struct PasswordData {
    pub password: String,
}

/// The token a client read from its mailbox and submits for comparison.
pub struct UUIDData {
    pub uuid: String,
}

/// A server response: a message for the peer plus a success flag.
pub struct ServerResponse {
    pub message: String,
    pub success: bool,
}

/// A server response that additionally says whether a second factor is
/// still expected in this login attempt.
pub struct ServerResponseTwoFA {
    pub message: String,
    pub success: bool,
    pub two_fa: bool,
}

/// The new state of an account's second-factor flag after a toggle.
pub struct ChangeTwoFA {
    pub two_fa_status: bool,
}

/// What a `ServerResponse` holds, field by field.
pub open spec fn response_is(r: ServerResponse, msg: Seq<char>, success: bool) -> bool {
    r.message@ == msg && r.success == success
}

/// What a `ServerResponseTwoFA` holds, field by field.
pub open spec fn response_two_fa_is(
    r: ServerResponseTwoFA,
    msg: Seq<char>,
    success: bool,
    two_fa: bool,
) -> bool {
    r.message@ == msg && r.success == success && r.two_fa == two_fa
}

} // verus!
