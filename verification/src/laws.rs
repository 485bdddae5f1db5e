use vstd::prelude::*;

use crate::User;
use crate::UserView;
use crate::authentication::{
    LoginOutcome, LoginPending, RegisterPending, ResetPasswordPending, login_begin_post,
    login_password_post, password_proof_ok, register_confirm_post, reset_set_password_post,
};
use crate::authentication_tools::token_check_ok;
use crate::client::client_response;
use crate::crypto::{argon2_hash, hmac_sha256_of};
use crate::data::{ChallengeWithSaltData, ServerResponse, response_two_fa_is};
use crate::messages;
use crate::validation::{is_valid_email, valid_password, valid_uuid};

verus! {

/// Registering and then logging in with the same password authenticates:
/// once the store holds a record whose hash is the Argon2 hash of the
/// password with the stored salt — exactly what a confirmed registration
/// persists — the password step accepts the honest client's response to
/// every challenge.
pub proof fn lemma_register_then_login_authenticates(
    store0: Map<Seq<char>, UserView>,
    u: UserView,
    password: Seq<char>,
    challenge: Seq<u8>,
)
    requires
        u.hash_password == argon2_hash(password, u.salt),
    ensures
        store0.insert(u.email, u).contains_key(u.email),
        password_proof_ok(
            store0.insert(u.email, u)[u.email],
            true,
            challenge,
            client_response(challenge, u.salt, password),
        ),
{
}

/// Register then log in, end to end: a registration confirmed with the
/// right token persists a record under a valid email; a login attempt for
/// that email whose response is the honest client's — computed from the
/// registered password and the salt of the challenge message — ends
/// authenticated, with no second factor asked.
pub proof fn lemma_register_then_login_end_to_end(
    store0: Map<Seq<char>, UserView>,
    pending: RegisterPending,
    submitted: Seq<char>,
    store1: Map<Seq<char>, UserView>,
    user: Option<User>,
    register_resp: ServerResponse,
    lp: LoginPending,
    challenge_msg: ChallengeWithSaltData,
    r: LoginOutcome,
)
    requires
        register_confirm_post(store0, pending, submitted, store1, user, register_resp),
        token_check_ok(pending.token@, submitted),
        is_valid_email(pending.email@),
        login_begin_post(store1, pending.email@, lp, challenge_msg),
        login_password_post(
            lp,
            client_response(challenge_msg.challenge@, challenge_msg.salt@, pending.password@),
            r,
        ),
    ensures
        r is Authenticated,
        match (user, r) {
            (Some(u), LoginOutcome::Authenticated(authenticated, m)) => authenticated@ == u@
                && response_two_fa_is(m, messages::auth_success_msg(), true, false),
            _ => false,
        },
{
}

/// Login failures are indistinguishable: whatever made two password steps
/// reject — a wrong response, an unknown account, or both — the two
/// responses carry the same message and the same flags.
pub proof fn lemma_login_failure_indistinguishable(
    p1: LoginPending,
    resp1: Seq<u8>,
    r1: LoginOutcome,
    p2: LoginPending,
    resp2: Seq<u8>,
    r2: LoginOutcome,
)
    requires
        login_password_post(p1, resp1, r1),
        login_password_post(p2, resp2, r2),
        r1 is Rejected,
        r2 is Rejected,
    ensures
        match (r1, r2) {
            (LoginOutcome::Rejected(m1), LoginOutcome::Rejected(m2)) => m1.message@ == m2.message@
                && m1.success == m2.success && m1.two_fa == m2.two_fa,
            _ => false,
        },
{
}

/// The HMAC response is deterministic: equal challenges and equal keys give
/// equal responses. That a changed challenge or key changes the response
/// holds only with overwhelming probability and is exercised by tests.
pub proof fn lemma_hmac_deterministic(c1: Seq<u8>, k1: Seq<char>, c2: Seq<u8>, k2: Seq<char>)
    requires
        c1 == c2,
        k1 == k2,
    ensures
        hmac_sha256_of(c1, k1) == hmac_sha256_of(c2, k2),
{
}

/// A token round trip succeeds: an issued token — always in UUID format —
/// submitted unchanged passes the comparison, and any submission that
/// differs from the issued token fails it.
pub proof fn lemma_token_round_trip(issued: Seq<char>, submitted: Seq<char>)
    requires
        valid_uuid(issued),
    ensures
        token_check_ok(issued, issued),
        submitted != issued ==> !token_check_ok(issued, submitted),
{
}

/// Second-factor gating: an account without the second factor never makes
/// the password step wait for one, and an account with it always does once
/// the password proof passed.
pub proof fn lemma_two_factor_gating(p: LoginPending, response: Seq<u8>, r: LoginOutcome)
    requires
        login_password_post(p, response, r),
    ensures
        !p.user@.two_fa ==> !(r is SecondFactorPending),
        p.user@.two_fa && password_proof_ok(p.user@, p.valid_user, p.challenge@, response) ==> r
            is SecondFactorPending,
        !p.user@.two_fa && password_proof_ok(p.user@, p.valid_user, p.challenge@, response) ==> r
            is Authenticated,
{
}

/// A successful reset replaces salt and hash together and touches nothing
/// else: the persisted record keeps the public key and the second-factor
/// flag, its hash is the Argon2 hash of the new password with the fresh
/// salt, and the password step therefore accepts the honest client's
/// response computed from the new password, for every challenge.
pub proof fn lemma_reset_preserves_key_and_flag(
    store0: Map<Seq<char>, UserView>,
    p: ResetPasswordPending,
    password: Seq<char>,
    store1: Map<Seq<char>, UserView>,
    user: Option<User>,
    m: Option<ServerResponse>,
    challenge: Seq<u8>,
)
    requires
        reset_set_password_post(store0, p, password, store1, user, m),
        valid_password(password),
    ensures
        match user {
            Some(u) => {
                &&& u@.public_yubikey == p.user@.public_yubikey
                &&& u@.two_fa == p.user@.two_fa
                &&& u@.email == p.user@.email
                &&& u@.hash_password == argon2_hash(password, u@.salt)
                &&& store1.contains_key(u@.email)
                &&& store1[u@.email] == u@
                &&& password_proof_ok(
                    store1[u@.email],
                    true,
                    challenge,
                    client_response(challenge, u@.salt, password),
                )
            },
            None => false,
        },
{
}

/// Reset then log in, end to end: after a successful reset, a login attempt
/// for the account whose response is the honest client's — computed from
/// the new password and the salt of the challenge message — is never
/// rejected at the password step (it authenticates, or awaits the second
/// factor if the account kept it enabled).
pub proof fn lemma_reset_then_login_end_to_end(
    store0: Map<Seq<char>, UserView>,
    p: ResetPasswordPending,
    password: Seq<char>,
    store1: Map<Seq<char>, UserView>,
    user: Option<User>,
    m: Option<ServerResponse>,
    lp: LoginPending,
    challenge_msg: ChallengeWithSaltData,
    r: LoginOutcome,
)
    requires
        reset_set_password_post(store0, p, password, store1, user, m),
        valid_password(password),
        is_valid_email(p.user@.email),
        login_begin_post(store1, p.user@.email, lp, challenge_msg),
        login_password_post(
            lp,
            client_response(challenge_msg.challenge@, challenge_msg.salt@, password),
            r,
        ),
    ensures
        !(r is Rejected),
        p.user@.two_fa ==> r is SecondFactorPending,
        !p.user@.two_fa ==> r is Authenticated,
{
}

} // verus!
