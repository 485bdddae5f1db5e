use vstd::prelude::*;

use crate::User;
use crate::UserView;
use crate::authentication_tools::{
    MailRequest, hash_password, is_valid_p256_key, p256_verify, send_token_email, token_check_ok,
    validate_email_uuid, validate_public_key, verify_challenge_yubikey,
};
use crate::crypto::{
    argon2_hash, constant_time_bytes_eq, generate_random_16_bytes, hashmac_sha256, hmac_sha256_of,
};
use crate::data::{
    ChallengeData, ChallengeWithSaltData, EmailData, PasswordData, RegisterData, ResponseData,
    ServerResponse, ServerResponseTwoFA, UUIDData, response_is, response_two_fa_is,
};
use crate::messages;
use crate::store::Store;
use crate::validation::{
    is_valid_email, valid_password, valid_uuid, validate_email, validate_password,
};

verus! {

use vstd::pervasive::unreached;

/// The intents a connection may open with: log in, create an account, reset
/// a password, or close the connection.
pub enum Authenticate {
    Authenticate,
    Register,
    Reset,
    Exit,
}

/// Which flow the protocol driver runs next for an intent.
pub enum FlowStart {
    BeginLogin,
    BeginRegister,
    BeginReset,
    Disconnect,
}

impl Authenticate {
    /// The protocol driver's dispatch: every intent selects exactly one flow.
    pub fn perform(&self) -> (r: FlowStart)
        ensures
            self is Authenticate <==> r is BeginLogin,
            self is Register <==> r is BeginRegister,
            self is Reset <==> r is BeginReset,
            self is Exit <==> r is Disconnect,
    {
        match self {
            Authenticate::Authenticate => FlowStart::BeginLogin,
            Authenticate::Register => FlowStart::BeginRegister,
            Authenticate::Reset => FlowStart::BeginReset,
            Authenticate::Exit => FlowStart::Disconnect,
        }
    }
}

/// The fixed, never-persisted stand-in record used whenever a looked-up
/// account does not exist, so the login flow does identical work and sends
/// a structurally identical challenge whether or not the account exists.
pub open spec fn dummy_user_view() -> UserView {
    UserView {
        email: "default@default.default"@,
        salt: Seq::new(16, |i: int| 0u8),
        hash_password: "default"@,
        public_yubikey: Seq::<u8>::empty(),
        two_fa: false,
    }
}

/// Builds the stand-in record.
pub fn dummy_user() -> (u: User)
    ensures
        u@ == dummy_user_view(),
{
    let u = User {
        email: "default@default.default".to_owned(),
        salt: [0;16],
        hash_password: "default".to_owned(),
        public_yubikey: Vec::new(),
        two_fa: false,
    };
    proof {
        assert(u@.salt =~= dummy_user_view().salt);
        assert(u@.public_yubikey =~= dummy_user_view().public_yubikey);
        assert(u@ =~= dummy_user_view());
    }
    u
}

/// Login state between sending the challenge and the password proof:
/// the record worked on (the account's, or the dummy), whether the account
/// really exists, and the challenge that was sent.
pub struct LoginPending {
    pub user: User,
    pub valid_user: bool,
    pub challenge: [u8; 16],
}

/// Login state between the first-factor acknowledgement and the second
/// factor: the same challenge is reused for the signature.
pub struct TwoFaPending {
    pub user: User,
    pub challenge: [u8; 16],
}

/// What opening a login attempt guarantees: the account is looked up only
/// under a well-formed email, the dummy stands in for missing accounts, and
/// the challenge message carries the worked-on record's salt.
pub open spec fn login_begin_post(
    store: Map<Seq<char>, UserView>,
    email: Seq<char>,
    p: LoginPending,
    msg: ChallengeWithSaltData,
) -> bool {
    &&& p.valid_user == (is_valid_email(email) && store.contains_key(email))
    &&& p.user@ == if p.valid_user {
        store[email]
    } else {
        dummy_user_view()
    }
    &&& msg.challenge@ == p.challenge@
    &&& msg.salt@ == p.user@.salt
}

/// Step one of a login attempt: look the email up, substitute the dummy
/// record if it is unknown, and issue a fresh challenge beside the salt.
pub fn login_begin(store: &Store, email_data: &EmailData) -> (r: (
    LoginPending,
    ChallengeWithSaltData,
))
    requires
        store.wf(),
    ensures
        login_begin_post(store@, email_data.email@, r.0, r.1),
{
    let mut user = dummy_user();
    let mut valid_user = false;
    if validate_email(email_data.email.as_str()) {
        match store.get(email_data.email.as_str()) {
            Some(user_found) => {
                valid_user = true;
                user = user_found.duplicate();
            },
            None => {
                valid_user = false;
            },
        }
    }
    let mut challenge: [u8; 16] = [0;16];
    generate_random_16_bytes(&mut challenge);
    let msg = ChallengeWithSaltData { challenge, salt: user.salt };
    (LoginPending { user, valid_user, challenge }, msg)
}

/// The password proof: the account must exist and the peer's response must
/// equal the HMAC of the challenge under the stored encoded password hash.
pub open spec fn password_proof_ok(
    user: UserView,
    valid_user: bool,
    challenge: Seq<u8>,
    response: Seq<u8>,
) -> bool {
    valid_user && response == hmac_sha256_of(challenge, user.hash_password)
}

/// How a login attempt ends after the password proof: rejected with the one
/// generic failure response, authenticated outright, or waiting for the
/// second factor.
pub enum LoginOutcome {
    Rejected(ServerResponseTwoFA),
    Authenticated(User, ServerResponseTwoFA),
    SecondFactorPending(TwoFaPending, ServerResponseTwoFA),
}

/// What the password step guarantees. A failed proof and an unknown account
/// end in the same response; a passed proof authenticates exactly when the
/// account does not require a second factor, and otherwise hands the same
/// challenge on to the second-factor step.
pub open spec fn login_password_post(p: LoginPending, response: Seq<u8>, r: LoginOutcome) -> bool {
    let ok = password_proof_ok(p.user@, p.valid_user, p.challenge@, response);
    match r {
        LoginOutcome::Rejected(m) => !ok && response_two_fa_is(
            m,
            messages::auth_fail_msg(),
            false,
            false,
        ),
        LoginOutcome::Authenticated(u, m) => ok && !p.user@.two_fa && u@ == p.user@
            && response_two_fa_is(m, messages::auth_success_msg(), true, false),
        LoginOutcome::SecondFactorPending(t, m) => ok && p.user@.two_fa && t.user@ == p.user@
            && t.challenge@ == p.challenge@ && response_two_fa_is(
            m,
            messages::auth_two_fa_msg(),
            true,
            true,
        ),
    }
}

/// Step two of a login attempt: compute the expected response over the
/// worked-on record (the same work whether or not the account exists),
/// compare in constant time, and decide the outcome.
pub fn login_password(p: LoginPending, response_data: &ResponseData) -> (r: LoginOutcome)
    ensures
        login_password_post(p, response_data.response@, r),
{
    let expected = match hashmac_sha256(&p.challenge, p.user.hash_password.as_str()) {
        Ok(mac) => mac,
        Err(_) => unreached(),
    };
    let pw_ok = constant_time_bytes_eq(response_data.response.as_slice(), expected.as_slice());
    if !pw_ok || !p.valid_user {
        LoginOutcome::Rejected(
            ServerResponseTwoFA {
                message: messages::auth_fail_text(),
                success: false,
                two_fa: false,
            },
        )
    } else if !p.user.two_fa {
        let m = ServerResponseTwoFA {
            message: messages::auth_success_text(),
            success: true,
            two_fa: false,
        };
        LoginOutcome::Authenticated(p.user, m)
    } else {
        let m = ServerResponseTwoFA {
            message: messages::auth_two_fa_text(),
            success: true,
            two_fa: true,
        };
        LoginOutcome::SecondFactorPending(TwoFaPending { user: p.user, challenge: p.challenge }, m)
    }
}

/// What the second-factor step guarantees: authenticated exactly when the
/// signature over the attempt's challenge verifies under the account's
/// hardware public key; this failure is allowed its own response.
pub open spec fn second_factor_post(
    t: TwoFaPending,
    response: Seq<u8>,
    user: Option<User>,
    m: ServerResponse,
) -> bool {
    let ok = p256_verify(t.user@.public_yubikey, t.challenge@, response);
    &&& user is Some <==> ok
    &&& (user matches Some(u) ==> u@ == t.user@)
    &&& (ok ==> response_is(m, messages::auth_success_msg(), true))
    &&& (!ok ==> response_is(m, messages::wrong_key_msg(), false))
}

/// Step three of a login attempt, only for accounts with the second factor
/// enabled: verify the hardware signature over the same challenge.
pub fn login_second_factor(t: TwoFaPending, response_data: &ResponseData) -> (r: (
    Option<User>,
    ServerResponse,
))
    ensures
        second_factor_post(t, response_data.response@, r.0, r.1),
{
    let verified = verify_challenge_yubikey(
        &t.user.public_yubikey,
        t.challenge.as_slice(),
        response_data.response.as_slice(),
    );
    if verified {
        (Some(t.user), ServerResponse { message: messages::auth_success_text(), success: true })
    } else {
        (None, ServerResponse { message: messages::wrong_key_text(), success: false })
    }
}

/// Registration state between the confirmation mail and the submitted token.
pub struct RegisterPending {
    pub email: String,
    pub password: String,
    pub public_yubikey: Vec<u8>,
    pub token: String,
}

impl RegisterPending {
    /// What step one established of the data it accepted.
    pub open spec fn wf(&self) -> bool {
        valid_password(self.password@)
    }
}

/// The first error a registration request runs into, if any: malformed
/// email, then weak password, then malformed public key, then an already
/// registered account.
pub open spec fn register_error(
    store: Map<Seq<char>, UserView>,
    email: Seq<char>,
    password: Seq<char>,
    key: Seq<u8>,
) -> Option<Seq<char>> {
    if !is_valid_email(email) {
        Some(messages::invalid_email_msg())
    } else if !valid_password(password) {
        Some(messages::invalid_password_msg())
    } else if !is_valid_p256_key(key) {
        Some(messages::invalid_public_key_msg())
    } else if store.contains_key(email) {
        Some(messages::account_existing_msg())
    } else {
        None
    }
}

/// How step one of registration ends: rejected with the first error found,
/// or accepted with a token mailed out for proof of email ownership.
pub enum RegisterBegin {
    Rejected(ServerResponse),
    EmailPending(RegisterPending, ServerResponse, MailRequest),
}

/// What step one of registration guarantees: rejection carries exactly the
/// first error; acceptance keeps the request data, issues a token in UUID
/// format, and builds the confirmation mail around that token.
pub open spec fn register_begin_post(
    store: Map<Seq<char>, UserView>,
    data: RegisterData,
    r: RegisterBegin,
) -> bool {
    let err = register_error(store, data.email@, data.password@, data.public_yubikey@);
    match r {
        RegisterBegin::Rejected(m) => err matches Some(e) && response_is(m, e, false),
        RegisterBegin::EmailPending(p, m, mail) => {
            &&& err is None
            &&& p.email@ == data.email@
            &&& p.password@ == data.password@
            &&& p.public_yubikey@ == data.public_yubikey@
            &&& valid_uuid(p.token@)
            &&& response_is(m, messages::email_sent_msg(), true)
            &&& mail.to@ == data.email@
            &&& mail.subject@ == messages::register_mail_subject_msg()
            &&& mail.body@ == messages::register_mail_body_msg() + " : "@ + p.token@
        },
    }
}

/// Step one of registration: validate the request (first error wins), make
/// sure the account is new, then issue the confirmation token and the mail
/// that delivers it.
pub fn register_begin(store: &Store, register_data: RegisterData) -> (r: RegisterBegin)
    requires
        store.wf(),
    ensures
        register_begin_post(store@, register_data, r),
        r matches RegisterBegin::EmailPending(p, m, mail) ==> p.wf(),
{
    if !validate_email(register_data.email.as_str()) {
        return RegisterBegin::Rejected(
            ServerResponse { message: messages::invalid_email_text(), success: false },
        );
    }
    if !validate_password(register_data.password.as_str()) {
        return RegisterBegin::Rejected(
            ServerResponse { message: messages::invalid_password_text(), success: false },
        );
    }
    if !validate_public_key(&register_data.public_yubikey) {
        return RegisterBegin::Rejected(
            ServerResponse { message: messages::invalid_public_key_text(), success: false },
        );
    }
    if store.get(register_data.email.as_str()).is_some() {
        return RegisterBegin::Rejected(
            ServerResponse { message: messages::account_existing_text(), success: false },
        );
    }
    let subject = messages::register_mail_subject_text();
    let body = messages::register_mail_body_text();
    let (token, mail) = send_token_email(
        register_data.email.as_str(),
        subject.as_str(),
        body.as_str(),
    );
    let pending = RegisterPending {
        email: register_data.email,
        password: register_data.password,
        public_yubikey: register_data.public_yubikey,
        token,
    };
    RegisterBegin::EmailPending(
        pending,
        ServerResponse { message: messages::email_sent_text(), success: true },
        mail,
    )
}

/// What step two of registration guarantees: on the right token, a record
/// is created whose hash is the Argon2 hash of the chosen password with the
/// fresh salt, the second factor starts disabled, and the store gains
/// exactly that record; on a wrong token nothing is persisted.
pub open spec fn register_confirm_post(
    store0: Map<Seq<char>, UserView>,
    p: RegisterPending,
    submitted: Seq<char>,
    store1: Map<Seq<char>, UserView>,
    user: Option<User>,
    m: ServerResponse,
) -> bool {
    if token_check_ok(p.token@, submitted) {
        match user {
            Some(u) => {
                &&& u@.email == p.email@
                &&& u@.hash_password == argon2_hash(p.password@, u@.salt)
                &&& u@.public_yubikey == p.public_yubikey@
                &&& u@.two_fa == false
                &&& store1 == store0.insert(u@.email, u@)
                &&& response_is(m, messages::account_registered_msg(), true)
            },
            None => false,
        }
    } else {
        &&& user is None
        &&& store1 == store0
        &&& response_is(m, messages::bad_uuid_msg(), false)
    }
}

/// Step two of registration: compare the submitted token with the issued
/// one; only on a match derive a fresh salt and hash and persist the new
/// record.
pub fn register_confirm(store: &mut Store, pending: RegisterPending, confirmation: &UUIDData) -> (r:
    (Option<User>, ServerResponse))
    requires
        old(store).wf(),
        pending.wf(),
    ensures
        final(store).wf(),
        register_confirm_post(
            old(store)@,
            pending,
            confirmation.uuid@,
            final(store)@,
            r.0,
            r.1,
        ),
{
    let success_message = messages::account_registered_text();
    let (ok, response) = validate_email_uuid(
        pending.token.as_str(),
        confirmation.uuid.as_str(),
        success_message.as_str(),
    );
    if !ok {
        return (None, response);
    }
    let (salt, hashed) = hash_password(pending.password.as_str());
    let user = User {
        email: pending.email,
        salt,
        hash_password: hashed,
        public_yubikey: pending.public_yubikey,
        two_fa: false,
    };
    let returned = user.duplicate();
    store.insert(user);
    (Some(returned), response)
}

/// Reset state between issuing the challenge and the hardware signature.
pub struct ResetPending {
    pub user: User,
    pub challenge: [u8; 16],
}

/// Reset state between mailing the token and the submitted token.
pub struct ResetTokenPending {
    pub user: User,
    pub token: String,
}

/// Reset state once identity is fully proven: only the new password is
/// still missing.
pub struct ResetPasswordPending {
    pub user: User,
}

/// How step one of a reset ends. Unlike login, this step may reveal whether
/// the account exists: the reset flow accepts that leak by design.
pub enum ResetBegin {
    Rejected(ServerResponse),
    ChallengeIssued(ResetPending, ServerResponse, ChallengeData),
}

/// What step one of a reset guarantees: a challenge is issued exactly for
/// well-formed emails of existing accounts, and no salt is exchanged.
pub open spec fn reset_begin_post(
    store: Map<Seq<char>, UserView>,
    email: Seq<char>,
    r: ResetBegin,
) -> bool {
    let valid = is_valid_email(email) && store.contains_key(email);
    match r {
        ResetBegin::Rejected(m) => !valid && response_is(m, messages::invalid_email_msg(), false),
        ResetBegin::ChallengeIssued(p, m, c) => valid && p.user@ == store[email] && c.challenge@
            == p.challenge@ && response_is(m, messages::valid_email_msg(), true),
    }
}

/// Step one of a password reset: look the account up (its absence may be
/// revealed here) and issue a fresh challenge for the hardware key.
pub fn reset_begin(store: &Store, email_data: &EmailData) -> (r: ResetBegin)
    requires
        store.wf(),
    ensures
        reset_begin_post(store@, email_data.email@, r),
{
    if validate_email(email_data.email.as_str()) {
        match store.get(email_data.email.as_str()) {
            Some(user_found) => {
                let user = user_found.duplicate();
                let mut challenge: [u8; 16] = [0;16];
                generate_random_16_bytes(&mut challenge);
                return ResetBegin::ChallengeIssued(
                    ResetPending { user, challenge },
                    ServerResponse { message: messages::valid_email_text(), success: true },
                    ChallengeData { challenge },
                );
            },
            None => {
            },
        }
    }
    ResetBegin::Rejected(ServerResponse { message: messages::invalid_email_text(), success: false })
}

/// How the hardware-key step of a reset ends.
pub enum ResetKeyOutcome {
    Rejected(ServerResponse),
    KeyVerified(ResetTokenPending, ServerResponse, MailRequest),
}

/// What the hardware-key step guarantees: the reset goes on exactly when
/// the signature over the challenge verifies under the account's hardware
/// public key, and then a token in UUID format is mailed to the account.
pub open spec fn reset_verify_key_post(
    p: ResetPending,
    response: Seq<u8>,
    r: ResetKeyOutcome,
) -> bool {
    let ok = p256_verify(p.user@.public_yubikey, p.challenge@, response);
    match r {
        ResetKeyOutcome::Rejected(m) => !ok && response_is(m, messages::wrong_key_msg(), false),
        ResetKeyOutcome::KeyVerified(t, m, mail) => {
            &&& ok
            &&& t.user@ == p.user@
            &&& valid_uuid(t.token@)
            &&& response_is(m, messages::email_sent_msg(), true)
            &&& mail.to@ == p.user@.email
            &&& mail.subject@ == messages::reset_mail_subject_msg()
            &&& mail.body@ == messages::reset_mail_body_msg() + " : "@ + t.token@
        },
    }
}

/// Step two of a password reset: identity is proven by the hardware key
/// alone, since the password may be forgotten; on success the confirmation
/// token is issued and mailed.
pub fn reset_verify_key(p: ResetPending, response_data: &ResponseData) -> (r: ResetKeyOutcome)
    ensures
        reset_verify_key_post(p, response_data.response@, r),
{
    let verified = verify_challenge_yubikey(
        &p.user.public_yubikey,
        p.challenge.as_slice(),
        response_data.response.as_slice(),
    );
    if !verified {
        return ResetKeyOutcome::Rejected(
            ServerResponse { message: messages::wrong_key_text(), success: false },
        );
    }
    let subject = messages::reset_mail_subject_text();
    let body = messages::reset_mail_body_text();
    let (token, mail) = send_token_email(p.user.email.as_str(), subject.as_str(), body.as_str());
    ResetKeyOutcome::KeyVerified(
        ResetTokenPending { user: p.user, token },
        ServerResponse { message: messages::email_sent_text(), success: true },
        mail,
    )
}

/// How the token step of a reset ends.
pub enum ResetTokenOutcome {
    Rejected(ServerResponse),
    TokenOk(ResetPasswordPending, ServerResponse),
}

/// What the token step guarantees: the reset goes on exactly when the
/// submitted token is in UUID format and equal to the issued one.
pub open spec fn reset_confirm_token_post(
    t: ResetTokenPending,
    submitted: Seq<char>,
    r: ResetTokenOutcome,
) -> bool {
    let ok = token_check_ok(t.token@, submitted);
    match r {
        ResetTokenOutcome::Rejected(m) => !ok && response_is(m, messages::bad_uuid_msg(), false),
        ResetTokenOutcome::TokenOk(p, m) => ok && p.user@ == t.user@ && response_is(
            m,
            messages::correct_uuid_msg(),
            true,
        ),
    }
}

/// Step three of a password reset: the email-ownership proof, by the same
/// token comparison as registration.
pub fn reset_confirm_token(t: ResetTokenPending, uuid_data: &UUIDData) -> (r: ResetTokenOutcome)
    ensures
        reset_confirm_token_post(t, uuid_data.uuid@, r),
{
    let success_message = messages::correct_uuid_text();
    let (ok, response) = validate_email_uuid(
        t.token.as_str(),
        uuid_data.uuid.as_str(),
        success_message.as_str(),
    );
    if ok {
        ResetTokenOutcome::TokenOk(ResetPasswordPending { user: t.user }, response)
    } else {
        ResetTokenOutcome::Rejected(response)
    }
}

/// What the final reset step guarantees: on a well-formed new password the
/// record keeps its email, public key and second-factor flag, while salt
/// and hash are replaced together, the hash being the Argon2 hash of the
/// new password with the fresh salt; on a malformed password nothing
/// changes.
pub open spec fn reset_set_password_post(
    store0: Map<Seq<char>, UserView>,
    p: ResetPasswordPending,
    password: Seq<char>,
    store1: Map<Seq<char>, UserView>,
    user: Option<User>,
    m: Option<ServerResponse>,
) -> bool {
    if valid_password(password) {
        match user {
            Some(u) => {
                &&& u@.email == p.user@.email
                &&& u@.public_yubikey == p.user@.public_yubikey
                &&& u@.two_fa == p.user@.two_fa
                &&& u@.hash_password == argon2_hash(password, u@.salt)
                &&& store1 == store0.insert(u@.email, u@)
                &&& m is None
            },
            None => false,
        }
    } else {
        &&& user is None
        &&& store1 == store0
        &&& (match m {
            Some(resp) => response_is(resp, messages::invalid_password_msg(), false),
            None => false,
        })
    }
}

/// Step four of a password reset: validate the new password, then replace
/// salt and hash together and persist; the public key and the second-factor
/// flag are untouched.
pub fn reset_set_password(
    store: &mut Store,
    pending: ResetPasswordPending,
    password_data: &PasswordData,
) -> (r: (Option<User>, Option<ServerResponse>))
    requires
        old(store).wf(),
    ensures
        final(store).wf(),
        reset_set_password_post(
            old(store)@,
            pending,
            password_data.password@,
            final(store)@,
            r.0,
            r.1,
        ),
{
    if !validate_password(password_data.password.as_str()) {
        return (
            None,
            Some(ServerResponse { message: messages::invalid_password_text(), success: false }),
        );
    }
    let (salt, hashed) = hash_password(password_data.password.as_str());
    let user = User {
        email: pending.user.email,
        salt,
        hash_password: hashed,
        public_yubikey: pending.user.public_yubikey,
        two_fa: pending.user.two_fa,
    };
    let returned = user.duplicate();
    store.insert(user);
    (Some(returned), None)
}

} // verus!
