use authcore::User;
use authcore::action::Action;
use authcore::authentication::{
    Authenticate, FlowStart, LoginOutcome, RegisterBegin, ResetBegin, ResetKeyOutcome,
    ResetTokenOutcome, login_begin, login_password, login_second_factor, register_begin,
    register_confirm, reset_begin, reset_confirm_token, reset_set_password, reset_verify_key,
};
use authcore::authentication_tools::{
    send_token_email, validate_email_uuid, validate_public_key, verify_challenge_yubikey,
};
use authcore::client::{compute_challenge_response, handle_server_response};
use authcore::crypto::{hash_argon2, hash_sha256, hashmac_sha256};
use authcore::data::{EmailData, PasswordData, RegisterData, ResponseData, ServerResponse, UUIDData};
use authcore::store::Store;
use p256::ecdsa::signature::Signer;

fn test_key(seed: u8) -> (p256::ecdsa::SigningKey, Vec<u8>) {
    let bytes = [seed; 32];
    let sk = p256::ecdsa::SigningKey::from_slice(&bytes).unwrap();
    let pk = sk.verifying_key().to_encoded_point(false).as_bytes().to_vec();
    (sk, pk)
}

fn sign_challenge(sk: &p256::ecdsa::SigningKey, challenge: &[u8]) -> Vec<u8> {
    let sig: p256::ecdsa::Signature = sk.sign(challenge);
    sig.to_der().as_bytes().to_vec()
}

fn register(store: &mut Store, email: &str, password: &str, pk: Vec<u8>) -> User {
    let begun = register_begin(
        store,
        RegisterData {
            email: email.to_string(),
            password: password.to_string(),
            public_yubikey: pk,
        },
    );
    match begun {
        RegisterBegin::EmailPending(pending, resp, mail) => {
            assert!(resp.success);
            assert_eq!(resp.message, "Email sent");
            assert_eq!(mail.to, email);
            let token = pending.token.clone();
            assert_eq!(
                mail.body,
                format!("Here is the validation token : {}", token)
            );
            let (user, resp2) = register_confirm(store, pending, &UUIDData { uuid: token });
            assert!(resp2.success);
            assert_eq!(resp2.message, "Account registered");
            user.expect("confirmed registration must return the credential")
        }
        RegisterBegin::Rejected(resp) => panic!("registration rejected: {}", resp.message),
    }
}

fn login(store: &Store, email: &str, password: &str) -> LoginOutcome {
    let (pending, challenge_msg) = login_begin(
        store,
        &EmailData { email: email.to_string() },
    );
    let response =
        compute_challenge_response(&challenge_msg.challenge, &challenge_msg.salt, password);
    login_password(pending, &ResponseData { response })
}

#[test]
fn register_then_login_authenticates() {
    let mut store = Store::new();
    let (_sk, pk) = test_key(1);
    let user = register(&mut store, "user@example.com", "Str0ng!Pass", pk.clone());
    assert_eq!(user.email, "user@example.com");
    assert!(!user.two_fa);
    assert_eq!(user.public_yubikey, pk);

    match login(&store, "user@example.com", "Str0ng!Pass") {
        LoginOutcome::Authenticated(u, m) => {
            assert!(m.success);
            assert!(!m.two_fa);
            assert_eq!(m.message, "Authentification success");
            assert_eq!(u.email, "user@example.com");
        }
        _ => panic!("expected authentication to succeed"),
    }
}

#[test]
fn login_failures_indistinguishable() {
    let mut store = Store::new();
    let (_sk, pk) = test_key(2);
    register(&mut store, "user@example.com", "Str0ng!Pass", pk);

    let m1 = match login(&store, "user@example.com", "Wr0ng!Pass") {
        LoginOutcome::Rejected(m) => m,
        _ => panic!("wrong password must be rejected"),
    };
    let m2 = match login(&store, "nobody@example.com", "Str0ng!Pass") {
        LoginOutcome::Rejected(m) => m,
        _ => panic!("unknown account must be rejected"),
    };
    assert_eq!(m1.message, m2.message);
    assert_eq!(m1.success, m2.success);
    assert_eq!(m1.two_fa, m2.two_fa);
    assert_eq!(m1.message, "Invalid user and password combination");
    assert!(!m1.success);
    assert!(!m1.two_fa);
}

#[test]
fn unknown_account_gets_dummy_salt_and_full_exchange() {
    let store = Store::new();
    let (pending, challenge_msg) = login_begin(
        &store,
        &EmailData { email: "ghost@example.com".to_string() },
    );
    // the challenge message has the same shape as for an existing account;
    // the stand-in record carries the all-zero salt
    assert_eq!(challenge_msg.salt, [0u8; 16]);
    assert!(!pending.valid_user);
    let response = compute_challenge_response(
        &challenge_msg.challenge,
        &challenge_msg.salt,
        "Str0ng!Pass",
    );
    match login_password(pending, &ResponseData { response }) {
        LoginOutcome::Rejected(m) => {
            assert_eq!(m.message, "Invalid user and password combination");
        }
        _ => panic!("unknown account must be rejected"),
    }
}

#[test]
fn challenge_uniqueness_across_attempts() {
    let mut store = Store::new();
    let (_sk, pk) = test_key(3);
    register(&mut store, "user@example.com", "Str0ng!Pass", pk);
    let mut seen: Vec<[u8; 16]> = Vec::new();
    for _trial in 0..16 {
        let (_pending, msg) = login_begin(
            &store,
            &EmailData { email: "user@example.com".to_string() },
        );
        assert!(
            !seen.contains(&msg.challenge),
            "two login attempts received the same challenge"
        );
        seen.push(msg.challenge);
    }
}

#[test]
fn hmac_response_determinism_and_sensitivity() {
    let challenge = [7u8; 16];
    let key = "$argon2id$v=19$m=19456,t=2,p=1$c2FsdA$hash";
    let a = hashmac_sha256(&challenge, key).unwrap();
    let b = hashmac_sha256(&challenge, key).unwrap();
    assert_eq!(a, b);
    assert_eq!(a.len(), 32);

    let mut other_challenge = challenge;
    other_challenge[0] ^= 1;
    let c = hashmac_sha256(&other_challenge, key).unwrap();
    assert_ne!(a, c);

    let d = hashmac_sha256(&challenge, "another key").unwrap();
    assert_ne!(a, d);
}

#[test]
fn token_round_trip_and_mutation() {
    let (token, mail) = send_token_email(
        "user@example.com",
        "Mail validation token",
        "Here is the validation token",
    );
    assert_eq!(mail.to, "user@example.com");
    assert_eq!(mail.subject, "Mail validation token");
    assert_eq!(
        mail.body,
        format!("Here is the validation token : {}", token)
    );

    let (ok, resp) = validate_email_uuid(&token, &token, "Correct UUID from email");
    assert!(ok);
    assert!(resp.success);
    assert_eq!(resp.message, "Correct UUID from email");

    // mutate one character and the comparison must fail
    let first = token.chars().next().unwrap();
    let replacement = if first == '0' { '1' } else { '0' };
    let mutated: String = {
        let mut s = String::new();
        s.push(replacement);
        s.push_str(&token[1..]);
        s
    };
    assert_ne!(token, mutated);
    let (ok2, resp2) = validate_email_uuid(&token, &mutated, "Correct UUID from email");
    assert!(!ok2);
    assert!(!resp2.success);
    assert_eq!(resp2.message, "Bad uuid");
}

#[test]
fn two_factor_gating() {
    let mut store = Store::new();
    let (sk, pk) = test_key(4);
    let mut user = register(&mut store, "user@example.com", "Str0ng!Pass", pk);

    // without the flag, login never waits for a second factor
    match login(&store, "user@example.com", "Str0ng!Pass") {
        LoginOutcome::Authenticated(_, m) => assert!(!m.two_fa),
        _ => panic!("expected direct authentication"),
    }

    // enable the second factor through the session action
    let (keep_session, change) = Action::Switch2FA.perform(&mut user, &mut store);
    assert!(keep_session);
    assert!(user.two_fa);
    assert!(change.unwrap().two_fa_status);

    // now login always waits for the second factor
    let (t, m) = match login(&store, "user@example.com", "Str0ng!Pass") {
        LoginOutcome::SecondFactorPending(t, m) => (t, m),
        _ => panic!("expected the second factor to be required"),
    };
    assert!(m.success);
    assert!(m.two_fa);
    assert_eq!(m.message, "First part of authentification success");

    // a signature over the attempt's challenge verifies
    let good = sign_challenge(&sk, &t.challenge);
    let challenge = t.challenge;
    let (auth, resp) = login_second_factor(t, &ResponseData { response: good });
    assert!(auth.is_some());
    assert!(resp.success);
    assert_eq!(resp.message, "Authentification success");

    // a signature over a different challenge fails with the distinct response
    let (t2, _m2) = match login(&store, "user@example.com", "Str0ng!Pass") {
        LoginOutcome::SecondFactorPending(t, m) => (t, m),
        _ => panic!("expected the second factor to be required"),
    };
    let mut other = challenge;
    other[0] ^= 1;
    let bad = sign_challenge(&sk, &other);
    let (auth2, resp2) = login_second_factor(t2, &ResponseData { response: bad });
    assert!(auth2.is_none());
    assert!(!resp2.success);
    assert_eq!(resp2.message, "Wrong yubikey");
}

#[test]
fn password_reset_round_trip() {
    let mut store = Store::new();
    let (sk, pk) = test_key(5);
    let before = register(&mut store, "user@example.com", "Str0ng!Pass", pk.clone());

    let (pending, ack, challenge_msg) = match reset_begin(
        &store,
        &EmailData { email: "user@example.com".to_string() },
    ) {
        ResetBegin::ChallengeIssued(p, m, c) => (p, m, c),
        ResetBegin::Rejected(m) => panic!("reset rejected: {}", m.message),
    };
    assert!(ack.success);
    assert_eq!(ack.message, "Email is valid and account exists");

    let signature = sign_challenge(&sk, &challenge_msg.challenge);
    let (token_pending, sent, mail) =
        match reset_verify_key(pending, &ResponseData { response: signature }) {
            ResetKeyOutcome::KeyVerified(t, m, mail) => (t, m, mail),
            ResetKeyOutcome::Rejected(m) => panic!("key rejected: {}", m.message),
        };
    assert!(sent.success);
    assert_eq!(mail.to, "user@example.com");
    assert_eq!(mail.subject, "Reset password mail");

    let token = token_pending.token.clone();
    let (pw_pending, ok_msg) =
        match reset_confirm_token(token_pending, &UUIDData { uuid: token }) {
            ResetTokenOutcome::TokenOk(p, m) => (p, m),
            ResetTokenOutcome::Rejected(m) => panic!("token rejected: {}", m.message),
        };
    assert!(ok_msg.success);
    assert_eq!(ok_msg.message, "Correct UUID from email");

    let (updated, err) = reset_set_password(
        &mut store,
        pw_pending,
        &PasswordData { password: "N3w!Passw0rd".to_string() },
    );
    assert!(err.is_none());
    let updated = updated.expect("a valid new password must be persisted");

    // public key and second-factor flag are untouched; salt changed with hash
    assert_eq!(updated.public_yubikey, before.public_yubikey);
    assert_eq!(updated.two_fa, before.two_fa);
    assert_ne!(updated.hash_password, before.hash_password);

    // the old password no longer logs in, the new one does
    match login(&store, "user@example.com", "Str0ng!Pass") {
        LoginOutcome::Rejected(_) => {}
        _ => panic!("old password must fail after a reset"),
    }
    match login(&store, "user@example.com", "N3w!Passw0rd") {
        LoginOutcome::Authenticated(_, m) => assert!(m.success),
        _ => panic!("new password must succeed after a reset"),
    }
}

#[test]
fn concrete_registration_scenario() {
    let mut store = Store::new();
    let (_sk, k1) = test_key(1);
    let begun = register_begin(
        &store,
        RegisterData {
            email: "user@example.com".to_string(),
            password: "Str0ng!Pass".to_string(),
            public_yubikey: k1.clone(),
        },
    );
    let (pending, resp, _mail) = match begun {
        RegisterBegin::EmailPending(p, m, mail) => (p, m, mail),
        RegisterBegin::Rejected(m) => panic!("rejected: {}", m.message),
    };
    assert!(resp.success);
    let token = pending.token.clone();
    let (user, final_resp) = register_confirm(&mut store, pending, &UUIDData { uuid: token });
    assert!(final_resp.success);
    let user = user.unwrap();
    assert!(!user.two_fa);

    // the credential is persisted under its email
    let stored = store.get("user@example.com").expect("record must be stored");
    assert_eq!(stored.email, "user@example.com");
    assert_eq!(stored.public_yubikey, k1);
    assert!(!stored.two_fa);

    // login with the same password authenticates without a second factor
    match login(&store, "user@example.com", "Str0ng!Pass") {
        LoginOutcome::Authenticated(_, m) => {
            assert!(m.success);
            assert!(!m.two_fa);
        }
        _ => panic!("expected authentication"),
    }
}

#[test]
fn register_error_variants() {
    let mut store = Store::new();
    let (_sk, pk) = test_key(6);

    let reject = |store: &Store, email: &str, password: &str, key: Vec<u8>| -> ServerResponse {
        match register_begin(
            store,
            RegisterData {
                email: email.to_string(),
                password: password.to_string(),
                public_yubikey: key,
            },
        ) {
            RegisterBegin::Rejected(m) => m,
            _ => panic!("expected a rejection"),
        }
    };

    let m = reject(&store, "not-an-email", "Str0ng!Pass", pk.clone());
    assert_eq!(m.message, "Invalid email");
    assert!(!m.success);

    let m = reject(&store, "user@example.com", "weak", pk.clone());
    assert!(m.message.starts_with("Invalid password"));

    let m = reject(&store, "user@example.com", "Str0ng!Pass", vec![1, 2, 3]);
    assert_eq!(m.message, "Invalid public key");

    // the first error wins: a bad email is reported even when the password
    // is bad too
    let m = reject(&store, "not-an-email", "weak", pk.clone());
    assert_eq!(m.message, "Invalid email");

    register(&mut store, "user@example.com", "Str0ng!Pass", pk.clone());
    let m = reject(&store, "user@example.com", "Str0ng!Pass", pk.clone());
    assert_eq!(m.message, "An account with same email already exists");
}

#[test]
fn register_wrong_token_persists_nothing() {
    let mut store = Store::new();
    let (_sk, pk) = test_key(7);
    let begun = register_begin(
        &store,
        RegisterData {
            email: "user@example.com".to_string(),
            password: "Str0ng!Pass".to_string(),
            public_yubikey: pk,
        },
    );
    let pending = match begun {
        RegisterBegin::EmailPending(p, _, _) => p,
        _ => panic!("expected acceptance"),
    };
    let (user, resp) = register_confirm(
        &mut store,
        pending,
        &UUIDData { uuid: "12345678-1234-1234-1234-123456789012".to_string() },
    );
    assert!(user.is_none());
    assert!(!resp.success);
    assert_eq!(resp.message, "Bad uuid");
    assert!(store.get("user@example.com").is_none());
}

#[test]
fn reset_error_variants() {
    let mut store = Store::new();
    let (sk, pk) = test_key(8);
    let (wrong_sk, _) = test_key(9);
    register(&mut store, "user@example.com", "Str0ng!Pass", pk);

    // unknown account: the reset flow may reveal it
    match reset_begin(&store, &EmailData { email: "ghost@example.com".to_string() }) {
        ResetBegin::Rejected(m) => {
            assert!(!m.success);
            assert_eq!(m.message, "Invalid email");
        }
        _ => panic!("unknown account must be rejected"),
    }

    // wrong hardware key
    let (pending, _, challenge_msg) = match reset_begin(
        &store,
        &EmailData { email: "user@example.com".to_string() },
    ) {
        ResetBegin::ChallengeIssued(p, m, c) => (p, m, c),
        _ => panic!("expected a challenge"),
    };
    let bad_sig = sign_challenge(&wrong_sk, &challenge_msg.challenge);
    match reset_verify_key(pending, &ResponseData { response: bad_sig }) {
        ResetKeyOutcome::Rejected(m) => {
            assert!(!m.success);
            assert_eq!(m.message, "Wrong yubikey");
        }
        _ => panic!("a wrong key must be rejected"),
    }

    // wrong token
    let (pending, _, challenge_msg) = match reset_begin(
        &store,
        &EmailData { email: "user@example.com".to_string() },
    ) {
        ResetBegin::ChallengeIssued(p, m, c) => (p, m, c),
        _ => panic!("expected a challenge"),
    };
    let sig = sign_challenge(&sk, &challenge_msg.challenge);
    let token_pending = match reset_verify_key(pending, &ResponseData { response: sig }) {
        ResetKeyOutcome::KeyVerified(t, _, _) => t,
        _ => panic!("expected the key to verify"),
    };
    match reset_confirm_token(
        token_pending,
        &UUIDData { uuid: "12345678-1234-1234-1234-123456789012".to_string() },
    ) {
        ResetTokenOutcome::Rejected(m) => {
            assert!(!m.success);
            assert_eq!(m.message, "Bad uuid");
        }
        _ => panic!("a wrong token must be rejected"),
    }

    // invalid new password leaves the store unchanged
    let (pending, _, challenge_msg) = match reset_begin(
        &store,
        &EmailData { email: "user@example.com".to_string() },
    ) {
        ResetBegin::ChallengeIssued(p, m, c) => (p, m, c),
        _ => panic!("expected a challenge"),
    };
    let sig = sign_challenge(&sk, &challenge_msg.challenge);
    let token_pending = match reset_verify_key(pending, &ResponseData { response: sig }) {
        ResetKeyOutcome::KeyVerified(t, _, _) => t,
        _ => panic!("expected the key to verify"),
    };
    let token = token_pending.token.clone();
    let pw_pending = match reset_confirm_token(token_pending, &UUIDData { uuid: token }) {
        ResetTokenOutcome::TokenOk(p, _) => p,
        _ => panic!("expected the token to pass"),
    };
    let (user, err) = reset_set_password(
        &mut store,
        pw_pending,
        &PasswordData { password: "weak".to_string() },
    );
    assert!(user.is_none());
    let err = err.expect("an invalid password must be reported");
    assert!(!err.success);
    assert!(err.message.starts_with("Invalid password"));
    match login(&store, "user@example.com", "Str0ng!Pass") {
        LoginOutcome::Authenticated(_, _) => {}
        _ => panic!("the old password must still work after a failed reset"),
    }
}

#[test]
fn crypto_primitive_values() {
    // SHA-256 of the empty input, against the published digest
    let digest = hash_sha256(&[]);
    let expected: Vec<u8> = vec![
        0xe3, 0xb0, 0xc4, 0x42, 0x98, 0xfc, 0x1c, 0x14, 0x9a, 0xfb, 0xf4, 0xc8, 0x99, 0x6f, 0xb9,
        0x24, 0x27, 0xae, 0x41, 0xe4, 0x64, 0x9b, 0x93, 0x4c, 0xa4, 0x95, 0x99, 0x1b, 0x78, 0x52,
        0xb8, 0x55,
    ];
    assert_eq!(digest, expected);

    // the encoded Argon2 hash is deterministic in password and salt, and is
    // not the bare password
    let salt = [9u8; 16];
    let h1 = hash_argon2("Str0ng!Pass", &salt);
    let h2 = hash_argon2("Str0ng!Pass", &salt);
    assert_eq!(h1, h2);
    assert!(h1.starts_with("$argon2"));
    let other_salt = [10u8; 16];
    let h3 = hash_argon2("Str0ng!Pass", &other_salt);
    assert_ne!(h1, h3);
}

#[test]
fn public_key_validation() {
    let (_sk, pk) = test_key(10);
    assert!(validate_public_key(&pk));
    assert!(!validate_public_key(&vec![1, 2, 3]));
    assert!(!validate_public_key(&Vec::new()));

    // malformed inputs verify as false, never panic
    let challenge = [1u8; 16];
    assert!(!verify_challenge_yubikey(&vec![1, 2, 3], &challenge, &[4, 5, 6]));
    assert!(!verify_challenge_yubikey(&pk, &challenge, &[4, 5, 6]));
}

#[test]
fn session_actions() {
    let mut store = Store::new();
    let (_sk, pk) = test_key(11);
    let mut user = register(&mut store, "user@example.com", "Str0ng!Pass", pk);

    let (keep, change) = Action::Switch2FA.perform(&mut user, &mut store);
    assert!(keep);
    assert!(user.two_fa);
    assert!(change.unwrap().two_fa_status);
    assert!(store.get("user@example.com").unwrap().two_fa);

    let (keep, change) = Action::Switch2FA.perform(&mut user, &mut store);
    assert!(keep);
    assert!(!user.two_fa);
    assert!(!change.unwrap().two_fa_status);
    assert!(!store.get("user@example.com").unwrap().two_fa);

    let (keep, change) = Action::Logout.perform(&mut user, &mut store);
    assert!(!keep);
    assert!(change.is_none());
}

#[test]
fn intent_dispatch() {
    assert!(matches!(Authenticate::Authenticate.perform(), FlowStart::BeginLogin));
    assert!(matches!(Authenticate::Register.perform(), FlowStart::BeginRegister));
    assert!(matches!(Authenticate::Reset.perform(), FlowStart::BeginReset));
    assert!(matches!(Authenticate::Exit.perform(), FlowStart::Disconnect));
}

#[test]
fn client_handles_server_responses() {
    let ok = handle_server_response(&ServerResponse {
        message: "Authentification success".to_string(),
        success: true,
    });
    assert!(ok.is_ok());

    let err = handle_server_response(&ServerResponse {
        message: "Invalid email".to_string(),
        success: false,
    });
    assert_eq!(err.unwrap_err(), "Invalid email");
}

#[test]
fn store_upsert_is_last_writer_wins() {
    let mut store = Store::new();
    let (_sk, pk) = test_key(12);
    let user = register(&mut store, "user@example.com", "Str0ng!Pass", pk.clone());
    let first_salt = store.get("user@example.com").unwrap().salt;

    // a second insert under the same email replaces the record
    let replacement = User {
        email: user.email.clone(),
        salt: [3u8; 16],
        hash_password: "other".to_string(),
        public_yubikey: pk,
        two_fa: true,
    };
    store.insert(replacement);
    let stored = store.get("user@example.com").unwrap();
    assert_eq!(stored.salt, [3u8; 16]);
    assert_ne!(stored.salt, first_salt);
    assert!(stored.two_fa);
    assert!(store.get("other@example.com").is_none());
}

#[test]
fn malformed_email_never_reaches_an_account() {
    let mut store = Store::new();
    let (_sk, pk) = test_key(13);
    register(&mut store, "user@example.com", "Str0ng!Pass", pk);

    // a malformed email is not looked up: the flow runs against the dummy
    // record and ends in the one generic rejection
    let (pending, challenge_msg) = login_begin(
        &store,
        &EmailData { email: "not an email".to_string() },
    );
    assert!(!pending.valid_user);
    assert_eq!(challenge_msg.salt, [0u8; 16]);
    let response = compute_challenge_response(
        &challenge_msg.challenge,
        &challenge_msg.salt,
        "Str0ng!Pass",
    );
    match login_password(pending, &ResponseData { response }) {
        LoginOutcome::Rejected(m) => {
            assert_eq!(m.message, "Invalid user and password combination")
        }
        _ => panic!("a malformed email must be rejected"),
    }
}
