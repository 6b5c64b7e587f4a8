use argon2::password_hash::{rand_core::OsRng, PasswordHasher, SaltString};
use argon2::{Algorithm, Argon2, Params, Version};
use rust_axum_todo::auth::{check_code, check_expiry, issue_token, latest_code_reply};
use rust_axum_todo::error::ApiError;
use rust_axum_todo::error::StatusCode;
use rust_axum_todo::login::{
    check_credentials, LoginAction, LoginEvent, LoginNext, LoginState,
};
use rust_axum_todo::models::{EmailLog, LoginChallenge, LoginRequest, User, Verify2FaRequest};
use rust_axum_todo::time::Timestamp;
use rust_axum_todo::two_factor::{Verify2FaAction, Verify2FaEvent, Verify2FaNext, Verify2FaState};

fn quick_hash(secret: &str) -> String {
    let params = Params::new(8, 1, 1, None).unwrap();
    let hasher = Argon2::new(Algorithm::Argon2id, Version::V0x13, params);
    let salt = SaltString::generate(&mut OsRng);
    hasher.hash_password(secret.as_bytes(), &salt).unwrap().to_string()
}

fn now() -> Timestamp {
    let t = chrono::Utc::now();
    Timestamp { secs: t.timestamp(), nanos: t.timestamp_subsec_nanos() }
}

fn user(hash: &str) -> User {
    User {
        id: "user-1".to_string(),
        full_name: "Admin User".to_string(),
        email: "admin@example.com".to_string(),
        hashed_password: hash.to_string(),
        role: "admin".to_string(),
        created_at: now(),
        updated_at: now(),
    }
}

fn challenge(code_hash: &str, expires_at: Timestamp) -> LoginChallenge {
    LoginChallenge {
        challenge_id: "challenge-1".to_string(),
        user_id: "user-1".to_string(),
        verification_code: code_hash.to_string(),
        expires_at,
    }
}

fn check_challenge(c: Option<LoginChallenge>, code: &str, now: Timestamp) -> Result<LoginChallenge, ApiError> {
    check_code(c, code).and_then(|c| check_expiry(c, now))
}

fn is_uuid(s: &str) -> bool {
    uuid::Uuid::parse_str(s).is_ok() && s.len() == 36
}

#[test]
fn credentials_unknown_user_is_unauthorized() {
    let e = check_credentials(None, "password123").unwrap_err();
    assert_eq!(e.status, StatusCode::Unauthorized);
    assert_eq!(e.message, "Invalid credentials");
}

#[test]
fn credentials_malformed_hash_is_server_error() {
    let e = check_credentials(Some(user("not a phc string")), "password123").unwrap_err();
    assert_eq!(e.status, StatusCode::InternalServerError);
    assert_eq!(e.message, "Invalid password hash format in db");
}

#[test]
fn credentials_wrong_password_is_unauthorized() {
    let e = check_credentials(Some(user(&quick_hash("password123"))), "wrong").unwrap_err();
    assert_eq!(e.status, StatusCode::Unauthorized);
    assert_eq!(e.message, "Invalid credentials");
}

#[test]
fn credentials_right_password_accepted() {
    let u = check_credentials(Some(user(&quick_hash("password123"))), "password123").unwrap();
    assert_eq!(u.id, "user-1");
}

#[test]
fn challenge_unknown_id_refused() {
    let e = check_challenge(None, "123456", now()).unwrap_err();
    assert_eq!(e.status, StatusCode::BadRequest);
    assert_eq!(e.message, "Invalid challenge ID");
}

#[test]
fn challenge_malformed_hash_refused() {
    let later = now().plus_seconds(300);
    let e = check_challenge(Some(challenge("garbage", later)), "123456", now()).unwrap_err();
    assert_eq!(e.status, StatusCode::InternalServerError);
    assert_eq!(e.message, "Invalid hash");
}

#[test]
fn challenge_wrong_code_refused() {
    let later = now().plus_seconds(300);
    let e = check_challenge(Some(challenge(&quick_hash("123456"), later)), "654321", now()).unwrap_err();
    assert_eq!(e.status, StatusCode::BadRequest);
    assert_eq!(e.message, "Invalid verification code");
}

#[test]
fn challenge_lapsed_code_refused() {
    let expired = Timestamp { secs: 1_000, nanos: 0 };
    let e = check_challenge(Some(challenge(&quick_hash("123456"), expired)), "123456", now()).unwrap_err();
    assert_eq!(e.status, StatusCode::BadRequest);
    assert_eq!(e.message, "Verification code expired");
}

#[test]
fn challenge_at_expiry_instant_accepted() {
    let t = Timestamp { secs: 5_000, nanos: 7 };
    let c = check_challenge(Some(challenge(&quick_hash("123456"), t)), "123456", t).unwrap();
    assert_eq!(c.user_id, "user-1");
}

#[test]
fn token_carries_the_users_claims() {
    let u = user("irrelevant");
    let at = Timestamp { secs: 1_700_000_000, nanos: 0 };
    let token = issue_token(&u, at, "secret").unwrap().access_token;
    let mut validation = jsonwebtoken::Validation::default();
    validation.validate_exp = false;
    let data = jsonwebtoken::decode::<serde_json::Value>(
        &token,
        &jsonwebtoken::DecodingKey::from_secret(b"secret"),
        &validation,
    )
    .unwrap();
    assert_eq!(data.claims["sub"], "user-1");
    assert_eq!(data.claims["email"], "admin@example.com");
    assert_eq!(data.claims["role"], "admin");
    assert_eq!(data.claims["exp"], 1_700_086_400u64);
    let keys: Vec<&str> = data.claims.as_object().unwrap().keys().map(|k| k.as_str()).collect();
    assert_eq!(keys, vec!["sub", "email", "role", "exp"]);
    assert!(jsonwebtoken::decode::<serde_json::Value>(
        &token,
        &jsonwebtoken::DecodingKey::from_secret(b"other"),
        &validation,
    )
    .is_err());
}

#[test]
fn latest_code_reply_reports_or_refuses() {
    let e = latest_code_reply(None).unwrap_err();
    assert_eq!(e.status, StatusCode::NotFound);
    assert_eq!(e.message, "No email logs found");
    let log = EmailLog {
        id: "l".to_string(),
        email: "a@b".to_string(),
        verification_code: "123456".to_string(),
        created_at: now(),
    };
    let c = latest_code_reply(Some(log)).unwrap();
    assert_eq!(c.email, "a@b");
    assert_eq!(c.verification_code, "123456");
}

fn cont(n: LoginNext) -> LoginState {
    match n {
        LoginNext::Continue(s) => s,
        LoginNext::Reply(r) => panic!("unexpected reply: {:?}", r.err()),
    }
}

/// Runs a login through to its commit; returns the stored challenge and the mailed code.
fn run_login(u: User) -> (LoginChallenge, String, String) {
    let start = LoginState::start(LoginRequest {
        email: "admin@example.com".to_string(),
        password: "password123".to_string(),
    });
    match start.pending_action() {
        LoginAction::FindUserByEmail { email } => assert_eq!(email, "admin@example.com"),
        _ => panic!("expected a lookup"),
    }
    let s = cont(rust_axum_todo::login::login_step(start, LoginEvent::UserFound(Some(u))));
    assert!(matches!(s.pending_action(), LoginAction::BeginTransaction));
    let s = cont(rust_axum_todo::login::login_step(s, LoginEvent::Done));
    let stored = match s.pending_action() {
        LoginAction::InsertChallenge { challenge } => challenge,
        _ => panic!("expected the challenge insert"),
    };
    assert_eq!(stored.user_id, "user-1");
    assert!(is_uuid(&stored.challenge_id));
    let s = cont(rust_axum_todo::login::login_step(s, LoginEvent::Done));
    let (log_id, code) = match s.pending_action() {
        LoginAction::InsertEmailLog { id, email, code } => {
            assert_eq!(email, "admin@example.com");
            (id, code)
        },
        _ => panic!("expected the log insert"),
    };
    assert!(is_uuid(&log_id));
    assert_eq!(code.len(), 6);
    let n: u32 = code.parse().unwrap();
    assert!((100_000..=999_999).contains(&n));
    let s = cont(rust_axum_todo::login::login_step(s, LoginEvent::Done));
    assert!(matches!(s.pending_action(), LoginAction::Commit));
    let reply = match rust_axum_todo::login::login_step(s, LoginEvent::Done) {
        LoginNext::Reply(Ok(r)) => r,
        _ => panic!("expected the reply"),
    };
    assert_eq!(reply.login_challenge_id, stored.challenge_id);
    assert_eq!(reply.message, "2FA code generated and sent to email");
    (stored, code, log_id)
}

#[test]
fn login_then_second_step_issues_token() {
    let before = now();
    let (stored, code, _) = run_login(user(&quick_hash("password123")));
    assert!(stored.expires_at.secs >= before.secs + 300 && stored.expires_at.secs <= now().secs + 300);
    assert!(stored.verification_code.starts_with("$argon2"));
    let s = Verify2FaState::start(Verify2FaRequest {
        challenge_id: stored.challenge_id.clone(),
        code: code.clone(),
    });
    match s.pending_action() {
        Verify2FaAction::FindChallenge { challenge_id } => assert_eq!(challenge_id, stored.challenge_id),
        _ => panic!("expected the challenge lookup"),
    }
    let cid = stored.challenge_id.clone();
    let s = match rust_axum_todo::two_factor::verify_2fa_step(s, Verify2FaEvent::ChallengeFound(Some(stored)), "k") {
        Verify2FaNext::Continue(s) => s,
        Verify2FaNext::Reply(r) => panic!("refused: {:?}", r.err()),
    };
    match s.pending_action() {
        Verify2FaAction::FindUser { user_id } => assert_eq!(user_id, "user-1"),
        _ => panic!("expected the user lookup"),
    }
    let s = match rust_axum_todo::two_factor::verify_2fa_step(s, Verify2FaEvent::UserFound(Some(user("x"))), "k") {
        Verify2FaNext::Continue(s) => s,
        _ => panic!("expected the deletion"),
    };
    match s.pending_action() {
        Verify2FaAction::DeleteChallenge { challenge_id } => assert_eq!(challenge_id, cid),
        _ => panic!("expected the deletion"),
    }
    let token = match rust_axum_todo::two_factor::verify_2fa_step(s, Verify2FaEvent::Done, "k") {
        Verify2FaNext::Reply(Ok(r)) => r.access_token,
        _ => panic!("expected a token"),
    };
    let data = jsonwebtoken::decode::<serde_json::Value>(
        &token,
        &jsonwebtoken::DecodingKey::from_secret(b"k"),
        &jsonwebtoken::Validation::default(),
    )
    .unwrap();
    assert_eq!(data.claims["sub"], "user-1");
    let exp = data.claims["exp"].as_u64().unwrap() as i64;
    assert!(exp >= before.secs + 86_400 && exp <= now().secs + 86_400);
}

#[test]
fn login_wrong_password_writes_nothing() {
    let start = LoginState::start(LoginRequest {
        email: "admin@example.com".to_string(),
        password: "nope".to_string(),
    });
    match rust_axum_todo::login::login_step(start, LoginEvent::UserFound(Some(user(&quick_hash("password123"))))) {
        LoginNext::Reply(Err(e)) => {
            assert_eq!(e.status, StatusCode::Unauthorized);
            assert_eq!(e.message, "Invalid credentials");
        },
        _ => panic!("expected a refusal"),
    }
}

#[test]
fn login_storage_failure_is_server_error() {
    let start = LoginState::start(LoginRequest {
        email: "a".to_string(),
        password: "b".to_string(),
    });
    match rust_axum_todo::login::login_step(start, LoginEvent::StorageFailed("db down".to_string())) {
        LoginNext::Reply(Err(e)) => {
            assert_eq!(e.status, StatusCode::InternalServerError);
            assert_eq!(e.message, "db down");
        },
        _ => panic!("expected a refusal"),
    }
}

#[test]
fn login_ignores_an_event_that_answers_nothing() {
    let start = LoginState::start(LoginRequest {
        email: "a".to_string(),
        password: "b".to_string(),
    });
    let s = cont(rust_axum_todo::login::login_step(start, LoginEvent::Done));
    match s.pending_action() {
        LoginAction::FindUserByEmail { email } => assert_eq!(email, "a"),
        _ => panic!("state changed"),
    }
}

#[test]
fn second_step_wrong_code_refused() {
    let later = now().plus_seconds(300);
    let s = Verify2FaState::start(Verify2FaRequest {
        challenge_id: "challenge-1".to_string(),
        code: "000000".to_string(),
    });
    match rust_axum_todo::two_factor::verify_2fa_step(
        s,
        Verify2FaEvent::ChallengeFound(Some(challenge(&quick_hash("123456"), later))),
        "k",
    ) {
        Verify2FaNext::Reply(Err(e)) => {
            assert_eq!(e.status, StatusCode::BadRequest);
            assert_eq!(e.message, "Invalid verification code");
        },
        _ => panic!("expected a refusal"),
    }
}

#[test]
fn second_step_unknown_user_is_server_error() {
    let s = Verify2FaState::AwaitingUser { challenge_id: "c".to_string(), user_id: "u".to_string() };
    match rust_axum_todo::two_factor::verify_2fa_step(s, Verify2FaEvent::UserFound(None), "k") {
        Verify2FaNext::Reply(Err(e)) => {
            assert_eq!(e.status, StatusCode::InternalServerError);
            assert_eq!(e.message, "User not found");
        },
        _ => panic!("expected a refusal"),
    }
}

#[test]
fn second_step_replay_after_deletion_refused() {
    let s = Verify2FaState::start(Verify2FaRequest {
        challenge_id: "challenge-1".to_string(),
        code: "123456".to_string(),
    });
    match rust_axum_todo::two_factor::verify_2fa_step(s, Verify2FaEvent::ChallengeFound(None), "k") {
        Verify2FaNext::Reply(Err(e)) => {
            assert_eq!(e.status, StatusCode::BadRequest);
            assert_eq!(e.message, "Invalid challenge ID");
        },
        _ => panic!("expected a refusal"),
    }
}

#[test]
fn stored_hash_is_not_the_mailed_code() {
    let (stored, code, _) = run_login(user(&quick_hash("password123")));
    assert_ne!(stored.verification_code, code);
    assert!(stored.verification_code.starts_with('$'));
}
