use vstd::prelude::*;
use crate::crypto::{
    argon2_verifies, jwt_error_text, phc_parses, sign_claims, spec_argon2_verifies,
    spec_hs256_token, spec_phc_parses,
};
use crate::error::{refusal, result_view, ApiError, ApiErrorView, StatusCode};
use crate::models::{
    opt_view, Claims, ClaimsView, EmailLog, LoginChallenge, LoginChallengeView, User, UserView,
    Verify2FaResponse,
};
use crate::time::{Timestamp, NANOS_PER_SEC};

verus! {

/// Seconds for which a mailed code stays valid.
pub const CHALLENGE_LIFETIME_SECS: i64 = 300;

/// Seconds for which an access token stays valid.
pub const TOKEN_LIFETIME_SECS: i64 = 86_400;

/// The smallest verification code.
pub const CODE_MIN: u32 = 100_000;

/// The largest verification code.
pub const CODE_MAX: u32 = 999_999;

/// What the second login step decides of a stored challenge and a submitted code,
/// before it looks at the clock.
pub open spec fn code_verdict(challenge: Option<LoginChallengeView>, code: Seq<char>) -> Result<
    LoginChallengeView,
    ApiErrorView,
> {
    match challenge {
        None => Err(refusal(StatusCode::BadRequest, "Invalid challenge ID"@)),
        Some(c) => if !spec_phc_parses(c.verification_code) {
            Err(refusal(StatusCode::InternalServerError, "Invalid hash"@))
        } else if !spec_argon2_verifies(code, c.verification_code) {
            Err(refusal(StatusCode::BadRequest, "Invalid verification code"@))
        } else {
            Ok(c)
        },
    }
}

/// What the second login step decides of a stored challenge whose code matched, at
/// the instant `now`.
pub open spec fn expiry_verdict(c: LoginChallengeView, now: Timestamp) -> Result<
    LoginChallengeView,
    ApiErrorView,
> {
    if now.later_than(c.expires_at) {
        Err(refusal(StatusCode::BadRequest, "Verification code expired"@))
    } else {
        Ok(c)
    }
}

/// What the second login step decides of a stored challenge and a submitted code at
/// the instant `now`.
pub open spec fn challenge_verdict(
    challenge: Option<LoginChallengeView>,
    code: Seq<char>,
    now: Timestamp,
) -> Result<LoginChallengeView, ApiErrorView> {
    match code_verdict(challenge, code) {
        Err(e) => Err(e),
        Ok(c) => expiry_verdict(c, now),
    }
}

/// Checks a submitted code against the stored challenge (absent when the id is unknown).
pub fn check_code(challenge: Option<LoginChallenge>, code: &str) -> (r: Result<LoginChallenge, ApiError>)
    ensures
        result_view(r) == code_verdict(opt_view(challenge), code@),
{
    match challenge {
        None => Err(ApiError::new(StatusCode::BadRequest, "Invalid challenge ID")),
        Some(c) => {
            if !phc_parses(c.verification_code.as_str()) {
                return Err(ApiError::new(StatusCode::InternalServerError, "Invalid hash"));
            }
            if !argon2_verifies(code, c.verification_code.as_str()) {
                return Err(ApiError::new(StatusCode::BadRequest, "Invalid verification code"));
            }
            Ok(c)
        },
    }
}

/// Checks that a challenge whose code matched has not lapsed at the instant `now`.
pub fn check_expiry(c: LoginChallenge, now: Timestamp) -> (r: Result<LoginChallenge, ApiError>)
    ensures
        result_view(r) == expiry_verdict(c@, now),
{
    if now.is_after(&c.expires_at) {
        return Err(ApiError::new(StatusCode::BadRequest, "Verification code expired"));
    }
    Ok(c)
}

/// The claims of the token issued to a user at `now`: it lapses a day later.
pub open spec fn token_claims(user: UserView, now: Timestamp) -> ClaimsView {
    ClaimsView {
        sub: user.id,
        email: user.email,
        role: user.role,
        exp: (now.secs + TOKEN_LIFETIME_SECS) as usize,
    }
}

/// The token signed over the claims of [`token_claims`].
pub open spec fn spec_token_for(user: UserView, now: Timestamp, secret: Seq<char>) -> Seq<char> {
    let c = token_claims(user, now);
    spec_hs256_token(c.sub, c.email, c.role, c.exp, secret)
}

/// Issues the access token of a user whose second step succeeded at `now`.
pub fn issue_token(user: &User, now: Timestamp, secret: &str) -> (r: Result<Verify2FaResponse, ApiError>)
    requires
        now.secs <= i64::MAX - TOKEN_LIFETIME_SECS,
        now.nanos < NANOS_PER_SEC,
    ensures
        r matches Ok(resp) && resp@ == spec_token_for(user@, now, secret@),
{
    let expires = now.plus_seconds(TOKEN_LIFETIME_SECS);
    let claims = Claims {
        sub: user.id.clone(),
        email: user.email.clone(),
        role: user.role.clone(),
        exp: expires.secs as usize,
    };
    match sign_claims(&claims, secret) {
        Ok(token) => Ok(Verify2FaResponse { access_token: token }),
        Err(e) => Err(ApiError::with_text(StatusCode::InternalServerError, jwt_error_text(&e))),
    }
}

/// The mail address and the plain code of the latest mailed code.
#[derive(Debug)]
pub struct LatestCode {
    pub email: String,
    pub verification_code: String,
}

/// Answers the development request for the latest mailed code.
pub fn latest_code_reply(log: Option<EmailLog>) -> (r: Result<LatestCode, ApiError>)
    ensures
        match log {
            None => r matches Err(e) && e@ == refusal(StatusCode::NotFound, "No email logs found"@),
            Some(l) => r matches Ok(c) && c.email@ == l.email@ && c.verification_code@
                == l.verification_code@,
        },
{
    match log {
        None => Err(ApiError::new(StatusCode::NotFound, "No email logs found")),
        Some(l) => Ok(LatestCode { email: l.email, verification_code: l.verification_code }),
    }
}

/// The credentials of an `Authorization` header value of the bearer scheme: what
/// follows `Bearer `.
pub open spec fn spec_bearer_token(header: Seq<char>) -> Option<Seq<char>> {
    if header.len() >= 7 && header.subrange(0, 7) == "Bearer "@ {
        Some(header.subrange(7, header.len() as int))
    } else {
        None
    }
}

/// Takes the token out of an `Authorization` header value; `None` unless the value
/// uses the bearer scheme.
pub fn bearer_token(header: &str) -> (r: Option<String>)
    ensures
        opt_view(r) == spec_bearer_token(header@),
{
    proof {
        reveal_strlit("Bearer ");
    }
    let len = header.unicode_len();
    if len < 7 {
        return None;
    }
    let scheme = String::from_str(header.substring_char(0, 7));
    if scheme != String::from_str("Bearer ") {
        return None;
    }
    Some(String::from_str(header.substring_char(7, len)))
}

} // verus!
