use vstd::prelude::*;
use crate::auth::{challenge_verdict, check_code, check_expiry, code_verdict, issue_token, spec_token_for};
use crate::error::{refusal, ApiError, ApiErrorView, StatusCode};
use crate::login::{
    clock_reading, lemma_login_step_keeps_soundness, lemma_started_login_writes_challenge,
    login_action, login_state_sound, login_transition, record_sound, spec_draft, LoginActionView,
    LoginEventView, LoginNextView, LoginRecordView, LoginStateView,
};
use crate::auth::{token_claims, CODE_MAX, CODE_MIN};
use crate::models::ClaimsView;
use crate::seed::{
    default_password, lemma_seeded_account_accepts_default_password, seed_action, seed_state_sound,
    SeedActionView, SeedStateView,
};
use crate::crypto::{spec_argon2_verifies, spec_phc_parses};
use crate::models::{opt_view, LoginChallenge, LoginChallengeView, User, UserView, Verify2FaRequest,
    Verify2FaResponse};
use crate::time::{current_time, ClockReading, Timestamp};

verus! {

/// Where a second login step stands; each state has one storage operation pending.
#[derive(Debug)]
pub enum Verify2FaState {
    AwaitingChallenge { challenge_id: String, code: String },
    AwaitingUser { challenge_id: String, user_id: String },
    AwaitingDeletion { challenge_id: String, user: User },
}

pub enum Verify2FaStateView {
    AwaitingChallenge { challenge_id: Seq<char>, code: Seq<char> },
    AwaitingUser { challenge_id: Seq<char>, user_id: Seq<char> },
    AwaitingDeletion { challenge_id: Seq<char>, user: UserView },
}

impl View for Verify2FaState {
    type V = Verify2FaStateView;

    open spec fn view(&self) -> Verify2FaStateView {
        match self {
            Verify2FaState::AwaitingChallenge { challenge_id, code } =>
                Verify2FaStateView::AwaitingChallenge { challenge_id: challenge_id@, code: code@ },
            Verify2FaState::AwaitingUser { challenge_id, user_id } =>
                Verify2FaStateView::AwaitingUser { challenge_id: challenge_id@, user_id: user_id@ },
            Verify2FaState::AwaitingDeletion { challenge_id, user } =>
                Verify2FaStateView::AwaitingDeletion { challenge_id: challenge_id@, user: user@ },
        }
    }
}

/// What the storage layer reports back to a second login step.
#[derive(Debug)]
pub enum Verify2FaEvent {
    /// The challenge looked up by id, if there is one.
    ChallengeFound(Option<LoginChallenge>),
    /// The account looked up by id, if there is one.
    UserFound(Option<User>),
    /// The pending deletion succeeded.
    Done,
    /// The pending operation failed, with the storage layer's text.
    StorageFailed(String),
}

pub enum Verify2FaEventView {
    ChallengeFound(Option<LoginChallengeView>),
    UserFound(Option<UserView>),
    Done,
    StorageFailed(Seq<char>),
}

impl View for Verify2FaEvent {
    type V = Verify2FaEventView;

    open spec fn view(&self) -> Verify2FaEventView {
        match self {
            Verify2FaEvent::ChallengeFound(c) => Verify2FaEventView::ChallengeFound(opt_view(*c)),
            Verify2FaEvent::UserFound(u) => Verify2FaEventView::UserFound(opt_view(*u)),
            Verify2FaEvent::Done => Verify2FaEventView::Done,
            Verify2FaEvent::StorageFailed(m) => Verify2FaEventView::StorageFailed(m@),
        }
    }
}

/// The storage operation that a second-step state waits for.
#[derive(Debug)]
pub enum Verify2FaAction {
    FindChallenge { challenge_id: String },
    FindUser { user_id: String },
    DeleteChallenge { challenge_id: String },
}

pub enum Verify2FaActionView {
    FindChallenge { challenge_id: Seq<char> },
    FindUser { user_id: Seq<char> },
    DeleteChallenge { challenge_id: Seq<char> },
}

impl View for Verify2FaAction {
    type V = Verify2FaActionView;

    open spec fn view(&self) -> Verify2FaActionView {
        match self {
            Verify2FaAction::FindChallenge { challenge_id } => Verify2FaActionView::FindChallenge {
                challenge_id: challenge_id@,
            },
            Verify2FaAction::FindUser { user_id } => Verify2FaActionView::FindUser {
                user_id: user_id@,
            },
            Verify2FaAction::DeleteChallenge { challenge_id } =>
                Verify2FaActionView::DeleteChallenge { challenge_id: challenge_id@ },
        }
    }
}

/// A second step either waits for another storage operation or is answered.
#[derive(Debug)]
pub enum Verify2FaNext {
    Continue(Verify2FaState),
    Reply(Result<Verify2FaResponse, ApiError>),
}

pub enum Verify2FaNextView {
    Continue(Verify2FaStateView),
    Reply(Result<Seq<char>, ApiErrorView>),
}

impl View for Verify2FaNext {
    type V = Verify2FaNextView;

    open spec fn view(&self) -> Verify2FaNextView {
        match self {
            Verify2FaNext::Continue(s) => Verify2FaNextView::Continue(s@),
            Verify2FaNext::Reply(Ok(r)) => Verify2FaNextView::Reply(Ok(r@)),
            Verify2FaNext::Reply(Err(e)) => Verify2FaNextView::Reply(Err(e@)),
        }
    }
}

/// The operation each second-step state waits for.
pub open spec fn verify_2fa_action(s: Verify2FaStateView) -> Verify2FaActionView {
    match s {
        Verify2FaStateView::AwaitingChallenge { challenge_id, .. } =>
            Verify2FaActionView::FindChallenge { challenge_id },
        Verify2FaStateView::AwaitingUser { user_id, .. } => Verify2FaActionView::FindUser { user_id },
        Verify2FaStateView::AwaitingDeletion { challenge_id, .. } =>
            Verify2FaActionView::DeleteChallenge { challenge_id },
    }
}

/// What the second step does once the challenge lookup answered, at instant `now`.
pub open spec fn after_challenge(
    challenge_id: Seq<char>,
    code: Seq<char>,
    found: Option<LoginChallengeView>,
    now: Timestamp,
) -> Verify2FaNextView {
    match challenge_verdict(found, code, now) {
        Err(err) => Verify2FaNextView::Reply(Err(err)),
        Ok(c) => Verify2FaNextView::Continue(
            Verify2FaStateView::AwaitingUser { challenge_id, user_id: c.user_id },
        ),
    }
}

/// Whether `n` answers with the token of `user` issued at `now`.
pub open spec fn token_reply(n: Verify2FaNextView, user: UserView, now: Timestamp, secret: Seq<char>) -> bool {
    n == Verify2FaNextView::Reply(Ok(spec_token_for(user, now, secret)))
}

/// What a second-step step does with a state and an event when the clock reads `now`
/// and tokens are signed with `secret`.
pub open spec fn verify_2fa_next(
    s: Verify2FaStateView,
    e: Verify2FaEventView,
    now: Timestamp,
    secret: Seq<char>,
    n: Verify2FaNextView,
) -> bool {
    match e {
        Verify2FaEventView::StorageFailed(m) => n == Verify2FaNextView::Reply(
            Err(refusal(StatusCode::InternalServerError, m)),
        ),
        Verify2FaEventView::ChallengeFound(found) => match s {
            Verify2FaStateView::AwaitingChallenge { challenge_id, code } => n == after_challenge(
                challenge_id,
                code,
                found,
                now,
            ),
            _ => n == Verify2FaNextView::Continue(s),
        },
        Verify2FaEventView::UserFound(found) => match s {
            Verify2FaStateView::AwaitingUser { challenge_id, .. } => match found {
                None => n == Verify2FaNextView::Reply(
                    Err(refusal(StatusCode::InternalServerError, "User not found"@)),
                ),
                Some(user) => n == Verify2FaNextView::Continue(
                    Verify2FaStateView::AwaitingDeletion { challenge_id, user },
                ),
            },
            _ => n == Verify2FaNextView::Continue(s),
        },
        Verify2FaEventView::Done => match s {
            Verify2FaStateView::AwaitingDeletion { user, .. } => token_reply(n, user, now, secret),
            _ => n == Verify2FaNextView::Continue(s),
        },
    }
}

/// What a second-step step may do: what [`verify_2fa_next`] says for some clock reading.
pub open spec fn verify_2fa_transition(
    s: Verify2FaStateView,
    e: Verify2FaEventView,
    secret: Seq<char>,
    n: Verify2FaNextView,
) -> bool {
    exists|now: Timestamp| clock_reading(now) && #[trigger] verify_2fa_next(s, e, now, secret, n)
}

impl Verify2FaState {
    /// The state in which a second-step request starts.
    pub fn start(request: Verify2FaRequest) -> (s: Verify2FaState)
        ensures
            s@ == (Verify2FaStateView::AwaitingChallenge {
                challenge_id: request.challenge_id@,
                code: request.code@,
            }),
    {
        Verify2FaState::AwaitingChallenge { challenge_id: request.challenge_id, code: request.code }
    }

    /// The storage operation this state waits for.
    pub fn pending_action(&self) -> (a: Verify2FaAction)
        ensures
            a@ == verify_2fa_action(self@),
    {
        match self {
            Verify2FaState::AwaitingChallenge { challenge_id, .. } =>
                Verify2FaAction::FindChallenge { challenge_id: challenge_id.clone() },
            Verify2FaState::AwaitingUser { user_id, .. } => Verify2FaAction::FindUser {
                user_id: user_id.clone(),
            },
            Verify2FaState::AwaitingDeletion { challenge_id, .. } =>
                Verify2FaAction::DeleteChallenge { challenge_id: challenge_id.clone() },
        }
    }
}

/// Decides on the challenge found for the requested id: checks the submitted code,
/// then, once it matched, reads the clock and checks the expiry at that reading. The
/// reading is handed back with the decision, which is what [`after_challenge`] says
/// at that very reading; no reading is taken when the code is refused.
pub fn on_challenge(challenge_id: String, code: String, found: Option<LoginChallenge>) -> (r: (
    Verify2FaNext,
    Option<ClockReading>,
))
    ensures
        match r.1 {
            Some(reading) => clock_reading(reading.at()) && r.0@ == after_challenge(
                challenge_id@,
                code@,
                opt_view(found),
                reading.at(),
            ),
            None => code_verdict(opt_view(found), code@) matches Err(e) && r.0@
                == Verify2FaNextView::Reply(Err(e)),
        },
{
    match check_code(found, code.as_str()) {
        Err(e) => (Verify2FaNext::Reply(Err(e)), None),
        Ok(c) => {
            let reading = current_time();
            let now = reading.instant();
            let n = match check_expiry(c, now) {
                Err(e) => Verify2FaNext::Reply(Err(e)),
                Ok(c) => Verify2FaNext::Continue(
                    Verify2FaState::AwaitingUser { challenge_id, user_id: c.user_id },
                ),
            };
            (n, Some(reading))
        },
    }
}

/// Whatever instant the clock reads, a challenge that lapsed before it is refused
/// once its code matched: the second step answers 400 "Verification code expired"
/// and does not go on to the account lookup; up to the expiry it goes on.
pub proof fn lemma_expiry_decides_at_the_reading(
    challenge_id: Seq<char>,
    code: Seq<char>,
    challenge: LoginChallengeView,
    now: Timestamp,
)
    requires
        spec_phc_parses(challenge.verification_code),
        spec_argon2_verifies(code, challenge.verification_code),
    ensures
        now.later_than(challenge.expires_at) ==> after_challenge(
            challenge_id,
            code,
            Some(challenge),
            now,
        ) == Verify2FaNextView::Reply(
            Err(refusal(StatusCode::BadRequest, "Verification code expired"@)),
        ),
        !now.later_than(challenge.expires_at) ==> after_challenge(
            challenge_id,
            code,
            Some(challenge),
            now,
        ) == Verify2FaNextView::Continue(
            Verify2FaStateView::AwaitingUser { challenge_id, user_id: challenge.user_id },
        ),
{
}

/// Advances a second login step by what the storage layer reported. The clock is read
/// once the submitted code has matched, to check the expiry, and again to issue the
/// token; the token is issued only
/// once the challenge is deleted, so that a code opens one session; an event that
/// does not answer the pending operation leaves the state as it was.
pub fn verify_2fa_step(state: Verify2FaState, event: Verify2FaEvent, secret: &str) -> (n: Verify2FaNext)
    ensures
        verify_2fa_transition(state@, event@, secret@, n@),
{
    let ghost mut reading = Timestamp { secs: 0, nanos: 0 };
    let n = match event {
        Verify2FaEvent::StorageFailed(m) => Verify2FaNext::Reply(
            Err(ApiError::with_text(StatusCode::InternalServerError, m)),
        ),
        Verify2FaEvent::ChallengeFound(found) => match state {
            Verify2FaState::AwaitingChallenge { challenge_id, code } => {
                let (n, taken) = on_challenge(challenge_id, code, found);
                proof {
                    if let Some(r) = taken {
                        reading = r.at();
                    }
                }
                n
            },
            other => Verify2FaNext::Continue(other),
        },
        Verify2FaEvent::UserFound(found) => match state {
            Verify2FaState::AwaitingUser { challenge_id, .. } => match found {
                None => Verify2FaNext::Reply(
                    Err(ApiError::new(StatusCode::InternalServerError, "User not found")),
                ),
                Some(user) => Verify2FaNext::Continue(
                    Verify2FaState::AwaitingDeletion { challenge_id, user },
                ),
            },
            other => Verify2FaNext::Continue(other),
        },
        Verify2FaEvent::Done => match state {
            Verify2FaState::AwaitingDeletion { user, .. } => {
                let now = current_time().instant();
                proof {
                    reading = now;
                }
                match issue_token(&user, now, secret) {
                    Ok(r) => Verify2FaNext::Reply(Ok(r)),
                    Err(e) => Verify2FaNext::Reply(Err(e)),
                }
            },
            other => Verify2FaNext::Continue(other),
        },
    };
    assert(clock_reading(reading) && verify_2fa_next(state@, event@, reading, secret@, n@));
    n
}

/// The code that a login mails opens the challenge that the same login stores, at
/// any instant up to the challenge's expiry: the second step then goes on to look up
/// the challenge's account.
pub proof fn lemma_mailed_code_opens_challenge(
    record: LoginRecordView,
    now: Timestamp,
    secret: Seq<char>,
    n: Verify2FaNextView,
)
    requires
        record_sound(record),
        !now.later_than(record.challenge.expires_at),
    ensures
        verify_2fa_next(
            Verify2FaStateView::AwaitingChallenge {
                challenge_id: record.challenge.challenge_id,
                code: record.code,
            },
            Verify2FaEventView::ChallengeFound(Some(record.challenge)),
            now,
            secret,
            n,
        ) <==> n == Verify2FaNextView::Continue(
            Verify2FaStateView::AwaitingUser {
                challenge_id: record.challenge.challenge_id,
                user_id: record.challenge.user_id,
            },
        ),
{
}

/// A login that reached its writes stores a challenge and mails a code such that a
/// second step presenting that challenge's id and that code, up to the expiry, gets
/// past the check to the account lookup.
pub proof fn lemma_login_writes_open_each_other(
    record: LoginRecordView,
    now: Timestamp,
    secret: Seq<char>,
)
    requires
        login_state_sound(LoginStateView::AwaitingChallengeInsert { record }),
        !now.later_than(record.challenge.expires_at),
    ensures
        login_action(LoginStateView::AwaitingChallengeInsert { record })
            == (LoginActionView::InsertChallenge { challenge: record.challenge }),
        login_action(LoginStateView::AwaitingLogInsert { record }) == (LoginActionView::InsertEmailLog {
            id: record.log_id,
            email: record.email,
            code: record.code,
        }),
        verify_2fa_next(
            Verify2FaStateView::AwaitingChallenge {
                challenge_id: record.challenge.challenge_id,
                code: record.code,
            },
            Verify2FaEventView::ChallengeFound(Some(record.challenge)),
            now,
            secret,
            Verify2FaNextView::Continue(
                Verify2FaStateView::AwaitingUser {
                    challenge_id: record.challenge.challenge_id,
                    user_id: record.challenge.user_id,
                },
            ),
        ),
{
    lemma_mailed_code_opens_challenge(
        record,
        now,
        secret,
        Verify2FaNextView::Continue(
            Verify2FaStateView::AwaitingUser {
                challenge_id: record.challenge.challenge_id,
                user_id: record.challenge.user_id,
            },
        ),
    );
}

/// A code submitted after its challenge lapsed, or one that does not match the stored
/// hash, is refused.
pub proof fn lemma_lapsed_or_wrong_code_refused(
    challenge_id: Seq<char>,
    code: Seq<char>,
    challenge: LoginChallengeView,
    now: Timestamp,
    secret: Seq<char>,
    n: Verify2FaNextView,
)
    requires
        now.later_than(challenge.expires_at) || !spec_argon2_verifies(code, challenge.verification_code),
        verify_2fa_next(
            Verify2FaStateView::AwaitingChallenge { challenge_id, code },
            Verify2FaEventView::ChallengeFound(Some(challenge)),
            now,
            secret,
            n,
        ),
    ensures
        n matches Verify2FaNextView::Reply(Err(_)),
{
}

/// An unknown challenge id is refused with 400 "Invalid challenge ID".
pub proof fn lemma_unknown_challenge_refused(
    challenge_id: Seq<char>,
    code: Seq<char>,
    now: Timestamp,
    secret: Seq<char>,
    n: Verify2FaNextView,
)
    requires
        verify_2fa_next(
            Verify2FaStateView::AwaitingChallenge { challenge_id, code },
            Verify2FaEventView::ChallengeFound(None),
            now,
            secret,
            n,
        ),
    ensures
        n == Verify2FaNextView::Reply(Err(refusal(StatusCode::BadRequest, "Invalid challenge ID"@))),
{
}

/// A token is issued only in answer to the deletion of the challenge, so that a
/// mailed code opens at most one session.
pub proof fn lemma_token_only_after_deletion(
    s: Verify2FaStateView,
    e: Verify2FaEventView,
    secret: Seq<char>,
    n: Verify2FaNextView,
)
    requires
        verify_2fa_transition(s, e, secret, n),
        n matches Verify2FaNextView::Reply(Ok(_)),
    ensures
        s is AwaitingDeletion,
        e is Done,
{
    let now = choose|now: Timestamp| clock_reading(now) && #[trigger] verify_2fa_next(s, e, now, secret, n);
}

/// The challenge stored under an id, if any, in a table of challenges by id.
pub open spec fn stored_challenge(
    challenges: Map<Seq<char>, LoginChallengeView>,
    challenge_id: Seq<char>,
) -> Option<LoginChallengeView> {
    if challenges.dom().contains(challenge_id) {
        Some(challenges[challenge_id])
    } else {
        None
    }
}

/// A redeemed challenge cannot be redeemed again: a token is answered only once the
/// step's deletion of the challenge succeeded, and in any table of challenges from
/// which that deletion removed it, a later second step presenting the same id (with
/// any code, at any instant) is refused with 400 "Invalid challenge ID".
pub proof fn lemma_redeemed_challenge_refused_later(
    s: Verify2FaStateView,
    e: Verify2FaEventView,
    secret: Seq<char>,
    n: Verify2FaNextView,
    challenges: Map<Seq<char>, LoginChallengeView>,
    code: Seq<char>,
    later: Timestamp,
    n2: Verify2FaNextView,
)
    requires
        verify_2fa_transition(s, e, secret, n),
        n matches Verify2FaNextView::Reply(Ok(_)),
        s matches Verify2FaStateView::AwaitingDeletion { challenge_id, .. } && verify_2fa_next(
            Verify2FaStateView::AwaitingChallenge { challenge_id, code },
            Verify2FaEventView::ChallengeFound(
                stored_challenge(challenges.remove(challenge_id), challenge_id),
            ),
            later,
            secret,
            n2,
        ),
    ensures
        verify_2fa_action(s) is DeleteChallenge,
        n2 == Verify2FaNextView::Reply(Err(refusal(StatusCode::BadRequest, "Invalid challenge ID"@))),
{
    lemma_token_only_after_deletion(s, e, secret, n);
}

/// From seeding to a token: an account that a seeding inserts logs in with the default
/// password; the login's transaction writes a challenge for that account and mails
/// a code; a second step presenting that challenge's id and that code before the
/// expiry finds the account, deletes the challenge, and is answered with the token of
/// the account's id, email and role.
pub proof fn lemma_seeded_account_logs_in_and_gets_token(
    seed: SeedStateView,
    stored: UserView,
    n1: LoginNextView,
    n2: LoginNextView,
    later: Timestamp,
    secret: Seq<char>,
)
    requires
        seed_state_sound(seed),
        seed_action(seed) matches SeedActionView::InsertUser { user } && stored.id == user.id
            && stored.email == user.email && stored.role == user.role && stored.hashed_password
            == user.hashed_password,
        login_transition(
            LoginStateView::AwaitingUser { email: stored.email, password: default_password() },
            LoginEventView::UserFound(Some(stored)),
            n1,
        ),
        n1 matches LoginNextView::Continue(s1) && login_transition(s1, LoginEventView::Done, n2),
    ensures
        n2 matches LoginNextView::Continue(LoginStateView::AwaitingChallengeInsert { record }) && {
            let cid = record.challenge.challenge_id;
            &&& record.challenge.user_id == stored.id
            &&& login_action(LoginStateView::AwaitingLogInsert { record })
                == (LoginActionView::InsertEmailLog {
                id: record.log_id,
                email: stored.email,
                code: record.code,
            })
            &&& !later.later_than(record.challenge.expires_at) ==> verify_2fa_next(
                Verify2FaStateView::AwaitingChallenge { challenge_id: cid, code: record.code },
                Verify2FaEventView::ChallengeFound(Some(record.challenge)),
                later,
                secret,
                Verify2FaNextView::Continue(
                    Verify2FaStateView::AwaitingUser { challenge_id: cid, user_id: stored.id },
                ),
            )
            &&& verify_2fa_next(
                Verify2FaStateView::AwaitingUser { challenge_id: cid, user_id: stored.id },
                Verify2FaEventView::UserFound(Some(stored)),
                later,
                secret,
                Verify2FaNextView::Continue(
                    Verify2FaStateView::AwaitingDeletion { challenge_id: cid, user: stored },
                ),
            )
            &&& verify_2fa_next(
                Verify2FaStateView::AwaitingDeletion { challenge_id: cid, user: stored },
                Verify2FaEventView::Done,
                later,
                secret,
                Verify2FaNextView::Reply(Ok(spec_token_for(stored, later, secret))),
            )
            &&& token_claims(stored, later) == (ClaimsView {
                sub: stored.id,
                email: stored.email,
                role: stored.role,
                exp: (later.secs + crate::auth::TOKEN_LIFETIME_SECS) as usize,
            })
        },
{
    lemma_seeded_account_accepts_default_password(seed, stored);
    let start = LoginStateView::AwaitingUser { email: stored.email, password: default_password() };
    lemma_login_step_keeps_soundness(start, LoginEventView::UserFound(Some(stored)), n1);
    if let LoginNextView::Continue(LoginStateView::AwaitingTransaction { draft }) = n1 {
        let (t, k) = choose|t: Timestamp, k: u32|
            clock_reading(t) && CODE_MIN <= k <= CODE_MAX && draft == #[trigger] spec_draft(
                stored,
                t,
                k,
                draft.challenge_id,
                draft.log_id,
            );
        lemma_started_login_writes_challenge(draft, n2);
        if let LoginNextView::Continue(LoginStateView::AwaitingChallengeInsert { record }) = n2 {
            if !later.later_than(record.challenge.expires_at) {
                lemma_mailed_code_opens_challenge(
                    record,
                    later,
                    secret,
                    Verify2FaNextView::Continue(
                        Verify2FaStateView::AwaitingUser {
                            challenge_id: record.challenge.challenge_id,
                            user_id: record.challenge.user_id,
                        },
                    ),
                );
            }
        }
    }
}

} // verus!
