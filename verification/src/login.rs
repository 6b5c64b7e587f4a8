use vstd::prelude::*;
use crate::auth::{CHALLENGE_LIFETIME_SECS, CODE_MAX, CODE_MIN};
use crate::crypto::{
    argon2_hash, argon2_verifies, fresh_salt, password_hash_error_text, phc_parses,
    spec_argon2_verifies, spec_phc_parses, starts_with_dollar,
};
use crate::error::{refusal, ApiError, ApiErrorView, StatusCode};
use crate::ids::{is_uuid_v4_text, new_uuid_text, random_between};
use crate::models::{
    opt_view, LoginChallenge, LoginChallengeView, LoginRequest, LoginResponse, LoginResponseView,
    User, UserView,
};
use crate::text::{decimal, decimal_text, lemma_decimal_six_digits, all_digits};
use crate::time::{current_time, Timestamp, NANOS_PER_SEC};

verus! {

/// A login whose credentials were accepted: the code drawn for it, the ids of the
/// challenge and of the mail log entry, and when the code lapses.
#[derive(Debug)]
pub struct LoginDraft {
    pub user_id: String,
    pub email: String,
    pub code: String,
    pub challenge_id: String,
    pub expires_at: Timestamp,
    pub log_id: String,
}

pub struct LoginDraftView {
    pub user_id: Seq<char>,
    pub email: Seq<char>,
    pub code: Seq<char>,
    pub challenge_id: Seq<char>,
    pub expires_at: Timestamp,
    pub log_id: Seq<char>,
}

impl View for LoginDraft {
    type V = LoginDraftView;

    open spec fn view(&self) -> LoginDraftView {
        LoginDraftView {
            user_id: self.user_id@,
            email: self.email@,
            code: self.code@,
            challenge_id: self.challenge_id@,
            expires_at: self.expires_at,
            log_id: self.log_id@,
        }
    }
}

/// What a login writes: the challenge (with the hashed code) and the mail log entry
/// (with the plain code).
#[derive(Debug)]
pub struct LoginRecord {
    pub challenge: LoginChallenge,
    pub log_id: String,
    pub email: String,
    pub code: String,
}

pub struct LoginRecordView {
    pub challenge: LoginChallengeView,
    pub log_id: Seq<char>,
    pub email: Seq<char>,
    pub code: Seq<char>,
}

impl View for LoginRecord {
    type V = LoginRecordView;

    open spec fn view(&self) -> LoginRecordView {
        LoginRecordView {
            challenge: self.challenge@,
            log_id: self.log_id@,
            email: self.email@,
            code: self.code@,
        }
    }
}

/// Where a login request stands; each state has one storage operation pending.
#[derive(Debug)]
pub enum LoginState {
    AwaitingUser { email: String, password: String },
    AwaitingTransaction { draft: LoginDraft },
    AwaitingChallengeInsert { record: LoginRecord },
    AwaitingLogInsert { record: LoginRecord },
    AwaitingCommit { record: LoginRecord },
}

pub enum LoginStateView {
    AwaitingUser { email: Seq<char>, password: Seq<char> },
    AwaitingTransaction { draft: LoginDraftView },
    AwaitingChallengeInsert { record: LoginRecordView },
    AwaitingLogInsert { record: LoginRecordView },
    AwaitingCommit { record: LoginRecordView },
}

impl View for LoginState {
    type V = LoginStateView;

    open spec fn view(&self) -> LoginStateView {
        match self {
            LoginState::AwaitingUser { email, password } => LoginStateView::AwaitingUser {
                email: email@,
                password: password@,
            },
            LoginState::AwaitingTransaction { draft } => LoginStateView::AwaitingTransaction {
                draft: draft@,
            },
            LoginState::AwaitingChallengeInsert { record } =>
                LoginStateView::AwaitingChallengeInsert { record: record@ },
            LoginState::AwaitingLogInsert { record } => LoginStateView::AwaitingLogInsert {
                record: record@,
            },
            LoginState::AwaitingCommit { record } => LoginStateView::AwaitingCommit {
                record: record@,
            },
        }
    }
}

/// What the storage layer reports back to a login.
#[derive(Debug)]
pub enum LoginEvent {
    /// The account looked up by email, if there is one.
    UserFound(Option<User>),
    /// The pending transaction start, insert or commit succeeded.
    Done,
    /// The pending operation failed, with the storage layer's text.
    StorageFailed(String),
}

pub enum LoginEventView {
    UserFound(Option<UserView>),
    Done,
    StorageFailed(Seq<char>),
}

impl View for LoginEvent {
    type V = LoginEventView;

    open spec fn view(&self) -> LoginEventView {
        match self {
            LoginEvent::UserFound(u) => LoginEventView::UserFound(opt_view(*u)),
            LoginEvent::Done => LoginEventView::Done,
            LoginEvent::StorageFailed(m) => LoginEventView::StorageFailed(m@),
        }
    }
}

/// The storage operation that a login state waits for.
#[derive(Debug)]
pub enum LoginAction {
    FindUserByEmail { email: String },
    BeginTransaction,
    InsertChallenge { challenge: LoginChallenge },
    InsertEmailLog { id: String, email: String, code: String },
    Commit,
}

pub enum LoginActionView {
    FindUserByEmail { email: Seq<char> },
    BeginTransaction,
    InsertChallenge { challenge: LoginChallengeView },
    InsertEmailLog { id: Seq<char>, email: Seq<char>, code: Seq<char> },
    Commit,
}

impl View for LoginAction {
    type V = LoginActionView;

    open spec fn view(&self) -> LoginActionView {
        match self {
            LoginAction::FindUserByEmail { email } => LoginActionView::FindUserByEmail {
                email: email@,
            },
            LoginAction::BeginTransaction => LoginActionView::BeginTransaction,
            LoginAction::InsertChallenge { challenge } => LoginActionView::InsertChallenge {
                challenge: challenge@,
            },
            LoginAction::InsertEmailLog { id, email, code } => LoginActionView::InsertEmailLog {
                id: id@,
                email: email@,
                code: code@,
            },
            LoginAction::Commit => LoginActionView::Commit,
        }
    }
}

/// A login either waits for another storage operation or is answered.
#[derive(Debug)]
pub enum LoginNext {
    Continue(LoginState),
    Reply(Result<LoginResponse, ApiError>),
}

pub enum LoginNextView {
    Continue(LoginStateView),
    Reply(Result<LoginResponseView, ApiErrorView>),
}

impl View for LoginNext {
    type V = LoginNextView;

    open spec fn view(&self) -> LoginNextView {
        match self {
            LoginNext::Continue(s) => LoginNextView::Continue(s@),
            LoginNext::Reply(Ok(r)) => LoginNextView::Reply(Ok(r@)),
            LoginNext::Reply(Err(e)) => LoginNextView::Reply(Err(e@)),
        }
    }
}

/// The operation each login state waits for.
pub open spec fn login_action(s: LoginStateView) -> LoginActionView {
    match s {
        LoginStateView::AwaitingUser { email, .. } => LoginActionView::FindUserByEmail { email },
        LoginStateView::AwaitingTransaction { .. } => LoginActionView::BeginTransaction,
        LoginStateView::AwaitingChallengeInsert { record } => LoginActionView::InsertChallenge {
            challenge: record.challenge,
        },
        LoginStateView::AwaitingLogInsert { record } => LoginActionView::InsertEmailLog {
            id: record.log_id,
            email: record.email,
            code: record.code,
        },
        LoginStateView::AwaitingCommit { .. } => LoginActionView::Commit,
    }
}

/// What a login decides of the account found and the submitted password.
pub open spec fn credential_verdict(user: Option<UserView>, password: Seq<char>) -> Result<
    UserView,
    ApiErrorView,
> {
    match user {
        None => Err(refusal(StatusCode::Unauthorized, "Invalid credentials"@)),
        Some(u) => if !spec_phc_parses(u.hashed_password) {
            Err(refusal(StatusCode::InternalServerError, "Invalid password hash format in db"@))
        } else if !spec_argon2_verifies(password, u.hashed_password) {
            Err(refusal(StatusCode::Unauthorized, "Invalid credentials"@))
        } else {
            Ok(u)
        },
    }
}

/// The draft made for an accepted account from the drawn code, ids and instant.
pub open spec fn spec_draft(
    user: UserView,
    now: Timestamp,
    code: u32,
    challenge_id: Seq<char>,
    log_id: Seq<char>,
) -> LoginDraftView {
    LoginDraftView {
        user_id: user.id,
        email: user.email,
        code: decimal(code as nat),
        challenge_id,
        expires_at: now.shifted(CHALLENGE_LIFETIME_SECS as int),
        log_id,
    }
}

/// An instant that the clock can report.
pub open spec fn clock_reading(t: Timestamp) -> bool {
    0 <= t.secs < 8_300_000_000_000 && t.nanos < NANOS_PER_SEC
}

/// A draft made from some clock reading, some code in range and fresh UUIDs.
pub open spec fn draft_fits(d: LoginDraftView, user: UserView) -> bool {
    &&& exists|t: Timestamp, k: u32|
        clock_reading(t) && CODE_MIN <= k <= CODE_MAX && d == #[trigger] spec_draft(
            user,
            t,
            k,
            d.challenge_id,
            d.log_id,
        )
    &&& is_uuid_v4_text(d.challenge_id)
    &&& is_uuid_v4_text(d.log_id)
}

/// The record that a draft becomes once its code is hashed into `hash`.
pub open spec fn spec_record(d: LoginDraftView, hash: Seq<char>) -> LoginRecordView {
    LoginRecordView {
        challenge: LoginChallengeView {
            challenge_id: d.challenge_id,
            user_id: d.user_id,
            verification_code: hash,
            expires_at: d.expires_at,
        },
        log_id: d.log_id,
        email: d.email,
        code: d.code,
    }
}

/// A record whose stored hash opens with its mailed code.
pub open spec fn record_sound(r: LoginRecordView) -> bool {
    &&& starts_with_dollar(r.challenge.verification_code)
    &&& spec_phc_parses(r.challenge.verification_code)
    &&& spec_argon2_verifies(r.code, r.challenge.verification_code)
}

/// The reply to a login once its writes are committed.
pub open spec fn login_reply(r: LoginRecordView) -> LoginResponseView {
    LoginResponseView {
        login_challenge_id: r.challenge.challenge_id,
        message: "2FA code generated and sent to email"@,
    }
}

/// What a login step may do with a state and an event; the drawn code, ids, clock
/// reading and salt are left open, as far as their wrappers leave them. Hashing the
/// code when the transaction starts succeeds unless the code is absurdly long (2^30
/// characters or more), which a drafted six-digit code never is.
pub open spec fn login_transition(s: LoginStateView, e: LoginEventView, n: LoginNextView) -> bool {
    match e {
        LoginEventView::StorageFailed(m) => n == LoginNextView::Reply(
            Err(refusal(StatusCode::InternalServerError, m)),
        ),
        LoginEventView::UserFound(u) => match s {
            LoginStateView::AwaitingUser { password, .. } => match credential_verdict(u, password) {
                Err(err) => n == LoginNextView::Reply(Err(err)),
                Ok(user) => n matches LoginNextView::Continue(
                    LoginStateView::AwaitingTransaction { draft },
                ) && draft_fits(draft, user),
            },
            _ => n == LoginNextView::Continue(s),
        },
        LoginEventView::Done => match s {
            LoginStateView::AwaitingUser { .. } => n == LoginNextView::Continue(s),
            LoginStateView::AwaitingTransaction { draft } => {
                ||| (draft.code.len() >= 0x4000_0000 && (n matches LoginNextView::Reply(Err(err))
                    && err.status == StatusCode::InternalServerError))
                ||| exists|hash: Seq<char>|
                    n == LoginNextView::Continue(
                        LoginStateView::AwaitingChallengeInsert { record: #[trigger] spec_record(draft, hash) },
                    ) && record_sound(spec_record(draft, hash))
            },
            LoginStateView::AwaitingChallengeInsert { record } => n == LoginNextView::Continue(
                LoginStateView::AwaitingLogInsert { record },
            ),
            LoginStateView::AwaitingLogInsert { record } => n == LoginNextView::Continue(
                LoginStateView::AwaitingCommit { record },
            ),
            LoginStateView::AwaitingCommit { record } => n == LoginNextView::Reply(
                Ok(login_reply(record)),
            ),
        },
    }
}

impl LoginState {
    /// The state in which a login request starts.
    pub fn start(request: LoginRequest) -> (s: LoginState)
        ensures
            s@ == (LoginStateView::AwaitingUser {
                email: request.email@,
                password: request.password@,
            }),
    {
        LoginState::AwaitingUser { email: request.email, password: request.password }
    }

    /// The storage operation this state waits for.
    pub fn pending_action(&self) -> (a: LoginAction)
        ensures
            a@ == login_action(self@),
    {
        match self {
            LoginState::AwaitingUser { email, .. } => LoginAction::FindUserByEmail {
                email: email.clone(),
            },
            LoginState::AwaitingTransaction { .. } => LoginAction::BeginTransaction,
            LoginState::AwaitingChallengeInsert { record } => LoginAction::InsertChallenge {
                challenge: LoginChallenge {
                    challenge_id: record.challenge.challenge_id.clone(),
                    user_id: record.challenge.user_id.clone(),
                    verification_code: record.challenge.verification_code.clone(),
                    expires_at: record.challenge.expires_at,
                },
            },
            LoginState::AwaitingLogInsert { record } => LoginAction::InsertEmailLog {
                id: record.log_id.clone(),
                email: record.email.clone(),
                code: record.code.clone(),
            },
            LoginState::AwaitingCommit { .. } => LoginAction::Commit,
        }
    }
}

/// Checks the submitted password against the account found by email.
pub fn check_credentials(user: Option<User>, password: &str) -> (r: Result<User, ApiError>)
    ensures
        match r {
            Ok(u) => credential_verdict(opt_view(user), password@) == Ok::<UserView, ApiErrorView>(u@),
            Err(e) => credential_verdict(opt_view(user), password@) == Err::<UserView, ApiErrorView>(e@),
        },
{
    match user {
        None => Err(ApiError::new(StatusCode::Unauthorized, "Invalid credentials")),
        Some(u) => {
            if !phc_parses(u.hashed_password.as_str()) {
                return Err(
                    ApiError::new(StatusCode::InternalServerError, "Invalid password hash format in db"),
                );
            }
            if !argon2_verifies(password, u.hashed_password.as_str()) {
                return Err(ApiError::new(StatusCode::Unauthorized, "Invalid credentials"));
            }
            Ok(u)
        },
    }
}

/// Drafts the challenge of an accepted account from a drawn code, two drawn ids and
/// the instant of the login.
pub fn draft_login(user: User, now: Timestamp, code: u32, challenge_id: String, log_id: String) -> (d:
    LoginDraft)
    requires
        now.nanos < NANOS_PER_SEC,
        now.secs <= i64::MAX - CHALLENGE_LIFETIME_SECS,
    ensures
        d@ == spec_draft(user@, now, code, challenge_id@, log_id@),
{
    LoginDraft {
        user_id: user.id,
        email: user.email,
        code: decimal_text(code as u64),
        challenge_id,
        expires_at: now.plus_seconds(CHALLENGE_LIFETIME_SECS),
        log_id,
    }
}

/// Completes a draft with the outcome of hashing its code: a PHC string, or the
/// hasher's error text.
pub fn record_login(draft: LoginDraft, hashed: Result<String, String>) -> (n: LoginNext)
    ensures
        match hashed {
            Ok(h) => n@ == LoginNextView::Continue(
                LoginStateView::AwaitingChallengeInsert { record: spec_record(draft@, h@) },
            ),
            Err(t) => n@ == LoginNextView::Reply(
                Err(refusal(StatusCode::InternalServerError, t@)),
            ),
        },
{
    match hashed {
        Err(t) => LoginNext::Reply(Err(ApiError::with_text(StatusCode::InternalServerError, t))),
        Ok(h) => LoginNext::Continue(
            LoginState::AwaitingChallengeInsert {
                record: LoginRecord {
                    challenge: LoginChallenge {
                        challenge_id: draft.challenge_id,
                        user_id: draft.user_id,
                        verification_code: h,
                        expires_at: draft.expires_at,
                    },
                    log_id: draft.log_id,
                    email: draft.email,
                    code: draft.code,
                },
            },
        ),
    }
}

/// Advances a login by what the storage layer reported. Accepting the credentials
/// draws the code, the two ids and the instant; starting the transaction hashes the
/// code with a fresh salt; an event that does not answer the pending operation
/// leaves the state as it was.
pub fn login_step(state: LoginState, event: LoginEvent) -> (n: LoginNext)
    ensures
        login_transition(state@, event@, n@),
{
    match event {
        LoginEvent::StorageFailed(m) => LoginNext::Reply(
            Err(ApiError::with_text(StatusCode::InternalServerError, m)),
        ),
        LoginEvent::UserFound(found) => match state {
            LoginState::AwaitingUser { email, password } => {
                match check_credentials(found, password.as_str()) {
                    Err(e) => LoginNext::Reply(Err(e)),
                    Ok(user) => {
                        let ghost u = user@;
                        let code = random_between(CODE_MIN, CODE_MAX);
                        let challenge_id = new_uuid_text();
                        let now = current_time().instant();
                        let log_id = new_uuid_text();
                        let draft = draft_login(user, now, code, challenge_id, log_id);
                        assert(draft@ == spec_draft(u, now, code, draft@.challenge_id, draft@.log_id));
                        assert(draft_fits(draft@, u));
                        LoginNext::Continue(LoginState::AwaitingTransaction { draft })
                    },
                }
            },
            other => LoginNext::Continue(other),
        },
        LoginEvent::Done => match state {
            LoginState::AwaitingTransaction { draft } => {
                let salt = fresh_salt();
                let ghost d = draft@;
                match argon2_hash(draft.code.as_str(), &salt) {
                    Ok(h) => {
                        let ghost hv = h@;
                        let n = record_login(draft, Ok(h));
                        assert(record_sound(spec_record(d, hv)));
                        n
                    },
                    Err(e) => record_login(draft, Err(password_hash_error_text(&e))),
                }
            },
            LoginState::AwaitingChallengeInsert { record } => LoginNext::Continue(
                LoginState::AwaitingLogInsert { record },
            ),
            LoginState::AwaitingLogInsert { record } => LoginNext::Continue(
                LoginState::AwaitingCommit { record },
            ),
            LoginState::AwaitingCommit { record } => LoginNext::Reply(
                Ok(
                    LoginResponse {
                        login_challenge_id: record.challenge.challenge_id,
                        message: String::from_str("2FA code generated and sent to email"),
                    },
                ),
            ),
            other => LoginNext::Continue(other),
        },
    }
}

/// What holds of every login state that the steps reach: a drafted code has six
/// digits and the ids are UUIDs; a record's stored hash opens with its mailed code.
pub open spec fn login_state_sound(s: LoginStateView) -> bool {
    match s {
        LoginStateView::AwaitingUser { .. } => true,
        LoginStateView::AwaitingTransaction { draft } => {
            &&& draft.code.len() == 6
            &&& all_digits(draft.code)
            &&& is_uuid_v4_text(draft.challenge_id)
            &&& is_uuid_v4_text(draft.log_id)
        },
        LoginStateView::AwaitingChallengeInsert { record } => record_sound(record)
            && record.code.len() == 6 && all_digits(record.code),
        LoginStateView::AwaitingLogInsert { record } => record_sound(record) && record.code.len()
            == 6 && all_digits(record.code),
        LoginStateView::AwaitingCommit { record } => record_sound(record) && record.code.len()
            == 6 && all_digits(record.code),
    }
}

/// Every login step keeps [`login_state_sound`]: the mailed code is a six-digit
/// number, and the hash written beside it opens with it.
pub proof fn lemma_login_step_keeps_soundness(s: LoginStateView, e: LoginEventView, n: LoginNextView)
    requires
        login_state_sound(s),
        login_transition(s, e, n),
    ensures
        n matches LoginNextView::Continue(next) ==> login_state_sound(next),
{
    match e {
        LoginEventView::UserFound(u) => {
            if let LoginStateView::AwaitingUser { password, .. } = s {
                if let Ok(user) = credential_verdict(u, password) {
                    if let LoginNextView::Continue(LoginStateView::AwaitingTransaction { draft }) = n {
                        let (t, k) = choose|t: Timestamp, k: u32|
                            clock_reading(t) && CODE_MIN <= k <= CODE_MAX && draft == #[trigger] spec_draft(
                                user,
                                t,
                                k,
                                draft.challenge_id,
                                draft.log_id,
                            );
                        lemma_decimal_six_digits(k as nat);
                    }
                }
            }
        },
        _ => {},
    }
}

/// The challenge that a login stores keeps only a hash of the mailed code, never the
/// code itself: the hash is a PHC string, starting with `$`, and the code is digits.
pub proof fn lemma_stored_hash_is_not_the_code(record: LoginRecordView)
    requires
        login_state_sound(LoginStateView::AwaitingChallengeInsert { record }),
    ensures
        record.challenge.verification_code != record.code,
{
    assert(!('0' <= record.challenge.verification_code[0] <= '9'));
}

/// A login whose transaction has started always gets its challenge to write: hashing
/// a drafted code cannot fail.
pub proof fn lemma_started_login_writes_challenge(draft: LoginDraftView, n: LoginNextView)
    requires
        login_state_sound(LoginStateView::AwaitingTransaction { draft }),
        login_transition(LoginStateView::AwaitingTransaction { draft }, LoginEventView::Done, n),
    ensures
        n matches LoginNextView::Continue(LoginStateView::AwaitingChallengeInsert { record })
            && record_sound(record) && record.challenge.challenge_id == draft.challenge_id
            && record.challenge.user_id == draft.user_id && record.challenge.expires_at
            == draft.expires_at && record.code == draft.code && record.email == draft.email
            && record.log_id == draft.log_id,
{
}

/// The stored challenges, by id, after a login operation: only the challenge insert
/// changes them, and it adds its challenge.
pub open spec fn challenges_after(
    challenges: Map<Seq<char>, LoginChallengeView>,
    a: LoginActionView,
) -> Map<Seq<char>, LoginChallengeView> {
    match a {
        LoginActionView::InsertChallenge { challenge } => challenges.insert(
            challenge.challenge_id,
            challenge,
        ),
        _ => challenges,
    }
}

/// A login never removes or changes a stored challenge: every operation it asks for
/// keeps each earlier challenge whose id differs from the one it inserts (the ids a
/// login inserts are freshly drawn UUIDs), and its insert stores its own challenge.
pub proof fn lemma_login_keeps_earlier_challenges(
    challenges: Map<Seq<char>, LoginChallengeView>,
    s: LoginStateView,
    id: Seq<char>,
)
    requires
        challenges.dom().contains(id),
        !(login_action(s) matches LoginActionView::InsertChallenge { challenge }
            && challenge.challenge_id == id),
    ensures
        challenges_after(challenges, login_action(s)).dom().contains(id),
        challenges_after(challenges, login_action(s))[id] == challenges[id],
        login_action(s) matches LoginActionView::InsertChallenge { challenge } ==> challenges_after(
            challenges,
            login_action(s),
        )[challenge.challenge_id] == challenge,
{
}

} // verus!
