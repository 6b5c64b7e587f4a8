use vstd::prelude::*;
use crate::crypto::{argon2_hash, fresh_salt, password_hash_error_text, spec_argon2_verifies, spec_phc_parses};
use crate::error::{refusal, ApiError, ApiErrorView, StatusCode};
use crate::ids::{is_uuid_v4_text, new_uuid_text};
use crate::login::credential_verdict;
use crate::models::{opt_view, User, UserView};

verus! {

/// The password that both seeded accounts get.
pub open spec fn default_password() -> Seq<char> {
    "password123"@
}

/// The reply text of a seeding.
pub open spec fn seed_message() -> Seq<char> {
    "Users seeded successfully. Default password is 'password123'."@
}

/// The administrator's mail address.
pub open spec fn admin_email() -> Seq<char> {
    "admin@example.com"@
}

/// The staff member's mail address.
pub open spec fn staff_email() -> Seq<char> {
    "jamesbond@example.com"@
}

/// The ids drawn for the two accounts and the hash of the default password.
#[derive(Debug)]
pub struct SeedDraft {
    pub admin_id: String,
    pub staff_id: String,
    pub hashed_password: String,
}

pub struct SeedDraftView {
    pub admin_id: Seq<char>,
    pub staff_id: Seq<char>,
    pub hashed_password: Seq<char>,
}

impl View for SeedDraft {
    type V = SeedDraftView;

    open spec fn view(&self) -> SeedDraftView {
        SeedDraftView {
            admin_id: self.admin_id@,
            staff_id: self.staff_id@,
            hashed_password: self.hashed_password@,
        }
    }
}

/// Where a seeding stands; each state has one storage operation pending.
#[derive(Debug)]
pub enum SeedState {
    AwaitingTransaction,
    AwaitingAdminLookup { draft: SeedDraft },
    AwaitingAdminInsert { draft: SeedDraft },
    AwaitingStaffLookup { draft: SeedDraft },
    AwaitingStaffInsert { draft: SeedDraft },
    AwaitingCommit { draft: SeedDraft, staff_id: String },
}

pub enum SeedStateView {
    AwaitingTransaction,
    AwaitingAdminLookup { draft: SeedDraftView },
    AwaitingAdminInsert { draft: SeedDraftView },
    AwaitingStaffLookup { draft: SeedDraftView },
    AwaitingStaffInsert { draft: SeedDraftView },
    AwaitingCommit { draft: SeedDraftView, staff_id: Seq<char> },
}

impl View for SeedState {
    type V = SeedStateView;

    open spec fn view(&self) -> SeedStateView {
        match self {
            SeedState::AwaitingTransaction => SeedStateView::AwaitingTransaction,
            SeedState::AwaitingAdminLookup { draft } => SeedStateView::AwaitingAdminLookup {
                draft: draft@,
            },
            SeedState::AwaitingAdminInsert { draft } => SeedStateView::AwaitingAdminInsert {
                draft: draft@,
            },
            SeedState::AwaitingStaffLookup { draft } => SeedStateView::AwaitingStaffLookup {
                draft: draft@,
            },
            SeedState::AwaitingStaffInsert { draft } => SeedStateView::AwaitingStaffInsert {
                draft: draft@,
            },
            SeedState::AwaitingCommit { draft, staff_id } => SeedStateView::AwaitingCommit {
                draft: draft@,
                staff_id: staff_id@,
            },
        }
    }
}

/// What the database reports back to a seeding.
#[derive(Debug)]
pub enum SeedEvent {
    /// The account looked up by email, if there is one.
    UserFound(Option<User>),
    /// The pending transaction start, insert or commit succeeded.
    Done,
    /// The pending operation failed, with the database's text.
    StorageFailed(String),
}

pub enum SeedEventView {
    UserFound(Option<UserView>),
    Done,
    StorageFailed(Seq<char>),
}

impl View for SeedEvent {
    type V = SeedEventView;

    open spec fn view(&self) -> SeedEventView {
        match self {
            SeedEvent::UserFound(u) => SeedEventView::UserFound(opt_view(*u)),
            SeedEvent::Done => SeedEventView::Done,
            SeedEvent::StorageFailed(m) => SeedEventView::StorageFailed(m@),
        }
    }
}

/// An account to insert.
#[derive(Debug)]
pub struct NewUser {
    pub id: String,
    pub full_name: String,
    pub email: String,
    pub hashed_password: String,
    pub role: String,
}

pub struct NewUserView {
    pub id: Seq<char>,
    pub full_name: Seq<char>,
    pub email: Seq<char>,
    pub hashed_password: Seq<char>,
    pub role: Seq<char>,
}

impl View for NewUser {
    type V = NewUserView;

    open spec fn view(&self) -> NewUserView {
        NewUserView {
            id: self.id@,
            full_name: self.full_name@,
            email: self.email@,
            hashed_password: self.hashed_password@,
            role: self.role@,
        }
    }
}

/// The operation that a seeding state waits for.
#[derive(Debug)]
pub enum SeedAction {
    BeginTransaction,
    FindUserByEmail { email: String },
    InsertUser { user: NewUser },
    Commit,
}

pub enum SeedActionView {
    BeginTransaction,
    FindUserByEmail { email: Seq<char> },
    InsertUser { user: NewUserView },
    Commit,
}

impl View for SeedAction {
    type V = SeedActionView;

    open spec fn view(&self) -> SeedActionView {
        match self {
            SeedAction::BeginTransaction => SeedActionView::BeginTransaction,
            SeedAction::FindUserByEmail { email } => SeedActionView::FindUserByEmail {
                email: email@,
            },
            SeedAction::InsertUser { user } => SeedActionView::InsertUser { user: user@ },
            SeedAction::Commit => SeedActionView::Commit,
        }
    }
}

/// The reply of a seeding: its text, the administrator id drawn for this run, and
/// the staff member's id (the stored one where the account already existed).
#[derive(Debug)]
pub struct SeedSummary {
    pub message: String,
    pub admin_id: String,
    pub james_bond_id: String,
}

pub struct SeedSummaryView {
    pub message: Seq<char>,
    pub admin_id: Seq<char>,
    pub james_bond_id: Seq<char>,
}

impl View for SeedSummary {
    type V = SeedSummaryView;

    open spec fn view(&self) -> SeedSummaryView {
        SeedSummaryView {
            message: self.message@,
            admin_id: self.admin_id@,
            james_bond_id: self.james_bond_id@,
        }
    }
}

/// A seeding either waits for another operation or is answered.
#[derive(Debug)]
pub enum SeedNext {
    Continue(SeedState),
    Reply(Result<SeedSummary, ApiError>),
}

pub enum SeedNextView {
    Continue(SeedStateView),
    Reply(Result<SeedSummaryView, ApiErrorView>),
}

impl View for SeedNext {
    type V = SeedNextView;

    open spec fn view(&self) -> SeedNextView {
        match self {
            SeedNext::Continue(s) => SeedNextView::Continue(s@),
            SeedNext::Reply(Ok(r)) => SeedNextView::Reply(Ok(r@)),
            SeedNext::Reply(Err(e)) => SeedNextView::Reply(Err(e@)),
        }
    }
}

/// The administrator account of a seeding.
pub open spec fn admin_account(d: SeedDraftView) -> NewUserView {
    NewUserView {
        id: d.admin_id,
        full_name: "Admin User"@,
        email: admin_email(),
        hashed_password: d.hashed_password,
        role: "admin"@,
    }
}

/// The staff account of a seeding.
pub open spec fn staff_account(d: SeedDraftView) -> NewUserView {
    NewUserView {
        id: d.staff_id,
        full_name: "James Bond"@,
        email: staff_email(),
        hashed_password: d.hashed_password,
        role: "staff"@,
    }
}

/// The operation each seeding state waits for.
pub open spec fn seed_action(s: SeedStateView) -> SeedActionView {
    match s {
        SeedStateView::AwaitingTransaction => SeedActionView::BeginTransaction,
        SeedStateView::AwaitingAdminLookup { .. } => SeedActionView::FindUserByEmail {
            email: admin_email(),
        },
        SeedStateView::AwaitingAdminInsert { draft } => SeedActionView::InsertUser {
            user: admin_account(draft),
        },
        SeedStateView::AwaitingStaffLookup { .. } => SeedActionView::FindUserByEmail {
            email: staff_email(),
        },
        SeedStateView::AwaitingStaffInsert { draft } => SeedActionView::InsertUser {
            user: staff_account(draft),
        },
        SeedStateView::AwaitingCommit { .. } => SeedActionView::Commit,
    }
}

/// A draft with fresh ids whose hash opens with the default password.
pub open spec fn seed_draft_sound(d: SeedDraftView) -> bool {
    &&& is_uuid_v4_text(d.admin_id)
    &&& is_uuid_v4_text(d.staff_id)
    &&& spec_phc_parses(d.hashed_password)
    &&& spec_argon2_verifies(default_password(), d.hashed_password)
}

/// What a seeding step does with a state and an event once the ids and the hash are
/// drawn; `drafted` is what starting the transaction produced.
pub open spec fn seed_next_after_draw(
    s: SeedStateView,
    e: SeedEventView,
    drafted: Result<SeedDraftView, Seq<char>>,
) -> SeedNextView {
    match e {
        SeedEventView::StorageFailed(m) => SeedNextView::Reply(
            Err(refusal(StatusCode::InternalServerError, m)),
        ),
        SeedEventView::UserFound(found) => match s {
            SeedStateView::AwaitingAdminLookup { draft } => match found {
                None => SeedNextView::Continue(SeedStateView::AwaitingAdminInsert { draft }),
                Some(_) => SeedNextView::Continue(SeedStateView::AwaitingStaffLookup { draft }),
            },
            SeedStateView::AwaitingStaffLookup { draft } => match found {
                None => SeedNextView::Continue(SeedStateView::AwaitingStaffInsert { draft }),
                Some(u) => SeedNextView::Continue(
                    SeedStateView::AwaitingCommit { draft, staff_id: u.id },
                ),
            },
            _ => SeedNextView::Continue(s),
        },
        SeedEventView::Done => match s {
            SeedStateView::AwaitingTransaction => match drafted {
                Ok(draft) => SeedNextView::Continue(SeedStateView::AwaitingAdminLookup { draft }),
                Err(text) => SeedNextView::Reply(
                    Err(refusal(StatusCode::InternalServerError, text)),
                ),
            },
            SeedStateView::AwaitingAdminInsert { draft } => SeedNextView::Continue(
                SeedStateView::AwaitingStaffLookup { draft },
            ),
            SeedStateView::AwaitingStaffInsert { draft } => SeedNextView::Continue(
                SeedStateView::AwaitingCommit { draft, staff_id: draft.staff_id },
            ),
            SeedStateView::AwaitingCommit { draft, staff_id } => SeedNextView::Reply(
                Ok(
                    SeedSummaryView {
                        message: seed_message(),
                        admin_id: draft.admin_id,
                        james_bond_id: staff_id,
                    },
                ),
            ),
            _ => SeedNextView::Continue(s),
        },
    }
}

/// What a seeding step may do: what [`seed_next_after_draw`] says, where starting the
/// transaction draws some sound draft (hashing the default password cannot fail) and
/// no other step draws anything.
pub open spec fn seed_transition(s: SeedStateView, e: SeedEventView, n: SeedNextView) -> bool {
    if s is AwaitingTransaction && e is Done {
        exists|d: SeedDraftView|
            seed_draft_sound(d) && n == #[trigger] seed_next_after_draw(
                s,
                e,
                Ok::<SeedDraftView, Seq<char>>(d),
            )
    } else {
        n == seed_next_after_draw(s, e, Err::<SeedDraftView, Seq<char>>(Seq::empty()))
    }
}

impl SeedState {
    /// The state in which a seeding starts.
    pub fn start() -> (s: SeedState)
        ensures
            s@ == SeedStateView::AwaitingTransaction,
    {
        SeedState::AwaitingTransaction
    }

    /// The operation this state waits for.
    pub fn pending_action(&self) -> (a: SeedAction)
        ensures
            a@ == seed_action(self@),
    {
        proof {
            reveal_strlit("admin@example.com");
            reveal_strlit("jamesbond@example.com");
        }
        match self {
            SeedState::AwaitingTransaction => SeedAction::BeginTransaction,
            SeedState::AwaitingAdminLookup { .. } => SeedAction::FindUserByEmail {
                email: String::from_str("admin@example.com"),
            },
            SeedState::AwaitingAdminInsert { draft } => SeedAction::InsertUser {
                user: NewUser {
                    id: draft.admin_id.clone(),
                    full_name: String::from_str("Admin User"),
                    email: String::from_str("admin@example.com"),
                    hashed_password: draft.hashed_password.clone(),
                    role: String::from_str("admin"),
                },
            },
            SeedState::AwaitingStaffLookup { .. } => SeedAction::FindUserByEmail {
                email: String::from_str("jamesbond@example.com"),
            },
            SeedState::AwaitingStaffInsert { draft } => SeedAction::InsertUser {
                user: NewUser {
                    id: draft.staff_id.clone(),
                    full_name: String::from_str("James Bond"),
                    email: String::from_str("jamesbond@example.com"),
                    hashed_password: draft.hashed_password.clone(),
                    role: String::from_str("staff"),
                },
            },
            SeedState::AwaitingCommit { .. } => SeedAction::Commit,
        }
    }
}

/// The view of a draw's outcome.
pub open spec fn drafted_view(d: Result<SeedDraft, String>) -> Result<SeedDraftView, Seq<char>> {
    match d {
        Ok(x) => Ok(x@),
        Err(t) => Err(t@),
    }
}

/// Advances a seeding by a given draw: `drafted` stands for the ids and the hash
/// drawn when the transaction starts (or the hasher's error text).
pub fn seed_step_with(state: SeedState, event: SeedEvent, drafted: Result<SeedDraft, String>) -> (n:
    SeedNext)
    ensures
        n@ == seed_next_after_draw(state@, event@, drafted_view(drafted)),
{
    match event {
        SeedEvent::StorageFailed(m) => SeedNext::Reply(
            Err(ApiError::with_text(StatusCode::InternalServerError, m)),
        ),
        SeedEvent::UserFound(found) => match state {
            SeedState::AwaitingAdminLookup { draft } => match found {
                None => SeedNext::Continue(SeedState::AwaitingAdminInsert { draft }),
                Some(_) => SeedNext::Continue(SeedState::AwaitingStaffLookup { draft }),
            },
            SeedState::AwaitingStaffLookup { draft } => match found {
                None => SeedNext::Continue(SeedState::AwaitingStaffInsert { draft }),
                Some(u) => SeedNext::Continue(SeedState::AwaitingCommit { draft, staff_id: u.id }),
            },
            other => SeedNext::Continue(other),
        },
        SeedEvent::Done => match state {
            SeedState::AwaitingTransaction => match drafted {
                Ok(draft) => SeedNext::Continue(SeedState::AwaitingAdminLookup { draft }),
                Err(text) => SeedNext::Reply(
                    Err(ApiError::with_text(StatusCode::InternalServerError, text)),
                ),
            },
            SeedState::AwaitingAdminInsert { draft } => SeedNext::Continue(
                SeedState::AwaitingStaffLookup { draft },
            ),
            SeedState::AwaitingStaffInsert { draft } => {
                let staff_id = draft.staff_id.clone();
                SeedNext::Continue(SeedState::AwaitingCommit { draft, staff_id })
            },
            SeedState::AwaitingCommit { draft, staff_id } => SeedNext::Reply(
                Ok(
                    SeedSummary {
                        message: String::from_str(
                            "Users seeded successfully. Default password is 'password123'.",
                        ),
                        admin_id: draft.admin_id,
                        james_bond_id: staff_id,
                    },
                ),
            ),
            other => SeedNext::Continue(other),
        },
    }
}

/// Draws the two account ids and hashes the default password with a fresh salt.
fn draw_seed() -> (r: Result<SeedDraft, String>)
    ensures
        r matches Ok(d) && seed_draft_sound(d@),
{
    let admin_id = new_uuid_text();
    let staff_id = new_uuid_text();
    let salt = fresh_salt();
    proof {
        reveal_strlit("password123");
    }
    let password = "password123";
    assert(password@ == default_password());
    match argon2_hash(password, &salt) {
        Ok(h) => Ok(SeedDraft { admin_id, staff_id, hashed_password: h }),
        Err(e) => Err(password_hash_error_text(&e)),
    }
}

/// Advances a seeding by what the database reported; starting the transaction draws
/// the two ids and hashes the default password.
pub fn seed_step(state: SeedState, event: SeedEvent) -> (n: SeedNext)
    ensures
        seed_transition(state@, event@, n@),
{
    let starting = match (&state, &event) {
        (SeedState::AwaitingTransaction, SeedEvent::Done) => true,
        _ => false,
    };
    let drafted = if starting {
        draw_seed()
    } else {
        Err(String::new())
    };
    let ghost dv = drafted_view(drafted);
    let n = seed_step_with(state, event, drafted);
    assert(n@ == seed_next_after_draw(state@, event@, dv));
    proof {
        if starting {
            let d = dv->Ok_0;
            assert(seed_draft_sound(d) && n@ == seed_next_after_draw(state@, event@, Ok(d)));
        } else {
            assert(dv == Err::<SeedDraftView, Seq<char>>(Seq::empty()));
        }
    }
    n
}

/// What holds of every seeding state that the steps reach: its draft has fresh ids
/// and a hash that opens with the default password.
pub open spec fn seed_state_sound(s: SeedStateView) -> bool {
    match s {
        SeedStateView::AwaitingTransaction => true,
        SeedStateView::AwaitingAdminLookup { draft } => seed_draft_sound(draft),
        SeedStateView::AwaitingAdminInsert { draft } => seed_draft_sound(draft),
        SeedStateView::AwaitingStaffLookup { draft } => seed_draft_sound(draft),
        SeedStateView::AwaitingStaffInsert { draft } => seed_draft_sound(draft),
        SeedStateView::AwaitingCommit { draft, .. } => seed_draft_sound(draft),
    }
}

/// Every seeding step keeps [`seed_state_sound`].
pub proof fn lemma_seed_step_keeps_soundness(s: SeedStateView, e: SeedEventView, n: SeedNextView)
    requires
        seed_state_sound(s),
        seed_transition(s, e, n),
    ensures
        n matches SeedNextView::Continue(next) ==> seed_state_sound(next),
{
    if s is AwaitingTransaction && e is Done {
        let d = choose|d: SeedDraftView|
            seed_draft_sound(d) && n == #[trigger] seed_next_after_draw(
                s,
                e,
                Ok::<SeedDraftView, Seq<char>>(d),
            );
    }
}

/// An account that a seeding inserts can log in with the default password: once
/// stored, the login's credential check accepts it.
pub proof fn lemma_seeded_account_accepts_default_password(s: SeedStateView, stored: UserView)
    requires
        seed_state_sound(s),
        seed_action(s) matches SeedActionView::InsertUser { user } && stored.hashed_password
            == user.hashed_password,
    ensures
        credential_verdict(Some(stored), default_password()) == Ok::<UserView, ApiErrorView>(stored),
{
}

/// Seeding keeps an account that already exists: it does not insert it again (the
/// next operation is no insert), and it reports the stored staff id. So a second
/// seeding, which finds both accounts, writes nothing.
pub proof fn lemma_existing_accounts_kept(s: SeedStateView, found: UserView, n: SeedNextView)
    requires
        s is AwaitingAdminLookup || s is AwaitingStaffLookup,
        seed_transition(s, SeedEventView::UserFound(Some(found)), n),
    ensures
        s matches SeedStateView::AwaitingAdminLookup { draft } ==> n == SeedNextView::Continue(
            SeedStateView::AwaitingStaffLookup { draft },
        ),
        s matches SeedStateView::AwaitingStaffLookup { draft } ==> n == SeedNextView::Continue(
            SeedStateView::AwaitingCommit { draft, staff_id: found.id },
        ),
        n matches SeedNextView::Continue(next) && !(seed_action(next) is InsertUser),
{
}

/// Starting a seeding always goes on to look up the administrator, with a sound draft:
/// drawing the ids and hashing the default password cannot fail.
pub proof fn lemma_seeding_start_succeeds(n: SeedNextView)
    requires
        seed_transition(SeedStateView::AwaitingTransaction, SeedEventView::Done, n),
    ensures
        n matches SeedNextView::Continue(SeedStateView::AwaitingAdminLookup { draft })
            && seed_draft_sound(draft),
{
}

/// A seeding inserts exactly the accounts that its lookups found missing, under the
/// address each lookup searched: the administrator's insert carries the address of
/// the administrator's lookup and the role `admin`, the staff member's insert the
/// address of the staff lookup and the role `staff`; the two addresses differ, so the
/// two accounts never share one, and both get the draft's hash and ids. The
/// administrator is `Admin User <admin@example.com>`, the staff member
/// `James Bond <jamesbond@example.com>`.
pub proof fn lemma_seed_inserts_what_it_looked_up(draft: SeedDraftView)
    ensures
        seed_action(SeedStateView::AwaitingAdminLookup { draft }) matches SeedActionView::FindUserByEmail {
            email: looked_up,
        } && seed_action(SeedStateView::AwaitingAdminInsert { draft }) matches SeedActionView::InsertUser {
            user,
        } && user.email == looked_up && user.role == "admin"@ && user.id == draft.admin_id
            && user.hashed_password == draft.hashed_password,
        seed_action(SeedStateView::AwaitingStaffLookup { draft }) matches SeedActionView::FindUserByEmail {
            email: looked_up,
        } && seed_action(SeedStateView::AwaitingStaffInsert { draft }) matches SeedActionView::InsertUser {
            user,
        } && user.email == looked_up && user.role == "staff"@ && user.id == draft.staff_id
            && user.hashed_password == draft.hashed_password,
        seed_action(SeedStateView::AwaitingAdminInsert { draft }) matches SeedActionView::InsertUser {
            user,
        } && user.email == "admin@example.com"@ && user.full_name == "Admin User"@,
        seed_action(SeedStateView::AwaitingStaffInsert { draft }) matches SeedActionView::InsertUser {
            user,
        } && user.email == "jamesbond@example.com"@ && user.full_name == "James Bond"@,
        admin_email() != staff_email(),
{
    reveal_strlit("admin@example.com");
    reveal_strlit("jamesbond@example.com");
    assert(admin_email()[0] != staff_email()[0]);
}

} // verus!
