use vstd::prelude::*;
use crate::time::Timestamp;

verus! {

/// The view of an optional text.
pub open spec fn opt_text(o: Option<String>) -> Option<Seq<char>> {
    opt_view(o)
}

/// The view of an optional value.
pub open spec fn opt_view<T: View>(o: Option<T>) -> Option<T::V> {
    match o {
        Some(v) => Some(v@),
        None => None,
    }
}

/// A stored account.
#[derive(Debug)]
pub struct User {
    pub id: String,
    pub full_name: String,
    pub email: String,
    pub hashed_password: String,
    pub role: String,
    pub created_at: Timestamp,
    pub updated_at: Timestamp,
}

pub struct UserView {
    pub id: Seq<char>,
    pub full_name: Seq<char>,
    pub email: Seq<char>,
    pub hashed_password: Seq<char>,
    pub role: Seq<char>,
    pub created_at: Timestamp,
    pub updated_at: Timestamp,
}

impl View for User {
    type V = UserView;

    open spec fn view(&self) -> UserView {
        UserView {
            id: self.id@,
            full_name: self.full_name@,
            email: self.email@,
            hashed_password: self.hashed_password@,
            role: self.role@,
            created_at: self.created_at,
            updated_at: self.updated_at,
        }
    }
}

/// A stored task.
#[derive(Debug)]
pub struct Task {
    pub id: String,
    pub title: String,
    pub description: Option<String>,
    pub status: String,
    pub priority: String,
    pub created_by_id: String,
    pub assigned_to_id: Option<String>,
    pub created_at: Timestamp,
    pub updated_at: Timestamp,
}

pub struct TaskView {
    pub id: Seq<char>,
    pub title: Seq<char>,
    pub description: Option<Seq<char>>,
    pub status: Seq<char>,
    pub priority: Seq<char>,
    pub created_by_id: Seq<char>,
    pub assigned_to_id: Option<Seq<char>>,
    pub created_at: Timestamp,
    pub updated_at: Timestamp,
}

impl View for Task {
    type V = TaskView;

    open spec fn view(&self) -> TaskView {
        TaskView {
            id: self.id@,
            title: self.title@,
            description: opt_text(self.description),
            status: self.status@,
            priority: self.priority@,
            created_by_id: self.created_by_id@,
            assigned_to_id: opt_text(self.assigned_to_id),
            created_at: self.created_at,
            updated_at: self.updated_at,
        }
    }
}

/// A pending second login step: the hashed code that was mailed and when it lapses.
#[derive(Debug)]
pub struct LoginChallenge {
    pub challenge_id: String,
    pub user_id: String,
    pub verification_code: String,
    pub expires_at: Timestamp,
}

pub struct LoginChallengeView {
    pub challenge_id: Seq<char>,
    pub user_id: Seq<char>,
    pub verification_code: Seq<char>,
    pub expires_at: Timestamp,
}

impl View for LoginChallenge {
    type V = LoginChallengeView;

    open spec fn view(&self) -> LoginChallengeView {
        LoginChallengeView {
            challenge_id: self.challenge_id@,
            user_id: self.user_id@,
            verification_code: self.verification_code@,
            expires_at: self.expires_at,
        }
    }
}

/// A mailed verification code, as the development log keeps it.
#[derive(Debug)]
pub struct EmailLog {
    pub id: String,
    pub email: String,
    pub verification_code: String,
    pub created_at: Timestamp,
}

pub struct EmailLogView {
    pub id: Seq<char>,
    pub email: Seq<char>,
    pub verification_code: Seq<char>,
    pub created_at: Timestamp,
}

impl View for EmailLog {
    type V = EmailLogView;

    open spec fn view(&self) -> EmailLogView {
        EmailLogView {
            id: self.id@,
            email: self.email@,
            verification_code: self.verification_code@,
            created_at: self.created_at,
        }
    }
}

/// Body of a login request.
#[derive(Debug)]
pub struct LoginRequest {
    pub email: String,
    pub password: String,
}

/// Reply to a login request.
#[derive(Debug)]
pub struct LoginResponse {
    pub login_challenge_id: String,
    pub message: String,
}

pub struct LoginResponseView {
    pub login_challenge_id: Seq<char>,
    pub message: Seq<char>,
}

impl View for LoginResponse {
    type V = LoginResponseView;

    open spec fn view(&self) -> LoginResponseView {
        LoginResponseView { login_challenge_id: self.login_challenge_id@, message: self.message@ }
    }
}

/// Body of a second-step request.
#[derive(Debug)]
pub struct Verify2FaRequest {
    pub challenge_id: String,
    pub code: String,
}

/// Reply to a successful second step.
#[derive(Debug)]
pub struct Verify2FaResponse {
    pub access_token: String,
}

impl View for Verify2FaResponse {
    type V = Seq<char>;

    open spec fn view(&self) -> Seq<char> {
        self.access_token@
    }
}

/// Body of a task creation request.
#[derive(Debug)]
pub struct CreateTaskRequest {
    pub title: String,
    pub description: Option<String>,
    pub status: Option<String>,
    pub priority: Option<String>,
}

/// Body of a task assignment request.
#[derive(Debug)]
pub struct AssignTaskRequest {
    pub task_ids: Vec<String>,
    pub assigned_to_id: String,
}

/// Who asked for their tasks.
#[derive(Debug)]
pub struct UserInfo {
    pub email: String,
    pub role: String,
}

pub struct UserInfoView {
    pub email: Seq<char>,
    pub role: Seq<char>,
}

impl View for UserInfo {
    type V = UserInfoView;

    open spec fn view(&self) -> UserInfoView {
        UserInfoView { email: self.email@, role: self.role@ }
    }
}

/// One task as a user's task list shows it.
#[derive(Debug)]
pub struct TaskResponse {
    pub id: String,
    pub title: String,
    pub status: String,
    pub priority: String,
    pub assigned_to: String,
}

pub struct TaskResponseView {
    pub id: Seq<char>,
    pub title: Seq<char>,
    pub status: Seq<char>,
    pub priority: Seq<char>,
    pub assigned_to: Seq<char>,
}

impl View for TaskResponse {
    type V = TaskResponseView;

    open spec fn view(&self) -> TaskResponseView {
        TaskResponseView {
            id: self.id@,
            title: self.title@,
            status: self.status@,
            priority: self.priority@,
            assigned_to: self.assigned_to@,
        }
    }
}

/// How many tasks the list holds.
#[derive(Debug, Clone, Copy)]
pub struct TaskSummary {
    pub total_assigned_tasks: usize,
}

/// Whether the list came from the cache.
#[derive(Debug, Clone, Copy)]
pub struct CacheMetadata {
    pub hit: bool,
}

/// A user's task list.
#[derive(Debug)]
pub struct ViewMyTasksResponse {
    pub user: UserInfo,
    pub tasks: Vec<TaskResponse>,
    pub summary: TaskSummary,
    pub cache: CacheMetadata,
}

pub struct ViewMyTasksResponseView {
    pub user: UserInfoView,
    pub tasks: Seq<TaskResponseView>,
    pub total_assigned_tasks: usize,
    pub hit: bool,
}

impl View for ViewMyTasksResponse {
    type V = ViewMyTasksResponseView;

    open spec fn view(&self) -> ViewMyTasksResponseView {
        ViewMyTasksResponseView {
            user: self.user@,
            tasks: self.tasks@.map_values(|t: TaskResponse| t@),
            total_assigned_tasks: self.summary.total_assigned_tasks,
            hit: self.cache.hit,
        }
    }
}

/// What an access token asserts: the user, their email and role, and when it lapses
/// (seconds since the Unix epoch).
#[derive(Debug)]
pub struct Claims {
    pub sub: String,
    pub email: String,
    pub role: String,
    pub exp: usize,
}

pub struct ClaimsView {
    pub sub: Seq<char>,
    pub email: Seq<char>,
    pub role: Seq<char>,
    pub exp: usize,
}

impl View for Claims {
    type V = ClaimsView;

    open spec fn view(&self) -> ClaimsView {
        ClaimsView { sub: self.sub@, email: self.email@, role: self.role@, exp: self.exp }
    }
}

} // verus!
