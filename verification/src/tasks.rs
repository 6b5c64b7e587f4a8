use vstd::prelude::*;
use crate::cache::{cache_key, spec_cache_key, CACHE_TTL_SECS};
use crate::error::{refusal, ApiError, ApiErrorView, StatusCode};
use crate::ids::{is_uuid_v4_text, new_uuid_text};
use crate::models::{
    opt_text, opt_view, AssignTaskRequest, CacheMetadata, Claims, ClaimsView, CreateTaskRequest,
    Task, TaskResponse, TaskResponseView, TaskSummary, TaskView, UserInfo, UserInfoView,
    ViewMyTasksResponse, ViewMyTasksResponseView,
};
use crate::text::{all_digits, decimal, decimal_text, digit_char, lemma_decimal_digits};

verus! {

/// The role that may create and assign tasks.
pub open spec fn is_admin(role: Seq<char>) -> bool {
    role == "admin"@
}

/// Whether the caller has the administrator's role.
pub fn has_admin_role(claims: &Claims) -> (r: bool)
    ensures
        r == is_admin(claims@.role),
{
    claims.role == String::from_str("admin")
}

/// A task about to be stored.
#[derive(Debug)]
pub struct NewTask {
    pub id: String,
    pub title: String,
    pub description: Option<String>,
    pub status: String,
    pub priority: String,
    pub created_by_id: String,
}

pub struct NewTaskView {
    pub id: Seq<char>,
    pub title: Seq<char>,
    pub description: Option<Seq<char>>,
    pub status: Seq<char>,
    pub priority: Seq<char>,
    pub created_by_id: Seq<char>,
}

impl View for NewTask {
    type V = NewTaskView;

    open spec fn view(&self) -> NewTaskView {
        NewTaskView {
            id: self.id@,
            title: self.title@,
            description: opt_text(self.description),
            status: self.status@,
            priority: self.priority@,
            created_by_id: self.created_by_id@,
        }
    }
}

/// The task that an administrator's request describes, under the id `id`: status
/// `todo` and priority `medium` unless the request gives them.
pub open spec fn spec_new_task(claims: ClaimsView, request: CreateTaskRequest, id: Seq<char>) -> NewTaskView {
    NewTaskView {
        id,
        title: request.title@,
        description: opt_text(request.description),
        status: match request.status {
            Some(s) => s@,
            None => "todo"@,
        },
        priority: match request.priority {
            Some(p) => p@,
            None => "medium"@,
        },
        created_by_id: claims.sub,
    }
}

/// Fills in the task of a creation request under a given id.
pub fn draft_task(claims: &Claims, request: CreateTaskRequest, id: String) -> (t: NewTask)
    ensures
        t@ == spec_new_task(claims@, request, id@),
{
    let status = match request.status {
        Some(s) => s,
        None => String::from_str("todo"),
    };
    let priority = match request.priority {
        Some(p) => p,
        None => String::from_str("medium"),
    };
    NewTask {
        id,
        title: request.title,
        description: request.description,
        status,
        priority,
        created_by_id: claims.sub.clone(),
    }
}

/// Decides on a task creation request: only an administrator may create tasks; the
/// new task gets a fresh UUID.
pub fn plan_new_task(claims: &Claims, request: CreateTaskRequest) -> (r: Result<NewTask, ApiError>)
    ensures
        !is_admin(claims@.role) ==> (r matches Err(e) && e@ == refusal(
            StatusCode::Forbidden,
            "Only admins can create tasks"@,
        )),
        is_admin(claims@.role) ==> (r matches Ok(t) && t@ == spec_new_task(claims@, request, t@.id)
            && is_uuid_v4_text(t@.id)),
{
    if !has_admin_role(claims) {
        return Err(ApiError::new(StatusCode::Forbidden, "Only admins can create tasks"));
    }
    let id = new_uuid_text();
    Ok(draft_task(claims, request, id))
}

/// What an assignment writes: each listed task goes to the assignee, and the
/// assignee's cached task list is dropped.
#[derive(Debug)]
pub struct AssignmentPlan {
    pub task_ids: Vec<String>,
    pub assigned_to_id: String,
    pub cache_key: String,
    pub message: String,
}

pub struct AssignmentPlanView {
    pub task_ids: Seq<Seq<char>>,
    pub assigned_to_id: Seq<char>,
    pub cache_key: Seq<char>,
    pub message: Seq<char>,
}

impl View for AssignmentPlan {
    type V = AssignmentPlanView;

    open spec fn view(&self) -> AssignmentPlanView {
        AssignmentPlanView {
            task_ids: self.task_ids@.map_values(|t: String| t@),
            assigned_to_id: self.assigned_to_id@,
            cache_key: self.cache_key@,
            message: self.message@,
        }
    }
}

/// The reply text of an assignment of `n` tasks.
pub open spec fn assignment_message(n: nat) -> Seq<char> {
    "Successfully assigned "@ + decimal(n) + " tasks"@
}

/// The plan of an allowed assignment of the listed tasks to a user: update each of
/// them in turn, drop the user's cached list, and report how many were listed.
pub open spec fn assignment_plan_for(task_ids: Seq<Seq<char>>, assigned_to_id: Seq<char>) -> AssignmentPlanView {
    AssignmentPlanView {
        task_ids,
        assigned_to_id,
        cache_key: spec_cache_key(assigned_to_id),
        message: assignment_message(task_ids.len()),
    }
}

/// Decides on an assignment request: only an administrator may assign tasks.
pub fn plan_assignment(claims: &Claims, request: AssignTaskRequest) -> (r: Result<AssignmentPlan, ApiError>)
    ensures
        !is_admin(claims@.role) ==> (r matches Err(e) && e@ == refusal(
            StatusCode::Forbidden,
            "Only admins can assign tasks"@,
        )),
        is_admin(claims@.role) ==> (r matches Ok(p) && {
            &&& p.task_ids@ == request.task_ids@
            &&& p.assigned_to_id@ == request.assigned_to_id@
            &&& p.cache_key@ == spec_cache_key(request.assigned_to_id@)
            &&& p.message@ == assignment_message(request.task_ids.len() as nat)
            &&& p@ == assignment_plan_for(
                request.task_ids@.map_values(|t: String| t@),
                request.assigned_to_id@,
            )
        }),
{
    if !has_admin_role(claims) {
        return Err(ApiError::new(StatusCode::Forbidden, "Only admins can assign tasks"));
    }
    let count = request.task_ids.len();
    let mut message = String::from_str("Successfully assigned ");
    let number = decimal_text(count as u64);
    message.append(number.as_str());
    message.append(" tasks");
    let key = cache_key(request.assigned_to_id.as_str());
    Ok(AssignmentPlan {
        task_ids: request.task_ids,
        assigned_to_id: request.assigned_to_id,
        cache_key: key,
        message,
    })
}

/// Where an assignment stands once it was allowed; each state has one operation
/// pending. `Updating` has written the first `done` tasks; once all are written its
/// pending operation is the commit.
#[derive(Debug)]
pub enum AssignState {
    AwaitingTransaction { plan: AssignmentPlan },
    Updating { plan: AssignmentPlan, done: usize },
    AwaitingInvalidation { plan: AssignmentPlan },
}

pub enum AssignStateView {
    AwaitingTransaction { plan: AssignmentPlanView },
    Updating { plan: AssignmentPlanView, done: usize },
    AwaitingInvalidation { plan: AssignmentPlanView },
}

impl View for AssignState {
    type V = AssignStateView;

    open spec fn view(&self) -> AssignStateView {
        match self {
            AssignState::AwaitingTransaction { plan } => AssignStateView::AwaitingTransaction {
                plan: plan@,
            },
            AssignState::Updating { plan, done } => AssignStateView::Updating {
                plan: plan@,
                done: *done,
            },
            AssignState::AwaitingInvalidation { plan } => AssignStateView::AwaitingInvalidation {
                plan: plan@,
            },
        }
    }
}

/// What the database and the cache report back to an assignment.
#[derive(Debug)]
pub enum AssignEvent {
    /// The pending operation succeeded.
    Done,
    /// The pending operation failed, with the storage layer's text.
    StorageFailed(String),
}

pub enum AssignEventView {
    Done,
    StorageFailed(Seq<char>),
}

impl View for AssignEvent {
    type V = AssignEventView;

    open spec fn view(&self) -> AssignEventView {
        match self {
            AssignEvent::Done => AssignEventView::Done,
            AssignEvent::StorageFailed(m) => AssignEventView::StorageFailed(m@),
        }
    }
}

/// The operation that an assignment state waits for.
#[derive(Debug)]
pub enum AssignAction {
    BeginTransaction,
    UpdateTask { task_id: String, assigned_to_id: String },
    Commit,
    InvalidateCache { key: String },
}

pub enum AssignActionView {
    BeginTransaction,
    UpdateTask { task_id: Seq<char>, assigned_to_id: Seq<char> },
    Commit,
    InvalidateCache { key: Seq<char> },
}

impl View for AssignAction {
    type V = AssignActionView;

    open spec fn view(&self) -> AssignActionView {
        match self {
            AssignAction::BeginTransaction => AssignActionView::BeginTransaction,
            AssignAction::UpdateTask { task_id, assigned_to_id } => AssignActionView::UpdateTask {
                task_id: task_id@,
                assigned_to_id: assigned_to_id@,
            },
            AssignAction::Commit => AssignActionView::Commit,
            AssignAction::InvalidateCache { key } => AssignActionView::InvalidateCache { key: key@ },
        }
    }
}

/// An assignment either waits for another operation or is answered with its text.
#[derive(Debug)]
pub enum AssignNext {
    Continue(AssignState),
    Reply(Result<String, ApiError>),
}

pub enum AssignNextView {
    Continue(AssignStateView),
    Reply(Result<Seq<char>, ApiErrorView>),
}

impl View for AssignNext {
    type V = AssignNextView;

    open spec fn view(&self) -> AssignNextView {
        match self {
            AssignNext::Continue(s) => AssignNextView::Continue(s@),
            AssignNext::Reply(Ok(m)) => AssignNextView::Reply(Ok(m@)),
            AssignNext::Reply(Err(e)) => AssignNextView::Reply(Err(e@)),
        }
    }
}

/// The operation each assignment state waits for: the transaction, then the update of
/// each listed task in turn, then the commit, and only then dropping the assignee's
/// cached list.
pub open spec fn assign_action(s: AssignStateView) -> AssignActionView {
    match s {
        AssignStateView::AwaitingTransaction { .. } => AssignActionView::BeginTransaction,
        AssignStateView::Updating { plan, done } => if done < plan.task_ids.len() {
            AssignActionView::UpdateTask {
                task_id: plan.task_ids[done as int],
                assigned_to_id: plan.assigned_to_id,
            }
        } else {
            AssignActionView::Commit
        },
        AssignStateView::AwaitingInvalidation { plan } => AssignActionView::InvalidateCache {
            key: plan.cache_key,
        },
    }
}

/// What an assignment does with a state and an event. A failed transaction, update or
/// commit is answered with 500 and the storage layer's text (nothing is committed);
/// dropping the cached list cannot fail the request, as the cache's failures are
/// ignored.
pub open spec fn assign_next(s: AssignStateView, e: AssignEventView) -> AssignNextView {
    match s {
        AssignStateView::AwaitingTransaction { plan } => match e {
            AssignEventView::Done => AssignNextView::Continue(
                AssignStateView::Updating { plan, done: 0 },
            ),
            AssignEventView::StorageFailed(m) => AssignNextView::Reply(
                Err(refusal(StatusCode::InternalServerError, m)),
            ),
        },
        AssignStateView::Updating { plan, done } => match e {
            AssignEventView::Done => if done < plan.task_ids.len() {
                AssignNextView::Continue(
                    AssignStateView::Updating { plan, done: (done + 1) as usize },
                )
            } else {
                AssignNextView::Continue(AssignStateView::AwaitingInvalidation { plan })
            },
            AssignEventView::StorageFailed(m) => AssignNextView::Reply(
                Err(refusal(StatusCode::InternalServerError, m)),
            ),
        },
        AssignStateView::AwaitingInvalidation { plan } => AssignNextView::Reply(Ok(plan.message)),
    }
}

impl AssignState {
    /// The state in which an allowed assignment starts.
    pub fn start(plan: AssignmentPlan) -> (s: AssignState)
        ensures
            s@ == (AssignStateView::AwaitingTransaction { plan: plan@ }),
    {
        AssignState::AwaitingTransaction { plan }
    }

    /// The operation this state waits for.
    pub fn pending_action(&self) -> (a: AssignAction)
        ensures
            a@ == assign_action(self@),
    {
        match self {
            AssignState::AwaitingTransaction { .. } => AssignAction::BeginTransaction,
            AssignState::Updating { plan, done } => {
                if *done < plan.task_ids.len() {
                    AssignAction::UpdateTask {
                        task_id: plan.task_ids[*done].clone(),
                        assigned_to_id: plan.assigned_to_id.clone(),
                    }
                } else {
                    AssignAction::Commit
                }
            },
            AssignState::AwaitingInvalidation { plan } => AssignAction::InvalidateCache {
                key: plan.cache_key.clone(),
            },
        }
    }
}

/// Advances an assignment by what the database or the cache reported.
pub fn assign_step(state: AssignState, event: AssignEvent) -> (n: AssignNext)
    ensures
        n@ == assign_next(state@, event@),
{
    match state {
        AssignState::AwaitingTransaction { plan } => match event {
            AssignEvent::Done => AssignNext::Continue(AssignState::Updating { plan, done: 0 }),
            AssignEvent::StorageFailed(m) => AssignNext::Reply(
                Err(ApiError::with_text(StatusCode::InternalServerError, m)),
            ),
        },
        AssignState::Updating { plan, done } => match event {
            AssignEvent::Done => {
                if done < plan.task_ids.len() {
                    AssignNext::Continue(AssignState::Updating { plan, done: done + 1 })
                } else {
                    AssignNext::Continue(AssignState::AwaitingInvalidation { plan })
                }
            },
            AssignEvent::StorageFailed(m) => AssignNext::Reply(
                Err(ApiError::with_text(StatusCode::InternalServerError, m)),
            ),
        },
        AssignState::AwaitingInvalidation { plan } => AssignNext::Reply(Ok(plan.message)),
    }
}

/// The assignee's cached list is dropped only once the commit succeeded: the only
/// step into the invalidation state answers a finished commit.
pub proof fn lemma_invalidation_after_commit(s: AssignStateView, e: AssignEventView)
    requires
        assign_next(s, e) matches AssignNextView::Continue(next) && next is AwaitingInvalidation,
    ensures
        assign_action(s) == AssignActionView::Commit,
        e is Done,
{
}

/// An allowed assignment writes every listed task, in order, before it commits: from
/// the start, each successful step moves to the next listed task, and the commit is
/// pending exactly when all are written.
pub proof fn lemma_updates_in_order(plan: AssignmentPlanView, done: usize)
    requires
        done < plan.task_ids.len() <= usize::MAX,
    ensures
        assign_next(AssignStateView::AwaitingTransaction { plan }, AssignEventView::Done)
            == AssignNextView::Continue(AssignStateView::Updating { plan, done: 0 }),
        assign_action(AssignStateView::Updating { plan, done }) == (AssignActionView::UpdateTask {
            task_id: plan.task_ids[done as int],
            assigned_to_id: plan.assigned_to_id,
        }),
        assign_next(AssignStateView::Updating { plan, done }, AssignEventView::Done)
            == AssignNextView::Continue(AssignStateView::Updating { plan, done: (done + 1) as usize }),
        assign_action(AssignStateView::Updating { plan, done: plan.task_ids.len() as usize })
            == AssignActionView::Commit,
{
}

/// An assignment drops exactly the cache entry that its assignee's task list is read
/// from, and no other user's.
pub proof fn lemma_assignment_drops_the_assignees_list(
    task_ids: Seq<Seq<char>>,
    assigned_to_id: Seq<char>,
    reader: ClaimsView,
)
    ensures
        assign_action(
            AssignStateView::AwaitingInvalidation { plan: assignment_plan_for(task_ids, assigned_to_id) },
        ) == (AssignActionView::InvalidateCache { key: spec_cache_key(assigned_to_id) }),
        view_tasks_action(ViewTasksStateView::AwaitingCache { claims: reader })
            == (ViewTasksActionView::ReadCache { key: spec_cache_key(reader.sub) }),
        spec_cache_key(reader.sub) == spec_cache_key(assigned_to_id) <==> reader.sub == assigned_to_id,
{
    crate::cache::lemma_cache_key_injective(reader.sub, assigned_to_id);
}

/// The tasks' assignees by task id, as the database holds them.
pub open spec fn after_update(
    assignees: Map<Seq<char>, Option<Seq<char>>>,
    task_id: Seq<char>,
    assigned_to_id: Seq<char>,
) -> Map<Seq<char>, Option<Seq<char>>> {
    if assignees.dom().contains(task_id) {
        assignees.insert(task_id, Some(assigned_to_id))
    } else {
        assignees
    }
}

/// The assignees after the updates of an assignment, applied in turn; an id that
/// names no task changes nothing.
pub open spec fn after_updates(
    assignees: Map<Seq<char>, Option<Seq<char>>>,
    task_ids: Seq<Seq<char>>,
    assigned_to_id: Seq<char>,
) -> Map<Seq<char>, Option<Seq<char>>>
    decreases task_ids.len(),
{
    if task_ids.len() == 0 {
        assignees
    } else {
        after_update(
            after_updates(assignees, task_ids.drop_last(), assigned_to_id),
            task_ids.last(),
            assigned_to_id,
        )
    }
}

/// The updates of an assignment give each listed task that exists the assignee, and
/// leave every other task as it was.
pub proof fn lemma_after_updates_closed_form(
    assignees: Map<Seq<char>, Option<Seq<char>>>,
    task_ids: Seq<Seq<char>>,
    assigned_to_id: Seq<char>,
)
    ensures
        after_updates(assignees, task_ids, assigned_to_id).dom() == assignees.dom(),
        forall|k: Seq<char>|
            #![trigger after_updates(assignees, task_ids, assigned_to_id)[k]]
            assignees.dom().contains(k) ==> after_updates(assignees, task_ids, assigned_to_id)[k]
                == if task_ids.contains(k) {
                Some(assigned_to_id)
            } else {
                assignees[k]
            },
    decreases task_ids.len(),
{
    if task_ids.len() > 0 {
        let prefix = task_ids.drop_last();
        lemma_after_updates_closed_form(assignees, prefix, assigned_to_id);
        assert forall|k: Seq<char>| #[trigger] task_ids.contains(k) <==> (prefix.contains(k) || k
            == task_ids.last()) by {
            if task_ids.contains(k) {
                let i = choose|i: int| 0 <= i < task_ids.len() && task_ids[i] == k;
                if i < task_ids.len() - 1 {
                    assert(prefix[i] == k);
                }
            }
            if prefix.contains(k) {
                let i = choose|i: int| 0 <= i < prefix.len() && prefix[i] == k;
                assert(task_ids[i] == k);
            }
            if k == task_ids.last() {
                assert(task_ids[task_ids.len() - 1] == k);
            }
        }
        assert(after_updates(assignees, task_ids, assigned_to_id).dom() =~= assignees.dom());
    }
}

/// Repeating an assignment changes nothing more: the assignees after the same updates
/// applied twice are those after applying them once.
pub proof fn lemma_reassignment_changes_nothing(
    assignees: Map<Seq<char>, Option<Seq<char>>>,
    task_ids: Seq<Seq<char>>,
    assigned_to_id: Seq<char>,
)
    ensures
        after_updates(after_updates(assignees, task_ids, assigned_to_id), task_ids, assigned_to_id)
            == after_updates(assignees, task_ids, assigned_to_id),
{
    let once = after_updates(assignees, task_ids, assigned_to_id);
    lemma_after_updates_closed_form(assignees, task_ids, assigned_to_id);
    lemma_after_updates_closed_form(once, task_ids, assigned_to_id);
    assert(after_updates(once, task_ids, assigned_to_id) =~= once);
}

/// Two identical assignment requests issue the same updates, in the same order: the
/// `i`-th update of either writes the `i`-th listed task with the same assignee.
pub proof fn lemma_same_request_same_updates(
    task_ids: Seq<Seq<char>>,
    assigned_to_id: Seq<char>,
    done: usize,
)
    requires
        done < task_ids.len(),
    ensures
        assign_action(
            AssignStateView::Updating { plan: assignment_plan_for(task_ids, assigned_to_id), done },
        ) == (AssignActionView::UpdateTask { task_id: task_ids[done as int], assigned_to_id }),
{
}

/// What a new task holds, field by field, in terms of the request: the given title
/// and description, the creator from the token, the given status or else `todo`, and
/// the given priority or else `medium`. The status depends on the request's status
/// alone and the priority on the request's priority alone: two requests that agree
/// on one of them give tasks that agree on it, whatever else they say.
pub proof fn lemma_new_task_fields(
    claims: ClaimsView,
    request: CreateTaskRequest,
    other: CreateTaskRequest,
    id: Seq<char>,
)
    ensures
        spec_new_task(claims, request, id).id == id,
        spec_new_task(claims, request, id).title == request.title@,
        spec_new_task(claims, request, id).description == opt_text(request.description),
        spec_new_task(claims, request, id).created_by_id == claims.sub,
        request.status matches Some(s) ==> spec_new_task(claims, request, id).status == s@,
        request.status is None ==> spec_new_task(claims, request, id).status == "todo"@,
        request.priority matches Some(p) ==> spec_new_task(claims, request, id).priority == p@,
        request.priority is None ==> spec_new_task(claims, request, id).priority == "medium"@,
        opt_text(request.status) == opt_text(other.status) ==> spec_new_task(claims, request, id).status
            == spec_new_task(claims, other, id).status,
        opt_text(request.priority) == opt_text(other.priority) ==> spec_new_task(
            claims,
            request,
            id,
        ).priority == spec_new_task(claims, other, id).priority,
{
}

/// The number that a text of decimal digits denotes, read from the left.
pub open spec fn digits_value(s: Seq<char>) -> nat
    decreases s.len(),
{
    if s.len() == 0 {
        0
    } else {
        (digits_value(s.drop_last()) * 10 + ((s.last() as int - 48) as nat)) as nat
    }
}

/// Reading back the decimal notation of a number gives the number.
pub proof fn lemma_decimal_reads_back(n: nat)
    ensures
        digits_value(decimal(n)) == n,
    decreases n,
{
    let d = decimal(n);
    if n < 10 {
        assert(d == seq![digit_char(n)]);
        assert(d.drop_last() =~= Seq::<char>::empty());
        assert(digits_value(d.drop_last()) == 0);
        assert(d.last() == digit_char(n));
        assert(((48 + n) as char) as int == 48 + n);
        assert(digits_value(d) == (digits_value(d.drop_last()) * 10 + ((d.last() as int - 48) as nat)) as nat);
    } else {
        lemma_decimal_reads_back(n / 10);
        let p = decimal(n / 10);
        assert(d == p.push(digit_char(n % 10)));
        assert(d.drop_last() =~= p);
        assert(d.last() == digit_char(n % 10));
        assert(((48 + n % 10) as char) as int == 48 + n % 10);
        assert(digits_value(d) == (digits_value(d.drop_last()) * 10 + ((d.last() as int - 48) as nat)) as nat);
        assert((n / 10) * 10 + n % 10 == n) by (nonlinear_arith);
    }
}

/// The reply of an assignment reports the number of listed tasks: it is
/// `Successfully assigned `, then digits that read back as that number (the first
/// one not `0` unless the number is 0), then ` tasks`.
pub proof fn lemma_assignment_message_counts(n: nat)
    ensures
        ({
            let m = assignment_message(n);
            let count = m.subrange(22, m.len() - 6);
            &&& m.len() > 28
            &&& m.subrange(0, 22) == "Successfully assigned "@
            &&& m.subrange(m.len() - 6, m.len() as int) == " tasks"@
            &&& all_digits(count)
            &&& digits_value(count) == n
            &&& (n > 0 ==> count[0] != '0')
        }),
{
    reveal_strlit("Successfully assigned ");
    reveal_strlit(" tasks");
    let d = decimal(n);
    let m = assignment_message(n);
    lemma_decimal_digits(n);
    lemma_decimal_reads_back(n);
    lemma_decimal_leading(n);
    assert(m.subrange(22, m.len() - 6) =~= d);
    assert(m.subrange(0, 22) =~= "Successfully assigned "@);
    assert(m.subrange(m.len() - 6, m.len() as int) =~= " tasks"@);
}

/// The notation of a positive number does not start with `0`.
pub proof fn lemma_decimal_leading(n: nat)
    ensures
        n > 0 ==> decimal(n)[0] != '0',
    decreases n,
{
    if n >= 10 {
        lemma_decimal_leading(n / 10);
        lemma_decimal_digits(n / 10);
        assert(decimal(n)[0] == decimal(n / 10)[0]);
    } else if n > 0 {
        assert(((48 + n) as char) as int == 48 + n);
    }
}

/// One stored task as the list of `email` shows it.
pub open spec fn task_entry(t: TaskView, email: Seq<char>) -> TaskResponseView {
    TaskResponseView {
        id: t.id,
        title: t.title,
        status: t.status,
        priority: t.priority,
        assigned_to: email,
    }
}

/// The task list made fresh from the stored tasks assigned to the caller.
pub open spec fn spec_task_list(claims: ClaimsView, rows: Seq<TaskView>) -> ViewMyTasksResponseView {
    ViewMyTasksResponseView {
        user: UserInfoView { email: claims.email, role: claims.role },
        tasks: rows.map_values(|t: TaskView| task_entry(t, claims.email)),
        total_assigned_tasks: rows.len() as usize,
        hit: false,
    }
}

/// A task list with its cache flag set as given.
pub open spec fn with_hit(r: ViewMyTasksResponseView, hit: bool) -> ViewMyTasksResponseView {
    ViewMyTasksResponseView { hit, ..r }
}

/// Builds the caller's task list from the stored tasks assigned to them, in their order.
pub fn build_task_list(claims: &Claims, rows: &Vec<Task>) -> (r: ViewMyTasksResponse)
    ensures
        r@ == spec_task_list(claims@, rows@.map_values(|t: Task| t@)),
{
    let ghost rows_view = rows@.map_values(|t: Task| t@);
    let mut tasks: Vec<TaskResponse> = Vec::new();
    let mut i: usize = 0;
    while i < rows.len()
        invariant
            i <= rows.len(),
            rows_view == rows@.map_values(|t: Task| t@),
            tasks@.map_values(|t: TaskResponse| t@) =~= rows_view.take(i as int).map_values(
                |t: TaskView| task_entry(t, claims@.email),
            ),
        decreases rows.len() - i,
    {
        let row = &rows[i];
        let entry = TaskResponse {
            id: row.id.clone(),
            title: row.title.clone(),
            status: row.status.clone(),
            priority: row.priority.clone(),
            assigned_to: claims.email.clone(),
        };
        assert(entry@ == task_entry(rows_view[i as int], claims@.email));
        let ghost before = tasks@;
        tasks.push(entry);
        assert(tasks@.map_values(|t: TaskResponse| t@) =~= before.map_values(|t: TaskResponse| t@).push(
            task_entry(rows_view[i as int], claims@.email),
        ));
        assert(rows_view.take(i + 1) =~= rows_view.take(i as int).push(rows_view[i as int]));
        assert(rows_view.take(i + 1).map_values(|t: TaskView| task_entry(t, claims@.email))
            =~= rows_view.take(i as int).map_values(|t: TaskView| task_entry(t, claims@.email)).push(
            task_entry(rows_view[i as int], claims@.email),
        ));
        i = i + 1;
    }
    assert(rows_view.take(rows.len() as int) =~= rows_view);
    let total = tasks.len();
    ViewMyTasksResponse {
        user: UserInfo { email: claims.email.clone(), role: claims.role.clone() },
        tasks,
        summary: TaskSummary { total_assigned_tasks: total },
        cache: CacheMetadata { hit: false },
    }
}

/// Where a request for the caller's task list stands; each state has one storage
/// operation pending.
#[derive(Debug)]
pub enum ViewTasksState {
    AwaitingCache { claims: Claims },
    AwaitingTasks { claims: Claims },
}

pub enum ViewTasksStateView {
    AwaitingCache { claims: ClaimsView },
    AwaitingTasks { claims: ClaimsView },
}

impl View for ViewTasksState {
    type V = ViewTasksStateView;

    open spec fn view(&self) -> ViewTasksStateView {
        match self {
            ViewTasksState::AwaitingCache { claims } => ViewTasksStateView::AwaitingCache {
                claims: claims@,
            },
            ViewTasksState::AwaitingTasks { claims } => ViewTasksStateView::AwaitingTasks {
                claims: claims@,
            },
        }
    }
}

/// What the cache and the database report back to a task list request.
#[derive(Debug)]
pub enum ViewTasksEvent {
    /// The cached list, if one was found and could be read.
    CacheRead(Option<ViewMyTasksResponse>),
    /// The stored tasks assigned to the caller.
    TasksLoaded(Vec<Task>),
    /// The pending operation failed, with the storage layer's text.
    StorageFailed(String),
}

pub enum ViewTasksEventView {
    CacheRead(Option<ViewMyTasksResponseView>),
    TasksLoaded(Seq<TaskView>),
    StorageFailed(Seq<char>),
}

impl View for ViewTasksEvent {
    type V = ViewTasksEventView;

    open spec fn view(&self) -> ViewTasksEventView {
        match self {
            ViewTasksEvent::CacheRead(r) => ViewTasksEventView::CacheRead(opt_view(*r)),
            ViewTasksEvent::TasksLoaded(rows) => ViewTasksEventView::TasksLoaded(
                rows@.map_values(|t: Task| t@),
            ),
            ViewTasksEvent::StorageFailed(m) => ViewTasksEventView::StorageFailed(m@),
        }
    }
}

/// The operation that a task list state waits for.
#[derive(Debug)]
pub enum ViewTasksAction {
    ReadCache { key: String },
    LoadAssignedTasks { user_id: String },
}

pub enum ViewTasksActionView {
    ReadCache { key: Seq<char> },
    LoadAssignedTasks { user_id: Seq<char> },
}

impl View for ViewTasksAction {
    type V = ViewTasksActionView;

    open spec fn view(&self) -> ViewTasksActionView {
        match self {
            ViewTasksAction::ReadCache { key } => ViewTasksActionView::ReadCache { key: key@ },
            ViewTasksAction::LoadAssignedTasks { user_id } =>
                ViewTasksActionView::LoadAssignedTasks { user_id: user_id@ },
        }
    }
}

/// A task list request waits for another operation, or stores the fresh list in the
/// cache (for `ttl_secs` seconds) and replies with it, or just replies.
#[derive(Debug)]
pub enum ViewTasksNext {
    Continue(ViewTasksState),
    CacheAndReply { key: String, ttl_secs: u64, response: ViewMyTasksResponse },
    Reply(Result<ViewMyTasksResponse, ApiError>),
}

pub enum ViewTasksNextView {
    Continue(ViewTasksStateView),
    CacheAndReply { key: Seq<char>, ttl_secs: u64, response: ViewMyTasksResponseView },
    Reply(Result<ViewMyTasksResponseView, ApiErrorView>),
}

impl View for ViewTasksNext {
    type V = ViewTasksNextView;

    open spec fn view(&self) -> ViewTasksNextView {
        match self {
            ViewTasksNext::Continue(s) => ViewTasksNextView::Continue(s@),
            ViewTasksNext::CacheAndReply { key, ttl_secs, response } =>
                ViewTasksNextView::CacheAndReply {
                    key: key@,
                    ttl_secs: *ttl_secs,
                    response: response@,
                },
            ViewTasksNext::Reply(Ok(r)) => ViewTasksNextView::Reply(Ok(r@)),
            ViewTasksNext::Reply(Err(e)) => ViewTasksNextView::Reply(Err(e@)),
        }
    }
}

/// The operation each task list state waits for.
pub open spec fn view_tasks_action(s: ViewTasksStateView) -> ViewTasksActionView {
    match s {
        ViewTasksStateView::AwaitingCache { claims } => ViewTasksActionView::ReadCache {
            key: spec_cache_key(claims.sub),
        },
        ViewTasksStateView::AwaitingTasks { claims } => ViewTasksActionView::LoadAssignedTasks {
            user_id: claims.sub,
        },
    }
}

/// What a task list request does with a state and an event. A cached list is
/// answered as a cache hit; a missing or unreadable one (the cache's failures count
/// as misses) leads to the database, whose list is cached and answered as a miss.
pub open spec fn view_tasks_next(s: ViewTasksStateView, e: ViewTasksEventView) -> ViewTasksNextView {
    match s {
        ViewTasksStateView::AwaitingCache { claims } => match e {
            ViewTasksEventView::CacheRead(Some(cached)) => ViewTasksNextView::Reply(
                Ok(with_hit(cached, true)),
            ),
            ViewTasksEventView::CacheRead(None) => ViewTasksNextView::Continue(
                ViewTasksStateView::AwaitingTasks { claims },
            ),
            ViewTasksEventView::StorageFailed(_) => ViewTasksNextView::Continue(
                ViewTasksStateView::AwaitingTasks { claims },
            ),
            ViewTasksEventView::TasksLoaded(_) => ViewTasksNextView::Continue(s),
        },
        ViewTasksStateView::AwaitingTasks { claims } => match e {
            ViewTasksEventView::TasksLoaded(rows) => ViewTasksNextView::CacheAndReply {
                key: spec_cache_key(claims.sub),
                ttl_secs: CACHE_TTL_SECS,
                response: spec_task_list(claims, rows),
            },
            ViewTasksEventView::StorageFailed(m) => ViewTasksNextView::Reply(
                Err(refusal(StatusCode::InternalServerError, m)),
            ),
            ViewTasksEventView::CacheRead(_) => ViewTasksNextView::Continue(s),
        },
    }
}

impl ViewTasksState {
    /// The state in which a task list request of an authenticated caller starts.
    pub fn start(claims: Claims) -> (s: ViewTasksState)
        ensures
            s@ == (ViewTasksStateView::AwaitingCache { claims: claims@ }),
    {
        ViewTasksState::AwaitingCache { claims }
    }

    /// The operation this state waits for.
    pub fn pending_action(&self) -> (a: ViewTasksAction)
        ensures
            a@ == view_tasks_action(self@),
    {
        match self {
            ViewTasksState::AwaitingCache { claims } => ViewTasksAction::ReadCache {
                key: cache_key(claims.sub.as_str()),
            },
            ViewTasksState::AwaitingTasks { claims } => ViewTasksAction::LoadAssignedTasks {
                user_id: claims.sub.clone(),
            },
        }
    }
}

/// Advances a task list request by what the cache or the database reported.
pub fn view_tasks_step(state: ViewTasksState, event: ViewTasksEvent) -> (n: ViewTasksNext)
    ensures
        n@ == view_tasks_next(state@, event@),
{
    match state {
        ViewTasksState::AwaitingCache { claims } => match event {
            ViewTasksEvent::CacheRead(Some(cached)) => {
                let mut cached = cached;
                cached.cache.hit = true;
                ViewTasksNext::Reply(Ok(cached))
            },
            ViewTasksEvent::CacheRead(None) => ViewTasksNext::Continue(
                ViewTasksState::AwaitingTasks { claims },
            ),
            ViewTasksEvent::StorageFailed(_) => ViewTasksNext::Continue(
                ViewTasksState::AwaitingTasks { claims },
            ),
            ViewTasksEvent::TasksLoaded(_) => ViewTasksNext::Continue(
                ViewTasksState::AwaitingCache { claims },
            ),
        },
        ViewTasksState::AwaitingTasks { claims } => match event {
            ViewTasksEvent::TasksLoaded(rows) => {
                let response = build_task_list(&claims, &rows);
                ViewTasksNext::CacheAndReply {
                    key: cache_key(claims.sub.as_str()),
                    ttl_secs: CACHE_TTL_SECS,
                    response,
                }
            },
            ViewTasksEvent::StorageFailed(m) => ViewTasksNext::Reply(
                Err(ApiError::with_text(StatusCode::InternalServerError, m)),
            ),
            ViewTasksEvent::CacheRead(_) => ViewTasksNext::Continue(
                ViewTasksState::AwaitingTasks { claims },
            ),
        },
    }
}

/// A list that a miss put in the cache comes back unchanged, flagged as a hit, to
/// the next request of the same user: that request reads the very key the miss wrote.
pub proof fn lemma_cached_list_comes_back(claims: ClaimsView, rows: Seq<TaskView>, later: ClaimsView)
    requires
        later.sub == claims.sub,
    ensures
        view_tasks_next(
            ViewTasksStateView::AwaitingTasks { claims },
            ViewTasksEventView::TasksLoaded(rows),
        ) == (ViewTasksNextView::CacheAndReply {
            key: spec_cache_key(claims.sub),
            ttl_secs: CACHE_TTL_SECS,
            response: spec_task_list(claims, rows),
        }),
        view_tasks_action(ViewTasksStateView::AwaitingCache { claims: later })
            == (ViewTasksActionView::ReadCache { key: spec_cache_key(claims.sub) }),
        view_tasks_next(
            ViewTasksStateView::AwaitingCache { claims: later },
            ViewTasksEventView::CacheRead(Some(spec_task_list(claims, rows))),
        ) == ViewTasksNextView::Reply(
            Ok::<ViewMyTasksResponseView, ApiErrorView>(with_hit(spec_task_list(claims, rows), true)),
        ),
{
}

/// A fresh list counts its tasks, shows each stored task in order, names the caller
/// (their email and their role, as the token claims them) as the list's user, and
/// names the caller as the assignee of each task.
pub proof fn lemma_fresh_list_shape(claims: ClaimsView, rows: Seq<TaskView>)
    requires
        rows.len() <= usize::MAX,
    ensures
        spec_task_list(claims, rows).total_assigned_tasks == spec_task_list(claims, rows).tasks.len(),
        spec_task_list(claims, rows).tasks.len() == rows.len(),
        forall|i: int|
            0 <= i < rows.len() ==> {
                let entry = #[trigger] spec_task_list(claims, rows).tasks[i];
                &&& entry.assigned_to == claims.email
                &&& entry.id == rows[i].id
                &&& entry.title == rows[i].title
                &&& entry.status == rows[i].status
                &&& entry.priority == rows[i].priority
            },
        !spec_task_list(claims, rows).hit,
        spec_task_list(claims, rows).user.email == claims.email,
        spec_task_list(claims, rows).user.role == claims.role,
{
}

/// Different users' task lists never share a cache entry.
pub proof fn lemma_lists_of_different_users_apart(a: ClaimsView, b: ClaimsView)
    requires
        a.sub != b.sub,
    ensures
        view_tasks_action(ViewTasksStateView::AwaitingCache { claims: a })
            != view_tasks_action(ViewTasksStateView::AwaitingCache { claims: b }),
{
    crate::cache::lemma_cache_key_injective(a.sub, b.sub);
}

} // verus!
