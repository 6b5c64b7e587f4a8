use rust_axum_todo::error::StatusCode;
use rust_axum_todo::models::{
    AssignTaskRequest, CacheMetadata, Claims, CreateTaskRequest, Task, TaskResponse, TaskSummary,
    UserInfo, ViewMyTasksResponse,
};
use rust_axum_todo::tasks::{
    assign_step, AssignAction, AssignEvent, AssignNext, AssignState, plan_assignment, plan_new_task, view_tasks_step, ViewTasksAction, ViewTasksEvent, ViewTasksNext,
    ViewTasksState,
};
use rust_axum_todo::time::Timestamp;

fn claims(role: &str) -> Claims {
    Claims {
        sub: "u-7".to_string(),
        email: "jamesbond@example.com".to_string(),
        role: role.to_string(),
        exp: 0,
    }
}

fn row(id: &str, title: &str, priority: &str) -> Task {
    let t = Timestamp { secs: 0, nanos: 0 };
    Task {
        id: id.to_string(),
        title: title.to_string(),
        description: None,
        status: "todo".to_string(),
        priority: priority.to_string(),
        created_by_id: "admin".to_string(),
        assigned_to_id: Some("u-7".to_string()),
        created_at: t,
        updated_at: t,
    }
}

#[test]
fn staff_cannot_create_tasks() {
    let req = CreateTaskRequest { title: "T".to_string(), description: None, status: None, priority: None };
    let e = plan_new_task(&claims("staff"), req).err().unwrap();
    assert_eq!(e.status, StatusCode::Forbidden);
    assert_eq!(e.message, "Only admins can create tasks");
}

#[test]
fn admin_task_gets_defaults() {
    let req = CreateTaskRequest {
        title: "Task 1".to_string(),
        description: Some("d".to_string()),
        status: None,
        priority: None,
    };
    let t = plan_new_task(&claims("admin"), req).ok().unwrap();
    assert_eq!(t.title, "Task 1");
    assert_eq!(t.description.as_deref(), Some("d"));
    assert_eq!(t.status, "todo");
    assert_eq!(t.priority, "medium");
    assert_eq!(t.created_by_id, "u-7");
    assert!(uuid::Uuid::parse_str(&t.id).is_ok());
    assert_eq!(t.id.len(), 36);
}

#[test]
fn admin_task_keeps_given_status_and_priority() {
    let req = CreateTaskRequest {
        title: "Task 2".to_string(),
        description: None,
        status: Some("done".to_string()),
        priority: Some("high".to_string()),
    };
    let t = plan_new_task(&claims("admin"), req).ok().unwrap();
    assert_eq!(t.status, "done");
    assert_eq!(t.priority, "high");
    assert!(t.description.is_none());
}

#[test]
fn staff_cannot_assign_tasks() {
    let req = AssignTaskRequest { task_ids: vec!["a".to_string()], assigned_to_id: "u-7".to_string() };
    let e = plan_assignment(&claims("Admin"), req).err().unwrap();
    assert_eq!(e.status, StatusCode::Forbidden);
    assert_eq!(e.message, "Only admins can assign tasks");
}

#[test]
fn assignment_plan_counts_and_invalidates() {
    let req = AssignTaskRequest {
        task_ids: vec!["a".to_string(), "b".to_string(), "c".to_string()],
        assigned_to_id: "u-7".to_string(),
    };
    let p = plan_assignment(&claims("admin"), req).ok().unwrap();
    assert_eq!(p.task_ids, vec!["a", "b", "c"]);
    assert_eq!(p.assigned_to_id, "u-7");
    assert_eq!(p.cache_key, "user:u-7:tasks");
    assert_eq!(p.message, "Successfully assigned 3 tasks");
    let empty = AssignTaskRequest { task_ids: vec![], assigned_to_id: "x".to_string() };
    assert_eq!(plan_assignment(&claims("admin"), empty).ok().unwrap().message, "Successfully assigned 0 tasks");
}

#[test]
fn view_miss_builds_caches_and_replies() {
    let s = ViewTasksState::start(claims("staff"));
    match s.pending_action() {
        ViewTasksAction::ReadCache { key } => assert_eq!(key, "user:u-7:tasks"),
        _ => panic!("expected a cache read"),
    }
    let s = match view_tasks_step(s, ViewTasksEvent::CacheRead(None)) {
        ViewTasksNext::Continue(s) => s,
        _ => panic!("expected the database"),
    };
    match s.pending_action() {
        ViewTasksAction::LoadAssignedTasks { user_id } => assert_eq!(user_id, "u-7"),
        _ => panic!("expected the task load"),
    }
    let rows = vec![row("1", "Task 1", "high"), row("2", "Task 2", "medium"), row("3", "Task 3", "low")];
    match view_tasks_step(s, ViewTasksEvent::TasksLoaded(rows)) {
        ViewTasksNext::CacheAndReply { key, ttl_secs, response } => {
            assert_eq!(key, "user:u-7:tasks");
            assert_eq!(ttl_secs, 3600);
            assert_eq!(response.user.email, "jamesbond@example.com");
            assert_eq!(response.user.role, "staff");
            assert_eq!(response.summary.total_assigned_tasks, 3);
            assert!(!response.cache.hit);
            let ids: Vec<&str> = response.tasks.iter().map(|t| t.id.as_str()).collect();
            assert_eq!(ids, vec!["1", "2", "3"]);
            assert_eq!(response.tasks[2].priority, "low");
            assert!(response.tasks.iter().all(|t| t.assigned_to == "jamesbond@example.com"));
            // The next request of the same user finds this list and answers it as a hit.
            let again = ViewTasksState::start(claims("staff"));
            match view_tasks_step(again, ViewTasksEvent::CacheRead(Some(response))) {
                ViewTasksNext::Reply(Ok(r)) => {
                    assert!(r.cache.hit);
                    assert_eq!(r.summary.total_assigned_tasks, 3);
                    assert_eq!(r.tasks[0].title, "Task 1");
                },
                _ => panic!("expected a hit"),
            }
        },
        _ => panic!("expected the cache write"),
    }
}

#[test]
fn view_empty_list() {
    let s = ViewTasksState::AwaitingTasks { claims: claims("staff") };
    match view_tasks_step(s, ViewTasksEvent::TasksLoaded(vec![])) {
        ViewTasksNext::CacheAndReply { response, .. } => {
            assert_eq!(response.summary.total_assigned_tasks, 0);
            assert!(response.tasks.is_empty());
        },
        _ => panic!("expected the cache write"),
    }
}

#[test]
fn view_hit_flags_the_cached_list() {
    let cached = ViewMyTasksResponse {
        user: UserInfo { email: "e".to_string(), role: "staff".to_string() },
        tasks: vec![TaskResponse {
            id: "9".to_string(),
            title: "t".to_string(),
            status: "todo".to_string(),
            priority: "low".to_string(),
            assigned_to: "e".to_string(),
        }],
        summary: TaskSummary { total_assigned_tasks: 1 },
        cache: CacheMetadata { hit: false },
    };
    match view_tasks_step(ViewTasksState::start(claims("staff")), ViewTasksEvent::CacheRead(Some(cached))) {
        ViewTasksNext::Reply(Ok(r)) => {
            assert!(r.cache.hit);
            assert_eq!(r.tasks[0].id, "9");
        },
        _ => panic!("expected a hit"),
    }
}

#[test]
fn view_cache_failure_counts_as_miss_and_db_failure_refuses() {
    let s = match view_tasks_step(
        ViewTasksState::start(claims("staff")),
        ViewTasksEvent::StorageFailed("redis down".to_string()),
    ) {
        ViewTasksNext::Continue(s) => s,
        _ => panic!("expected the database"),
    };
    match view_tasks_step(s, ViewTasksEvent::StorageFailed("db down".to_string())) {
        ViewTasksNext::Reply(Err(e)) => {
            assert_eq!(e.status, StatusCode::InternalServerError);
            assert_eq!(e.message, "db down");
        },
        _ => panic!("expected a refusal"),
    }
}

#[test]
fn assignment_writes_each_task_then_commits_then_invalidates() {
    let req = AssignTaskRequest {
        task_ids: vec!["a".to_string(), "b".to_string()],
        assigned_to_id: "u-7".to_string(),
    };
    let mut s = AssignState::start(plan_assignment(&claims("admin"), req).ok().unwrap());
    let mut seen = Vec::new();
    loop {
        let action = s.pending_action();
        seen.push(format!("{:?}", action));
        match assign_step(s, AssignEvent::Done) {
            AssignNext::Continue(next) => s = next,
            AssignNext::Reply(r) => {
                assert_eq!(r.ok().unwrap(), "Successfully assigned 2 tasks");
                break;
            }
        }
    }
    assert_eq!(seen.len(), 5);
    assert!(seen[0].contains("BeginTransaction"));
    assert!(seen[1].contains("\"a\"") && seen[1].contains("u-7"));
    assert!(seen[2].contains("\"b\""));
    assert!(seen[3].contains("Commit"));
    assert!(seen[4].contains("user:u-7:tasks"));
}

#[test]
fn assignment_failed_update_refuses_without_invalidating() {
    let req = AssignTaskRequest { task_ids: vec!["a".to_string()], assigned_to_id: "u".to_string() };
    let s = AssignState::start(plan_assignment(&claims("admin"), req).ok().unwrap());
    let s = match assign_step(s, AssignEvent::Done) {
        AssignNext::Continue(s) => s,
        _ => panic!("expected the update"),
    };
    assert!(matches!(s.pending_action(), AssignAction::UpdateTask { .. }));
    match assign_step(s, AssignEvent::StorageFailed("locked".to_string())) {
        AssignNext::Reply(Err(e)) => {
            assert_eq!(e.status, StatusCode::InternalServerError);
            assert_eq!(e.message, "locked");
        }
        _ => panic!("expected a refusal"),
    }
}

#[test]
fn assignment_cache_failure_still_answers() {
    let req = AssignTaskRequest { task_ids: vec![], assigned_to_id: "u".to_string() };
    let s = AssignState::start(plan_assignment(&claims("admin"), req).ok().unwrap());
    let s = match assign_step(s, AssignEvent::Done) { AssignNext::Continue(s) => s, _ => panic!() };
    assert!(matches!(s.pending_action(), AssignAction::Commit));
    let s = match assign_step(s, AssignEvent::Done) { AssignNext::Continue(s) => s, _ => panic!() };
    assert!(matches!(s.pending_action(), AssignAction::InvalidateCache { .. }));
    match assign_step(s, AssignEvent::StorageFailed("redis down".to_string())) {
        AssignNext::Reply(Ok(m)) => assert_eq!(m, "Successfully assigned 0 tasks"),
        _ => panic!("expected the reply"),
    }
}
