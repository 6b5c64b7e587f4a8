use argon2::password_hash::{PasswordHash, PasswordVerifier};
use rust_axum_todo::models::User;
use rust_axum_todo::seed::{seed_step, SeedAction, SeedEvent, SeedNext, SeedState};
use rust_axum_todo::time::Timestamp;

fn cont(n: SeedNext) -> SeedState {
    match n {
        SeedNext::Continue(s) => s,
        SeedNext::Reply(r) => panic!("unexpected reply: {:?}", r.err()),
    }
}

#[test]
fn seeding_inserts_missing_admin_and_keeps_existing_staff() {
    let s = SeedState::start();
    assert!(matches!(s.pending_action(), SeedAction::BeginTransaction));
    let s = cont(seed_step(s, SeedEvent::Done));
    match s.pending_action() {
        SeedAction::FindUserByEmail { email } => assert_eq!(email, "admin@example.com"),
        _ => panic!("expected the admin lookup"),
    }
    let s = cont(seed_step(s, SeedEvent::UserFound(None)));
    let (admin_id, hash) = match s.pending_action() {
        SeedAction::InsertUser { user } => {
            assert_eq!(user.full_name, "Admin User");
            assert_eq!(user.email, "admin@example.com");
            assert_eq!(user.role, "admin");
            (user.id, user.hashed_password)
        },
        _ => panic!("expected the admin insert"),
    };
    let parsed = PasswordHash::new(&hash).unwrap();
    assert!(argon2::Argon2::default().verify_password(b"password123", &parsed).is_ok());
    let s = cont(seed_step(s, SeedEvent::Done));
    match s.pending_action() {
        SeedAction::FindUserByEmail { email } => assert_eq!(email, "jamesbond@example.com"),
        _ => panic!("expected the staff lookup"),
    }
    let t = Timestamp { secs: 0, nanos: 0 };
    let existing = User {
        id: "james-old".to_string(),
        full_name: "James Bond".to_string(),
        email: "jamesbond@example.com".to_string(),
        hashed_password: "h".to_string(),
        role: "staff".to_string(),
        created_at: t,
        updated_at: t,
    };
    let s = cont(seed_step(s, SeedEvent::UserFound(Some(existing))));
    assert!(matches!(s.pending_action(), SeedAction::Commit));
    match seed_step(s, SeedEvent::Done) {
        SeedNext::Reply(Ok(summary)) => {
            assert_eq!(summary.message, "Users seeded successfully. Default password is 'password123'.");
            assert_eq!(summary.admin_id, admin_id);
            assert_eq!(summary.james_bond_id, "james-old");
        },
        _ => panic!("expected the reply"),
    }
}

#[test]
fn seeding_inserts_missing_staff_with_drawn_id() {
    let s = cont(seed_step(SeedState::start(), SeedEvent::Done));
    let t = Timestamp { secs: 0, nanos: 0 };
    let admin = User {
        id: "admin-old".to_string(),
        full_name: "Admin User".to_string(),
        email: "admin@example.com".to_string(),
        hashed_password: "h".to_string(),
        role: "admin".to_string(),
        created_at: t,
        updated_at: t,
    };
    let s = cont(seed_step(s, SeedEvent::UserFound(Some(admin))));
    match s.pending_action() {
        SeedAction::FindUserByEmail { email } => assert_eq!(email, "jamesbond@example.com"),
        _ => panic!("an existing admin is not inserted again"),
    }
    let s = cont(seed_step(s, SeedEvent::UserFound(None)));
    let staff_id = match s.pending_action() {
        SeedAction::InsertUser { user } => {
            assert_eq!(user.full_name, "James Bond");
            assert_eq!(user.role, "staff");
            assert_eq!(user.id.len(), 36);
            user.id
        },
        _ => panic!("expected the staff insert"),
    };
    let s = cont(seed_step(s, SeedEvent::Done));
    match seed_step(s, SeedEvent::Done) {
        SeedNext::Reply(Ok(summary)) => {
            assert_eq!(summary.james_bond_id, staff_id);
            assert_ne!(summary.admin_id, "admin-old");
            assert_eq!(summary.admin_id.len(), 36);
        },
        _ => panic!("expected the reply"),
    }
}

#[test]
fn seeding_storage_failure_refuses() {
    match seed_step(SeedState::start(), SeedEvent::StorageFailed("locked".to_string())) {
        SeedNext::Reply(Err(e)) => {
            assert_eq!(e.status.code(), 500);
            assert_eq!(e.message, "locked");
        },
        _ => panic!("expected a refusal"),
    }
}
