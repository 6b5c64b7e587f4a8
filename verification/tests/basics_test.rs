use rust_axum_todo::auth::bearer_token;
use rust_axum_todo::cache::{cache_key, CACHE_TTL_SECS};
use rust_axum_todo::error::{ApiError, StatusCode};
use rust_axum_todo::text::decimal_text;
use rust_axum_todo::time::Timestamp;

#[test]
fn decimal_text_writes_numbers() {
    assert_eq!(decimal_text(0), "0");
    assert_eq!(decimal_text(7), "7");
    assert_eq!(decimal_text(10), "10");
    assert_eq!(decimal_text(123456), "123456");
    assert_eq!(decimal_text(u64::MAX), u64::MAX.to_string());
}

#[test]
fn cache_key_names_the_user() {
    assert_eq!(cache_key("abc"), "user:abc:tasks");
    assert_eq!(cache_key(""), "user::tasks");
    assert_ne!(cache_key("a"), cache_key("b"));
    assert_eq!(CACHE_TTL_SECS, 3600);
}

#[test]
fn status_codes_are_http_statuses() {
    assert_eq!(StatusCode::BadRequest.code(), 400);
    assert_eq!(StatusCode::Unauthorized.code(), 401);
    assert_eq!(StatusCode::Forbidden.code(), 403);
    assert_eq!(StatusCode::NotFound.code(), 404);
    assert_eq!(StatusCode::InternalServerError.code(), 500);
    let e = ApiError::new(StatusCode::Forbidden, "no");
    assert_eq!(e.status, StatusCode::Forbidden);
    assert_eq!(e.message, "no");
}

#[test]
fn timestamps_order_by_second_then_nanosecond() {
    let a = Timestamp { secs: 10, nanos: 5 };
    let b = Timestamp { secs: 10, nanos: 6 };
    let c = Timestamp { secs: 11, nanos: 0 };
    assert!(b.is_after(&a));
    assert!(!a.is_after(&b));
    assert!(!a.is_after(&a));
    assert!(c.is_after(&b));
    let d = a.plus_seconds(300);
    assert_eq!(d.secs, 310);
    assert_eq!(d.nanos, 5);
}

#[test]
fn bearer_token_takes_what_follows_the_scheme() {
    assert_eq!(bearer_token("Bearer abc.def").as_deref(), Some("abc.def"));
    assert_eq!(bearer_token("Bearer ").as_deref(), Some(""));
    assert_eq!(bearer_token("bearer abc"), None);
    assert_eq!(bearer_token("Basic abc"), None);
    assert_eq!(bearer_token("Bear"), None);
    assert_eq!(bearer_token("Bearer é").as_deref(), Some("é"));
}
