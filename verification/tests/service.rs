use mindmosaic::api::{
    create_entry_request, get_entries_request, health_check, login_request, register_request,
};
use mindmosaic::errors::ServiceError;
use mindmosaic::identity::{authenticate, register, register_at};
use mindmosaic::journal::{create_entry, create_entry_at, list_entries};
use mindmosaic::store::Store;
use mindmosaic::token::TokenIssuer;

#[test]
fn register_then_duplicate_conflicts() {
    let mut store = Store::new();
    let a = register(&mut store, "a@example.com".to_string(), "secret123").unwrap();
    assert_eq!(a.email, "a@example.com");
    let second = register(&mut store, "a@example.com".to_string(), "other-password");
    assert_eq!(second.unwrap_err(), ServiceError::Conflict);
    // and a third attempt still conflicts, regardless of the password
    let third = register(&mut store, "a@example.com".to_string(), "secret123");
    assert_eq!(third.unwrap_err(), ServiceError::Conflict);
}

#[test]
fn emails_are_case_sensitive() {
    let mut store = Store::new();
    register(&mut store, "a@example.com".to_string(), "secret123").unwrap();
    let other = register(&mut store, "A@example.com".to_string(), "secret123");
    assert!(other.is_ok());
}

#[test]
fn authenticate_is_repeatable_and_checks_password() {
    let mut store = Store::new();
    let a = register(&mut store, "a@example.com".to_string(), "secret123").unwrap();
    for _ in 0..2 {
        let ok = authenticate(&store, &"a@example.com".to_string(), "secret123").unwrap();
        assert_eq!(ok.id, a.id);
    }
    for _ in 0..2 {
        let bad = authenticate(&store, &"a@example.com".to_string(), "wrong-password");
        assert_eq!(bad.unwrap_err(), ServiceError::Unauthorized);
    }
    // failures had no side effects: the right password still works
    let ok = authenticate(&store, &"a@example.com".to_string(), "secret123").unwrap();
    assert_eq!(ok.id, a.id);
}

#[test]
fn authenticate_unknown_email_is_not_found() {
    let store = Store::new();
    let r = authenticate(&store, &"nobody@example.com".to_string(), "secret123");
    assert_eq!(r.unwrap_err(), ServiceError::NotFound);
}

#[test]
fn create_then_list_returns_the_entry() {
    let mut store = Store::new();
    let a = register(&mut store, "a@example.com".to_string(), "secret123").unwrap();
    let before = chrono::Utc::now().timestamp_millis();
    let entry = create_entry(&mut store, a.id, "Felt good today".to_string(), Some(7)).unwrap();
    let listed = list_entries(&store, a.id);
    assert_eq!(listed.len(), 1);
    assert_eq!(listed[0].id, entry.id);
    assert_eq!(listed[0].text, "Felt good today");
    assert_eq!(listed[0].mood_score, Some(7));
    assert!(listed[0].sentiment.is_none());
    assert!(listed[0].emotions.is_none());
    assert!(listed[0].timestamp >= before);
}

#[test]
fn timestamps_never_decrease() {
    let mut store = Store::new();
    let a = register(&mut store, "a@example.com".to_string(), "secret123").unwrap();
    for i in 0..5 {
        create_entry(&mut store, a.id, format!("note {}", i), None).unwrap();
    }
    let listed = list_entries(&store, a.id);
    assert_eq!(listed.len(), 5);
    for w in listed.windows(2) {
        assert!(w[0].timestamp <= w[1].timestamp);
    }
}

#[test]
fn list_with_no_entries_is_empty() {
    let mut store = Store::new();
    let a = register(&mut store, "a@example.com".to_string(), "secret123").unwrap();
    let listed = list_entries(&store, a.id);
    assert!(listed.is_empty());
    // even for an account id that does not exist, listing is empty, not an error
    let listed = list_entries(&store, a.id + 1);
    assert!(listed.is_empty());
}

#[test]
fn listing_never_crosses_accounts() {
    let mut store = Store::new();
    let a = register(&mut store, "a@example.com".to_string(), "secret123").unwrap();
    let b = register(&mut store, "b@example.com".to_string(), "hunter2hunter").unwrap();
    create_entry(&mut store, a.id, "from a, one".to_string(), Some(1)).unwrap();
    create_entry(&mut store, b.id, "from b, one".to_string(), Some(2)).unwrap();
    create_entry(&mut store, a.id, "from a, two".to_string(), None).unwrap();
    let of_a = list_entries(&store, a.id);
    let of_b = list_entries(&store, b.id);
    assert_eq!(of_a.len(), 2);
    assert_eq!(of_b.len(), 1);
    assert!(of_a.iter().all(|e| e.user_id == a.id));
    assert!(of_b.iter().all(|e| e.user_id == b.id));
    assert_eq!(of_a[0].text, "from a, one");
    assert_eq!(of_a[1].text, "from a, two");
    assert_eq!(of_b[0].text, "from b, one");
}

#[test]
fn entry_validation() {
    let mut store = Store::new();
    let a = register(&mut store, "a@example.com".to_string(), "secret123").unwrap();
    let empty = create_entry(&mut store, a.id, "".to_string(), Some(3));
    assert_eq!(empty.unwrap_err(), ServiceError::InvalidArgument);
    let high = create_entry(&mut store, a.id, "too happy".to_string(), Some(11));
    assert_eq!(high.unwrap_err(), ServiceError::InvalidArgument);
    let low = create_entry(&mut store, a.id, "too sad".to_string(), Some(-11));
    assert_eq!(low.unwrap_err(), ServiceError::InvalidArgument);
    let top = create_entry(&mut store, a.id, "at the top".to_string(), Some(10));
    assert!(top.is_ok());
    let bottom = create_entry(&mut store, a.id, "at the bottom".to_string(), Some(-10));
    assert!(bottom.is_ok());
    assert_eq!(list_entries(&store, a.id).len(), 2);
}

#[test]
fn entry_for_unknown_account_is_not_found() {
    let mut store = Store::new();
    let r = create_entry(&mut store, 42, "hello".to_string(), None);
    assert_eq!(r.unwrap_err(), ServiceError::NotFound);
}

#[test]
fn full_scenario_through_the_transport_contract() {
    let mut store = Store::new();
    let mut issuer = TokenIssuer::new();
    let reg =
        register_request(&mut store, &mut issuer, "a@example.com".to_string(), "secret123")
            .unwrap();
    let login =
        login_request(&store, &mut issuer, &"a@example.com".to_string(), "secret123").unwrap();
    assert_eq!(login.user_id, reg.user_id);
    let entry = create_entry_request(
        &mut store,
        &issuer,
        &login.token,
        "Felt good today".to_string(),
        Some(7),
    )
    .unwrap();
    assert_eq!(entry.mood_score, Some(7));
    assert!(entry.sentiment.is_none());
    let listed = get_entries_request(&store, &issuer, &login.token).unwrap();
    assert_eq!(listed.len(), 1);
    assert_eq!(listed[0].id, entry.id);
    assert_eq!(listed[0].text, "Felt good today");
    assert_eq!(listed[0].mood_score, Some(7));
}

#[test]
fn raw_account_id_is_not_a_credential() {
    let mut store = Store::new();
    let mut issuer = TokenIssuer::new();
    let reg =
        register_request(&mut store, &mut issuer, "a@example.com".to_string(), "secret123")
            .unwrap();
    let raw = reg.user_id.to_string();
    let r = create_entry_request(&mut store, &issuer, &raw, "hello".to_string(), None);
    assert_eq!(r.unwrap_err(), ServiceError::Unauthorized);
    let r = get_entries_request(&store, &issuer, &raw);
    assert_eq!(r.unwrap_err(), ServiceError::Unauthorized);
}

#[test]
fn tokens_are_fresh_and_resolve_to_their_account() {
    let mut issuer = TokenIssuer::new();
    let t1 = issuer.issue(1);
    let t2 = issuer.issue(2);
    assert_eq!(t1.len(), 36);
    assert_eq!(t2.len(), 36);
    assert_ne!(t1, t2);
    assert_eq!(issuer.resolve(&t1).unwrap(), 1);
    assert_eq!(issuer.resolve(&t2).unwrap(), 2);
    assert_eq!(
        issuer.resolve(&"not-a-token".to_string()).unwrap_err(),
        ServiceError::Unauthorized
    );
}

#[test]
fn login_failures_issue_nothing() {
    let mut store = Store::new();
    let mut issuer = TokenIssuer::new();
    register_request(&mut store, &mut issuer, "a@example.com".to_string(), "secret123").unwrap();
    let bad = login_request(&store, &mut issuer, &"a@example.com".to_string(), "nope-nope");
    assert_eq!(bad.unwrap_err(), ServiceError::Unauthorized);
    let unknown = login_request(&store, &mut issuer, &"b@example.com".to_string(), "secret123");
    assert_eq!(unknown.unwrap_err(), ServiceError::NotFound);
}

#[test]
fn stored_hash_is_not_the_password() {
    let mut store = Store::new();
    let a = register(&mut store, "a@example.com".to_string(), "secret123").unwrap();
    assert_ne!(a.hashed_password, "secret123");
    assert_eq!(a.hashed_password.len(), 60);
    assert!(a.hashed_password.starts_with("$2b$12$"));
}

#[test]
fn health_and_messages() {
    assert_eq!(health_check(), "MindMosaic API is running!");
    assert_eq!(ServiceError::Conflict.message(), "User already exists");
    assert_eq!(ServiceError::Unauthorized.message(), "Invalid credentials");
    assert!(ServiceError::Conflict.is_rejection());
    assert!(!ServiceError::Internal.is_rejection());
}

#[test]
fn register_timestamps_the_account() {
    let mut store = Store::new();
    let before = chrono::Utc::now().timestamp_millis();
    let a = register(&mut store, "a@example.com".to_string(), "secret123").unwrap();
    let after = chrono::Utc::now().timestamp_millis();
    assert!(a.created_at >= before && a.created_at <= after);
}

#[test]
fn explicit_clock_assigns_clamped_timestamps() {
    let mut store = Store::new();
    let a = register_at(&mut store, "a@example.com".to_string(), "secret123", 5).unwrap();
    assert_eq!(a.created_at, 5);
    let first = create_entry_at(&mut store, a.id, "first".to_string(), None, 100).unwrap();
    assert_eq!(first.timestamp, 100);
    // the store clock is now at 100, so an earlier wall clock cannot move it back
    let second = create_entry_at(&mut store, a.id, "second".to_string(), None, 50).unwrap();
    assert_eq!(second.timestamp, 100);
    let third = create_entry_at(&mut store, a.id, "third".to_string(), None, 250).unwrap();
    assert_eq!(third.timestamp, 250);
    let listed = list_entries(&store, a.id);
    assert_eq!(listed.len(), 3);
    assert_eq!(listed[1].text, "second");
}
