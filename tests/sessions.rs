use clinic::error::{CoreError, Entity};
use clinic::session::{check_password, get_username_from_token, hash_password, Role, SessionRegistry};

const ALICE_DIGEST: &str = "a4d4a6d844796fb2f887e5f8debcf4c8db438fa4968d453623bfe387961b53a0307a25c1f581a917c50cdd88247b86c9ddee6aa3ea71fcb3ad60935b7c72a8a8";

#[test]
fn issue_then_resolve_within_an_hour() {
    let mut reg = SessionRegistry::new();
    let t = reg.issue("alice", Role::Patient, 1000);
    assert_eq!(t, ALICE_DIGEST);
    assert_eq!(reg.resolve(&t, Role::Patient, 1000), Ok("alice".to_string()));
    assert_eq!(reg.resolve(&t, Role::Patient, 4600), Ok("alice".to_string()));
    assert_eq!(reg.resolve(&t, Role::Patient, 4601), Err(CoreError::SessionExpired));
    assert_eq!(reg.resolve(&t, Role::Doctor, 1000), Err(CoreError::Unauthenticated));
    assert_eq!(reg.resolve("nope", Role::Patient, 1000), Err(CoreError::Unauthenticated));
}

#[test]
fn latest_login_decides() {
    let mut reg = SessionRegistry::new();
    let t = reg.issue("alice", Role::Patient, 0);
    assert_eq!(reg.resolve(&t, Role::Patient, 5000), Err(CoreError::SessionExpired));
    let t2 = reg.issue("alice", Role::Patient, 4000);
    assert_eq!(t, t2);
    assert_eq!(reg.rows.len(), 2);
    assert_eq!(reg.resolve(&t, Role::Patient, 5000), Ok("alice".to_string()));
}

#[test]
fn revoke_twice_is_a_no_op() {
    let mut reg = SessionRegistry::new();
    let t = reg.issue("alice", Role::Patient, 0);
    reg.issue("alice", Role::Patient, 10);
    let other = reg.issue("bob", Role::Patient, 20);
    reg.issue("alice", Role::Doctor, 30);
    reg.revoke(&t, Role::Patient);
    assert_eq!(reg.rows.len(), 2);
    assert_eq!(reg.resolve(&t, Role::Patient, 40), Err(CoreError::Unauthenticated));
    reg.revoke(&t, Role::Patient);
    assert_eq!(reg.rows.len(), 2);
    assert_eq!(reg.resolve(&other, Role::Patient, 40), Ok("bob".to_string()));
    assert_eq!(reg.resolve(&t, Role::Doctor, 40), Ok("alice".to_string()));
}

#[test]
fn passwords_and_login() {
    let stored = hash_password("alice");
    assert_eq!(stored, ALICE_DIGEST);
    assert_eq!(check_password(&stored, "alice"), Ok(()));
    assert_eq!(check_password(&stored, "Alice"), Err(CoreError::WrongPassword));
    let mut reg = SessionRegistry::new();
    assert_eq!(
        reg.login("d1", Role::Doctor, None, false, "pw", 0),
        Err(CoreError::NotFound(Entity::Doctor))
    );
    let h = hash_password("pw");
    assert_eq!(reg.login("d1", Role::Doctor, Some(&h), true, "pw", 0), Err(CoreError::WrongPassword));
    assert_eq!(reg.login("d1", Role::Doctor, Some(&h), false, "px", 0), Err(CoreError::WrongPassword));
    assert!(reg.rows.is_empty());
    let t = reg.login("d1", Role::Doctor, Some(&h), false, "pw", 0).unwrap();
    assert_eq!(reg.resolve(&t, Role::Doctor, 10), Ok("d1".to_string()));
}

#[test]
fn token_lookup_uses_the_clock() {
    let mut reg = SessionRegistry::new();
    assert_eq!(get_username_from_token("x", &reg), Err(CoreError::Unauthenticated));
    let t = reg.issue("alice", Role::Patient, 0);
    assert_eq!(get_username_from_token(&t, &reg), Err(CoreError::SessionExpired));
}

#[test]
fn latest_issue_time_decides_not_insertion_order() {
    let mut reg = SessionRegistry::new();
    let t = reg.issue("alice", Role::Patient, 5000);
    reg.issue("alice", Role::Patient, 100);
    assert_eq!(reg.resolve(&t, Role::Patient, 5100), Ok("alice".to_string()));
    assert_eq!(reg.resolve(&t, Role::Patient, 8601), Err(CoreError::SessionExpired));
}

#[test]
fn login_then_resolve_the_returned_token() {
    let mut reg = SessionRegistry::new();
    let h = hash_password("pw");
    let t = reg.login("root", Role::Admin, Some(&h), false, "pw", 100).unwrap();
    assert_eq!(reg.rows.last().unwrap().token, t);
    assert_eq!(reg.resolve(&t, Role::Admin, 3700), Ok("root".to_string()));
    assert_eq!(reg.resolve(&t, Role::Admin, 3701), Err(CoreError::SessionExpired));
}
