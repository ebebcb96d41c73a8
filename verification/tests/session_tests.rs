use actix_session::{Session, SessionExt, SessionStatus};
use actix_web::test::TestRequest;
use api_util::error::APIError;
use api_util::session::{
    check_privilege, handle_session, kill_session, session_number, user_privilege_check,
    ERROR_SESSION_INSERT, PRIVILEGE_ADMIN, PRIVILEGE_MINIMAL, PRIVILEGE_STAFF, SESSION_PRIVILEGE,
    SESSION_TEAM_ID, SESSION_USER_ID,
};

fn session() -> Session {
    TestRequest::default().to_http_request().get_session()
}

fn logged_in(user: i32, privilege: i32) -> Session {
    let session = session();
    session.insert("user_id", user).unwrap();
    session.insert("user_privilege", privilege).unwrap();
    session
}

#[test]
fn constants_are_kept() {
    assert_eq!(SESSION_USER_ID, "user_id");
    assert_eq!(SESSION_PRIVILEGE, "user_privilege");
    assert_eq!(SESSION_TEAM_ID, "team_id");
    assert_eq!(ERROR_SESSION_INSERT, "session_setting_failed");
    assert_eq!((PRIVILEGE_MINIMAL, PRIVILEGE_STAFF, PRIVILEGE_ADMIN), (0, 2, 4));
}

#[test]
fn privilege_is_decided_on_both_values() {
    assert!(check_privilege(Some(7), Some(2), 2) == Ok((7, 2)));
    assert!(check_privilege(Some(7), Some(1), 2) == Err(APIError::Unauthorized));
    assert!(check_privilege(None, Some(4), 0) == Err(APIError::NotLogin));
    assert!(check_privilege(Some(7), None, 0) == Err(APIError::NotLogin));
    assert!(check_privilege(None, None, 0) == Err(APIError::NotLogin));
    assert!(check_privilege(Some(7), Some(-3), i32::MIN) == Ok((7, -3)));
}

#[test]
fn session_user_is_checked() {
    let session = logged_in(7, PRIVILEGE_STAFF);
    assert!(user_privilege_check(&session, PRIVILEGE_MINIMAL) == Ok((7, 2)));
    assert!(user_privilege_check(&session, PRIVILEGE_STAFF) == Ok((7, 2)));
    assert!(user_privilege_check(&session, PRIVILEGE_ADMIN) == Err(APIError::Unauthorized));
}

#[test]
fn session_without_user_is_not_logged_in() {
    assert!(user_privilege_check(&session(), i32::MIN) == Err(APIError::NotLogin));
    let session = session();
    session.insert("user_id", 7).unwrap();
    assert!(user_privilege_check(&session, 0) == Err(APIError::NotLogin));
}

#[test]
fn unreadable_value_counts_as_absent() {
    let session = logged_in(7, 4);
    session.insert("user_id", "seven").unwrap();
    assert_eq!(session_number(&session, "user_id"), None);
    assert!(user_privilege_check(&session, 0) == Err(APIError::NotLogin));
    session.insert("user_id", 1i64 << 40).unwrap();
    assert_eq!(session_number(&session, "user_id"), None);
    assert_eq!(session_number(&session, "user_privilege"), Some(4));
}

#[test]
fn invalid_session_is_emptied() {
    let mut session = logged_in(7, 4);
    kill_session(&mut session, &APIError::NotInTeam);
    assert!(user_privilege_check(&session, 0) == Ok((7, 4)));
    kill_session(&mut session, &APIError::InvalidSession);
    assert!(session.entries().is_empty());
    assert_eq!(session.status(), SessionStatus::Changed);
    assert!(user_privilege_check(&session, 0) == Err(APIError::NotLogin));
}

#[test]
fn renewed_session_stays_renewed_when_emptied() {
    let mut session = logged_in(7, 4);
    session.renew();
    kill_session(&mut session, &APIError::InvalidSession);
    assert!(session.entries().is_empty());
    assert_eq!(session.status(), SessionStatus::Renewed);
}

#[test]
fn purged_session_stays_purged() {
    let mut session = logged_in(7, 4);
    session.purge();
    kill_session(&mut session, &APIError::InvalidSession);
    assert_eq!(session.status(), SessionStatus::Purged);
}

#[test]
fn outcome_is_unpacked() {
    let mut session = logged_in(7, 4);
    assert_eq!(handle_session(&mut session, ("kept", false)), "kept");
    assert_eq!(session.entries().len(), 2);
    assert_eq!(handle_session(&mut session, ("gone", true)), "gone");
    assert!(session.entries().is_empty());
}

#[test]
fn only_integers_in_range_are_numbers() {
    let session = session();
    for n in [0, -1, 10, i32::MAX, i32::MIN] {
        session.insert("n", n).unwrap();
        assert_eq!(session.entries().get("n"), Some(&n.to_string()));
        assert_eq!(session_number(&session, "n"), Some(n));
    }
    session.insert("n", i32::MAX as i64 + 1).unwrap();
    assert_eq!(session_number(&session, "n"), None);
    session.insert("n", i32::MIN as i64 - 1).unwrap();
    assert_eq!(session_number(&session, "n"), None);
    session.insert("n", u64::MAX).unwrap();
    assert_eq!(session_number(&session, "n"), None);
    session.insert("n", 7.0f64).unwrap();
    assert_eq!(session_number(&session, "n"), None);
    session.insert("n", -0.0f64).unwrap();
    assert_eq!(session_number(&session, "n"), None);
    session.insert("n", Option::<i32>::None).unwrap();
    assert_eq!(session_number(&session, "n"), None);
    session.insert("n", vec![7]).unwrap();
    assert_eq!(session_number(&session, "n"), None);
    assert_eq!(session_number(&session, "m"), None);
}
