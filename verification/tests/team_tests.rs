use actix_session::{Session, SessionExt, SessionStatus};
use actix_web::test::TestRequest;
use api_util::error::APIError;
use api_util::store::{DbError, User};
use api_util::team::{begin_lookup, get_team_id, TeamLookup, TeamReply};
use api_util::text::Journal;

fn session() -> Session {
    TestRequest::default().to_http_request().get_session()
}

fn logged_in(user: i32, privilege: i32) -> Session {
    let session = session();
    session.insert("user_id", user).unwrap();
    session.insert("user_privilege", privilege).unwrap();
    session
}

fn missing() -> DbError {
    DbError { not_found: true, text: "Record not found".to_string() }
}

fn broken() -> DbError {
    DbError { not_found: false, text: "connection lost".to_string() }
}

fn run(
    session: &mut Session,
    need: i32,
    connected: Result<(), String>,
    user: Result<User, DbError>,
    confirmed: Result<bool, DbError>,
    journal: &mut Journal,
) -> Result<i32, APIError> {
    let lookup = get_team_id(session, need)
        .advance(TeamReply::Connected(connected), session, "here", journal)
        .advance(TeamReply::UserRow(user), session, "here", journal)
        .advance(TeamReply::Confirmed(confirmed), session, "here", journal);
    match lookup {
        TeamLookup::Done { outcome } => outcome,
        _ => panic!("the lookup has all its replies"),
    }
}

fn member(team: i32) -> Result<User, DbError> {
    Ok(User { id: 7, team: Some(team) })
}

#[test]
fn known_team_is_given_at_once() {
    let session = session();
    session.insert("team_id", 5).unwrap();
    assert!(matches!(get_team_id(&session, 4), TeamLookup::Done { outcome: Ok(5) }));
}

#[test]
fn unprivileged_lookup_is_refused_at_once() {
    assert!(matches!(
        get_team_id(&session(), 0),
        TeamLookup::Done { outcome: Err(APIError::NotLogin) }
    ));
    assert!(matches!(
        get_team_id(&logged_in(7, 0), 2),
        TeamLookup::Done { outcome: Err(APIError::Unauthorized) }
    ));
}

#[test]
fn questions_come_in_turn() {
    let mut session = logged_in(7, 0);
    let mut journal = Journal::new();
    let lookup = get_team_id(&session, 0);
    assert!(matches!(lookup, TeamLookup::Connect { user_id: 7 }));
    let lookup =
        lookup.advance(TeamReply::Confirmed(Ok(true)), &mut session, "here", &mut journal);
    assert!(matches!(lookup, TeamLookup::Connect { user_id: 7 }));
    let lookup =
        lookup.advance(TeamReply::Connected(Ok(())), &mut session, "here", &mut journal);
    assert!(matches!(lookup, TeamLookup::FetchUser { user_id: 7 }));
    let lookup =
        lookup.advance(TeamReply::UserRow(member(9)), &mut session, "here", &mut journal);
    assert!(matches!(lookup, TeamLookup::CheckConfirmed { team_id: 9 }));
    let lookup =
        lookup.advance(TeamReply::Confirmed(Ok(false)), &mut session, "here", &mut journal);
    assert!(matches!(lookup, TeamLookup::Done { outcome: Ok(9) }));
    assert!(journal.lines.is_empty());
}

#[test]
fn confirmed_team_is_remembered() {
    let mut session = logged_in(7, 0);
    let mut journal = Journal::new();
    let team = run(&mut session, 0, Ok(()), member(-9), Ok(true), &mut journal);
    assert!(team == Ok(-9));
    assert_eq!(session.entries().get("team_id"), Some(&"-9".to_string()));
    assert_eq!(session.entries().get("user_id"), Some(&"7".to_string()));
    assert_eq!(session.status(), SessionStatus::Changed);
    assert!(matches!(get_team_id(&session, 4), TeamLookup::Done { outcome: Ok(-9) }));
    assert!(journal.lines.is_empty());
}

#[test]
fn unconfirmed_team_is_not_remembered() {
    for confirmed in [Ok(false), Err(missing())] {
        let mut session = logged_in(7, 0);
        let mut journal = Journal::new();
        assert!(run(&mut session, 0, Ok(()), member(9), confirmed, &mut journal) == Ok(9));
        assert_eq!(session.entries().get("team_id"), None);
        assert!(matches!(get_team_id(&session, 0), TeamLookup::Connect { user_id: 7 }));
    }
}

#[test]
fn purged_session_remembers_nothing() {
    let mut session = logged_in(7, 0);
    let mut journal = Journal::new();
    let lookup = get_team_id(&session, 0);
    session.purge();
    let lookup =
        lookup.advance(TeamReply::Connected(Ok(())), &mut session, "here", &mut journal);
    let lookup =
        lookup.advance(TeamReply::UserRow(member(9)), &mut session, "here", &mut journal);
    let lookup =
        lookup.advance(TeamReply::Confirmed(Ok(true)), &mut session, "here", &mut journal);
    assert!(matches!(lookup, TeamLookup::Done { outcome: Ok(9) }));
    assert!(session.entries().is_empty());
    assert_eq!(session.status(), SessionStatus::Purged);
}

#[test]
fn missing_user_invalidates_the_session() {
    let mut session = logged_in(7, 0);
    let mut journal = Journal::new();
    let refused = run(&mut session, 0, Ok(()), Err(missing()), Ok(true), &mut journal);
    assert!(refused == Err(APIError::InvalidSession));
    assert!(session.entries().is_empty());
    assert!(journal.lines.is_empty());
    assert!(matches!(
        get_team_id(&session, 0),
        TeamLookup::Done { outcome: Err(APIError::NotLogin) }
    ));
}

#[test]
fn user_without_team_is_refused() {
    let mut session = logged_in(7, 0);
    let mut journal = Journal::new();
    let user = Ok(User { id: 7, team: None });
    let refused = run(&mut session, 0, Ok(()), user, Ok(true), &mut journal);
    assert!(refused == Err(APIError::NotInTeam));
    assert_eq!(session.entries().len(), 2);
}

#[test]
fn failed_connection_is_located_and_logged() {
    let mut session = logged_in(7, 0);
    let mut journal = Journal::new();
    let failure = Err("timeout".to_string());
    match run(&mut session, 0, failure, member(9), Ok(true), &mut journal) {
        Err(APIError::ServerError { location, msg, refnum }) => {
            assert_eq!((location, msg), ("here", "db_connction_failed"));
            let refnum = uuid::Uuid::from_u128(refnum.number);
            assert_eq!(
                journal.lines,
                vec![
                    format!("Error [{}]: timeout", refnum),
                    format!("Server error at here, ref[{}]: db_connction_failed", refnum),
                ]
            );
        }
        _ => panic!("a server error was expected"),
    }
    assert_eq!(session.entries().len(), 2);
}

#[test]
fn failed_query_is_logged_unlocated() {
    for (user, confirmed) in [(Err(broken()), Ok(true)), (member(9), Err(broken()))] {
        let mut session = logged_in(7, 0);
        let mut journal = Journal::new();
        match run(&mut session, 0, Ok(()), user, confirmed, &mut journal) {
            Err(APIError::ServerError { location, msg, .. }) => {
                assert_eq!((location, msg), ("[unknown]", "database_unknown"));
            }
            _ => panic!("a server error was expected"),
        }
        assert_eq!(journal.lines.len(), 1);
        assert!(journal.lines[0].ends_with("]: connection lost"));
        assert_eq!(session.entries().len(), 2);
    }
}

#[test]
fn lookup_begins_where_it_can() {
    assert!(matches!(
        begin_lookup(Some(3), Err(APIError::NotLogin)),
        TeamLookup::Done { outcome: Ok(3) }
    ));
    assert!(matches!(
        begin_lookup(None, Err(APIError::Unauthorized)),
        TeamLookup::Done { outcome: Err(APIError::Unauthorized) }
    ));
    assert!(matches!(begin_lookup(None, Ok((7, 0))), TeamLookup::Connect { user_id: 7 }));
}
