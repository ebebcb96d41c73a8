use api_util::clock::Timestamp;
use api_util::error::APIError;
use api_util::penalty::WaPenalty;
use api_util::store::{
    check_confirmed_from_team_id, count_passed, fetch_balance, fetch_team_from_id,
    fetch_user_from_id, fetch_wa_cnt, find_min_active_id, get_email_by_user, get_oracle_by_id,
    get_oracle_by_id_and_team, insert_or_update_email, insert_or_update_wa_cnt,
    update_active_oracle_and_return_team, DbError, OraclePage, OracleRecord, OracleUpdate,
    OracleUpdateResult, User, WaCntKey, WaCntRow,
};
use api_util::text::Journal;

fn missing() -> DbError {
    DbError { not_found: true, text: "Record not found".to_string() }
}

fn broken() -> DbError {
    DbError { not_found: false, text: "connection lost".to_string() }
}

fn is_database_error(error: &APIError, journal: &Journal) -> bool {
    match error {
        APIError::ServerError { location, msg, refnum } => {
            *location == "[unknown]"
                && *msg == "database_unknown"
                && journal.lines.last()
                    == Some(&format!(
                        "Error [{}]: connection lost",
                        uuid::Uuid::from_u128(refnum.number)
                    ))
        }
        _ => false,
    }
}

fn oracle(id: i32) -> OracleRecord {
    OracleRecord {
        id,
        puzzle: 3,
        team: 4,
        active: true,
        cost: 50,
        refund: 0,
        query: "why".to_string(),
        response: String::new(),
    }
}

#[test]
fn rows_are_given() {
    let mut journal = Journal::new();
    let user = User { id: 1, team: Some(2) };
    let team = (2i32, 9i64, true);
    assert!(fetch_user_from_id(Ok(user), &mut journal) == Ok(Some(user)));
    assert!(fetch_team_from_id(Ok(team), &mut journal) == Ok(Some(team)));
    assert!(check_confirmed_from_team_id(Ok(false), &mut journal) == Ok(Some(false)));
    assert!(journal.lines.is_empty());
}

#[test]
fn missing_rows_are_no_errors() {
    let mut journal = Journal::new();
    assert!(fetch_user_from_id::<i32>(Err(missing()), &mut journal) == Ok(None));
    assert!(fetch_team_from_id::<i32>(Err(missing()), &mut journal) == Ok(None));
    assert!(check_confirmed_from_team_id(Err(missing()), &mut journal) == Ok(None));
    assert!(fetch_balance(Err(missing()), 1, &mut journal) == Ok(None));
    assert!(fetch_wa_cnt(Err(missing()), &mut journal) == Ok(None));
    assert!(journal.lines.is_empty());
}

#[test]
fn failures_are_server_errors() {
    let mut journal = Journal::new();
    let error = fetch_user_from_id::<i32>(Err(broken()), &mut journal).unwrap_err();
    assert!(is_database_error(&error, &journal));
    let error = fetch_team_from_id::<i32>(Err(broken()), &mut journal).unwrap_err();
    assert!(is_database_error(&error, &journal));
    let error = check_confirmed_from_team_id(Err(broken()), &mut journal).unwrap_err();
    assert!(is_database_error(&error, &journal));
    let error = fetch_balance(Err(broken()), 1, &mut journal).unwrap_err();
    assert!(is_database_error(&error, &journal));
    let error = fetch_wa_cnt(Err(broken()), &mut journal).unwrap_err();
    assert!(is_database_error(&error, &journal));
    let error = count_passed(Err(broken()), &mut journal).unwrap_err();
    assert!(is_database_error(&error, &journal));
    let error = insert_or_update_wa_cnt(Err(broken()), &mut journal).unwrap_err();
    assert!(is_database_error(&error, &journal));
    let error = insert_or_update_email(Err(broken()), &mut journal).unwrap_err();
    assert!(is_database_error(&error, &journal));
    assert_eq!(journal.lines.len(), 8);
}

#[test]
fn balance_includes_the_allowance() {
    let mut journal = Journal::new();
    assert!(fetch_balance(Ok(100), 25, &mut journal) == Ok(Some(125)));
    assert!(fetch_balance(Ok(-100), 25, &mut journal) == Ok(Some(-75)));
}

#[test]
fn statements_that_succeed_log_nothing() {
    let mut journal = Journal::new();
    assert!(count_passed(Ok(3), &mut journal) == Ok(3));
    assert!(insert_or_update_wa_cnt(Ok(1), &mut journal) == Ok(()));
    assert!(insert_or_update_email(Ok(0), &mut journal) == Ok(()));
    assert!(journal.lines.is_empty());
    assert!(count_passed(Err(missing()), &mut journal).is_err());
    assert!(journal.lines[0].ends_with("]: Record not found"));
}

#[test]
fn stored_penalty_is_read_back() {
    let mut journal = Journal::new();
    let data = WaPenalty {
        time_penalty_until: Timestamp { secs: 77, nanos: 8 },
        token_penalty_level: 2,
        time_penalty_level: 5,
    };
    let row = WaCntRow::new(3, 4, data);
    assert_eq!(row.key, WaCntKey { team: 4, puzzle: 3 });
    assert_eq!(row.key, WaCntKey::new(3, 4));
    let columns = (row.time_penalty_until, row.token_penalty_level, row.time_penalty_level);
    assert!(fetch_wa_cnt(Ok(columns), &mut journal) == Ok(Some(data)));
}

#[test]
fn optional_rows_keep_failures() {
    assert!(matches!(get_email_by_user(Ok("a@b".to_string())), Ok(Some(text)) if text == "a@b"));
    assert!(matches!(get_email_by_user(Err(missing())), Ok(None)));
    assert!(matches!(get_email_by_user(Err(broken())), Err(e) if e.text == "connection lost"));
    assert!(matches!(find_min_active_id(Ok(5)), Ok(Some(5))));
    assert!(matches!(find_min_active_id(Err(missing())), Ok(None)));
    assert!(matches!(find_min_active_id(Err(broken())), Err(e) if !e.not_found));
    assert!(matches!(get_oracle_by_id(Ok(oracle(8))), Ok(Some(row)) if row.id == 8));
    assert!(matches!(get_oracle_by_id(Err(missing())), Ok(None)));
    assert!(matches!(get_oracle_by_id_and_team(Ok(oracle(9))), Ok(Some(row)) if row.id == 9));
    assert!(matches!(get_oracle_by_id_and_team(Err(broken())), Err(_)));
}

#[test]
fn page_limits_are_cast() {
    assert_eq!(OraclePage::new(6, 20), OraclePage { first_id: 6, limit: 20 });
    assert_eq!(OraclePage::new(6, 0).limit, 0);
    assert_eq!(OraclePage::new(6, i64::MAX as usize).limit, i64::MAX);
    assert_eq!(OraclePage::new(6, i64::MAX as usize + 1).limit, i64::MIN);
    assert_eq!(OraclePage::new(6, usize::MAX).limit, usize::MAX as i64);
}

#[test]
fn oracle_is_answered_once() {
    let update = OracleUpdate::new(5, 30, "because".to_string());
    assert!(update.sql.contains("refund = LEAST($1, cost)"));
    assert!(update.sql.contains("WHERE id = $3 AND active = true"));
    assert!(update.sql.contains("RETURNING team, refund;"));
    assert_eq!((update.refund_value, update.id), (30, 5));
    assert_eq!(update.response_value, "because");
    let rows = vec![
        OracleUpdateResult { team: 4, refund: 30 },
        OracleUpdateResult { team: 5, refund: 31 },
    ];
    assert!(matches!(update_active_oracle_and_return_team(Ok(rows)), Ok(Some((4, 30)))));
    assert!(matches!(update_active_oracle_and_return_team(Ok(vec![])), Ok(None)));
    assert!(matches!(
        update_active_oracle_and_return_team(Err(missing())),
        Err(e) if e.not_found
    ));
}
