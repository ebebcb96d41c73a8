//! What is asked of the database, and what its replies mean to a request.

use crate::clock::Timestamp;
use crate::error::{new_unlocated_server_error, APIError};
use crate::penalty::WaPenalty;
use crate::text;
use crate::text::Journal;
use vstd::prelude::*;

verus! {

/// The message of a server error for a database that cannot be reached.
pub const ERROR_DB_CONNECTION: &'static str = "db_connction_failed";

/// The message of a server error for a database that failed.
pub const ERROR_DB_UNKNOWN: &'static str = "database_unknown";

/// The number of a team.
pub type TeamId = i32;

/// The number of a puzzle.
pub type PuzzleId = i32;

/// Why the database gave no reply: there was no such row, or it failed.
pub struct DbError {
    pub not_found: bool,
    pub text: String,
}

/// What the row of a user says about the user's team.
#[derive(Clone, Copy, Debug, PartialEq, Eq, Structural)]
pub struct User {
    pub id: i32,
    pub team: Option<i32>,
}

/// What finds the row that holds the penalty of a team on a puzzle.
#[derive(Clone, Copy, Debug, PartialEq, Eq, Structural)]
pub struct WaCntKey {
    pub team: TeamId,
    pub puzzle: PuzzleId,
}

/// The row that holds the penalty of a team on a puzzle. There is one for each
/// key.
#[derive(Clone, Copy, Debug, PartialEq, Eq, Structural)]
pub struct WaCntRow {
    pub key: WaCntKey,
    pub token_penalty_level: i32,
    pub time_penalty_level: i32,
    pub time_penalty_until: Timestamp,
}

/// An oracle: a question that a team paid for, and its answer.
pub struct OracleRecord {
    pub id: i32,
    pub puzzle: PuzzleId,
    pub team: TeamId,
    pub active: bool,
    pub cost: i64,
    pub refund: i64,
    pub query: String,
    pub response: String,
}

/// A page of oracles: those from a number on, in order, up to a limit as the
/// database takes it.
#[derive(Clone, Copy, Debug, PartialEq, Eq, Structural)]
pub struct OraclePage {
    pub first_id: i32,
    pub limit: i64,
}

/// The team and the refund of an oracle that was answered.
#[derive(Clone, Copy, Debug, PartialEq, Eq, Structural)]
pub struct OracleUpdateResult {
    pub team: i32,
    pub refund: i64,
}

/// A statement that answers an oracle, with the values of its parameters in
/// order.
pub struct OracleUpdate {
    pub sql: &'static str,
    pub refund_value: i64,
    pub response_value: String,
    pub id: i32,
}

/// Answers an oracle that is still active: refunds at most what it cost, keeps
/// the response, and closes it.
pub const ORACLE_UPDATE_SQL: &'static str = "
        UPDATE oracle
        SET 
            refund = LEAST($1, cost), 
            response = $2,    
            active = false                
        WHERE id = $3 AND active = true
        RETURNING team, refund;
    ";

/// What the reply for one row means: the row, no row, or a server error under
/// whose reference number the failure was logged.
pub open spec fn row_reply<T>(
    outcome: Result<T, DbError>,
    r: Result<Option<T>, APIError>,
    before: Seq<Seq<char>>,
    after: Seq<Seq<char>>,
) -> bool {
    match outcome {
        Ok(row) => r == Ok::<Option<T>, APIError>(Some(row)) && after == before,
        Err(e) => if e.not_found {
            r == Ok::<Option<T>, APIError>(None) && after == before
        } else {
            r is Err && crate::error::unlocated_server_error(
                r->Err_0,
                e.text@,
                ERROR_DB_UNKNOWN,
                before,
                after,
            )
        },
    }
}

/// What the reply to a statement means: its value, or a server error under
/// whose reference number the failure was logged.
pub open spec fn statement_reply<T>(
    outcome: Result<T, DbError>,
    r: Result<T, APIError>,
    before: Seq<Seq<char>>,
    after: Seq<Seq<char>>,
) -> bool {
    match outcome {
        Ok(value) => r == Ok::<T, APIError>(value) && after == before,
        Err(e) => r is Err && crate::error::unlocated_server_error(
            r->Err_0,
            e.text@,
            ERROR_DB_UNKNOWN,
            before,
            after,
        ),
    }
}

/// A reply in which a missing row is no failure.
pub open spec fn optional_reply<T>(outcome: Result<T, DbError>) -> Result<Option<T>, DbError> {
    match outcome {
        Ok(row) => Ok(Some(row)),
        Err(e) => if e.not_found {
            Ok(None)
        } else {
            Err(e)
        },
    }
}

fn optional<T>(outcome: Result<T, DbError>) -> (r: Result<Option<T>, DbError>)
    ensures
        r == optional_reply(outcome),
{
    match outcome {
        Ok(row) => Ok(Some(row)),
        Err(e) => if e.not_found {
            Ok(None)
        } else {
            Err(e)
        },
    }
}

fn executed<T>(outcome: Result<T, DbError>, journal: &mut Journal) -> (r: Result<T, APIError>)
    ensures
        statement_reply(outcome, r, old(journal)@, final(journal)@),
        r is Err ==> r->Err_0->refnum.drawn(),
{
    match outcome {
        Ok(value) => Ok(value),
        Err(e) => Err(new_unlocated_server_error(e.text.as_str(), ERROR_DB_UNKNOWN, journal)),
    }
}

fn fetched<T>(outcome: Result<T, DbError>, journal: &mut Journal) -> (r: Result<
    Option<T>,
    APIError,
>)
    ensures
        row_reply(outcome, r, old(journal)@, final(journal)@),
        r is Err ==> r->Err_0->refnum.drawn(),
{
    match optional(outcome) {
        Ok(row) => Ok(row),
        Err(e) => Err(new_unlocated_server_error(e.text.as_str(), ERROR_DB_UNKNOWN, journal)),
    }
}

/// The user of a number, from the reply for that row.
pub fn fetch_user_from_id<U>(outcome: Result<U, DbError>, journal: &mut Journal) -> (r: Result<
    Option<U>,
    APIError,
>)
    ensures
        row_reply(outcome, r, old(journal)@, final(journal)@),
        r is Err ==> r->Err_0->refnum.drawn(),
{
    fetched(outcome, journal)
}

/// The team of a number, from the reply for that row.
pub fn fetch_team_from_id<T>(outcome: Result<T, DbError>, journal: &mut Journal) -> (r: Result<
    Option<T>,
    APIError,
>)
    ensures
        row_reply(outcome, r, old(journal)@, final(journal)@),
        r is Err ==> r->Err_0->refnum.drawn(),
{
    fetched(outcome, journal)
}

/// Whether a team is confirmed, from the reply for that column of its row.
pub fn check_confirmed_from_team_id(
    outcome: Result<bool, DbError>,
    journal: &mut Journal,
) -> (r: Result<Option<bool>, APIError>)
    ensures
        row_reply(outcome, r, old(journal)@, final(journal)@),
        r is Err ==> r->Err_0->refnum.drawn(),
{
    fetched(outcome, journal)
}

/// The tokens that a team can spend: those of its row, and the allowance that
/// time has given every team.
pub fn fetch_balance(
    outcome: Result<i64, DbError>,
    time_allowance: i64,
    journal: &mut Journal,
) -> (r: Result<Option<i64>, APIError>)
    requires
        outcome matches Ok(tokens) ==> i64::MIN <= tokens + time_allowance <= i64::MAX,
    ensures
        match outcome {
            Ok(tokens) => r == Ok::<Option<i64>, APIError>(Some((tokens + time_allowance) as i64))
                && final(journal)@ == old(journal)@,
            Err(_) => row_reply(outcome, r, old(journal)@, final(journal)@),
        },
        r is Err ==> r->Err_0->refnum.drawn(),
{
    match fetched(outcome, journal) {
        Ok(Some(tokens)) => Ok(Some(tokens + time_allowance)),
        Ok(None) => Ok(None),
        Err(e) => Err(e),
    }
}

impl WaCntKey {
    /// What finds the row of a team on a puzzle.
    pub fn new(puzzle_id: PuzzleId, team_id: TeamId) -> (r: Self)
        ensures
            r == (WaCntKey { team: team_id, puzzle: puzzle_id }),
    {
        WaCntKey { team: team_id, puzzle: puzzle_id }
    }
}

impl WaCntRow {
    /// The row that holds a penalty of a team on a puzzle.
    pub fn new(puzzle_id: PuzzleId, team_id: TeamId, data: WaPenalty) -> (r: Self)
        ensures
            r == WaCntRow::holding(puzzle_id, team_id, data),
    {
        WaCntRow {
            key: WaCntKey::new(puzzle_id, team_id),
            token_penalty_level: data.token_penalty_level,
            time_penalty_level: data.time_penalty_level,
            time_penalty_until: data.time_penalty_until,
        }
    }

    /// The row that holds a penalty of a team on a puzzle.
    pub open spec fn holding(puzzle_id: PuzzleId, team_id: TeamId, data: WaPenalty) -> WaCntRow {
        WaCntRow {
            key: WaCntKey { team: team_id, puzzle: puzzle_id },
            token_penalty_level: data.token_penalty_level,
            time_penalty_level: data.time_penalty_level,
            time_penalty_until: data.time_penalty_until,
        }
    }

    /// The columns that are read back: the end of the pause, the level of
    /// tokens and the level of pauses.
    pub open spec fn columns(self) -> (Timestamp, i32, i32) {
        (self.time_penalty_until, self.token_penalty_level, self.time_penalty_level)
    }
}

/// The penalty that the columns of a row hold.
pub open spec fn penalty_of(columns: (Timestamp, i32, i32)) -> WaPenalty {
    WaPenalty {
        time_penalty_until: columns.0,
        token_penalty_level: columns.1,
        time_penalty_level: columns.2,
    }
}

/// What the reply for the penalty of a team on a puzzle means.
pub open spec fn penalty_reply(
    outcome: Result<(Timestamp, i32, i32), DbError>,
    r: Result<Option<WaPenalty>, APIError>,
    before: Seq<Seq<char>>,
    after: Seq<Seq<char>>,
) -> bool {
    match outcome {
        Ok(columns) => row_reply(
            Ok::<WaPenalty, DbError>(penalty_of(columns)),
            r,
            before,
            after,
        ),
        Err(e) => row_reply(Err::<WaPenalty, DbError>(e), r, before, after),
    }
}

/// The penalty of a team on a puzzle, from the reply for the columns of its
/// row: the end of the pause, the level of tokens and the level of pauses.
pub fn fetch_wa_cnt(
    outcome: Result<(Timestamp, i32, i32), DbError>,
    journal: &mut Journal,
) -> (r: Result<Option<WaPenalty>, APIError>)
    ensures
        penalty_reply(outcome, r, old(journal)@, final(journal)@),
        r is Err ==> r->Err_0->refnum.drawn(),
{
    match fetched(outcome, journal) {
        Ok(Some((time_penalty_until, token_penalty_level, time_penalty_level))) => Ok(
            Some(WaPenalty { time_penalty_until, token_penalty_level, time_penalty_level }),
        ),
        Ok(None) => Ok(None),
        Err(e) => Err(e),
    }
}

/// The number that the database replied to a count of a team's submissions.
pub fn count_passed(outcome: Result<usize, DbError>, journal: &mut Journal) -> (r: Result<
    usize,
    APIError,
>)
    ensures
        statement_reply(outcome, r, old(journal)@, final(journal)@),
        r is Err ==> r->Err_0->refnum.drawn(),
{
    executed(outcome, journal)
}

/// What a statement that only has to succeed means.
pub open spec fn done_reply(
    outcome: Result<usize, DbError>,
    r: Result<(), APIError>,
    before: Seq<Seq<char>>,
    after: Seq<Seq<char>>,
) -> bool {
    match outcome {
        Ok(_) => r == Ok::<(), APIError>(()) && after == before,
        Err(e) => statement_reply(Err::<(), DbError>(e), r, before, after),
    }
}

/// Whether the penalty of a team on a puzzle was stored, from the reply to the
/// statement that inserts its row or, where there is one, replaces it.
pub fn insert_or_update_wa_cnt(
    outcome: Result<usize, DbError>,
    journal: &mut Journal,
) -> (r: Result<(), APIError>)
    ensures
        done_reply(outcome, r, old(journal)@, final(journal)@),
        r is Err ==> r->Err_0->refnum.drawn(),
{
    match executed(outcome, journal) {
        Ok(_) => Ok(()),
        Err(e) => Err(e),
    }
}

/// Whether the address of a user was stored, from the reply to the statement
/// that inserts its row or, where there is one, replaces it.
pub fn insert_or_update_email(outcome: Result<usize, DbError>, journal: &mut Journal) -> (r: Result<
    (),
    APIError,
>)
    ensures
        done_reply(outcome, r, old(journal)@, final(journal)@),
        r is Err ==> r->Err_0->refnum.drawn(),
{
    match executed(outcome, journal) {
        Ok(_) => Ok(()),
        Err(e) => Err(e),
    }
}

/// The address of a user, where one is stored.
pub fn get_email_by_user(outcome: Result<String, DbError>) -> (r: Result<Option<String>, DbError>)
    ensures
        r == optional_reply(outcome),
{
    optional(outcome)
}

/// The first active oracle, where there is one, from the reply for the smallest
/// number of an active oracle.
pub fn find_min_active_id(outcome: Result<i32, DbError>) -> (r: Result<Option<i32>, DbError>)
    ensures
        r == optional_reply(outcome),
{
    optional(outcome)
}

/// An oracle, where there is one of that number.
pub fn get_oracle_by_id(outcome: Result<OracleRecord, DbError>) -> (r: Result<
    Option<OracleRecord>,
    DbError,
>)
    ensures
        r == optional_reply(outcome),
{
    optional(outcome)
}

/// An oracle of a team, where there is one of that number.
pub fn get_oracle_by_id_and_team(outcome: Result<OracleRecord, DbError>) -> (r: Result<
    Option<OracleRecord>,
    DbError,
>)
    ensures
        r == optional_reply(outcome),
{
    optional(outcome)
}

impl OraclePage {
    /// The page of at most `limit` oracles from a number on. A limit beyond the
    /// range of the database turns negative.
    pub fn new(oracle_id: i32, limit: usize) -> (r: Self)
        ensures
            r.first_id == oracle_id,
            limit <= i64::MAX ==> r.limit == limit,
            limit > i64::MAX ==> r.limit == limit - 0x1_0000_0000_0000_0000,
    {
        let wide: u64 = limit as u64;
        let limit: i64 = if wide <= i64::MAX as u64 {
            wide as i64
        } else {
            -((u64::MAX - wide) as i64) - 1
        };
        OraclePage { first_id: oracle_id, limit }
    }
}

impl OracleUpdate {
    /// The statement that answers an oracle.
    pub fn new(id: i32, refund_value: i64, response_value: String) -> (r: Self)
        ensures
            r.sql == ORACLE_UPDATE_SQL,
            r.sql@ == "
        UPDATE oracle
        SET 
            refund = LEAST($1, cost), 
            response = $2,    
            active = false                
        WHERE id = $3 AND active = true
        RETURNING team, refund;
    "@,
            r.refund_value == refund_value,
            r.response_value == response_value,
            r.id == id,
    {
        OracleUpdate { sql: ORACLE_UPDATE_SQL, refund_value, response_value, id }
    }
}

/// The team of the oracle that was answered and what it was refunded, from the
/// reply to the statement that answers it. There is none where the oracle was
/// not active.
pub fn update_active_oracle_and_return_team(
    outcome: Result<Vec<OracleUpdateResult>, DbError>,
) -> (r: Result<Option<(i32, i64)>, DbError>)
    ensures
        match outcome {
            Ok(rows) => r == Ok::<Option<(i32, i64)>, DbError>(
                if rows@.len() == 0 {
                    None
                } else {
                    Some((rows@[0].team, rows@[0].refund))
                },
            ),
            Err(e) => r == Err::<Option<(i32, i64)>, DbError>(e),
        },
{
    match outcome {
        Ok(rows) => if rows.len() == 0 {
            Ok(None)
        } else {
            Ok(Some((rows[0].team, rows[0].refund)))
        },
        Err(e) => Err(e),
    }
}

/// Only a failure of the database is an error: a reply for a row is an error
/// exactly where the database failed, and then it is answered as internal and
/// adds one line to the log. Nothing is logged otherwise.
pub proof fn law_only_failures_are_errors<T>(
    outcome: Result<T, DbError>,
    r: Result<Option<T>, APIError>,
    before: Seq<Seq<char>>,
    after: Seq<Seq<char>>,
)
    requires
        row_reply(outcome, r, before, after),
    ensures
        r is Err <==> outcome is Err && !outcome->Err_0.not_found,
        r is Err ==> r->Err_0.status() == crate::error::STATUS_INTERNAL_SERVER_ERROR,
        after.len() == before.len() + (if r is Err {
            1int
        } else {
            0int
        }),
        r == Ok::<Option<T>, APIError>(None) <==> outcome is Err && outcome->Err_0.not_found,
{
}

/// Every failure of a statement is an error: it is answered as internal and
/// adds one line to the log. Nothing is logged otherwise.
pub proof fn law_failed_statements_are_errors<T>(
    outcome: Result<T, DbError>,
    r: Result<T, APIError>,
    before: Seq<Seq<char>>,
    after: Seq<Seq<char>>,
)
    requires
        statement_reply(outcome, r, before, after),
    ensures
        r is Err <==> outcome is Err,
        r is Err ==> r->Err_0.status() == crate::error::STATUS_INTERNAL_SERVER_ERROR,
        after.len() == before.len() + (if r is Err {
            1int
        } else {
            0int
        }),
{
}

/// A row that was found is given as it is, a row that was not is given as none,
/// and neither is logged. A failure is a server error at an unknown location, and
/// its text stands in the log under its reference number.
pub proof fn law_row_is_given<T>(
    row: T,
    e: DbError,
    r: Result<Option<T>, APIError>,
    before: Seq<Seq<char>>,
    after: Seq<Seq<char>>,
)
    ensures
        row_reply(Ok::<T, DbError>(row), r, before, after) ==> r == Ok::<Option<T>, APIError>(
            Some(row),
        ) && after == before,
        row_reply(Err::<T, DbError>(e), r, before, after) && e.not_found ==> r == Ok::<
            Option<T>,
            APIError,
        >(None) && after == before,
        row_reply(Err::<T, DbError>(e), r, before, after) && !e.not_found ==> (r matches Err(
            APIError::ServerError { location, msg, refnum },
        ) && {
            &&& location@ == "[unknown]"@
            &&& msg@ == "database_unknown"@
            &&& after == before.push(
                "Error ["@ + text::hyphenated(refnum.number) + "]: "@ + e.text@,
            )
        }),
{
}

/// The value of a statement is given as it is and nothing is logged. A failure,
/// also one for want of a row, is a server error at an unknown location, and its
/// text stands in the log under its reference number.
pub proof fn law_statement_value_is_given<T>(
    value: T,
    e: DbError,
    r: Result<T, APIError>,
    before: Seq<Seq<char>>,
    after: Seq<Seq<char>>,
)
    ensures
        statement_reply(Ok::<T, DbError>(value), r, before, after) ==> r == Ok::<T, APIError>(
            value,
        ) && after == before,
        statement_reply(Err::<T, DbError>(e), r, before, after) ==> (r matches Err(
            APIError::ServerError { location, msg, refnum },
        ) && {
            &&& location@ == "[unknown]"@
            &&& msg@ == "database_unknown"@
            &&& after == before.push(
                "Error ["@ + text::hyphenated(refnum.number) + "]: "@ + e.text@,
            )
        }),
{
}

/// A statement that only has to succeed gives nothing and logs nothing, however
/// many rows it changed. A failure, also one for want of a row, is a server error
/// at an unknown location, and its text stands in the log under its reference
/// number.
pub proof fn law_done_statement_is_silent(
    rows: usize,
    e: DbError,
    r: Result<(), APIError>,
    before: Seq<Seq<char>>,
    after: Seq<Seq<char>>,
)
    ensures
        done_reply(Ok::<usize, DbError>(rows), r, before, after) ==> r == Ok::<(), APIError>(())
            && after == before,
        done_reply(Err::<usize, DbError>(e), r, before, after) ==> (r matches Err(
            APIError::ServerError { location, msg, refnum },
        ) && {
            &&& location@ == "[unknown]"@
            &&& msg@ == "database_unknown"@
            &&& after == before.push(
                "Error ["@ + text::hyphenated(refnum.number) + "]: "@ + e.text@,
            )
        }),
{
}

/// A missing row is no failure, and no other reply is changed.
pub proof fn law_only_missing_rows_are_optional<T>(row: T, e: DbError)
    ensures
        optional_reply(Ok::<T, DbError>(row)) == Ok::<Option<T>, DbError>(Some(row)),
        e.not_found ==> optional_reply(Err::<T, DbError>(e)) == Ok::<Option<T>, DbError>(None),
        !e.not_found ==> optional_reply(Err::<T, DbError>(e)) == Err::<Option<T>, DbError>(e),
{
}

/// The first column of a penalty is the end of the pause, the second the level of
/// tokens and the third the level of pauses. Where there is no row there is no
/// penalty, and a failure is a server error whose text is logged.
pub proof fn law_columns_read_in_order(
    until: Timestamp,
    tokens: i32,
    pauses: i32,
    e: DbError,
    r: Result<Option<WaPenalty>, APIError>,
    before: Seq<Seq<char>>,
    after: Seq<Seq<char>>,
)
    ensures
        penalty_reply(
            Ok::<(Timestamp, i32, i32), DbError>((until, tokens, pauses)),
            r,
            before,
            after,
        ) ==> {
            &&& r == Ok::<Option<WaPenalty>, APIError>(
                Some(
                    WaPenalty {
                        time_penalty_until: until,
                        token_penalty_level: tokens,
                        time_penalty_level: pauses,
                    },
                ),
            )
            &&& after == before
        },
        penalty_reply(Err::<(Timestamp, i32, i32), DbError>(e), r, before, after) && e.not_found
            ==> r == Ok::<Option<WaPenalty>, APIError>(None) && after == before,
        penalty_reply(Err::<(Timestamp, i32, i32), DbError>(e), r, before, after) && !e.not_found
            ==> (r matches Err(
            APIError::ServerError { location, msg, refnum },
        ) && {
            &&& location@ == "[unknown]"@
            &&& msg@ == "database_unknown"@
            &&& after == before.push(
                "Error ["@ + text::hyphenated(refnum.number) + "]: "@ + e.text@,
            )
        }),
{
}

/// Each column of a row holds the part of the penalty that it is named for, under
/// the team and the puzzle that the penalty was run up by and on.
pub proof fn law_row_holds_penalty_by_name(
    puzzle_id: PuzzleId,
    team_id: TeamId,
    data: WaPenalty,
)
    ensures
        WaCntRow::holding(puzzle_id, team_id, data).token_penalty_level
            == data.token_penalty_level,
        WaCntRow::holding(puzzle_id, team_id, data).time_penalty_level == data.time_penalty_level,
        WaCntRow::holding(puzzle_id, team_id, data).time_penalty_until == data.time_penalty_until,
        WaCntRow::holding(puzzle_id, team_id, data).key.team == team_id,
        WaCntRow::holding(puzzle_id, team_id, data).key.puzzle == puzzle_id,
{
}

/// The columns of a row are read as the end of the pause, the level of tokens and
/// the level of pauses, in that order.
pub proof fn law_columns_of_row(row: WaCntRow)
    ensures
        row.columns().0 == row.time_penalty_until,
        row.columns().1 == row.token_penalty_level,
        row.columns().2 == row.time_penalty_level,
{
}

/// The penalty read back from the columns that it was stored in is the penalty
/// that was stored, in the row that a read for the same team and puzzle finds.
pub proof fn law_stored_penalty_is_read_back(
    puzzle_id: PuzzleId,
    team_id: TeamId,
    data: WaPenalty,
    r: Result<Option<WaPenalty>, APIError>,
    before: Seq<Seq<char>>,
    after: Seq<Seq<char>>,
)
    requires
        penalty_reply(
            Ok::<(Timestamp, i32, i32), DbError>(
                WaCntRow::holding(puzzle_id, team_id, data).columns(),
            ),
            r,
            before,
            after,
        ),
    ensures
        r == Ok::<Option<WaPenalty>, APIError>(Some(data)),
        WaCntRow::holding(puzzle_id, team_id, data).key == (WaCntKey {
            team: team_id,
            puzzle: puzzle_id,
        }),
{
}

/// Whether a table of penalties holds what it held before, and one more row in
/// place of what it held under the row's key.
pub open spec fn row_stored(
    before: Map<WaCntKey, (Timestamp, i32, i32)>,
    after: Map<WaCntKey, (Timestamp, i32, i32)>,
    row: WaCntRow,
) -> bool {
    after == before.insert(row.key, row.columns())
}

/// Whether a reply is what a table of penalties holds under a key.
pub open spec fn row_found(
    table: Map<WaCntKey, (Timestamp, i32, i32)>,
    key: WaCntKey,
    outcome: Result<(Timestamp, i32, i32), DbError>,
) -> bool {
    match outcome {
        Ok(columns) => table.contains_key(key) && table[key] == columns,
        Err(e) => e.not_found && !table.contains_key(key),
    }
}

/// Once a table holds the row of a penalty, a read for the same team and puzzle
/// gives that penalty, and a read for any other gets the replies that it would
/// have got before. That the database keeps such a table is the premise here; a
/// column of microseconds keeps the instants that are whole microseconds.
pub proof fn law_table_gives_stored_penalty_back(
    before: Map<WaCntKey, (Timestamp, i32, i32)>,
    after: Map<WaCntKey, (Timestamp, i32, i32)>,
    puzzle_id: PuzzleId,
    team_id: TeamId,
    data: WaPenalty,
    outcome: Result<(Timestamp, i32, i32), DbError>,
    r: Result<Option<WaPenalty>, APIError>,
    log_before: Seq<Seq<char>>,
    log_after: Seq<Seq<char>>,
    other: WaCntKey,
    other_outcome: Result<(Timestamp, i32, i32), DbError>,
)
    requires
        row_stored(before, after, WaCntRow::holding(puzzle_id, team_id, data)),
        row_found(after, WaCntKey { team: team_id, puzzle: puzzle_id }, outcome),
        penalty_reply(outcome, r, log_before, log_after),
    ensures
        r == Ok::<Option<WaPenalty>, APIError>(Some(data)),
        log_after == log_before,
        other != (WaCntKey { team: team_id, puzzle: puzzle_id }) ==> (row_found(
            after,
            other,
            other_outcome,
        ) <==> row_found(before, other, other_outcome)),
{
}

} // verus!
