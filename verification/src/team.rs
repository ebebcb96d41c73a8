//! Which team a request acts for. The session may know it; else the database
//! is asked, one step at a time.

use crate::error::{log_server_error, APIError};
use crate::session::{
    kill_session, session_insert, session_number, user_privilege_check, SESSION_TEAM_ID,
};
use crate::store::{
    check_confirmed_from_team_id, fetch_user_from_id, DbError, User, ERROR_DB_CONNECTION,
};
use crate::text::Journal;
use crate::{error, session, store, text};
use actix_session::Session;
use vstd::prelude::*;

verus! {

/// Where a lookup stands: what has to be asked next, or its result.
pub enum TeamLookup {
    /// A connection to the database is needed, to ask for a user.
    Connect { user_id: i32 },
    /// The database has to be asked for the row of a user.
    FetchUser { user_id: i32 },
    /// The database has to be asked whether a team is confirmed.
    CheckConfirmed { team_id: i32 },
    /// The team, or why the request is refused.
    Done { outcome: Result<i32, APIError> },
}

/// What came of a question.
pub enum TeamReply {
    /// Whether a connection was made, or the text of the failure.
    Connected(Result<(), String>),
    /// The row of the user.
    UserRow(Result<User, DbError>),
    /// Whether the team is confirmed.
    Confirmed(Result<bool, DbError>),
}

/// Where a lookup starts: at its result where the team is known or the user may
/// not ask, else at the connection.
pub open spec fn lookup_from(
    known_team: Option<i32>,
    privilege: Result<(i32, i32), APIError>,
) -> TeamLookup {
    match known_team {
        Some(team_id) => TeamLookup::Done { outcome: Ok(team_id) },
        None => match privilege {
            Ok((user_id, _)) => TeamLookup::Connect { user_id },
            Err(e) => TeamLookup::Done { outcome: Err(e) },
        },
    }
}

/// Where the lookup of a session with some entries starts.
pub open spec fn lookup_start(
    entries: Map<Seq<char>, Seq<char>>,
    privilege_needed: i32,
) -> TeamLookup {
    lookup_from(
        session::held_i32(entries, SESSION_TEAM_ID@),
        session::session_privilege_outcome(entries, privilege_needed),
    )
}

/// The session and the log at one moment of a lookup, as contracts speak of
/// them.
pub struct Surroundings {
    pub session: Session,
    pub log: Seq<Seq<char>>,
}

/// What a step on the reply for a connection leads to.
pub open spec fn connected_step(
    user_id: i32,
    outcome: Result<(), String>,
    location: &'static str,
    next: TeamLookup,
    before: Surroundings,
    after: Surroundings,
) -> bool {
    &&& after.session == before.session
    &&& match outcome {
        Ok(_) => {
            &&& next == TeamLookup::FetchUser { user_id }
            &&& after.log == before.log
        },
        Err(failure) => {
            &&& next is Done
            &&& next->outcome is Err
            &&& error::located_server_error(
                next->outcome->Err_0,
                failure@,
                location,
                ERROR_DB_CONNECTION,
                before.log,
                after.log,
            )
        },
    }
}

/// What a step on the reply for the row of a user leads to. A user that does
/// not exist makes the session invalid, and the session is emptied.
pub open spec fn user_step(
    outcome: Result<User, DbError>,
    next: TeamLookup,
    before: Surroundings,
    after: Surroundings,
) -> bool {
    match outcome {
        Ok(user) => {
            &&& after == before
            &&& next == match user.team {
                Some(team_id) => TeamLookup::CheckConfirmed { team_id },
                None => TeamLookup::Done { outcome: Err(APIError::NotInTeam) },
            }
        },
        Err(e) => if e.not_found {
            &&& next == TeamLookup::Done { outcome: Err(APIError::InvalidSession) }
            &&& session::emptied(before.session, after.session)
            &&& after.log == before.log
        } else {
            &&& after.session == before.session
            &&& failed_step(e, next, before.log, after.log)
        },
    }
}

/// What a step on the reply whether a team is confirmed leads to. The session
/// learns the team of a user once it is confirmed.
pub open spec fn confirmed_step(
    team_id: i32,
    outcome: Result<bool, DbError>,
    next: TeamLookup,
    before: Surroundings,
    after: Surroundings,
) -> bool {
    match outcome {
        Err(e) if !e.not_found => {
            &&& after.session == before.session
            &&& failed_step(e, next, before.log, after.log)
        },
        _ => {
            &&& next == TeamLookup::Done { outcome: Ok(team_id) }
            &&& after.log == before.log
            &&& if outcome == Ok::<bool, DbError>(true) {
                session::written(before.session, after.session, SESSION_TEAM_ID@, team_id)
            } else {
                after.session == before.session
            }
        },
    }
}

/// What a step on a failure of the database leads to.
pub open spec fn failed_step(
    e: DbError,
    next: TeamLookup,
    before: Seq<Seq<char>>,
    after: Seq<Seq<char>>,
) -> bool {
    &&& next is Done
    &&& next->outcome is Err
    &&& error::unlocated_server_error(
        next->outcome->Err_0,
        e.text@,
        store::ERROR_DB_UNKNOWN,
        before,
        after,
    )
}

/// What a step leads to. A reply to a question that was not asked changes
/// nothing.
pub open spec fn lookup_step(
    lookup: TeamLookup,
    reply: TeamReply,
    location: &'static str,
    next: TeamLookup,
    before: Surroundings,
    after: Surroundings,
) -> bool {
    match (lookup, reply) {
        (TeamLookup::Connect { user_id }, TeamReply::Connected(outcome)) => connected_step(
            user_id,
            outcome,
            location,
            next,
            before,
            after,
        ),
        (TeamLookup::FetchUser { .. }, TeamReply::UserRow(outcome)) => user_step(
            outcome,
            next,
            before,
            after,
        ),
        (TeamLookup::CheckConfirmed { team_id }, TeamReply::Confirmed(outcome)) =>
            confirmed_step(team_id, outcome, next, before, after),
        _ => next == lookup && after == before,
    }
}

/// Starts a lookup from the team that the session knows and the outcome of the
/// privilege check.
pub fn begin_lookup(
    known_team: Option<i32>,
    privilege: Result<(i32, i32), APIError>,
) -> (r: TeamLookup)
    ensures
        r == lookup_from(known_team, privilege),
{
    match known_team {
        Some(team_id) => TeamLookup::Done { outcome: Ok(team_id) },
        None => match privilege {
            Ok((user_id, _)) => TeamLookup::Connect { user_id },
            Err(e) => TeamLookup::Done { outcome: Err(e) },
        },
    }
}

/// Starts to look up the team of a request.
pub fn get_team_id(session: &Session, privilege_needed: i32) -> (r: TeamLookup)
    ensures
        r == lookup_start(session::session_entries(*session), privilege_needed),
{
    begin_lookup(
        session_number(session, SESSION_TEAM_ID),
        user_privilege_check(session, privilege_needed),
    )
}

impl TeamLookup {
    /// Goes on with a lookup once the reply to its question is there.
    pub fn advance(
        self,
        reply: TeamReply,
        session: &mut Session,
        location: &'static str,
        journal: &mut Journal,
    ) -> (next: TeamLookup)
        ensures
            lookup_step(
                self,
                reply,
                location,
                next,
                (Surroundings { session: *old(session), log: old(journal)@ }),
                (Surroundings { session: *final(session), log: final(journal)@ }),
            ),
            next matches TeamLookup::Done { outcome: Err(APIError::ServerError { refnum, .. }) }
                ==> self is Done || refnum.drawn(),
    {
        match (self, reply) {
            (TeamLookup::Connect { user_id }, TeamReply::Connected(outcome)) => match outcome {
                Ok(_) => TeamLookup::FetchUser { user_id },
                Err(failure) => {
                    let e = log_server_error(
                        failure.as_str(),
                        location,
                        ERROR_DB_CONNECTION,
                        journal,
                    );
                    TeamLookup::Done { outcome: Err(e) }
                },
            },
            (TeamLookup::FetchUser { user_id: _ }, TeamReply::UserRow(outcome)) => {
                match fetch_user_from_id(outcome, journal) {
                    Ok(Some(user)) => match user.team {
                        Some(team_id) => TeamLookup::CheckConfirmed { team_id },
                        None => TeamLookup::Done { outcome: Err(APIError::NotInTeam) },
                    },
                    Ok(None) => {
                        let e = APIError::InvalidSession;
                        kill_session(session, &e);
                        let e = e.set_location(location);
                        e.log(journal);
                        TeamLookup::Done { outcome: Err(e) }
                    },
                    Err(e) => TeamLookup::Done { outcome: Err(e) },
                }
            },
            (TeamLookup::CheckConfirmed { team_id }, TeamReply::Confirmed(outcome)) => {
                match check_confirmed_from_team_id(outcome, journal) {
                    Ok(confirmed) => {
                        if let Some(true) = confirmed {
                            let _ = session_insert(session, SESSION_TEAM_ID, team_id);
                        }
                        TeamLookup::Done { outcome: Ok(team_id) }
                    },
                    Err(e) => TeamLookup::Done { outcome: Err(e) },
                }
            },
            (lookup, _) => lookup,
        }
    }
}

/// What a whole lookup comes to, from what the session holds and the replies
/// that it would get: the team, the refusal, or nothing definite where the
/// server fails.
pub open spec fn lookup_verdict(
    entries: Map<Seq<char>, Seq<char>>,
    privilege_needed: i32,
    connected: Result<(), String>,
    user: Result<User, DbError>,
    confirmed: Result<bool, DbError>,
) -> Option<Result<i32, APIError>> {
    match session::held_i32(entries, SESSION_TEAM_ID@) {
        Some(team_id) => Some(Ok(team_id)),
        None => match session::session_privilege_outcome(entries, privilege_needed) {
            Err(e) => Some(Err(e)),
            Ok(_) => if connected is Err {
                None
            } else {
                match user {
                    Err(e) => if e.not_found {
                        Some(Err(APIError::InvalidSession))
                    } else {
                        None
                    },
                    Ok(user) => match user.team {
                        None => Some(Err(APIError::NotInTeam)),
                        Some(team_id) => match confirmed {
                            Err(e) if !e.not_found => None,
                            _ => Some(Ok(team_id)),
                        },
                    },
                }
            },
        },
    }
}

/// Whether a lookup asks the database and gets an answer for a user.
pub open spec fn lookup_reaches_user(
    entries: Map<Seq<char>, Seq<char>>,
    privilege_needed: i32,
    connected: Result<(), String>,
) -> bool {
    lookup_start(entries, privilege_needed) is Connect && connected is Ok
}

/// A lookup starts from three numbers of the session: the one under `team_id` is
/// the team at once; else the one under `user_id` is the user that the database is
/// asked for, where the one under `user_privilege` is enough.
pub proof fn law_lookup_starts_from_session(
    entries: Map<Seq<char>, Seq<char>>,
    privilege_needed: i32,
)
    ensures
        ({
            let start = lookup_start(entries, privilege_needed);
            let team = session::held_i32(entries, "team_id"@);
            let user = session::held_i32(entries, "user_id"@);
            let level = session::held_i32(entries, "user_privilege"@);
            &&& team matches Some(team_id) ==> start == (TeamLookup::Done { outcome: Ok(team_id) })
            &&& team is None && (user is None || level is None) ==> start == (TeamLookup::Done {
                outcome: Err(APIError::NotLogin),
            })
            &&& team is None && user is Some && level is Some && level->0 < privilege_needed
                ==> start == (TeamLookup::Done { outcome: Err(APIError::Unauthorized) })
            &&& team is None && user is Some && level is Some && level->0 >= privilege_needed
                ==> start == (TeamLookup::Connect { user_id: user->0 })
        }),
{
}

/// A known team is the result of a lookup, whatever came of the privilege check.
/// Else a refusal is, as it is, and a user that was not refused is asked for.
pub proof fn law_known_team_comes_first(
    team_id: i32,
    privilege: Result<(i32, i32), APIError>,
    user_id: i32,
    level: i32,
    e: APIError,
)
    ensures
        lookup_from(Some(team_id), privilege) == (TeamLookup::Done { outcome: Ok(team_id) }),
        lookup_from(None, Ok::<(i32, i32), APIError>((user_id, level))) == (TeamLookup::Connect {
            user_id,
        }),
        lookup_from(None, Err::<(i32, i32), APIError>(e)) == (TeamLookup::Done {
            outcome: Err(e),
        }),
{
}

/// The user whose row the database is asked for is the user that the session
/// names.
pub proof fn law_lookup_asks_for_session_user(
    privilege_needed: i32,
    location: &'static str,
    connected: Result<(), String>,
    lookups: (TeamLookup, TeamLookup),
    moments: (Surroundings, Surroundings),
)
    requires
        lookups.0 == lookup_start(session::session_entries(moments.0.session), privilege_needed),
        lookup_step(
            lookups.0,
            TeamReply::Connected(connected),
            location,
            lookups.1,
            moments.0,
            moments.1,
        ),
    ensures
        lookups.1 matches TeamLookup::FetchUser { user_id } ==> session::held_i32(
            session::session_entries(moments.0.session),
            session::SESSION_USER_ID@,
        ) == Some(user_id) && connected is Ok,
{
}

/// Once there is a connection the row of the very user that it was needed for is
/// asked for, and nothing else happens. Where there is none, the request is
/// refused with a server error at the given location; the text of the failure and
/// the error stand in the log under its reference number, and the session stays.
pub proof fn law_connection_leads_to_same_user(
    user_id: i32,
    connected: Result<(), String>,
    location: &'static str,
    next: TeamLookup,
    before: Surroundings,
    after: Surroundings,
)
    requires
        lookup_step(
            TeamLookup::Connect { user_id },
            TeamReply::Connected(connected),
            location,
            next,
            before,
            after,
        ),
    ensures
        connected is Ok ==> next == (TeamLookup::FetchUser { user_id }) && after == before,
        connected matches Err(failure) ==> (next matches TeamLookup::Done {
            outcome: Err(APIError::ServerError { location: place, msg, refnum }),
        } && {
            &&& place == location
            &&& msg@ == "db_connction_failed"@
            &&& after.session == before.session
            &&& after.log == before.log.push(
                "Error ["@ + text::hyphenated(refnum.number) + "]: "@ + failure@,
            ).push(
                "Server error at "@ + location@ + ", ref["@ + text::hyphenated(refnum.number)
                    + "]: "@ + msg@,
            )
        }),
{
}

/// The team of the user's row is the one that is asked about next, and a user
/// without a team is refused for that; neither changes the session or the log. A
/// user without a row is refused for the session, which loses all its entries
/// unless it was purged. A failure is a server error whose text is logged.
pub proof fn law_user_row_leads_to_its_team(
    user_id: i32,
    row: Result<User, DbError>,
    location: &'static str,
    next: TeamLookup,
    before: Surroundings,
    after: Surroundings,
)
    requires
        lookup_step(
            TeamLookup::FetchUser { user_id },
            TeamReply::UserRow(row),
            location,
            next,
            before,
            after,
        ),
    ensures
        row is Ok ==> after == before,
        row matches Ok(user) ==> (user.team matches Some(team_id) ==> next == (
        TeamLookup::CheckConfirmed { team_id })),
        row matches Ok(user) ==> (user.team is None ==> next == (TeamLookup::Done {
            outcome: Err(APIError::NotInTeam),
        })),
        row matches Err(e) ==> (e.not_found ==> {
            &&& next == (TeamLookup::Done { outcome: Err(APIError::InvalidSession) })
            &&& after.log == before.log
            &&& !(session::session_fate(before.session) is Purged) ==> session::session_entries(
                after.session,
            ) == Map::<Seq<char>, Seq<char>>::empty()
            &&& session::session_fate(before.session) is Purged ==> session::session_entries(
                after.session,
            ) == session::session_entries(before.session)
            &&& session::session_fate(before.session) is Unchanged ==> session::session_fate(
                after.session,
            ) is Changed
            &&& !(session::session_fate(before.session) is Unchanged) ==> session::session_fate(
                after.session,
            ) == session::session_fate(before.session)
        }),
        row matches Err(e) ==> (!e.not_found ==> (next matches TeamLookup::Done {
            outcome: Err(APIError::ServerError { location: place, msg, refnum }),
        } && {
            &&& place@ == "[unknown]"@
            &&& msg@ == "database_unknown"@
            &&& after.session == before.session
            &&& after.log == before.log.push(
                "Error ["@ + text::hyphenated(refnum.number) + "]: "@ + e.text@,
            )
        })),
{
}

/// A team that was asked about is the result, confirmed or not, found or not, and
/// nothing is logged. The session learns it under `team_id` exactly where it is
/// confirmed, and keeps all else. A failure is a server error whose text is
/// logged.
pub proof fn law_team_asked_about_is_given(
    team_id: i32,
    confirmed: Result<bool, DbError>,
    location: &'static str,
    next: TeamLookup,
    before: Surroundings,
    after: Surroundings,
)
    requires
        lookup_step(
            TeamLookup::CheckConfirmed { team_id },
            TeamReply::Confirmed(confirmed),
            location,
            next,
            before,
            after,
        ),
    ensures
        confirmed is Ok || confirmed->Err_0.not_found ==> {
            &&& next == (TeamLookup::Done { outcome: Ok(team_id) })
            &&& after.log == before.log
        },
        confirmed matches Ok(yes) ==> (yes && !(session::session_fate(before.session) is Purged)
            ==> session::session_entries(after.session) == session::session_entries(
            before.session,
        ).insert("team_id"@, text::decimal(team_id as int))),
        confirmed matches Ok(yes) ==> (yes && session::session_fate(before.session) is Purged
            ==> session::session_entries(after.session) == session::session_entries(
            before.session,
        )),
        confirmed matches Ok(yes) ==> (yes ==> {
            &&& session::session_fate(before.session) is Unchanged ==> session::session_fate(
                after.session,
            ) is Changed
            &&& !(session::session_fate(before.session) is Unchanged) ==> session::session_fate(
                after.session,
            ) == session::session_fate(before.session)
        }),
        confirmed matches Ok(yes) ==> (!yes ==> after.session == before.session),
        confirmed matches Err(e) ==> (e.not_found ==> after.session == before.session),
        confirmed matches Err(e) ==> (!e.not_found ==> (next matches TeamLookup::Done {
            outcome: Err(APIError::ServerError { location: place, msg, refnum }),
        } && {
            &&& place@ == "[unknown]"@
            &&& msg@ == "database_unknown"@
            &&& after.session == before.session
            &&& after.log == before.log.push(
                "Error ["@ + text::hyphenated(refnum.number) + "]: "@ + e.text@,
            )
        })),
{
}

/// A reply to a question that was not asked changes neither the lookup nor what is
/// around it.
pub proof fn law_unasked_replies_change_nothing(
    lookup: TeamLookup,
    reply: TeamReply,
    location: &'static str,
    next: TeamLookup,
    before: Surroundings,
    after: Surroundings,
)
    requires
        lookup_step(lookup, reply, location, next, before, after),
        !(lookup is Connect && reply is Connected),
        !(lookup is FetchUser && reply is UserRow),
        !(lookup is CheckConfirmed && reply is Confirmed),
    ensures
        next == lookup,
        after == before,
{
}

/// A lookup that ends with a team ends with the one that the session holds under
/// `team_id`, or else with the one in the row of the user. A session that holds
/// none only ends with one where the user is logged in with the privilege.
pub proof fn law_team_is_that_of_session_or_row(
    privilege_needed: i32,
    location: &'static str,
    replies: (Result<(), String>, Result<User, DbError>, Result<bool, DbError>),
    lookups: (TeamLookup, TeamLookup, TeamLookup, TeamLookup),
    moments: (Surroundings, Surroundings, Surroundings, Surroundings),
)
    requires
        lookups.0 == lookup_start(session::session_entries(moments.0.session), privilege_needed),
        lookup_step(
            lookups.0,
            TeamReply::Connected(replies.0),
            location,
            lookups.1,
            moments.0,
            moments.1,
        ),
        lookup_step(
            lookups.1,
            TeamReply::UserRow(replies.1),
            location,
            lookups.2,
            moments.1,
            moments.2,
        ),
        lookup_step(
            lookups.2,
            TeamReply::Confirmed(replies.2),
            location,
            lookups.3,
            moments.2,
            moments.3,
        ),
    ensures
        ({
            let entries = session::session_entries(moments.0.session);
            lookups.3 matches TeamLookup::Done { outcome: Ok(team_id) } ==> {
                ||| session::held_i32(entries, "team_id"@) == Some(team_id)
                ||| {
                    &&& session::held_i32(entries, "team_id"@) is None
                    &&& session::held_i32(entries, "user_id"@) is Some
                    &&& session::held_i32(entries, "user_privilege"@) is Some
                    &&& session::held_i32(entries, "user_privilege"@)->0 >= privilege_needed
                    &&& replies.0 is Ok
                    &&& replies.1 is Ok
                    &&& replies.1->Ok_0.team == Some(team_id)
                }
            }
        }),
{
}

/// A lookup that gets its three replies in turn is done, whatever they are. It
/// gives the team that the session knows; else, for a user with the privilege,
/// the team of the user's row; and it gives a server error only where the
/// database failed: at the given location where it could not be reached, at an
/// unknown one where a query failed, logged under its reference number with the
/// text of that failure. The session is emptied exactly where the user does not
/// exist, learns the team exactly where the database had to be asked for it and
/// it is confirmed, and is left alone otherwise. Only server errors are logged.
pub proof fn law_lookup_settles(
    privilege_needed: i32,
    location: &'static str,
    connected: Result<(), String>,
    user: Result<User, DbError>,
    confirmed: Result<bool, DbError>,
    lookups: (TeamLookup, TeamLookup, TeamLookup, TeamLookup),
    moments: (Surroundings, Surroundings, Surroundings, Surroundings),
)
    requires
        lookups.0 == lookup_start(session::session_entries(moments.0.session), privilege_needed),
        lookup_step(
            lookups.0,
            TeamReply::Connected(connected),
            location,
            lookups.1,
            moments.0,
            moments.1,
        ),
        lookup_step(
            lookups.1,
            TeamReply::UserRow(user),
            location,
            lookups.2,
            moments.1,
            moments.2,
        ),
        lookup_step(
            lookups.2,
            TeamReply::Confirmed(confirmed),
            location,
            lookups.3,
            moments.2,
            moments.3,
        ),
    ensures
        lookups.3 is Done,
        ({
            let entries = session::session_entries(moments.0.session);
            let verdict = lookup_verdict(entries, privilege_needed, connected, user, confirmed);
            let reached = lookup_reaches_user(entries, privilege_needed, connected);
            &&& match verdict {
                Some(outcome) => {
                    &&& lookups.3 == TeamLookup::Done { outcome }
                    &&& moments.3.log == moments.0.log
                },
                None => {
                    &&& lookups.3->outcome is Err
                    &&& if connected is Err {
                        error::located_server_error(
                            lookups.3->outcome->Err_0,
                            connected->Err_0@,
                            location,
                            ERROR_DB_CONNECTION,
                            moments.0.log,
                            moments.3.log,
                        )
                    } else {
                        error::unlocated_server_error(
                            lookups.3->outcome->Err_0,
                            (if user is Err {
                                user->Err_0.text@
                            } else {
                                confirmed->Err_0.text@
                            }),
                            store::ERROR_DB_UNKNOWN,
                            moments.0.log,
                            moments.3.log,
                        )
                    }
                },
            }
            &&& if reached && user is Err && user->Err_0.not_found {
                session::emptied(moments.0.session, moments.3.session)
            } else if reached && user is Ok && user->Ok_0.team is Some && confirmed == Ok::<
                bool,
                DbError,
            >(true) {
                session::written(
                    moments.0.session,
                    moments.3.session,
                    SESSION_TEAM_ID@,
                    user->Ok_0.team->0,
                )
            } else {
                moments.3.session == moments.0.session
            }
        }),
{
}

/// A request whose session knows the team is answered without the database,
/// whatever privilege it needs.
pub proof fn law_known_team_is_given(
    entries: Map<Seq<char>, Seq<char>>,
    team_id: i32,
    privilege_needed: i32,
)
    requires
        session::held_i32(entries, SESSION_TEAM_ID@) == Some(team_id),
    ensures
        lookup_start(entries, privilege_needed) == (TeamLookup::Done { outcome: Ok(team_id) }),
{
}

/// The database is asked only for a user that is logged in with the privilege
/// and whose team the session does not know.
pub proof fn law_database_asked_for_privileged_users_only(
    entries: Map<Seq<char>, Seq<char>>,
    privilege_needed: i32,
)
    ensures
        lookup_start(entries, privilege_needed) is Connect <==> session::held_i32(
            entries,
            SESSION_TEAM_ID@,
        ) is None && session::session_privilege_outcome(entries, privilege_needed) is Ok,
        lookup_start(entries, privilege_needed) matches TeamLookup::Connect { user_id }
            ==> session::held_i32(entries, session::SESSION_USER_ID@) == Some(user_id),
        lookup_start(entries, privilege_needed) is Connect || lookup_start(
            entries,
            privilege_needed,
        ) is Done,
{
}

/// A team that is found confirmed is remembered: the next lookup of a session
/// that is not purged gives it at once.
pub proof fn law_confirmed_team_is_remembered(
    team_id: i32,
    next: TeamLookup,
    before: Surroundings,
    after: Surroundings,
    privilege_needed: i32,
)
    requires
        confirmed_step(team_id, Ok::<bool, DbError>(true), next, before, after),
        !(session::session_fate(before.session) is Purged),
    ensures
        next == (TeamLookup::Done { outcome: Ok(team_id) }),
        lookup_start(session::session_entries(after.session), privilege_needed) == next,
{
    session::law_decimal_is_json(team_id);
}

/// A session that turned out invalid stays logged out: the next lookup of a
/// session that was not purged is refused at once.
pub proof fn law_invalid_session_is_logged_out(
    e: DbError,
    next: TeamLookup,
    before: Surroundings,
    after: Surroundings,
    privilege_needed: i32,
)
    requires
        e.not_found,
        user_step(Err::<User, DbError>(e), next, before, after),
        !(session::session_fate(before.session) is Purged),
    ensures
        next == (TeamLookup::Done { outcome: Err(APIError::InvalidSession) }),
        lookup_start(session::session_entries(after.session), privilege_needed) == (
        TeamLookup::Done { outcome: Err(APIError::NotLogin) }),
{
}

/// A lookup that is done takes no more replies.
pub proof fn law_done_lookup_stays(
    outcome: Result<i32, APIError>,
    reply: TeamReply,
    location: &'static str,
    next: TeamLookup,
    before: Surroundings,
    after: Surroundings,
)
    requires
        lookup_step(TeamLookup::Done { outcome }, reply, location, next, before, after),
    ensures
        next == (TeamLookup::Done { outcome }),
        after == before,
{
}

} // verus!
