//! What a request's session says about the user, and when it is thrown away.
//!
//! All handles of one session share its entries. The contracts here speak of one
//! handle: they say what its session holds at the start and at the end of a
//! call, and they hold across calls only while no other handle of the same
//! session is written. A second handle can only pass through `handle_session`,
//! as the value that it hands back: where that is a handle of the session that
//! is emptied, what was known of its entries no longer stands.

use crate::error::APIError;
use crate::text;
use actix_session::{Session, SessionGetError, SessionInsertError};
use vstd::prelude::*;

verus! {

/// The session key of the user's number.
pub const SESSION_USER_ID: &'static str = "user_id";

/// The session key of the user's privilege.
pub const SESSION_PRIVILEGE: &'static str = "user_privilege";

/// The session key of the number of the user's team.
pub const SESSION_TEAM_ID: &'static str = "team_id";

/// The message of a server error for a session that cannot be written.
pub const ERROR_SESSION_INSERT: &'static str = "session_setting_failed";

/// The privilege of every user.
pub const PRIVILEGE_MINIMAL: i32 = 0;

/// The privilege of staff.
pub const PRIVILEGE_STAFF: i32 = 2;

/// The privilege of administrators.
pub const PRIVILEGE_ADMIN: i32 = 4;

/// A session: texts under keys, each text a value in JSON, shared by all
/// handles of one request.
#[verifier::external_type_specification]
#[verifier::external_body]
pub struct ExSession(Session);

/// Why a value could not be read from a session.
#[verifier::external_type_specification]
#[verifier::external_body]
pub struct ExSessionGetError(SessionGetError);

/// Why a value could not be written to a session.
#[verifier::external_type_specification]
#[verifier::external_body]
pub struct ExSessionInsertError(SessionInsertError);

/// What becomes of a session when its request ends.
pub enum SessionFate {
    /// It is left as it was.
    Unchanged,
    /// It is saved.
    Changed,
    /// It is saved under a new key.
    Renewed,
    /// It is deleted. It takes no more changes.
    Purged,
}

/// The texts that a session holds, by key.
pub uninterp spec fn session_entries(session: Session) -> Map<Seq<char>, Seq<char>>;

/// What becomes of a session when its request ends.
pub uninterp spec fn session_fate(session: Session) -> SessionFate;

/// The white space that JSON allows around a value.
pub open spec fn is_json_space(s: Seq<char>) -> bool {
    forall|i: int|
        0 <= i < s.len() ==> #[trigger] s[i] == ' ' || s[i] == '\n' || s[i] == '\t' || s[i] == '\r'
}

/// Whether a JSON text is a number between two runs of white space.
pub open spec fn json_number_between(
    json: Seq<char>,
    n: i32,
    left: Seq<char>,
    right: Seq<char>,
) -> bool {
    &&& is_json_space(left)
    &&& is_json_space(right)
    &&& json == left + text::decimal(n as int) + right
}

/// Whether a JSON text stands for a number: it is the decimal text of the
/// number, with nothing but white space around it. JSON has no leading zeros and
/// no plus sign, and a negative zero, a fraction or an exponent makes no integer.
pub open spec fn json_reads(json: Seq<char>, n: i32) -> bool {
    exists|left: Seq<char>, right: Seq<char>| json_number_between(json, n, left, right)
}

/// The number that a JSON text stands for, where it stands for an `i32`.
pub open spec fn json_i32(json: Seq<char>) -> Option<i32> {
    if exists|n: i32| json_reads(json, n) {
        Some(choose|n: i32| json_reads(json, n))
    } else {
        None
    }
}

/// A JSON text stands for one number at most.
pub proof fn law_json_number_is_unique(json: Seq<char>, a: i32, b: i32)
    requires
        json_reads(json, a),
        json_reads(json, b),
    ensures
        a == b,
{
    let (la, ra) = choose|left: Seq<char>, right: Seq<char>|
        json_number_between(json, a, left, right);
    let (lb, rb) = choose|left: Seq<char>, right: Seq<char>|
        json_number_between(json, b, left, right);
    let da = text::decimal(a as int);
    let db = text::decimal(b as int);
    text::law_decimal_shape(a as int);
    text::law_decimal_shape(b as int);
    assert(json[la.len() as int] == da[0]);
    assert(json[lb.len() as int] == db[0]);
    if la.len() < lb.len() {
        assert(json[la.len() as int] == lb[la.len() as int]);
    }
    if lb.len() < la.len() {
        assert(json[lb.len() as int] == la[lb.len() as int]);
    }
    let ea = la.len() + da.len();
    let eb = lb.len() + db.len();
    assert(json.len() == ea + ra.len());
    assert(json.len() == eb + rb.len());
    assert(json[ea - 1] == da.last());
    assert(json[eb - 1] == db.last());
    if ea < eb {
        assert(json[eb - 1] == ra[eb - 1 - ea]);
    }
    if eb < ea {
        assert(json[ea - 1] == rb[ea - 1 - eb]);
    }
    assert(json.subrange(la.len() as int, ea as int) =~= da);
    assert(json.subrange(lb.len() as int, eb as int) =~= db);
    text::law_decimal_identifies(a as int, b as int);
}

/// The decimal text of a number is JSON for it.
pub proof fn law_decimal_is_json(n: i32)
    ensures
        json_i32(text::decimal(n as int)) == Some(n),
{
    let json = text::decimal(n as int);
    let none = Seq::<char>::empty();
    assert(json =~= none + text::decimal(n as int) + none);
    assert(json_number_between(json, n, none, none));
    assert(json_reads(json, n));
    law_json_number_is_unique(json, n, choose|m: i32| json_reads(json, m));
}

/// A JSON text stands for a number exactly where the decimal text of the number
/// is a part of it and all around that part is blanks, tabs and line ends.
pub proof fn law_json_number_stands_alone(json: Seq<char>, n: i32, start: int, end: int)
    ensures
        ({
            &&& 0 <= start <= end <= json.len()
            &&& json.subrange(start, end) == text::decimal(n as int)
            &&& forall|k: int|
                0 <= k < start || end <= k < json.len() ==> (#[trigger] json[k] == ' ' || json[k]
                    == '\t' || json[k] == '\n' || json[k] == '\r')
        }) ==> json_i32(json) == Some(n),
        json_i32(json) == Some(n) ==> exists|i: int, j: int|
            {
                &&& 0 <= i <= j <= json.len()
                &&& #[trigger] json.subrange(i, j) == text::decimal(n as int)
                &&& forall|k: int|
                    0 <= k < i || j <= k < json.len() ==> (#[trigger] json[k] == ' ' || json[k]
                        == '\t' || json[k] == '\n' || json[k] == '\r')
            },
{
    let d = text::decimal(n as int);
    if 0 <= start <= end <= json.len() && json.subrange(start, end) == d && (forall|k: int|
        0 <= k < start || end <= k < json.len() ==> (#[trigger] json[k] == ' ' || json[k] == '\t'
            || json[k] == '\n' || json[k] == '\r')) {
        let left = json.subrange(0, start);
        let right = json.subrange(end, json.len() as int);
        assert(json =~= left + json.subrange(start, end) + right);
        assert(json_number_between(json, n, left, right));
        assert(json_reads(json, n));
        law_json_number_is_unique(json, n, choose|m: i32| json_reads(json, m));
    }
    if json_i32(json) == Some(n) {
        assert(json_reads(json, n));
        let (left, right) = choose|left: Seq<char>, right: Seq<char>|
            json_number_between(json, n, left, right);
        let i = left.len() as int;
        let j = i + d.len();
        assert(json.subrange(i, j) =~= d);
        assert forall|k: int| 0 <= k < i || j <= k < json.len() implies (#[trigger] json[k] == ' '
            || json[k] == '\t' || json[k] == '\n' || json[k] == '\r') by {
            if k < i {
                assert(json[k] == left[k]);
            } else {
                assert(json[k] == right[k - j]);
            }
        }
    }
}

/// The number that entries hold under a key, where they hold one.
pub open spec fn held_i32(entries: Map<Seq<char>, Seq<char>>, key: Seq<char>) -> Option<i32> {
    if entries.contains_key(key) {
        json_i32(entries[key])
    } else {
        None
    }
}

/// The fate of a session after an attempt to change it.
pub open spec fn fate_after_change(fate: SessionFate) -> SessionFate {
    match fate {
        SessionFate::Unchanged => SessionFate::Changed,
        _ => fate,
    }
}

/// Whether a session was emptied, unless it was purged before.
pub open spec fn emptied(before: Session, after: Session) -> bool {
    &&& session_fate(after) == fate_after_change(session_fate(before))
    &&& session_entries(after) == (if session_fate(before) is Purged {
        session_entries(before)
    } else {
        Map::empty()
    })
}

/// Whether a number was written to a session under a key, unless it was purged
/// before.
pub open spec fn written(before: Session, after: Session, key: Seq<char>, value: i32) -> bool {
    &&& session_fate(after) == fate_after_change(session_fate(before))
    &&& session_entries(after) == (if session_fate(before) is Purged {
        session_entries(before)
    } else {
        session_entries(before).insert(key, text::decimal(value as int))
    })
}

/// Reads a number from a session.
///
/// Trusted: calls `actix_session::Session::get` for an `i32`. It is claimed to
/// find nothing where the session has no such key, the number where the text
/// under the key is JSON for an `i32`, and to fail where the text is not. The
/// claim is about the entries at the time of the call: it says nothing of a
/// session that is written through another handle before the next one.
#[verifier::external_body]
fn session_get(session: &Session, key: &str) -> (r: Result<Option<i32>, SessionGetError>)
    ensures
        match r {
            Ok(Some(value)) => session_entries(*session).contains_key(key@) && json_reads(
                session_entries(*session)[key@],
                value,
            ),
            Ok(None) => !session_entries(*session).contains_key(key@),
            Err(_) => session_entries(*session).contains_key(key@) && forall|n: i32|
                !json_reads(session_entries(*session)[key@], n),
        },
{
    session.get::<i32>(key)
}

/// Writes a number to a session.
///
/// Trusted: calls `actix_session::Session::insert` with an `i32`. It is claimed
/// to succeed, to put the decimal text of the number under the key, and to leave
/// a purged session alone. The call
/// panics where another handle of the session lends out its entries meanwhile.
#[verifier::external_body]
pub(crate) fn session_insert(session: &mut Session, key: &str, value: i32) -> (r: Result<
    (),
    SessionInsertError,
>)
    ensures
        r is Ok,
        session_fate(*final(session)) == fate_after_change(session_fate(*old(session))),
        session_entries(*final(session)) == (if session_fate(*old(session)) is Purged {
            session_entries(*old(session))
        } else {
            session_entries(*old(session)).insert(key@, text::decimal(value as int))
        }),
{
    session.insert(key, value)
}

/// Empties a session.
///
/// Trusted: calls `actix_session::Session::clear`. It is claimed to remove every
/// entry, and to leave a purged session alone. The call panics where another
/// handle of the session lends out its entries meanwhile.
#[verifier::external_body]
fn session_clear(session: &mut Session)
    ensures
        session_fate(*final(session)) == fate_after_change(session_fate(*old(session))),
        session_entries(*final(session)) == (if session_fate(*old(session)) is Purged {
            session_entries(*old(session))
        } else {
            Map::empty()
        }),
{
    session.clear()
}

/// Reads a number from a session, where it holds one.
pub fn session_number(session: &Session, key: &str) -> (r: Option<i32>)
    ensures
        r == held_i32(session_entries(*session), key@),
{
    match session_get(session, key) {
        Ok(value) => {
            proof {
                if let Some(n) = value {
                    let json = session_entries(*session)[key@];
                    law_json_number_is_unique(json, n, choose|m: i32| json_reads(json, m));
                }
            }
            value
        },
        Err(_) => None,
    }
}

/// Whether a user with a number and a privilege may do what requires some
/// privilege. Both must be known.
pub open spec fn privilege_outcome(
    user_id: Option<i32>,
    privilege: Option<i32>,
    require: i32,
) -> Result<(i32, i32), APIError> {
    match (user_id, privilege) {
        (Some(user), Some(level)) => if level >= require {
            Ok((user, level))
        } else {
            Err(APIError::Unauthorized)
        },
        _ => Err(APIError::NotLogin),
    }
}

/// Decides whether a user with a number and a privilege may do what requires
/// some privilege.
pub fn check_privilege(user_id: Option<i32>, privilege: Option<i32>, require: i32) -> (r: Result<
    (i32, i32),
    APIError,
>)
    ensures
        r == privilege_outcome(user_id, privilege, require),
{
    match (user_id, privilege) {
        (Some(user), Some(level)) => if level >= require {
            Ok((user, level))
        } else {
            Err(APIError::Unauthorized)
        },
        _ => Err(APIError::NotLogin),
    }
}

/// The user and privilege of a session, where the privilege is enough.
pub fn user_privilege_check(session: &Session, require: i32) -> (r: Result<(i32, i32), APIError>)
    ensures
        r == session_privilege_outcome(session_entries(*session), require),
{
    check_privilege(
        session_number(session, SESSION_USER_ID),
        session_number(session, SESSION_PRIVILEGE),
        require,
    )
}

/// Whether the user of a session's entries may do what requires some privilege.
pub open spec fn session_privilege_outcome(
    entries: Map<Seq<char>, Seq<char>>,
    require: i32,
) -> Result<(i32, i32), APIError> {
    privilege_outcome(
        held_i32(entries, SESSION_USER_ID@),
        held_i32(entries, SESSION_PRIVILEGE@),
        require,
    )
}

/// Unpacks an outcome that says whether the session has to go, and empties the
/// session where it has to.
pub fn handle_session<T>(session: &mut Session, outcome: (T, bool)) -> (r: T)
    ensures
        r == outcome.0,
        if outcome.1 {
            emptied(*old(session), *final(session))
        } else {
            *final(session) == *old(session)
        },
{
    let (value, kill_session) = outcome;
    if kill_session {
        session_clear(session);
    }
    value
}

/// Empties the session of a request that was refused for its session.
pub fn kill_session(session: &mut Session, error: &APIError)
    ensures
        if error is InvalidSession {
            emptied(*old(session), *final(session))
        } else {
            *final(session) == *old(session)
        },
{
    if *error == APIError::InvalidSession {
        session_clear(session);
    }
}

/// A user that may do what requires some privilege may do what requires less,
/// as the same user with the same privilege.
pub proof fn law_privilege_is_a_ladder(
    user_id: Option<i32>,
    privilege: Option<i32>,
    high: i32,
    low: i32,
)
    requires
        low <= high,
        privilege_outcome(user_id, privilege, high) is Ok,
    ensures
        privilege_outcome(user_id, privilege, low) == privilege_outcome(user_id, privilege, high),
        privilege_outcome(user_id, privilege, high)->Ok_0.1 >= high,
{
}

/// Whether a user is logged in does not depend on what is required.
pub proof fn law_login_before_privilege(
    user_id: Option<i32>,
    privilege: Option<i32>,
    require: i32,
)
    ensures
        privilege_outcome(user_id, privilege, require) == Err::<(i32, i32), APIError>(
            APIError::NotLogin,
        ) <==> user_id is None || privilege is None,
        privilege_outcome(user_id, privilege, require) == Err::<(i32, i32), APIError>(
            APIError::Unauthorized,
        ) <==> user_id is Some && privilege is Some && privilege->0 < require,
{
}

/// A user with enough privilege is accepted, as that user with that privilege,
/// whatever is required and however much more than enough the privilege is. One
/// with less is not authorized, and one whose number or privilege is unknown is
/// not logged in.
pub proof fn law_enough_privilege_is_accepted(user: i32, level: i32, require: i32)
    ensures
        level >= require ==> privilege_outcome(Some(user), Some(level), require) == Ok::<
            (i32, i32),
            APIError,
        >((user, level)),
        level < require ==> privilege_outcome(Some(user), Some(level), require) == Err::<
            (i32, i32),
            APIError,
        >(APIError::Unauthorized),
        privilege_outcome(None, Some(level), require) == Err::<(i32, i32), APIError>(
            APIError::NotLogin,
        ),
        privilege_outcome(Some(user), None, require) == Err::<(i32, i32), APIError>(
            APIError::NotLogin,
        ),
        privilege_outcome(None, None, require) == Err::<(i32, i32), APIError>(APIError::NotLogin),
{
}

/// The user of a session is the number under `user_id` and the privilege the one
/// under `user_privilege`, and nothing else in the session has a part in whether
/// the user is accepted.
pub proof fn law_session_names_user_and_privilege(
    entries: Map<Seq<char>, Seq<char>>,
    others: Map<Seq<char>, Seq<char>>,
    require: i32,
)
    ensures
        session_privilege_outcome(entries, require) matches Ok((user, level)) ==> {
            &&& held_i32(entries, "user_id"@) == Some(user)
            &&& held_i32(entries, "user_privilege"@) == Some(level)
            &&& level >= require
        },
        session_privilege_outcome(entries, require) is Ok <==> {
            &&& held_i32(entries, "user_id"@) is Some
            &&& held_i32(entries, "user_privilege"@) is Some
            &&& held_i32(entries, "user_privilege"@)->0 >= require
        },
        session_privilege_outcome(entries, require) == Err::<(i32, i32), APIError>(
            APIError::NotLogin,
        ) <==> held_i32(entries, "user_id"@) is None || held_i32(entries, "user_privilege"@) is None,
        session_privilege_outcome(entries, require) == Err::<(i32, i32), APIError>(
            APIError::Unauthorized,
        ) <==> {
            &&& held_i32(entries, "user_id"@) is Some
            &&& held_i32(entries, "user_privilege"@) is Some
            &&& held_i32(entries, "user_privilege"@)->0 < require
        },
        held_i32(entries, "user_id"@) == held_i32(others, "user_id"@) && held_i32(
            entries,
            "user_privilege"@,
        ) == held_i32(others, "user_privilege"@) ==> session_privilege_outcome(entries, require)
            == session_privilege_outcome(others, require),
{
}

/// Entries hold under a key the number that the text under the key stands for,
/// and nothing where there is no text.
pub proof fn law_held_number_is_under_key(
    entries: Map<Seq<char>, Seq<char>>,
    key: Seq<char>,
    json: Seq<char>,
)
    ensures
        held_i32(entries.insert(key, json), key) == json_i32(json),
        held_i32(entries.remove(key), key) is None,
        entries.contains_key(key) ==> held_i32(entries, key) == json_i32(entries[key]),
        !entries.contains_key(key) ==> held_i32(entries, key) is None,
{
}

/// A session that was emptied has no entry left and is saved, and one that had
/// been purged is left as it was.
pub proof fn law_emptied_session_has_no_entries(before: Session, after: Session, key: Seq<char>)
    requires
        emptied(before, after),
    ensures
        !(session_fate(before) is Purged) ==> !session_entries(after).contains_key(key),
        session_fate(before) is Purged ==> session_entries(after) == session_entries(before),
        session_fate(before) is Unchanged ==> session_fate(after) is Changed,
        !(session_fate(before) is Unchanged) ==> session_fate(after) == session_fate(before),
{
}

/// A number written to a session stands there in decimal under its key, every
/// other key has the text that it had, and the session is saved. One that had
/// been purged is left as it was.
pub proof fn law_written_session_keeps_the_rest(
    before: Session,
    after: Session,
    key: Seq<char>,
    value: i32,
    other: Seq<char>,
)
    requires
        written(before, after, key, value),
    ensures
        !(session_fate(before) is Purged) ==> {
            &&& session_entries(after).contains_key(key)
            &&& session_entries(after)[key] == text::decimal(value as int)
            &&& other != key ==> {
                &&& session_entries(after).contains_key(other) <==> session_entries(
                    before,
                ).contains_key(other)
                &&& session_entries(before).contains_key(other) ==> session_entries(after)[other]
                    == session_entries(before)[other]
            }
        },
        session_fate(before) is Purged ==> session_entries(after) == session_entries(before),
        session_fate(before) is Unchanged ==> session_fate(after) is Changed,
        !(session_fate(before) is Unchanged) ==> session_fate(after) == session_fate(before),
{
}

/// Nobody is logged in with a session that was emptied, unless it had been
/// purged.
pub proof fn law_emptied_session_is_logged_out(before: Session, after: Session, require: i32)
    requires
        emptied(before, after),
        !(session_fate(before) is Purged),
    ensures
        session_privilege_outcome(session_entries(after), require) == Err::<(i32, i32), APIError>(
            APIError::NotLogin,
        ),
        held_i32(session_entries(after), SESSION_TEAM_ID@) is None,
        !(session_fate(after) is Unchanged),
{
}

/// A number written to a session that is not purged can be read back, and the
/// numbers under other keys stay.
pub proof fn law_written_number_is_held(
    before: Session,
    after: Session,
    key: Seq<char>,
    value: i32,
    other: Seq<char>,
)
    requires
        written(before, after, key, value),
        !(session_fate(before) is Purged),
    ensures
        held_i32(session_entries(after), key) == Some(value),
        other != key ==> held_i32(session_entries(after), other) == held_i32(
            session_entries(before),
            other,
        ),
{
    law_decimal_is_json(value);
}

} // verus!
