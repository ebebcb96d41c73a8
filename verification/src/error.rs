//! The errors of the request handlers, how they are worded, answered and
//! logged.

use crate::text;
use crate::text::{decimal_text, refnum_text, same_text, Journal, Refnum};
use vstd::prelude::*;
use vstd::string::*;

verus! {

/// The location of a server error that nobody has located yet.
pub const LOCATION_UNKNOWN: &'static str = "[unknown]";

/// The message of a server error for a failed database transaction.
pub const ERROR_TRANSACTION: &'static str = "Transaction";

/// The status of an answer to a form that was not acceptable.
pub const STATUS_NOT_ACCEPTABLE: u16 = 406;

/// The status of an answer to a request that the server failed to handle.
pub const STATUS_INTERNAL_SERVER_ERROR: u16 = 500;

/// The status of an answer to any other refused request.
pub const STATUS_BAD_REQUEST: u16 = 400;

/// The media type of the page with which a refused request is answered.
pub const CONTENT_TYPE_HTML: &'static str = "text/html; charset=utf-8";

/// Why a request was refused.
#[derive(Debug)]
pub enum APIError {
    InvalidFormData,
    InvalidQuery,
    InvalidSession,
    NotLogin,
    NotInTeam,
    InsufficientTokens,
    Unauthorized,
    TransactionCancel { balance: i64 },
    ServerError { location: &'static str, msg: &'static str, refnum: Refnum },
}

/// The answer to a refused request: a status and a page.
pub struct ErrorReply {
    pub status: u16,
    pub content_type: &'static str,
    pub body: String,
}

/// The line that the log holds of the failure behind a reference number.
pub open spec fn failure_line(refnum: Refnum, error: Seq<char>) -> Seq<char> {
    "Error ["@ + text::hyphenated(refnum.number) + "]: "@ + error
}

/// The line that the log holds of a located server error.
pub open spec fn server_error_line(
    location: Seq<char>,
    msg: Seq<char>,
    refnum: Refnum,
) -> Seq<char> {
    "Server error at "@ + location + ", ref["@ + text::hyphenated(refnum.number) + "]: "@ + msg
}

impl APIError {
    /// Whether two errors say the same.
    pub open spec fn same(self, other: APIError) -> bool {
        match (self, other) {
            (
                APIError::TransactionCancel { balance: a },
                APIError::TransactionCancel { balance: b },
            ) => a == b,
            (
                APIError::ServerError { location: l, msg: m, refnum: r },
                APIError::ServerError { location: p, msg: q, refnum: s },
            ) => l@ == p@ && m@ == q@ && r == s,
            (APIError::ServerError { .. }, _) => false,
            (_, APIError::ServerError { .. }) => false,
            _ => self == other,
        }
    }

    /// The error with its location replaced, where it has one.
    pub open spec fn located(self, location: &'static str) -> APIError {
        match self {
            APIError::ServerError { location: _, msg, refnum } => APIError::ServerError {
                location,
                msg,
                refnum,
            },
            _ => self,
        }
    }

    /// The wording that a client reads.
    pub open spec fn wording(self) -> Seq<char> {
        match self {
            APIError::InvalidFormData => "请求格式或字段长度不正确"@,
            APIError::InvalidQuery => "请求参数不正确"@,
            APIError::InvalidSession => "Cookie 不合法"@,
            APIError::NotLogin => "未登录"@,
            APIError::NotInTeam => "不在队伍中"@,
            APIError::InsufficientTokens => "余额不足"@,
            APIError::Unauthorized => "权限不足"@,
            APIError::TransactionCancel { balance } => "交易未执行，当前余额 "@ + text::decimal(
                balance as int,
            ),
            APIError::ServerError { location, msg, refnum } => "服务器内部错误： "@ + location@
                + ", ref["@ + text::hyphenated(refnum.number) + "]: "@ + msg@,
        }
    }

    /// The status with which the error is answered.
    pub open spec fn status(self) -> u16 {
        match self {
            APIError::InvalidFormData => STATUS_NOT_ACCEPTABLE,
            APIError::ServerError { .. } => STATUS_INTERNAL_SERVER_ERROR,
            _ => STATUS_BAD_REQUEST,
        }
    }

    /// The lines that logging the error adds to the log.
    pub open spec fn log_lines(self) -> Seq<Seq<char>> {
        match self {
            APIError::ServerError { location, msg, refnum } => seq![
                server_error_line(location@, msg@, refnum),
            ],
            _ => Seq::empty(),
        }
    }

    /// Names the place where a server error happened. Other errors stay as
    /// they are.
    pub fn set_location(self, location: &'static str) -> (r: Self)
        ensures
            r == self.located(location),
    {
        match self {
            APIError::ServerError { location: _, msg, refnum } => APIError::ServerError {
                location,
                msg,
                refnum,
            },
            _ => self,
        }
    }

    /// Logs a server error. Other errors are not logged.
    pub fn log(&self, journal: &mut Journal)
        ensures
            final(journal)@ == old(journal)@ + self.log_lines(),
    {
        match self {
            APIError::ServerError { location, msg, refnum } => {
                let mut line = "Server error at ".to_owned();
                line.append(*location);
                line.append(", ref[");
                line.append(refnum_text(refnum.number).as_str());
                line.append("]: ");
                line.append(*msg);
                journal.record(line);
                assert(journal@ =~= old(journal)@ + self.log_lines());
            },
            _ => {
                assert(journal@ =~= old(journal)@ + self.log_lines());
            },
        }
    }

    /// The wording that a client reads.
    pub fn to_string(&self) -> (text: String)
        ensures
            text@ == self.wording(),
    {
        match self {
            APIError::InvalidFormData => "请求格式或字段长度不正确".to_owned(),
            APIError::InvalidQuery => "请求参数不正确".to_owned(),
            APIError::InvalidSession => "Cookie 不合法".to_owned(),
            APIError::NotLogin => "未登录".to_owned(),
            APIError::NotInTeam => "不在队伍中".to_owned(),
            APIError::InsufficientTokens => "余额不足".to_owned(),
            APIError::Unauthorized => "权限不足".to_owned(),
            APIError::TransactionCancel { balance } => {
                let mut wording = "交易未执行，当前余额 ".to_owned();
                wording.append(decimal_text(*balance).as_str());
                wording
            },
            APIError::ServerError { location, msg, refnum } => {
                let mut wording = "服务器内部错误： ".to_owned();
                wording.append(*location);
                wording.append(", ref[");
                wording.append(refnum_text(refnum.number).as_str());
                wording.append("]: ");
                wording.append(*msg);
                wording
            },
        }
    }

    /// The status with which the error is answered.
    pub fn status_code(&self) -> (status: u16)
        ensures
            status == self.status(),
    {
        match self {
            APIError::InvalidFormData => STATUS_NOT_ACCEPTABLE,
            APIError::ServerError { .. } => STATUS_INTERNAL_SERVER_ERROR,
            _ => STATUS_BAD_REQUEST,
        }
    }

    /// The answer to the request that the error refused.
    pub fn error_response(&self) -> (reply: ErrorReply)
        ensures
            reply.status == self.status(),
            reply.content_type == CONTENT_TYPE_HTML,
            reply.content_type@ == "text/html; charset=utf-8"@,
            reply.body@ == self.wording(),
    {
        ErrorReply {
            status: self.status_code(),
            content_type: CONTENT_TYPE_HTML,
            body: self.to_string(),
        }
    }
}

impl PartialEq for APIError {
    fn eq(&self, other: &Self) -> (r: bool) {
        match (self, other) {
            (APIError::InvalidFormData, APIError::InvalidFormData) => true,
            (APIError::InvalidQuery, APIError::InvalidQuery) => true,
            (APIError::InvalidSession, APIError::InvalidSession) => true,
            (APIError::NotLogin, APIError::NotLogin) => true,
            (APIError::NotInTeam, APIError::NotInTeam) => true,
            (APIError::InsufficientTokens, APIError::InsufficientTokens) => true,
            (APIError::Unauthorized, APIError::Unauthorized) => true,
            (
                APIError::TransactionCancel { balance: a },
                APIError::TransactionCancel { balance: b },
            ) => *a == *b,
            (
                APIError::ServerError { location: l, msg: m, refnum: r },
                APIError::ServerError { location: p, msg: q, refnum: s },
            ) => same_text(l, p) && same_text(m, q) && *r == *s,
            _ => false,
        }
    }
}

impl Eq for APIError {

}

impl vstd::std_specs::cmp::PartialEqSpecImpl for APIError {
    open spec fn obeys_eq_spec() -> bool {
        true
    }

    open spec fn eq_spec(&self, other: &Self) -> bool {
        self.same(*other)
    }
}

/// A server error for a failure that carries a given reference number: the
/// failure itself goes to the log, and the client gets the number to quote.
pub fn server_error(
    refnum: Refnum,
    error: &str,
    msg: &'static str,
    journal: &mut Journal,
) -> (r: APIError)
    ensures
        r == (APIError::ServerError { location: LOCATION_UNKNOWN, msg, refnum }),
        final(journal)@ == old(journal)@.push(failure_line(refnum, error@)),
{
    let mut line = "Error [".to_owned();
    line.append(refnum_text(refnum.number).as_str());
    line.append("]: ");
    line.append(error);
    journal.record(line);
    APIError::ServerError { location: LOCATION_UNKNOWN, msg, refnum }
}

/// A server error at an unknown location, under a fresh reference number.
/// `error` is the text of the failure.
pub fn new_unlocated_server_error(
    error: &str,
    msg: &'static str,
    journal: &mut Journal,
) -> (r: APIError)
    ensures
        unlocated_server_error(r, error@, msg, old(journal)@, final(journal)@),
        r->refnum.drawn(),
{
    let refnum = Refnum::draw();
    server_error(refnum, error, msg, journal)
}

/// Whether `r` is a server error at an unknown location whose reference number
/// is fresh, and whose failure was logged under that number.
pub open spec fn unlocated_server_error(
    r: APIError,
    error: Seq<char>,
    msg: &'static str,
    before: Seq<Seq<char>>,
    after: Seq<Seq<char>>,
) -> bool {
    &&& r is ServerError
    &&& r == (APIError::ServerError { location: LOCATION_UNKNOWN, msg, refnum: r->refnum })
    &&& text::is_random_refnum(r->refnum.number)
    &&& after == before.push(failure_line(r->refnum, error))
}

/// A server error at a known location, logged with the failure behind it.
pub fn log_server_error(
    error: &str,
    location: &'static str,
    msg: &'static str,
    journal: &mut Journal,
) -> (r: APIError)
    ensures
        located_server_error(r, error@, location, msg, old(journal)@, final(journal)@),
        r->refnum.drawn(),
{
    let unlocated = new_unlocated_server_error(error, msg, journal);
    let located = unlocated.set_location(location);
    located.log(journal);
    assert(journal@ =~= old(journal)@.push(failure_line(located->refnum, error@)).push(
        server_error_line(location@, msg@, located->refnum),
    ));
    located
}

/// Whether `r` is a server error at a known location whose reference number is
/// fresh, and whose failure and location were logged under that number.
pub open spec fn located_server_error(
    r: APIError,
    error: Seq<char>,
    location: &'static str,
    msg: &'static str,
    before: Seq<Seq<char>>,
    after: Seq<Seq<char>>,
) -> bool {
    &&& r is ServerError
    &&& r == (APIError::ServerError { location, msg, refnum: r->refnum })
    &&& text::is_random_refnum(r->refnum.number)
    &&& after == before.push(failure_line(r->refnum, error)).push(
        server_error_line(location@, msg@, r->refnum),
    )
}

/// The server error for a database transaction that failed.
pub fn transaction_error(error: &str, journal: &mut Journal) -> (r: APIError)
    ensures
        unlocated_server_error(r, error@, ERROR_TRANSACTION, old(journal)@, final(journal)@),
        r->refnum.drawn(),
{
    new_unlocated_server_error(error, ERROR_TRANSACTION, journal)
}

/// Turns one error that the caller allows into the absence of a value.
pub fn allow_err<T>(outcome: Result<T, APIError>, allow: APIError) -> (r: Result<
    Option<T>,
    APIError,
>)
    ensures
        r == allowed(outcome, allow),
{
    match outcome {
        Ok(value) => Ok(Some(value)),
        Err(e) => if e == allow {
            Ok(None)
        } else {
            Err(e)
        },
    }
}

/// What is left of an outcome once an error is allowed.
pub open spec fn allowed<T>(outcome: Result<T, APIError>, allow: APIError) -> Result<
    Option<T>,
    APIError,
> {
    match outcome {
        Ok(value) => Ok(Some(value)),
        Err(e) => if e.same(allow) {
            Ok(None)
        } else {
            Err(e)
        },
    }
}

/// Errors that say the same form an equivalence.
pub proof fn law_same_is_equivalence(a: APIError, b: APIError, c: APIError)
    ensures
        a.same(a),
        a.same(b) ==> b.same(a),
        a.same(b) && b.same(c) ==> a.same(c),
{
}

/// Errors say the same, and compare equal, exactly where they are of one kind and
/// agree in all that they carry: the balance of a cancelled transaction, or the
/// location, the message and the reference number of a server error.
pub proof fn law_same_means_same_contents(a: APIError, b: APIError)
    ensures
        a.same(b) ==> (a is InvalidFormData <==> b is InvalidFormData),
        a.same(b) ==> (a is InvalidQuery <==> b is InvalidQuery),
        a.same(b) ==> (a is InvalidSession <==> b is InvalidSession),
        a.same(b) ==> (a is NotLogin <==> b is NotLogin),
        a.same(b) ==> (a is NotInTeam <==> b is NotInTeam),
        a.same(b) ==> (a is InsufficientTokens <==> b is InsufficientTokens),
        a.same(b) ==> (a is Unauthorized <==> b is Unauthorized),
        a.same(b) ==> (a is TransactionCancel <==> b is TransactionCancel),
        a.same(b) ==> (a is ServerError <==> b is ServerError),
        a == b ==> a.same(b),
        vstd::std_specs::cmp::PartialEqSpec::eq_spec(&a, &b) <==> a.same(b),
        a is TransactionCancel && b is TransactionCancel ==> (a.same(b) <==> a->balance
            == b->balance),
        a is ServerError && b is ServerError ==> (a.same(b) <==> a->location@ == b->location@
            && a->msg@ == b->msg@ && a->refnum.number == b->refnum.number),
{
}

/// Each error has its own wording. A cancelled transaction names the balance in
/// decimal, and a server error its location, its reference number and its
/// message.
pub proof fn law_wordings(error: APIError)
    ensures
        error is InvalidFormData ==> error.wording() == "请求格式或字段长度不正确"@,
        error is InvalidQuery ==> error.wording() == "请求参数不正确"@,
        error is InvalidSession ==> error.wording() == "Cookie 不合法"@,
        error is NotLogin ==> error.wording() == "未登录"@,
        error is NotInTeam ==> error.wording() == "不在队伍中"@,
        error is InsufficientTokens ==> error.wording() == "余额不足"@,
        error is Unauthorized ==> error.wording() == "权限不足"@,
        error matches APIError::TransactionCancel { balance } ==> error.wording()
            == "交易未执行，当前余额 "@ + text::decimal(balance as int),
        error matches APIError::ServerError { location, msg, refnum } ==> error.wording()
            == "服务器内部错误： "@ + location@ + ", ref["@ + text::hyphenated(refnum.number)
            + "]: "@ + msg@,
{
}

/// Two cancelled transactions are worded alike only where the balance is the
/// same.
pub proof fn law_balance_can_be_read(a: i64, b: i64)
    requires
        (APIError::TransactionCancel { balance: a }).wording() == (APIError::TransactionCancel {
            balance: b,
        }).wording(),
    ensures
        a == b,
{
    let lead = "交易未执行，当前余额 "@;
    let x = (APIError::TransactionCancel { balance: a }).wording();
    let y = (APIError::TransactionCancel { balance: b }).wording();
    assert(x.skip(lead.len() as int) =~= text::decimal(a as int));
    assert(y.skip(lead.len() as int) =~= text::decimal(b as int));
    text::law_decimal_identifies(a as int, b as int);
}

/// The line of a failure quotes the reference number in brackets and ends with
/// the text of the failure, whatever the number and the text are.
pub proof fn law_failure_line_quotes_number(refnum: Refnum, error: Seq<char>)
    ensures
        failure_line(refnum, error) == "Error ["@ + text::hyphenated(refnum.number) + "]: "@
            + error,
{
}

/// Errors that say the same are worded, answered and logged alike.
pub proof fn law_same_errors_answered_alike(a: APIError, b: APIError)
    requires
        a.same(b),
    ensures
        a.wording() == b.wording(),
        a.status() == b.status(),
        a.log_lines() == b.log_lines(),
{
}

/// Of two locations the later one stays, and locating an error changes
/// neither its message, its reference number nor the status of the answer.
pub proof fn law_last_location_stays(
    error: APIError,
    first: &'static str,
    second: &'static str,
)
    ensures
        error.located(first).located(second) == error.located(second),
        error.located(first).status() == error.status(),
        error matches APIError::ServerError { location, msg, refnum } ==> error.located(first) == (
        APIError::ServerError { location: first, msg, refnum }),
        !(error is ServerError) ==> error.located(first) == error,
{
}

/// The status tells the three families of errors apart.
pub proof fn law_status_tells_family(error: APIError)
    ensures
        error.status() == STATUS_INTERNAL_SERVER_ERROR <==> error is ServerError,
        error.status() == STATUS_NOT_ACCEPTABLE <==> error is InvalidFormData,
        error.status() == STATUS_BAD_REQUEST <==> !(error is ServerError) && !(
        error is InvalidFormData),
        error.status() == 500 <==> error is ServerError,
        error.status() == 406 <==> error is InvalidFormData,
        error.status() == 500 || error.status() == 406 || error.status() == 400,
{
}

/// Exactly the errors that are answered as internal are logged, one line each.
pub proof fn law_internal_errors_logged(error: APIError)
    ensures
        error.log_lines().len() == (if error.status() == STATUS_INTERNAL_SERVER_ERROR {
            1nat
        } else {
            0nat
        }),
        error matches APIError::ServerError { location, msg, refnum } ==> error.log_lines()
            == seq![
            "Server error at "@ + location@ + ", ref["@ + text::hyphenated(refnum.number) + "]: "@
                + msg@,
        ],
        !(error is ServerError) ==> error.log_lines() == Seq::<Seq<char>>::empty(),
{
}

/// The reference number that the client reads is the one under which both log
/// lines of a located server error stand, behind all earlier lines.
pub proof fn law_reference_leads_to_log(
    r: APIError,
    error: Seq<char>,
    location: &'static str,
    msg: &'static str,
    before: Seq<Seq<char>>,
    after: Seq<Seq<char>>,
)
    requires
        located_server_error(r, error, location, msg, before, after),
    ensures
        r is ServerError,
        r->location == location,
        r->msg == msg,
        r.wording() == "服务器内部错误： "@ + location@ + ", ref["@ + text::hyphenated(r->refnum.number)
            + "]: "@ + msg@,
        after.len() == before.len() + 2,
        after.take(before.len() as int) == before,
        after[before.len() as int] == "Error ["@ + text::hyphenated(r->refnum.number) + "]: "@ + error,
        after[before.len() as int + 1] == "Server error at "@ + location@ + ", ref["@ + text::hyphenated(
            r->refnum.number,
        ) + "]: "@ + msg@,
{
    assert(after.take(before.len() as int) =~= before);
}

/// The reference number of a server error at an unknown location leads to the
/// line of the failure in the log, behind all earlier lines.
pub proof fn law_unlocated_reference_leads_to_log(
    r: APIError,
    error: Seq<char>,
    msg: &'static str,
    before: Seq<Seq<char>>,
    after: Seq<Seq<char>>,
)
    requires
        unlocated_server_error(r, error, msg, before, after),
    ensures
        r is ServerError,
        r->location@ == "[unknown]"@,
        r->msg == msg,
        r.wording() == "服务器内部错误： "@ + LOCATION_UNKNOWN@ + ", ref["@ + text::hyphenated(
            r->refnum.number,
        ) + "]: "@ + msg@,
        after.len() == before.len() + 1,
        after.take(before.len() as int) == before,
        after[before.len() as int] == "Error ["@ + text::hyphenated(r->refnum.number) + "]: "@ + error,
{
    assert(after.take(before.len() as int) =~= before);
}

/// Allowing an error loses no value and hides no other error.
pub proof fn law_allowing_is_exact<T>(outcome: Result<T, APIError>, allow: APIError)
    ensures
        outcome is Ok ==> allowed(outcome, allow) == Ok::<Option<T>, APIError>(
            Some(outcome->Ok_0),
        ),
        allowed(outcome, allow) == Ok::<Option<T>, APIError>(None) <==> outcome is Err
            && outcome->Err_0.same(allow),
        outcome is Err && !outcome->Err_0.same(allow) ==> allowed(outcome, allow) == Err::<
            Option<T>,
            APIError,
        >(outcome->Err_0),
{
}

} // verus!
