use actix_web::http::header::ContentType;
use actix_web::http::StatusCode;
use api_util::error::{
    allow_err, log_server_error, new_unlocated_server_error, server_error, transaction_error,
    APIError, ERROR_TRANSACTION, LOCATION_UNKNOWN,
};
use api_util::request::APIRequest;
use api_util::text::{Journal, Refnum};

const NUMBER: u128 = 0xa1a2a3a4_b1b2_41c2_81d2_d3d4d5d6d7d8;
const REF: Refnum = Refnum { number: NUMBER };
const REF_TEXT: &str = "a1a2a3a4-b1b2-41c2-81d2-d3d4d5d6d7d8";

fn sample() -> APIError {
    APIError::ServerError { location: "here", msg: "broken", refnum: REF }
}

struct Form {
    length: usize,
}

impl APIRequest for Form {
    fn ok(&self) -> bool {
        self.length < 10
    }
}

#[test]
fn wordings_are_exact() {
    assert_eq!(APIError::InvalidFormData.to_string(), "请求格式或字段长度不正确");
    assert_eq!(APIError::InvalidQuery.to_string(), "请求参数不正确");
    assert_eq!(APIError::InvalidSession.to_string(), "Cookie 不合法");
    assert_eq!(APIError::NotLogin.to_string(), "未登录");
    assert_eq!(APIError::NotInTeam.to_string(), "不在队伍中");
    assert_eq!(APIError::InsufficientTokens.to_string(), "余额不足");
    assert_eq!(APIError::Unauthorized.to_string(), "权限不足");
    assert_eq!(
        APIError::TransactionCancel { balance: -42 }.to_string(),
        "交易未执行，当前余额 -42"
    );
    assert_eq!(
        sample().to_string(),
        format!("服务器内部错误： here, ref[{}]: broken", REF_TEXT)
    );
}

#[test]
fn reference_numbers_read_as_uuids() {
    for number in [0u128, 1, u128::MAX, NUMBER] {
        let refnum = Refnum { number };
        let error = APIError::ServerError { location: "", msg: "", refnum };
        assert_eq!(
            error.to_string(),
            format!("服务器内部错误： , ref[{}]: ", uuid::Uuid::from_u128(number).hyphenated())
        );
    }
}

#[test]
fn statuses_are_those_of_http() {
    let status = |e: APIError| StatusCode::from_u16(e.status_code()).unwrap();
    assert_eq!(status(APIError::InvalidFormData), StatusCode::NOT_ACCEPTABLE);
    assert_eq!(status(sample()), StatusCode::INTERNAL_SERVER_ERROR);
    for error in [
        APIError::InvalidQuery,
        APIError::InvalidSession,
        APIError::NotLogin,
        APIError::NotInTeam,
        APIError::InsufficientTokens,
        APIError::Unauthorized,
        APIError::TransactionCancel { balance: 1 },
    ] {
        assert_eq!(status(error), StatusCode::BAD_REQUEST);
    }
}

#[test]
fn refused_request_is_answered_with_a_page() {
    let reply = APIError::NotLogin.error_response();
    assert_eq!(reply.status, 400);
    assert_eq!(reply.content_type, ContentType::html().to_string());
    assert_eq!(reply.body, "未登录");
}

#[test]
fn last_location_stays() {
    let located = sample().set_location("first").set_location("second");
    assert!(located == APIError::ServerError { location: "second", msg: "broken", refnum: REF });
    assert!(APIError::NotLogin.set_location("first") == APIError::NotLogin);
}

#[test]
fn equality_compares_every_field() {
    assert!(sample() == sample());
    assert!(sample() != sample().set_location("there"));
    assert!(sample() != APIError::ServerError { location: "here", msg: "other", refnum: REF });
    assert!(sample() != APIError::ServerError { location: "here", msg: "broken", refnum: Refnum { number: 1 } });
    assert!(
        APIError::TransactionCancel { balance: 1 } != APIError::TransactionCancel { balance: 2 }
    );
    assert!(
        APIError::TransactionCancel { balance: 2 } == APIError::TransactionCancel { balance: 2 }
    );
    assert!(APIError::NotLogin != APIError::NotInTeam);
}

#[test]
fn only_server_errors_are_logged() {
    let mut journal = Journal::new();
    APIError::NotLogin.log(&mut journal);
    assert!(journal.lines.is_empty());
    sample().log(&mut journal);
    assert_eq!(
        journal.lines,
        vec![format!("Server error at here, ref[{}]: broken", REF_TEXT)]
    );
}

#[test]
fn failure_is_logged_under_its_number() {
    let mut journal = Journal::new();
    let error = server_error(REF, "disk full", "broken", &mut journal);
    assert!(
        error == APIError::ServerError { location: LOCATION_UNKNOWN, msg: "broken", refnum: REF }
    );
    assert_eq!(journal.lines, vec![format!("Error [{}]: disk full", REF_TEXT)]);
}

#[test]
fn fresh_numbers_are_random_uuids() {
    let mut journal = Journal::new();
    let first = new_unlocated_server_error("disk full", "broken", &mut journal);
    let second = new_unlocated_server_error("disk full", "broken", &mut journal);
    assert!(first != second);
    match first {
        APIError::ServerError { location, msg, refnum } => {
            assert_eq!(location, "[unknown]");
            assert_eq!(msg, "broken");
            let uuid = uuid::Uuid::from_u128(refnum.number);
            assert_eq!(uuid.get_version_num(), 4);
            assert_eq!(uuid.get_variant(), uuid::Variant::RFC4122);
            assert_eq!(journal.lines[0], format!("Error [{}]: disk full", uuid));
        }
        _ => panic!("a server error was expected"),
    }
}

#[test]
fn located_error_leads_to_both_lines() {
    let mut journal = Journal::new();
    journal.record("earlier".to_string());
    let error = log_server_error("no route", "team", "db", &mut journal);
    let refnum = match error {
        APIError::ServerError { location, msg, refnum } => {
            assert_eq!((location, msg), ("team", "db"));
            uuid::Uuid::from_u128(refnum.number)
        }
        _ => panic!("a server error was expected"),
    };
    assert_eq!(
        journal.lines,
        vec![
            "earlier".to_string(),
            format!("Error [{}]: no route", refnum),
            format!("Server error at team, ref[{}]: db", refnum),
        ]
    );
}

#[test]
fn failed_transaction_is_a_server_error() {
    let mut journal = Journal::new();
    match transaction_error("rolled back", &mut journal) {
        APIError::ServerError { location, msg, .. } => {
            assert_eq!((location, msg), (LOCATION_UNKNOWN, ERROR_TRANSACTION));
            assert_eq!(msg, "Transaction");
        }
        _ => panic!("a server error was expected"),
    }
    assert_eq!(journal.lines.len(), 1);
}

#[test]
fn allowed_error_becomes_absence() {
    let absent: Result<u8, APIError> = Err(APIError::NotInTeam);
    assert!(allow_err(absent, APIError::NotInTeam) == Ok(None));
    let refused: Result<u8, APIError> = Err(APIError::NotLogin);
    assert!(allow_err(refused, APIError::NotInTeam) == Err(APIError::NotLogin));
    let present: Result<u8, APIError> = Ok(7);
    assert!(allow_err(present, APIError::NotInTeam) == Ok(Some(7)));
    let cancelled: Result<u8, APIError> = Err(APIError::TransactionCancel { balance: 1 });
    assert!(
        allow_err(cancelled, APIError::TransactionCancel { balance: 2 })
            == Err(APIError::TransactionCancel { balance: 1 })
    );
}

#[test]
fn unacceptable_form_is_refused() {
    assert!(Form { length: 9 }.sanity() == Ok(()));
    assert!(Form { length: 10 }.sanity() == Err(APIError::InvalidFormData));
}

#[test]
fn different_numbers_read_differently() {
    let wording = |number: u128| {
        APIError::ServerError { location: "", msg: "", refnum: Refnum { number } }.to_string()
    };
    assert_eq!(wording(16), wording(16));
    for (a, b) in [(0u128, 1u128), (1, 16), (NUMBER, NUMBER + 1), (1 << 127, 1 << 126)] {
        assert_ne!(wording(a), wording(b));
    }
}

#[test]
fn errors_that_say_the_same_are_answered_alike() {
    let location = String::from("here");
    let copied: &'static str = Box::leak(location.into_boxed_str());
    let copy = APIError::ServerError { location: copied, msg: "broken", refnum: REF };
    assert!(copy == sample() && sample() == copy);
    assert_eq!(copy.error_response().body, sample().error_response().body);
    assert_eq!(copy.error_response().status, 500);
}

#[test]
fn debug_text_shows_the_hyphenated_number() {
    assert_eq!(
        format!("{:?}", sample()),
        format!("ServerError {{ location: \"here\", msg: \"broken\", refnum: {} }}", REF_TEXT)
    );
    for number in [0u128, 1, u128::MAX, NUMBER] {
        let uuid = uuid::Uuid::from_u128(number);
        assert_eq!(format!("{:?}", Refnum { number }), format!("{:?}", uuid));
        assert_eq!(format!("{:#?}", Refnum { number }), format!("{:#?}", uuid));
    }
    assert_eq!(format!("{:?}", APIError::NotLogin), "NotLogin");
    assert_eq!(
        format!("{:?}", APIError::TransactionCancel { balance: 5 }),
        "TransactionCancel { balance: 5 }"
    );
}
