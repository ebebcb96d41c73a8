use api_util::clock::{check_is_after, Timestamp, MAX_SECS, MIN_SECS};
use api_util::penalty::WaPenalty;
use chrono::{DateTime, TimeDelta, Utc};

fn at(secs: i64, nanos: u32) -> Timestamp {
    Timestamp { secs, nanos }
}

#[test]
fn range_is_that_of_chrono() {
    assert_eq!(MAX_SECS, DateTime::<Utc>::MAX_UTC.timestamp());
    assert_eq!(MIN_SECS, DateTime::<Utc>::MIN_UTC.timestamp());
}

#[test]
fn instants_out_of_range_do_not_exist() {
    assert_eq!(Timestamp::at(1, 0), Some(at(1, 0)));
    assert_eq!(Timestamp::at(-1, 999_999_999), Some(at(-1, 999_999_999)));
    assert_eq!(Timestamp::at(MAX_SECS, 1_999_999_999), Some(at(MAX_SECS, 1_999_999_999)));
    assert_eq!(Timestamp::at(MAX_SECS + 1, 0), None);
    assert_eq!(Timestamp::at(MIN_SECS, 0), Some(at(MIN_SECS, 0)));
    assert_eq!(Timestamp::at(MIN_SECS - 1, 0), None);
    assert_eq!(Timestamp::at(i64::MAX, 0), None);
    assert_eq!(Timestamp::at(i64::MIN, 0), None);
    assert_eq!(Timestamp::at(59, 2_000_000_000), None);
}

#[test]
fn leap_seconds_end_minutes() {
    assert_eq!(Timestamp::at(59, 1_500_000_000), Some(at(59, 1_500_000_000)));
    assert_eq!(Timestamp::at(-1, 1_500_000_000), Some(at(-1, 1_500_000_000)));
    assert_eq!(Timestamp::at(58, 1_500_000_000), None);
    assert_eq!(Timestamp::at(-59, 1_500_000_000), None);
}

#[test]
fn fresh_penalty_costs_least() {
    let fresh = WaPenalty::new();
    assert_eq!(fresh.time_penalty_until, at(1, 0));
    assert_eq!((fresh.token_penalty_level, fresh.time_penalty_level), (0, 0));
    assert_eq!(WaPenalty::default(), fresh);
}

#[test]
fn wrong_answers_walk_up_both_tables() {
    let pauses = [21, 29, 41, 57, 80, 112, 156, 219, 306, 429, 600, 600, 600];
    let tokens = [129, 155, 186, 223, 268, 322, 386, 463, 556, 667, 800, 800, 800];
    let mut penalty = WaPenalty::new();
    for i in 0..13 {
        let now = at(1_000_000 + i as i64, 7);
        assert_eq!(penalty.on_wrong_answer_at(now), tokens[i]);
        assert_eq!(penalty.time_penalty_until, at(now.secs + pauses[i], 7));
        assert_eq!(penalty.token_penalty_level, i as i32 + 1);
        assert_eq!(penalty.time_penalty_level, i as i32 + 1);
    }
}

#[test]
fn levels_below_zero_cost_most() {
    let mut penalty = WaPenalty {
        time_penalty_until: at(1, 0),
        token_penalty_level: -1,
        time_penalty_level: i32::MIN,
    };
    assert_eq!(penalty.on_wrong_answer_at(at(0, 0)), 800);
    assert_eq!(penalty.time_penalty_until, at(600, 0));
    assert_eq!(penalty.token_penalty_level, 0);
    assert_eq!(penalty.time_penalty_level, i32::MIN + 1);
}

#[test]
fn pauses_end_where_chrono_says() {
    for (secs, nanos) in [(0, 0), (-1, 5), (86_399, 999_999_999), (59, 1_500_000_000)] {
        let mut penalty = WaPenalty::new();
        penalty.on_wrong_answer_at(at(secs, nanos));
        let end = DateTime::from_timestamp(secs, nanos).unwrap() + TimeDelta::seconds(21);
        assert_eq!(
            penalty.time_penalty_until,
            at(end.timestamp(), end.timestamp_subsec_nanos())
        );
    }
    let mut penalty = WaPenalty::new();
    penalty.on_wrong_answer_at(at(MAX_SECS - 21, 0));
    assert_eq!(penalty.time_penalty_until, at(MAX_SECS, 0));
}

#[test]
fn wrong_answer_now_pauses_from_now() {
    let mut penalty = WaPenalty::new();
    let before = Utc::now();
    assert_eq!(penalty.on_wrong_answer(), Some(129));
    let after = Utc::now();
    let until = penalty.time_penalty_until;
    assert!(before.timestamp() + 21 <= until.secs && until.secs <= after.timestamp() + 21);
    assert!(until.nanos < 1_000_000_000);
    assert_eq!((penalty.token_penalty_level, penalty.time_penalty_level), (1, 1));
    assert_eq!(penalty.on_wrong_answer(), Some(155));
}

#[test]
fn mid_answer_resets_tokens_only() {
    let mut penalty = WaPenalty::new();
    penalty.on_wrong_answer_at(at(100, 0));
    penalty.on_wrong_answer_at(at(200, 0));
    let reset = penalty.on_new_mid_answer();
    assert_eq!(reset.token_penalty_level, 0);
    assert_eq!(reset.time_penalty_level, 2);
    assert_eq!(reset.time_penalty_until, at(229, 0));
    let mut reset = reset;
    assert_eq!(reset.on_wrong_answer_at(at(300, 0)), 129);
    assert_eq!(reset.time_penalty_until, at(341, 0));
}

#[test]
fn lock_holds_to_the_last_instant() {
    let mut penalty = WaPenalty::new();
    penalty.on_wrong_answer_at(at(100, 500));
    let until = penalty.time_penalty_until;
    assert_eq!(check_is_after(until, at(100, 500)), Some(until));
    assert_eq!(check_is_after(until, at(121, 500)), Some(until));
    assert_eq!(check_is_after(until, at(121, 501)), None);
    assert_eq!(check_is_after(until, at(122, 0)), None);
    assert_eq!(check_is_after(until, at(121, 499)), Some(until));
}

#[test]
fn fresh_penalty_locks_nothing() {
    let until = WaPenalty::new().time_penalty_until;
    assert_eq!(check_is_after(until, at(1, 0)), Some(until));
    assert_eq!(check_is_after(until, at(1, 1)), None);
    assert_eq!(check_is_after(until, at(2, 0)), None);
}

#[test]
fn instants_order_as_in_chrono() {
    let instants = [(-5, 0), (0, 0), (0, 1), (59, 999_999_999), (59, 1_500_000_000), (60, 0)];
    for (a, b) in instants.iter().flat_map(|a| instants.iter().map(move |b| (*a, *b))) {
        let earlier = DateTime::from_timestamp(a.0, a.1).unwrap();
        let later = DateTime::from_timestamp(b.0, b.1).unwrap();
        assert_eq!(check_is_after(at(b.0, b.1), at(a.0, a.1)).is_some(), earlier <= later);
    }
}

#[test]
fn wrong_answer_near_the_end_of_time() {
    let mut penalty = WaPenalty::new();
    assert_eq!(penalty.count_wrong_answer(at(MAX_SECS - 20, 0)), None);
    assert_eq!(penalty, WaPenalty::new());
    assert_eq!(penalty.count_wrong_answer(at(MAX_SECS - 21, 0)), Some(129));
    assert_eq!(penalty.time_penalty_until, at(MAX_SECS, 0));
    assert_eq!((penalty.token_penalty_level, penalty.time_penalty_level), (1, 1));
    assert_eq!(penalty.count_wrong_answer(at(MAX_SECS - 21, 0)), None);
    assert_eq!(penalty.count_wrong_answer(at(MAX_SECS - 29, 0)), Some(155));
}
