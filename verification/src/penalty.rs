//! What a wrong answer costs: a pause before the next try, and tokens. Both
//! grow with every further wrong answer.

use crate::clock::Timestamp;
use vstd::prelude::*;

verus! {

/// The pause after a wrong answer, in seconds, for each level.
pub const TIME_PENALTY: [i64; 11] = [21, 29, 41, 57, 80, 112, 156, 219, 306, 429, 600];

/// The tokens that a wrong answer costs, for each level.
pub const TOKEN_PENALTY: [i64; 11] = [129, 155, 186, 223, 268, 322, 386, 463, 556, 667, 800];

/// What a team has run up on one puzzle.
#[derive(Clone, Copy, Debug, PartialEq, Eq, Structural)]
pub struct WaPenalty {
    pub time_penalty_until: Timestamp,
    pub token_penalty_level: i32,
    pub time_penalty_level: i32,
}

/// The entry of a level in a table. A level that the table does not list costs
/// as much as its last one.
pub open spec fn table_entry(table: [i64; 11], level: int) -> i64 {
    if 0 <= level < 11 {
        table@[level]
    } else {
        table@[10]
    }
}

/// The pause at a level, in seconds.
pub open spec fn pause_seconds(level: int) -> i64 {
    table_entry(TIME_PENALTY, level)
}

/// The tokens that a wrong answer costs at a level.
pub open spec fn token_cost(level: int) -> i64 {
    table_entry(TOKEN_PENALTY, level)
}

fn penalty_at(table: &[i64; 11], level: i32) -> (r: i64)
    ensures
        r == table_entry(*table, level as int),
{
    if 0 <= level && level < 11 {
        table[level as usize]
    } else {
        table[10]
    }
}

impl WaPenalty {
    /// Whether both levels can still rise.
    pub open spec fn can_rise(self) -> bool {
        self.token_penalty_level < i32::MAX && self.time_penalty_level < i32::MAX
    }

    /// The penalty before any wrong answer.
    pub open spec fn fresh() -> WaPenalty {
        WaPenalty {
            time_penalty_until: Timestamp { secs: 1, nanos: 0 },
            token_penalty_level: 0,
            time_penalty_level: 0,
        }
    }

    /// The penalty after a wrong answer at an instant.
    pub open spec fn after_wrong_answer(self, now: Timestamp) -> WaPenalty {
        WaPenalty {
            time_penalty_until: now.plus(pause_seconds(self.time_penalty_level as int) as int),
            token_penalty_level: (self.token_penalty_level + 1) as i32,
            time_penalty_level: (self.time_penalty_level + 1) as i32,
        }
    }

    /// The penalty after a new intermediate answer: the next wrong answer costs
    /// the fewest tokens again, the pauses stay as they were.
    pub open spec fn after_mid_answer(self) -> WaPenalty {
        WaPenalty { token_penalty_level: 0, ..self }
    }

    /// The penalty before any wrong answer.
    pub fn new() -> (r: Self)
        ensures
            r == WaPenalty::fresh(),
    {
        WaPenalty {
            time_penalty_until: Timestamp::timestamp_opt(1, 0).unwrap(),
            token_penalty_level: 0,
            time_penalty_level: 0,
        }
    }

    /// Counts a wrong answer given at an instant, and returns the tokens that
    /// it costs.
    pub fn on_wrong_answer_at(&mut self, now: Timestamp) -> (tokens: i64)
        requires
            old(self).can_rise(),
            now.can_add(pause_seconds(old(self).time_penalty_level as int) as int),
        ensures
            *final(self) == old(self).after_wrong_answer(now),
            tokens == token_cost(old(self).token_penalty_level as int),
    {
        proof {
            law_penalties_bounded(self.time_penalty_level as int);
        }
        let time_penalty = penalty_at(&TIME_PENALTY, self.time_penalty_level);
        let token_penalty = penalty_at(&TOKEN_PENALTY, self.token_penalty_level);
        self.token_penalty_level = self.token_penalty_level + 1;
        self.time_penalty_level = self.time_penalty_level + 1;
        self.time_penalty_until = now.add_seconds(time_penalty);
        token_penalty
    }

    /// Counts a wrong answer when the clock reads `now`, and returns the tokens
    /// that it costs. Where the pause would end past the last instant, nothing
    /// is counted and nothing returned.
    pub fn count_wrong_answer(&mut self, now: Timestamp) -> (tokens: Option<i64>)
        requires
            old(self).can_rise(),
            now.valid(),
        ensures
            counted_at(*old(self), *final(self), tokens, now),
    {
        let pause = penalty_at(&TIME_PENALTY, self.time_penalty_level);
        proof {
            law_penalties_bounded(self.time_penalty_level as int);
        }
        if now.secs <= crate::clock::MAX_SECS - pause {
            Some(self.on_wrong_answer_at(now))
        } else {
            None
        }
    }

    /// Counts a wrong answer given now, and returns the tokens that it costs.
    /// The pause counts from the instant that the system clock gives when it is
    /// read in the call. Where the pause would end past the last instant, nothing
    /// is counted and nothing returned.
    pub fn on_wrong_answer(&mut self) -> (tokens: Option<i64>)
        requires
            old(self).can_rise(),
        ensures
            exists|now: Timestamp|
                {
                    &&& now.valid()
                    &&& 0 <= now.secs
                    &&& now.nanos < 1_000_000_000
                    &&& now.read_from_clock()
                    &&& #[trigger] counted_at(*old(self), *final(self), tokens, now)
                },
    {
        self.count_wrong_answer(Timestamp::read_clock())
    }

    /// Counts a new intermediate answer.
    pub fn on_new_mid_answer(self) -> (r: Self)
        ensures
            r == self.after_mid_answer(),
    {
        WaPenalty { token_penalty_level: 0, ..self }
    }
}

/// What a wrong answer leads to when the clock reads `now`: it is counted, or
/// the clock stands so late that the pause could not end.
pub open spec fn counted_at(
    before: WaPenalty,
    after: WaPenalty,
    tokens: Option<i64>,
    now: Timestamp,
) -> bool {
    if now.can_add(pause_seconds(before.time_penalty_level as int) as int) {
        &&& after == before.after_wrong_answer(now)
        &&& tokens == Some(token_cost(before.token_penalty_level as int))
    } else {
        &&& after == before
        &&& tokens is None
    }
}

impl Default for WaPenalty {
    fn default() -> (r: Self)
        ensures
            r == WaPenalty::fresh(),
    {
        WaPenalty::new()
    }
}

/// A pause lasts at least twenty-one seconds and at most ten minutes, and a
/// wrong answer costs at least 129 and at most 800 tokens. Levels that the
/// tables do not list cost the most.
pub proof fn law_penalties_bounded(level: int)
    ensures
        21 <= pause_seconds(level) <= 600,
        129 <= token_cost(level) <= 800,
        level < 0 || level >= 10 ==> pause_seconds(level) == 600 && token_cost(level) == 800,
{
}

/// The pauses last 21, 29, 41, 57, 80, 112, 156, 219, 306, 429 and 600 seconds,
/// and the tokens are 129, 155, 186, 223, 268, 322, 386, 463, 556, 667 and 800,
/// from the first level to the eleventh. Any other level costs as much as the
/// eleventh.
pub proof fn law_penalties_listed(level: int)
    ensures
        0 <= level <= 10 ==> pause_seconds(level) == seq![
            21i64,
            29i64,
            41i64,
            57i64,
            80i64,
            112i64,
            156i64,
            219i64,
            306i64,
            429i64,
            600i64,
        ][level],
        0 <= level <= 10 ==> token_cost(level) == seq![
            129i64,
            155i64,
            186i64,
            223i64,
            268i64,
            322i64,
            386i64,
            463i64,
            556i64,
            667i64,
            800i64,
        ][level],
        !(0 <= level <= 10) ==> pause_seconds(level) == 600 && token_cost(level) == 800,
{
}

/// A wrong answer costs the tokens of the level of tokens alone, whatever the
/// level of pauses is, and raises both levels by one. The pause ends the seconds
/// of the level of pauses after the instant of the answer, whatever the level of
/// tokens is. Nothing happens exactly where it could not end.
pub proof fn law_wrong_answer_counted(
    before: WaPenalty,
    after: WaPenalty,
    tokens: Option<i64>,
    now: Timestamp,
)
    requires
        counted_at(before, after, tokens, now),
        before.can_rise(),
        now.valid(),
    ensures
        ({
            let pause = if 0 <= before.time_penalty_level <= 10 {
                TIME_PENALTY@[before.time_penalty_level as int]
            } else {
                TIME_PENALTY@[10]
            };
            let cost = if 0 <= before.token_penalty_level <= 10 {
                TOKEN_PENALTY@[before.token_penalty_level as int]
            } else {
                TOKEN_PENALTY@[10]
            };
            if now.secs + pause <= 8_210_266_876_799 {
                &&& tokens == Some(cost)
                &&& after.token_penalty_level == before.token_penalty_level + 1
                &&& after.time_penalty_level == before.time_penalty_level + 1
                &&& after.time_penalty_until.secs == now.secs + pause
                &&& after.time_penalty_until.nanos == now.nanos as int % 1_000_000_000
            } else {
                &&& tokens is None
                &&& after == before
            }
        }),
{
}

/// The level of pauses has no part in what a wrong answer costs, and the level of
/// tokens none in when the pause ends: two wrong answers at one instant cost the
/// same where the levels of tokens are the same, and the two pauses end together
/// where the levels of pauses are.
pub proof fn law_levels_are_independent(
    a: (WaPenalty, WaPenalty, Option<i64>),
    b: (WaPenalty, WaPenalty, Option<i64>),
    now: Timestamp,
)
    requires
        counted_at(a.0, a.1, a.2, now),
        counted_at(b.0, b.1, b.2, now),
        a.2 is Some,
        b.2 is Some,
    ensures
        a.0.token_penalty_level == b.0.token_penalty_level ==> a.2 == b.2,
        a.0.time_penalty_level == b.0.time_penalty_level ==> a.1.time_penalty_until
            == b.1.time_penalty_until,
{
}

/// The wrong answer after a new intermediate answer costs 129 tokens wherever it
/// is counted, however many wrong answers came before, and its pause is the one
/// that it would have been without the intermediate answer.
pub proof fn law_wrong_answer_after_mid_answer(
    p: WaPenalty,
    after: WaPenalty,
    tokens: Option<i64>,
    now: Timestamp,
)
    requires
        counted_at(p.after_mid_answer(), after, tokens, now),
        p.time_penalty_level < i32::MAX,
        now.valid(),
    ensures
        tokens is Some ==> tokens == Some(129i64),
        now.secs + 600 <= 8_210_266_876_799 ==> tokens == Some(129i64),
        tokens is Some ==> after.token_penalty_level == 1,
        tokens is Some ==> after.time_penalty_level == p.time_penalty_level + 1,
        tokens is Some ==> after.time_penalty_until.secs == now.secs + (if 0
            <= p.time_penalty_level <= 10 {
            TIME_PENALTY@[p.time_penalty_level as int]
        } else {
            600
        }),
{
    law_penalties_bounded(p.time_penalty_level as int);
}

/// The pause of a wrong answer counts from the instant that the clock gave: it
/// runs for its seconds from there on, so that it ends at least twenty-one
/// seconds and at most ten minutes after that reading.
pub proof fn law_pause_counts_from_clock_reading(
    before: WaPenalty,
    after: WaPenalty,
    tokens: Option<i64>,
    now: Timestamp,
)
    requires
        now.read_from_clock(),
        counted_at(before, after, tokens, now),
        tokens is Some,
    ensures
        21 <= after.time_penalty_until.secs - now.secs <= 600,
        after.time_penalty_until.secs - now.secs == (if 0 <= before.time_penalty_level <= 10 {
            TIME_PENALTY@[before.time_penalty_level as int]
        } else {
            TIME_PENALTY@[10]
        }),
        after.time_penalty_until.nanos == now.nanos,
        now.not_after(after.time_penalty_until),
{
    crate::clock::law_clock_reading_is_now(now);
    law_penalties_bounded(before.time_penalty_level as int);
}

/// A wrong answer can be counted exactly where neither level is the last that an
/// `i32` can hold.
pub proof fn law_levels_rise_until_full(p: WaPenalty)
    ensures
        p.can_rise() <==> p.token_penalty_level <= 2_147_483_646 && p.time_penalty_level
            <= 2_147_483_646,
{
}

/// What a wrong answer at an instant leaves: both levels one higher, and a pause
/// from that instant on.
pub proof fn law_wrong_answer_raises_levels(p: WaPenalty, now: Timestamp)
    requires
        p.can_rise(),
        now.can_add(pause_seconds(p.time_penalty_level as int) as int),
    ensures
        p.after_wrong_answer(now).token_penalty_level == p.token_penalty_level + 1,
        p.after_wrong_answer(now).time_penalty_level == p.time_penalty_level + 1,
        p.after_wrong_answer(now).time_penalty_until.secs == now.secs + (if 0
            <= p.time_penalty_level <= 10 {
            TIME_PENALTY@[p.time_penalty_level as int]
        } else {
            TIME_PENALTY@[10]
        }),
        p.after_wrong_answer(now).time_penalty_until.nanos == now.nanos as int % 1_000_000_000,
{
    law_penalties_bounded(p.time_penalty_level as int);
}

/// From the first level on neither penalty shrinks, and both grow with every
/// level until the last one.
pub proof fn law_penalties_grow(a: int, b: int)
    requires
        0 <= a <= b,
    ensures
        pause_seconds(a) <= pause_seconds(b),
        token_cost(a) <= token_cost(b),
        a < b <= 10 ==> pause_seconds(a) < pause_seconds(b) && token_cost(a) < token_cost(b),
{
}

/// The penalty before any wrong answer locks no puzzle: it ended a second after
/// the epoch, and the first wrong answer costs the least.
pub proof fn law_fresh_penalty_does_not_lock(now: Timestamp)
    requires
        now.secs > 1,
    ensures
        !now.not_after(WaPenalty::fresh().time_penalty_until),
        pause_seconds(WaPenalty::fresh().time_penalty_level as int) == 21,
        token_cost(WaPenalty::fresh().token_penalty_level as int) == 129,
        WaPenalty::fresh().time_penalty_until == (Timestamp { secs: 1, nanos: 0 }),
        WaPenalty::fresh().token_penalty_level == 0,
        WaPenalty::fresh().time_penalty_level == 0,
{
}

/// A wrong answer locks the puzzle from the moment it is given for as long as
/// the pause lasts, the last instant included, and no longer.
pub proof fn law_wrong_answer_locks(before: WaPenalty, now: Timestamp, later: Timestamp)
    requires
        now.can_add(pause_seconds(before.time_penalty_level as int) as int),
    ensures
        ({
            let until = before.after_wrong_answer(now).time_penalty_until;
            let pause = pause_seconds(before.time_penalty_level as int);
            &&& until.valid()
            &&& now.not_after(until)
            &&& later.not_after(until) <==> (later.secs < now.secs + pause || (later.secs
                == now.secs + pause && later.nanos <= now.nanos as int % 1_000_000_000))
        }),
{
    law_penalties_bounded(before.time_penalty_level as int);
}

/// A new intermediate answer makes the next wrong answer cost the fewest
/// tokens again, and shortens neither the running pause nor the next one.
pub proof fn law_mid_answer_resets_tokens_only(p: WaPenalty, now: Timestamp)
    ensures
        p.after_mid_answer().token_penalty_level == 0,
        token_cost(p.after_mid_answer().token_penalty_level as int) == 129,
        p.after_mid_answer().time_penalty_until == p.time_penalty_until,
        p.after_mid_answer().time_penalty_level == p.time_penalty_level,
        p.after_mid_answer().after_mid_answer() == p.after_mid_answer(),
        p.after_mid_answer().after_wrong_answer(now).time_penalty_until == p.after_wrong_answer(
            now,
        ).time_penalty_until,
{
}

/// The penalty after wrong answers at a run of instants.
pub open spec fn after_wrong_answers(p: WaPenalty, times: Seq<Timestamp>) -> WaPenalty
    decreases times.len(),
{
    if times.len() == 0 {
        p
    } else {
        after_wrong_answers(p, times.drop_last()).after_wrong_answer(times.last())
    }
}

/// Every wrong answer of a run raises both levels by one, and the pause that
/// runs is the one of the last answer.
pub proof fn law_run_raises_levels(p: WaPenalty, times: Seq<Timestamp>)
    requires
        p.token_penalty_level + times.len() <= i32::MAX,
        p.time_penalty_level + times.len() <= i32::MAX,
    ensures
        after_wrong_answers(p, times).token_penalty_level == p.token_penalty_level + times.len(),
        after_wrong_answers(p, times).time_penalty_level == p.time_penalty_level + times.len(),
        times.len() > 0 ==> after_wrong_answers(p, times).time_penalty_until == times.last().plus(
            pause_seconds(p.time_penalty_level + times.len() - 1) as int,
        ),
    decreases times.len(),
{
    if times.len() > 0 {
        law_run_raises_levels(p, times.drop_last());
    }
}

} // verus!
