//! What the loop decides at each tick, and the smaller decisions around
//! the two cycles.

use crate::chance::random_in_range;
use crate::clock::{
    cooldown_over, is_minute_mark, on_minute_mark, utc_now, Timestamp, WallClock,
};
use crate::memory::MemoryStore;
use crate::models::MemoryView;
use crate::phrases::{any_held, merged, newest, phrases_of};
use crate::providers::solanatracker::{
    fud_reason_list, fud_reasons, summary_text, SearchParams, SummaryRow,
};
use crate::runtime::state::{Runtime, RuntimeView, DELAY_MAX_SECONDS, DELAY_MIN_SECONDS};
use crate::text::{same_text, strs};
use crate::topics::{handle_token_info_request, some_reply, TokenInfoRequest};
use vstd::prelude::*;

verus! {

/// Tokens that the summary of trending tokens shows.
pub const SUMMARY_TOKENS: usize = 5;

/// The minutes of the hour at which a post is due.
pub open spec fn quarter_hours() -> Seq<u32> {
    seq![0u32, 15u32, 30u32, 45u32]
}

/// The name of the persona that the loop acts for.
pub open spec fn acting_persona() -> Seq<char> {
    "fud"@
}

/// How the loop starts.
#[derive(Clone, Copy, Debug, PartialEq, Eq, Structural)]
pub enum Startup {
    /// One diagnostic run, and no loop.
    DebugRun,
    /// The loop.
    Loop,
}

/// What is due at one tick.
#[derive(Clone, Copy, Debug, PartialEq, Eq, Structural)]
pub struct Tick {
    /// A post cycle is to start.
    pub post_due: bool,
    /// A notification cycle is to start.
    pub check_due: bool,
    /// Milliseconds to sleep before the next tick.
    pub sleep_millis: u64,
}

/// What is due at `now`. The loop acts only for the persona named `fud`. A
/// post is due in the first second of a quarter of the hour, unless one
/// went out within the cooldown. A check of the notifications is due
/// unless one was made within the cooldown. The loop then sleeps to the
/// start of the next second.
pub open spec fn tick_at(rt: RuntimeView, now: WallClock) -> Tick {
    let acting = rt.character_config.name@ == acting_persona();
    Tick {
        post_due: acting && on_minute_mark(quarter_hours(), now) && cooldown_over(
            rt.last_tweet_time,
            now.at,
        ),
        check_due: acting && cooldown_over(rt.last_notification_check, now.at),
        sleep_millis: now.at.millis_to_next_second() as u64,
    }
}

/// What the parameters of a search for the token that a message names
/// hold: the one result with the largest market capitalisation among the
/// tokens that can neither be frozen nor minted.
pub open spec fn narrows_to_topic(p: SearchParams, query: Seq<char>) -> bool {
    &&& p.query@ == query
    &&& p.page is None
    &&& p.limit == Some(1u32)
    &&& p.sort_by is Some && p.sort_by.unwrap()@ == "marketCapUsd"@
    &&& p.sort_order is Some && p.sort_order.unwrap()@ == "desc"@
    &&& p.min_liquidity is None
    &&& p.max_liquidity is None
    &&& p.freeze_authority is Some && p.freeze_authority.unwrap()@ == "null"@
    &&& p.mint_authority is Some && p.mint_authority.unwrap()@ == "null"@
}

/// The state with the next post scheduled `delay_seconds` after `now`, or
/// at the last representable second where the sum would pass it.
pub open spec fn scheduled(pre: RuntimeView, now: Timestamp, delay_seconds: u32) -> RuntimeView {
    RuntimeView {
        memory: MemoryView {
            next_tweet: Some(
                Timestamp {
                    secs: if now.secs + delay_seconds <= i64::MAX {
                        (now.secs + delay_seconds) as i64
                    } else {
                        i64::MAX
                    },
                    nanos: now.nanos,
                },
            ),
            ..pre.memory
        },
        ..pre
    }
}

/// Whether a post is scheduled, and the whole seconds from `now` until it
/// is due: none where none is scheduled or the time has come.
pub open spec fn wait_at(next_tweet: Option<Timestamp>, now: Timestamp) -> (bool, u64) {
    match next_tweet {
        Some(next) => (true, now.whole_seconds_until(next) as u64),
        None => (false, 0),
    }
}

impl Runtime {
    /// How the loop starts: with a diagnostic run where the debug mode is on
    /// and the tweet mode is off, with the loop otherwise.
    pub fn startup(&self) -> (s: Startup)
        ensures
            s == if self.memory.debug_mode && !self.memory.tweet_mode {
                Startup::DebugRun
            } else {
                Startup::Loop
            },
    {
        if self.memory.debug_mode && !self.memory.tweet_mode {
            Startup::DebugRun
        } else {
            Startup::Loop
        }
    }

    /// What is due at the clock reading `now`.
    pub fn run_periodically_at(&self, now: &WallClock) -> (t: Tick)
        ensures
            t == tick_at(self@, *now),
    {
        let acting = same_text(self.character_config.name.as_str(), "fud");
        let mut marks: Vec<u32> = Vec::new();
        marks.push(0);
        marks.push(15);
        marks.push(30);
        marks.push(45);
        assert(marks@ =~= quarter_hours());
        let post_due = acting && is_minute_mark(&marks, now) && self.allows_tweet_at(now.at);
        let check_due = acting && self.allows_check_at(now.at);
        Tick { post_due, check_due, sleep_millis: now.at.millis_until_next_second() }
    }

    /// What is due now.
    pub fn run_periodically(&self) -> (t: Tick)
        ensures
            exists|now: WallClock| t == #[trigger] tick_at(self@, now),
    {
        let now = utc_now();
        let t = self.run_periodically_at(&now);
        assert(t == tick_at(self@, now));
        t
    }

    /// Whether a scheduled action is due now: the minute is one of
    /// `minutes` and the second is zero.
    pub fn should_run_scheduled_action(&self, minutes: &Vec<u32>) -> (r: bool)
        ensures
            exists|now: WallClock| r == #[trigger] on_minute_mark(minutes@, now),
    {
        let now = utc_now();
        let r = is_minute_mark(minutes, &now);
        assert(r == on_minute_mark(minutes@, now));
        r
    }

    /// Schedules the next post `delay_seconds` after `now`.
    pub fn schedule_next_tweet_at(&mut self, now: Timestamp, delay_seconds: u32)
        ensures
            final(self)@ == scheduled(old(self)@, now, delay_seconds),
            old(self).wf() ==> final(self).wf(),
    {
        let next = now.plus_seconds(delay_seconds);
        MemoryStore::update_next_tweet_time(&mut self.memory, next);
    }

    /// Schedules the next post between five and fifteen minutes from now.
    pub fn schedule_next_tweet(&mut self)
        ensures
            exists|now: Timestamp, delay: u32|
                DELAY_MIN_SECONDS <= delay < DELAY_MAX_SECONDS && final(self)@ == #[trigger] scheduled(
                    old(self)@,
                    now,
                    delay,
                ),
            old(self).wf() ==> final(self).wf(),
    {
        let delay = random_in_range(DELAY_MIN_SECONDS, DELAY_MAX_SECONDS);
        let now = utc_now();
        self.schedule_next_tweet_at(now.at, delay as u32);
        assert(self@ == scheduled(old(self)@, now.at, delay as u32));
    }

    /// Whether a post is scheduled, and how many seconds to sleep at `now`
    /// until it is due: none where none is scheduled or the time has come.
    pub fn wait_until_next_tweet_at(&self, now: Timestamp) -> (r: (bool, u64))
        ensures
            r == wait_at(self.memory.next_tweet, now),
    {
        match self.memory.next_tweet {
            Some(next) => (true, now.seconds_until(&next)),
            None => (false, 0),
        }
    }

    /// Whether a post is scheduled, and how many seconds to sleep until it
    /// is due.
    pub fn wait_until_next_tweet(&self) -> (r: (bool, u64))
        ensures
            exists|now: Timestamp| r == #[trigger] wait_at(self.memory.next_tweet, now),
    {
        let now = utc_now();
        let r = self.wait_until_next_tweet_at(now.at);
        assert(r == wait_at(self.memory.next_tweet, now.at));
        r
    }

    /// Whether `text` repeats a recent phrase; its phrases enter the
    /// recency window whether or not that is so.
    pub fn contains_recent_phrase(&mut self, text: &str) -> (repeat: bool)
        ensures
            repeat == any_held(old(self)@.recent, phrases_of(text@)),
            final(self)@ == (RuntimeView {
                recent: newest(
                    merged(old(self)@.recent, phrases_of(text@)),
                    old(self)@.recent_limit,
                ),
                ..old(self)@
            }),
            final(self)@.recent.len() <= final(self)@.recent_limit,
            old(self).wf() ==> final(self).wf(),
    {
        self.recent_phrases.check_and_record(text)
    }

    /// The summary of the first five of the trending tokens.
    pub fn get_trending_solana_summary(&self, rows: &Vec<SummaryRow>) -> (r: String)
        ensures
            r@ == summary_text(rows@, SUMMARY_TOKENS as nat),
    {
        self.solana_tracker.format_tokens_summary(rows, SUMMARY_TOKENS)
    }

    /// The reasons that serve as examples of the persona's manner.
    pub fn get_fud_examples() -> (v: Vec<&'static str>)
        ensures
            strs(v@) == fud_reasons(),
    {
        fud_reason_list()
    }

    /// The parameters of a search for the token that a message names.
    pub fn topic_search_params(&self, query: String) -> (p: SearchParams)
        ensures
            narrows_to_topic(p, query@),
    {
        let mut p = self.solana_tracker.create_search_params(query);
        p.sort_by = Some("marketCapUsd".to_owned());
        p.sort_order = Some("desc".to_owned());
        p.limit = Some(1);
        p.freeze_authority = Some("null".to_owned());
        p.mint_authority = Some("null".to_owned());
        p
    }

    /// An answer to a request for the agent's own contract address or
    /// ticker, chosen at random among those that fit.
    pub fn handle_token_info_request(&self, request: TokenInfoRequest) -> (r: String)
        ensures
            some_reply(request, self.requested(request), r@),
    {
        match request {
            TokenInfoRequest::ContractAddress => handle_token_info_request(
                request,
                self.token_address.as_str(),
            ),
            TokenInfoRequest::Ticker => handle_token_info_request(
                request,
                self.token_symbol.as_str(),
            ),
        }
    }

    /// What `request` asks for: the contract address or the ticker of the
    /// agent's own token.
    pub open spec fn requested(&self, request: TokenInfoRequest) -> Seq<char> {
        match request {
            TokenInfoRequest::ContractAddress => self.token_address@,
            TokenInfoRequest::Ticker => self.token_symbol@,
        }
    }
}

} // verus!
