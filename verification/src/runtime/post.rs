//! The post cycle: from the decision that a post is due to the record of
//! what went out.

use crate::agent::{editorial_reading, editorialized_fud_prompt_text, post_prompt_text, Agent};
use crate::chance::{random_in_range, random_ratio};
use crate::clock::{cooldown_over, utc_now, Timestamp};
use crate::memory::{with_post, MemoryStore};
use crate::models::TweetType;
use crate::phrases::{any_held, merged, newest, phrases_of, three_word_phrases};
use crate::providers::solanatracker::{canned_warning, PoolFigures};
use crate::runtime::state::{
    is_rate_limited, rate_limit_mark, user_id_from, Action, ActionView, Event, Failure, Outcome,
    PostPhase, PostPhaseView, Runtime, RuntimeView, Variant, BACKOFF_SECONDS, MAX_REJECTIONS,
    TOP_TOKENS_PLAIN, TOP_TOKENS_TOPICAL,
};
use crate::text::{contains_text, parse_u64, trimmed};
use vstd::prelude::*;

verus! {

/// The cycle is given up for `failure` and nothing else changes.
pub open spec fn post_given_up(pre: RuntimeView, failure: Failure, next: RuntimeView, a: ActionView) -> bool {
    next == (RuntimeView { post_phase: PostPhaseView::Idle, ..pre }) && a == ActionView::Finish(
        Outcome::Failed(failure),
    )
}

/// The memory after a post of `text` by the agent that `prompt` describes
/// was recorded at `now`; the memory as it was where no identifier is left.
pub open spec fn remembered(
    pre: RuntimeView,
    text: Seq<char>,
    prompt: Seq<char>,
    twitter_id: Option<Seq<char>>,
    tweet_type: TweetType,
    reply_to: Option<Seq<char>>,
    now: Timestamp,
) -> crate::models::MemoryView {
    if pre.memory.next_id < u64::MAX {
        with_post(pre.memory, text, prompt, twitter_id, tweet_type, reply_to, now)
    } else {
        pre.memory
    }
}

/// What becomes of accepted content. With the tweet mode on it is handed
/// over for posting, after the account was asked for where a picture may
/// go with the post and the account is not known. With the tweet mode off
/// it is recorded and nothing is sent.
pub open spec fn submitted(
    pre: RuntimeView,
    content: Seq<char>,
    variant: Variant,
    agent: usize,
    now: Timestamp,
    next: RuntimeView,
    a: ActionView,
) -> bool {
    if pre.memory.tweet_mode {
        if variant == Variant::Topical && pre.cached_user_id is None {
            next == (RuntimeView {
                post_phase: PostPhaseView::ResolvingUser { agent, draft: content },
                ..pre
            }) && a == ActionView::ResolveUserId
        } else {
            next == (RuntimeView {
                post_phase: PostPhaseView::Posting { variant, agent, draft: content },
                ..pre
            }) && (a matches ActionView::Post { text, with_image } && text == content && (variant
                == Variant::Plain ==> !with_image))
        }
    } else if pre.memory.next_id < u64::MAX {
        next == (RuntimeView {
            post_phase: PostPhaseView::Idle,
            memory: with_post(
                pre.memory,
                content,
                pre.agents[agent as int].prompt@,
                None,
                TweetType::Original,
                None,
                now,
            ),
            ..pre
        }) && a == ActionView::Finish(Outcome::Recorded)
    } else {
        post_given_up(pre, Failure::MemoryFull, next, a)
    }
}

/// The plain persona's start with the agent numbered `agent`: it is asked
/// for a post of its own, or tokens are asked for.
pub open spec fn plain_begun(pre: RuntimeView, agent: usize, next: RuntimeView, a: ActionView) -> bool {
    ||| next == (RuntimeView {
        post_phase: PostPhaseView::FetchingTokens { variant: Variant::Plain, agent },
        ..pre
    }) && a == (ActionView::FetchTopTokens { limit: TOP_TOKENS_PLAIN })
    ||| next == (RuntimeView {
        post_phase: PostPhaseView::Drafting {
            variant: Variant::Plain,
            agent,
            prompt: post_prompt_text(),
            rejected: 0,
            attempt: 0,
        },
        ..pre
    }) && a == (ActionView::Complete { agent, prompt: post_prompt_text() })
}

/// The start of a cycle. Without agents the cycle fails; within the
/// cooldown it is skipped. The topical persona asks for tokens; the plain
/// one picks an agent and either asks it for a post or asks for tokens.
pub open spec fn post_begun(
    pre: RuntimeView,
    variant: Variant,
    now: Timestamp,
    next: RuntimeView,
    a: ActionView,
) -> bool {
    if pre.agents.len() == 0 {
        post_given_up(pre, Failure::NoAgents, next, a)
    } else if !cooldown_over(pre.last_tweet_time, now) {
        next == (RuntimeView { post_phase: PostPhaseView::Idle, ..pre }) && a == ActionView::Finish(
            Outcome::Skipped,
        )
    } else if variant == Variant::Topical {
        next == (RuntimeView {
            post_phase: PostPhaseView::FetchingTokens { variant, agent: 0 },
            ..pre
        }) && a == ActionView::FetchTopTokens { limit: TOP_TOKENS_TOPICAL }
    } else {
        exists|agent: usize| agent < pre.agents.len() && #[trigger] plain_begun(pre, agent, next, a)
    }
}

/// The tokens came. Of an empty list nothing is posted and the cycle
/// fails; otherwise one of the tokens is picked for a description.
pub open spec fn tokens_seen(
    pre: RuntimeView,
    variant: Variant,
    agent: usize,
    count: usize,
    next: RuntimeView,
    a: ActionView,
) -> bool {
    if count == 0 {
        post_given_up(pre, Failure::NoTokens, next, a)
    } else {
        next == (RuntimeView { post_phase: PostPhaseView::DescribingToken { variant, agent }, ..pre })
            && (a matches ActionView::DescribeToken { index } && index < count)
    }
}

/// The description of the token came. The topical persona asks the
/// language model for a comment on it; the plain one submits a canned
/// warning.
pub open spec fn token_seen(
    pre: RuntimeView,
    variant: Variant,
    agent: usize,
    symbol: Seq<char>,
    summary: Seq<char>,
    figures: Option<PoolFigures>,
    now: Timestamp,
    next: RuntimeView,
    a: ActionView,
) -> bool {
    if variant == Variant::Topical {
        let prompt = editorialized_fud_prompt_text(pre.agents[agent as int].prompt@, summary);
        next == (RuntimeView {
            post_phase: PostPhaseView::Drafting { variant, agent, prompt, rejected: 0, attempt: 0 },
            ..pre
        }) && a == ActionView::Complete { agent, prompt }
    } else {
        exists|content: Seq<char>| #[trigger]
            canned_warning(symbol, figures, content) && submitted(
                pre,
                content,
                variant,
                agent,
                now,
                next,
                a,
            )
    }
}

/// What becomes of a comment that the agent accepted: it is submitted
/// unless it repeats a recent phrase and fewer than three drafts were
/// turned down for that; then another draft is asked for.
pub open spec fn comment_weighed(
    pre: RuntimeView,
    agent: usize,
    prompt: Seq<char>,
    rejected: usize,
    comment: Seq<char>,
    now: Timestamp,
    next: RuntimeView,
    a: ActionView,
) -> bool {
    if !any_held(pre.recent, phrases_of(comment)) || rejected >= MAX_REJECTIONS {
        submitted(pre, comment, Variant::Topical, agent, now, next, a)
    } else {
        next == (RuntimeView {
            post_phase: PostPhaseView::Drafting {
                variant: Variant::Topical,
                agent,
                prompt,
                rejected: (rejected + 1) as usize,
                attempt: 0,
            },
            ..pre
        }) && a == ActionView::Complete { agent, prompt }
    }
}

/// The language model answered. The plain persona submits the answer,
/// trimmed. The topical one has its agent read the answer: what the agent
/// turns down is asked for again, what it accepts is weighed.
pub open spec fn draft_seen(
    pre: RuntimeView,
    variant: Variant,
    agent: usize,
    prompt: Seq<char>,
    rejected: usize,
    attempt: usize,
    text: Seq<char>,
    now: Timestamp,
    next: RuntimeView,
    a: ActionView,
) -> bool {
    if variant == Variant::Plain {
        submitted(pre, trimmed(text), variant, agent, now, next, a)
    } else {
        exists|later: Agent, r: Option<String>| #[trigger]
            editorial_reading(pre.agents[agent as int], later, text, attempt, r) && match r {
                None => next == (RuntimeView {
                    post_phase: PostPhaseView::Drafting {
                        variant,
                        agent,
                        prompt,
                        rejected,
                        attempt: (attempt + 1) as usize,
                    },
                    ..pre
                }) && a == ActionView::Complete { agent, prompt },
                Some(comment) => comment_weighed(
                    RuntimeView { agents: pre.agents.update(agent as int, later), ..pre },
                    agent,
                    prompt,
                    rejected,
                    comment@,
                    now,
                    next,
                    a,
                ),
            }
    }
}

/// The platform named the account. A name that is a number is remembered
/// and the draft is submitted; any other fails the cycle.
pub open spec fn account_seen(
    pre: RuntimeView,
    agent: usize,
    draft: Seq<char>,
    named: Seq<char>,
    now: Timestamp,
    next: RuntimeView,
    a: ActionView,
) -> bool {
    match user_id_from(named) {
        Some(id) => submitted(
            RuntimeView { cached_user_id: Some(id), ..pre },
            draft,
            Variant::Topical,
            agent,
            now,
            next,
            a,
        ),
        None => post_given_up(pre, Failure::BadUserId, next, a),
    }
}

/// The post went out. The time of the last post is set, the post is
/// recorded with its identifier, and its phrases enter the recency window.
pub open spec fn post_recorded(
    pre: RuntimeView,
    agent: usize,
    draft: Seq<char>,
    id: Seq<char>,
    now: Timestamp,
    next: RuntimeView,
    a: ActionView,
) -> bool {
    next == (RuntimeView {
        post_phase: PostPhaseView::Idle,
        last_tweet_time: Some(now),
        memory: remembered(
            pre,
            draft,
            pre.agents[agent as int].prompt@,
            Some(id),
            TweetType::Original,
            None,
            now,
        ),
        recent: newest(merged(pre.recent, phrases_of(draft)), pre.recent_limit),
        ..pre
    }) && a == ActionView::Finish(Outcome::Posted)
}

/// An action failed. A post refused for rate makes the cycle sleep, and
/// the time of the last post stays; any other failure ends the cycle.
pub open spec fn post_failed(pre: RuntimeView, message: Seq<char>, next: RuntimeView, a: ActionView) -> bool {
    if pre.post_phase is Posting && contains_text(message, rate_limit_mark()) {
        next == (RuntimeView { post_phase: PostPhaseView::BackingOff, ..pre }) && a
            == ActionView::Sleep { seconds: BACKOFF_SECONDS }
    } else {
        post_given_up(pre, Failure::External, next, a)
    }
}

/// The agent that the phase names exists.
pub open spec fn post_agent_known(pre: RuntimeView) -> bool {
    match pre.post_phase {
        PostPhaseView::FetchingTokens { agent, .. } => agent < pre.agents.len(),
        PostPhaseView::DescribingToken { agent, .. } => agent < pre.agents.len(),
        PostPhaseView::Drafting { agent, .. } => agent < pre.agents.len(),
        PostPhaseView::ResolvingUser { agent, .. } => agent < pre.agents.len(),
        PostPhaseView::Posting { agent, .. } => agent < pre.agents.len(),
        _ => true,
    }
}

/// One step of the post cycle: what the state `pre` and the event make of
/// the state and which action is asked for. `begin_as` says which persona a
/// new cycle is for. An event that does not answer the action last asked
/// for ends the cycle.
pub open spec fn post_stepped(
    pre: RuntimeView,
    begin_as: Variant,
    event: Event,
    now: Timestamp,
    next: RuntimeView,
    a: ActionView,
) -> bool {
    if !post_agent_known(pre) {
        post_given_up(pre, Failure::OutOfTurn, next, a)
    } else {
        match (pre.post_phase, event) {
            (PostPhaseView::Idle, Event::Begin) => post_begun(pre, begin_as, now, next, a),
            (PostPhaseView::Idle, _) => post_given_up(pre, Failure::OutOfTurn, next, a),
            (_, Event::Failed { message }) => post_failed(pre, message@, next, a),
            (
                PostPhaseView::FetchingTokens { variant, agent },
                Event::TokensFetched { count },
            ) => tokens_seen(pre, variant, agent, count, next, a),
            (
                PostPhaseView::DescribingToken { variant, agent },
                Event::TokenDescribed { symbol, summary, figures },
            ) => token_seen(pre, variant, agent, symbol@, summary@, figures, now, next, a),
            (
                PostPhaseView::Drafting { variant, agent, prompt, rejected, attempt },
                Event::Completion { text },
            ) => draft_seen(pre, variant, agent, prompt, rejected, attempt, text@, now, next, a),
            (PostPhaseView::ResolvingUser { agent, draft }, Event::UserId { text }) => account_seen(
                pre,
                agent,
                draft,
                text@,
                now,
                next,
                a,
            ),
            (PostPhaseView::Posting { variant, agent, draft }, Event::Posted { id }) => post_recorded(
                pre,
                agent,
                draft,
                id@,
                now,
                next,
                a,
            ),
            (PostPhaseView::BackingOff, Event::Slept) => next == (RuntimeView {
                post_phase: PostPhaseView::Idle,
                ..pre
            }) && a == ActionView::Finish(Outcome::RateLimited),
            _ => post_given_up(pre, Failure::OutOfTurn, next, a),
        }
    }
}

/// With the tweet mode off no step of the post cycle asks for a post, and
/// a step that accepts content records it.
pub proof fn lemma_nothing_posted_with_tweet_mode_off(
    pre: RuntimeView,
    begin_as: Variant,
    event: Event,
    now: Timestamp,
    next: RuntimeView,
    a: ActionView,
)
    requires
        post_stepped(pre, begin_as, event, now, next, a),
        !pre.memory.tweet_mode,
    ensures
        !(a is Post),
        a == ActionView::Finish(Outcome::Recorded) ==> next.memory.tweets.len()
            == pre.memory.tweets.len() + 1,
{
}

/// Of an empty list of tokens nothing is posted, and the cycle ends with a
/// failure that does not end the loop.
pub proof fn lemma_no_tokens_no_post(
    pre: RuntimeView,
    begin_as: Variant,
    now: Timestamp,
    next: RuntimeView,
    a: ActionView,
)
    requires
        pre.post_phase is FetchingTokens,
        post_stepped(pre, begin_as, (Event::TokensFetched { count: 0 }), now, next, a),
    ensures
        a == ActionView::Finish(Outcome::Failed(Failure::NoTokens)) || a == ActionView::Finish(
            Outcome::Failed(Failure::OutOfTurn),
        ),
        next.memory == pre.memory,
        next.last_tweet_time == pre.last_tweet_time,
        next.post_phase is Idle,
{
}

/// A post refused for rate makes the cycle sleep for the backoff; the
/// sleep over, the cycle ends without a failure. The time of the last post
/// stays through both steps.
pub proof fn lemma_rate_limit_backs_off(
    pre: RuntimeView,
    begin_as: Variant,
    message: String,
    now: Timestamp,
    mid: RuntimeView,
    a: ActionView,
    later: Timestamp,
    next: RuntimeView,
    b: ActionView,
)
    requires
        pre.post_phase is Posting,
        post_agent_known(pre),
        contains_text(message@, rate_limit_mark()),
        post_stepped(pre, begin_as, (Event::Failed { message }), now, mid, a),
        post_stepped(mid, begin_as, Event::Slept, later, next, b),
    ensures
        a == (ActionView::Sleep { seconds: BACKOFF_SECONDS }),
        b == ActionView::Finish(Outcome::RateLimited),
        mid.last_tweet_time == pre.last_tweet_time,
        next.last_tweet_time == pre.last_tweet_time,
        next.memory == pre.memory,
{
}

impl Runtime {
    /// Submits accepted content.
    fn submit(&mut self, content: String, variant: Variant, agent: usize, now: Timestamp) -> (a:
        Action)
        requires
            agent < old(self).agents.len(),
        ensures
            submitted(old(self)@, content@, variant, agent, now, final(self)@, a@),
            old(self).wf() ==> final(self).wf(),
    {
        if self.memory.tweet_mode {
            match variant {
                Variant::Topical => {
                    if self.cached_user_id.is_none() {
                        self.post_phase = PostPhase::ResolvingUser { agent, draft: content };
                        Action::ResolveUserId
                    } else {
                        let with_image = random_ratio(3, 10);
                        self.post_phase = PostPhase::Posting { variant, agent, draft: content.clone() };
                        Action::Post { text: content, with_image }
                    }
                },
                Variant::Plain => {
                    self.post_phase = PostPhase::Posting { variant, agent, draft: content.clone() };
                    Action::Post { text: content, with_image: false }
                },
            }
        } else if self.memory.next_id < u64::MAX {
            self.post_phase = PostPhase::Idle;
            MemoryStore::record(
                &mut self.memory,
                content.as_str(),
                self.agents[agent].prompt.as_str(),
                None,
                TweetType::Original,
                None,
                now,
            );
            Action::Finish(Outcome::Recorded)
        } else {
            self.post_phase = PostPhase::Idle;
            Action::Finish(Outcome::Failed(Failure::MemoryFull))
        }
    }

    /// Starts a cycle.
    fn begin_post(&mut self, variant: Variant, now: Timestamp) -> (a: Action)
        ensures
            post_begun(old(self)@, variant, now, final(self)@, a@),
            old(self).wf() ==> final(self).wf(),
    {
        self.post_phase = PostPhase::Idle;
        if self.agents.len() == 0 {
            return Action::Finish(Outcome::Failed(Failure::NoAgents));
        }
        if !self.allows_tweet_at(now) {
            return Action::Finish(Outcome::Skipped);
        }
        match variant {
            Variant::Topical => {
                self.post_phase = PostPhase::FetchingTokens { variant, agent: 0 };
                Action::FetchTopTokens { limit: TOP_TOKENS_TOPICAL }
            },
            Variant::Plain => {
                let agent = random_in_range(0, self.agents.len());
                if random_ratio(1, 2) {
                    let prompt = self.agents[agent].generate_post_prompt();
                    self.post_phase = PostPhase::Drafting {
                        variant,
                        agent,
                        prompt: prompt.to_owned(),
                        rejected: 0,
                        attempt: 0,
                    };
                    let a = Action::Complete { agent, prompt: prompt.to_owned() };
                    assert(plain_begun(old(self)@, agent, self@, a@));
                    a
                } else {
                    self.post_phase = PostPhase::FetchingTokens { variant, agent };
                    let a = Action::FetchTopTokens { limit: TOP_TOKENS_PLAIN };
                    assert(plain_begun(old(self)@, agent, self@, a@));
                    a
                }
            },
        }
    }

    /// Reads the language model's answer in the topical cycle.
    fn weigh_draft(
        &mut self,
        agent: usize,
        prompt: String,
        rejected: usize,
        attempt: usize,
        text: &str,
        now: Timestamp,
    ) -> (a: Action)
        requires
            agent < old(self).agents.len(),
            old(self).post_phase is Idle,
        ensures
            draft_seen(
                old(self)@,
                Variant::Topical,
                agent,
                prompt@,
                rejected,
                attempt,
                text@,
                now,
                final(self)@,
                a@,
            ),
            old(self).wf() ==> final(self).wf(),
    {
        let mut writer = self.agents.remove(agent);
        let ghost before = writer;
        let r = writer.generate_editorialized_fud(text, attempt);
        let ghost later = writer;
        self.agents.insert(agent, writer);
        assert(self.agents@ =~= old(self).agents@.update(agent as int, later));
        assert(editorial_reading(old(self)@.agents[agent as int], later, text@, attempt, r));
        match r {
            None => {
                assert(later == before);
                assert(self.agents@ =~= old(self).agents@);
                assert(attempt < usize::MAX);
                self.post_phase = PostPhase::Drafting {
                    variant: Variant::Topical,
                    agent,
                    prompt: prompt.clone(),
                    rejected,
                    attempt: attempt + 1,
                };
                Action::Complete { agent, prompt }
            },
            Some(comment) => {
                let ghost mid = self@;
                assert(mid == (RuntimeView {
                    agents: old(self)@.agents.update(agent as int, later),
                    ..old(self)@
                }));
                let phrases = three_word_phrases(comment.as_str());
                let a = if !self.recent_phrases.contains_any(&phrases) || rejected
                    >= MAX_REJECTIONS {
                    self.submit(comment, Variant::Topical, agent, now)
                } else {
                    self.post_phase = PostPhase::Drafting {
                        variant: Variant::Topical,
                        agent,
                        prompt: prompt.clone(),
                        rejected: rejected + 1,
                        attempt: 0,
                    };
                    Action::Complete { agent, prompt }
                };
                assert(comment_weighed(mid, agent, prompt@, rejected, comment@, now, self@, a@));
                a
            },
        }
    }

    /// One step of the post cycle at the time `now`.
    pub fn post_step_at(&mut self, begin_as: Variant, event: Event, now: Timestamp) -> (a: Action)
        ensures
            post_stepped(old(self)@, begin_as, event, now, final(self)@, a@),
            old(self).wf() ==> final(self).wf(),
    {
        let mut phase = PostPhase::Idle;
        core::mem::swap(&mut self.post_phase, &mut phase);
        let ghost idle = self@;
        assert(idle == (RuntimeView { post_phase: PostPhaseView::Idle, ..old(self)@ }));
        let known = match &phase {
            PostPhase::FetchingTokens { agent, .. } => *agent < self.agents.len(),
            PostPhase::DescribingToken { agent, .. } => *agent < self.agents.len(),
            PostPhase::Drafting { agent, .. } => *agent < self.agents.len(),
            PostPhase::ResolvingUser { agent, .. } => *agent < self.agents.len(),
            PostPhase::Posting { agent, .. } => *agent < self.agents.len(),
            _ => true,
        };
        if !known {
            return Action::Finish(Outcome::Failed(Failure::OutOfTurn));
        }
        match (phase, event) {
            (PostPhase::Idle, Event::Begin) => self.begin_post(begin_as, now),
            (PostPhase::Idle, _) => Action::Finish(Outcome::Failed(Failure::OutOfTurn)),
            (phase, Event::Failed { message }) => {
                let posting = match phase {
                    PostPhase::Posting { .. } => true,
                    _ => false,
                };
                if posting && is_rate_limited(message.as_str()) {
                    self.post_phase = PostPhase::BackingOff;
                    Action::Sleep { seconds: BACKOFF_SECONDS }
                } else {
                    Action::Finish(Outcome::Failed(Failure::External))
                }
            },
            (PostPhase::FetchingTokens { variant, agent }, Event::TokensFetched { count }) => {
                if count == 0 {
                    Action::Finish(Outcome::Failed(Failure::NoTokens))
                } else {
                    let index = random_in_range(0, count);
                    self.post_phase = PostPhase::DescribingToken { variant, agent };
                    Action::DescribeToken { index }
                }
            },
            (
                PostPhase::DescribingToken { variant, agent },
                Event::TokenDescribed { symbol, summary, figures },
            ) => {
                match variant {
                    Variant::Topical => {
                        let prompt = self.agents[agent].generate_editorialized_fud_prompt(
                            summary.as_str(),
                        );
                        self.post_phase = PostPhase::Drafting {
                            variant,
                            agent,
                            prompt: prompt.clone(),
                            rejected: 0,
                            attempt: 0,
                        };
                        Action::Complete { agent, prompt }
                    },
                    Variant::Plain => {
                        let content = self.solana_tracker.generate_fud(symbol.as_str(), &figures);
                        let a = self.submit(content, variant, agent, now);
                        assert(canned_warning(symbol@, figures, content@) && submitted(
                            idle,
                            content@,
                            variant,
                            agent,
                            now,
                            self@,
                            a@,
                        ));
                        a
                    },
                }
            },
            (
                PostPhase::Drafting { variant, agent, prompt, rejected, attempt },
                Event::Completion { text },
            ) => {
                match variant {
                    Variant::Plain => {
                        let content = self.agents[agent].generate_post(text.as_str());
                        self.submit(content, variant, agent, now)
                    },
                    Variant::Topical => self.weigh_draft(
                        agent,
                        prompt,
                        rejected,
                        attempt,
                        text.as_str(),
                        now,
                    ),
                }
            },
            (PostPhase::ResolvingUser { agent, draft }, Event::UserId { text }) => {
                match parse_u64(text.as_str()) {
                    Some(id) => {
                        self.cached_user_id = Some(id);
                        self.submit(draft, Variant::Topical, agent, now)
                    },
                    None => Action::Finish(Outcome::Failed(Failure::BadUserId)),
                }
            },
            (PostPhase::Posting { variant, agent, draft }, Event::Posted { id }) => {
                self.last_tweet_time = Some(now);
                if self.memory.next_id < u64::MAX {
                    MemoryStore::record(
                        &mut self.memory,
                        draft.as_str(),
                        self.agents[agent].prompt.as_str(),
                        Some(id),
                        TweetType::Original,
                        None,
                        now,
                    );
                }
                let phrases = three_word_phrases(draft.as_str());
                self.recent_phrases.record(&phrases);
                Action::Finish(Outcome::Posted)
            },
            (PostPhase::BackingOff, Event::Slept) => Action::Finish(Outcome::RateLimited),
            _ => Action::Finish(Outcome::Failed(Failure::OutOfTurn)),
        }
    }

    /// One step of the plain persona's post cycle at the time `now`.
    pub fn run_at(&mut self, event: Event, now: Timestamp) -> (a: Action)
        ensures
            post_stepped(old(self)@, Variant::Plain, event, now, final(self)@, a@),
            old(self).wf() ==> final(self).wf(),
    {
        self.post_step_at(Variant::Plain, event, now)
    }

    /// One step of the plain persona's post cycle: an agent picked at
    /// random writes a post of its own or a canned warning about a trending
    /// token, which is posted and recorded, or only recorded where the
    /// tweet mode is off.
    pub fn run(&mut self, event: Event) -> (a: Action)
        ensures
            exists|now: Timestamp| #[trigger]
                post_stepped(old(self)@, Variant::Plain, event, now, final(self)@, a@),
            old(self).wf() ==> final(self).wf(),
    {
        let now = utc_now();
        let a = self.post_step_at(Variant::Plain, event, now.at);
        assert(post_stepped(old(self)@, Variant::Plain, event, now.at, self@, a@));
        a
    }

    /// One step of the topical persona's post cycle at the time `now`.
    pub fn generate_and_post_fud_at(&mut self, event: Event, now: Timestamp) -> (a: Action)
        ensures
            post_stepped(old(self)@, Variant::Topical, event, now, final(self)@, a@),
            old(self).wf() ==> final(self).wf(),
    {
        self.post_step_at(Variant::Topical, event, now)
    }

    /// One step of the topical persona's post cycle: a comment on a
    /// trending token is drafted until it repeats no recent phrase, or
    /// three drafts were turned down; it is posted and recorded, or only
    /// recorded where the tweet mode is off.
    pub fn generate_and_post_fud(&mut self, event: Event) -> (a: Action)
        ensures
            exists|now: Timestamp| #[trigger]
                post_stepped(old(self)@, Variant::Topical, event, now, final(self)@, a@),
            old(self).wf() ==> final(self).wf(),
    {
        let now = utc_now();
        let a = self.post_step_at(Variant::Topical, event, now.at);
        assert(post_stepped(old(self)@, Variant::Topical, event, now.at, self@, a@));
        a
    }
}

} // verus!
