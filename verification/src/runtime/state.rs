//! The state of the loop, and the events and actions that it exchanges with
//! the embedding program.

use crate::agent::Agent;
use crate::character::CharacterConfig;
use crate::clock::{cooldown_elapsed, cooldown_over, utc_now, Timestamp};
use crate::memory::MemoryStore;
use crate::models::{Memory, MemoryView, ProcessedNotifications};
use crate::phrases::PhraseWindow;
use crate::providers::solanatracker::{PoolFigures, SolanaTracker};
use crate::text::{contains, contains_text, parse_u64, parsed_u64};
use vstd::prelude::*;

verus! {

/// Tokens fetched for a post on one of them.
pub const TOP_TOKENS_TOPICAL: usize = 30;

/// Tokens fetched where a post may as well be on nothing in particular.
pub const TOP_TOKENS_PLAIN: usize = 35;

/// Drafts that may be turned down for repeating a recent phrase before one
/// is accepted whatever it repeats.
pub const MAX_REJECTIONS: usize = 3;

/// Seconds to wait after the platform refused a post for its rate.
pub const BACKOFF_SECONDS: u64 = 900;

/// Seconds to wait between two replies of one batch.
pub const REPLY_PAUSE_SECONDS: u64 = 30;

/// Phrases that the recency window holds.
pub const PHRASE_CAPACITY: usize = 50;

/// Notifications that are answered in one check.
pub const NOTIFICATION_CAP: usize = 3;

/// The shortest delay before the next scheduled post, in seconds.
pub const DELAY_MIN_SECONDS: usize = 300;

/// The bound under which the delay before the next scheduled post stays, in
/// seconds.
pub const DELAY_MAX_SECONDS: usize = 900;

/// What marks an error of the platform as a refusal for rate.
pub open spec fn rate_limit_mark() -> Seq<char> {
    "429"@
}

/// Whether the error text `message` tells of a refusal for rate.
pub fn is_rate_limited(message: &str) -> (r: bool)
    ensures
        r == contains_text(message@, rate_limit_mark()),
{
    contains(message, "429")
}

/// The two ways in which a cycle runs: the plain persona, and the persona
/// that always writes on a token.
#[derive(Clone, Copy, Debug, PartialEq, Eq, Structural)]
pub enum Variant {
    Plain,
    Topical,
}

/// Why a cycle came to nothing.
#[derive(Clone, Copy, Debug, PartialEq, Eq, Structural)]
pub enum Failure {
    /// No agent is configured.
    NoAgents,
    /// The list of tokens was empty.
    NoTokens,
    /// The account identifier was no number.
    BadUserId,
    /// No identifier is left for another post.
    MemoryFull,
    /// The event does not answer the action that was asked for.
    OutOfTurn,
    /// A service failed.
    External,
}

/// How a cycle ended. None of these ends the loop.
#[derive(Clone, Copy, Debug, PartialEq, Eq, Structural)]
pub enum Outcome {
    /// Nothing was due.
    Skipped,
    /// A post went out and was recorded.
    Posted,
    /// A post was recorded without going out.
    Recorded,
    /// The platform refused for rate; the cycle stood back.
    RateLimited,
    /// The notifications were gone through.
    Handled,
    /// The cycle was given up.
    Failed(Failure),
}

/// An inbound message.
#[derive(Clone, Debug)]
pub struct Notification {
    pub id: String,
    pub text: String,
}

/// An inbound message, with its texts as characters.
pub struct NotificationView {
    pub id: Seq<char>,
    pub text: Seq<char>,
}

impl View for Notification {
    type V = NotificationView;

    open spec fn view(&self) -> NotificationView {
        NotificationView { id: self.id@, text: self.text@ }
    }
}

/// The inbound messages of `v`, with their texts as characters.
pub open spec fn notes(v: Seq<Notification>) -> Seq<NotificationView> {
    Seq::new(v.len(), |i: int| v[i]@)
}

/// What the embedding program is asked to do next.
#[derive(Debug)]
pub enum Action {
    /// Nothing more: the cycle is over.
    Finish(Outcome),
    /// Fetch the first `limit` trending tokens.
    FetchTopTokens { limit: usize },
    /// Describe the token at `index` of the list last fetched.
    DescribeToken { index: usize },
    /// Put `prompt` to the language model, in the name of the agent
    /// numbered `agent`.
    Complete { agent: usize, prompt: String },
    /// Learn the identifier of the agent's own account.
    ResolveUserId,
    /// Fetch the notifications of the account `user_id`.
    FetchNotifications { user_id: u64 },
    /// Post `text`, with a picture where `with_image` is set.
    Post { text: String, with_image: bool },
    /// Post `text` in answer to the message `to`.
    Reply { to: String, text: String },
    /// Look the token with the mint `address` up.
    LookupAddress { address: String },
    /// Search for the token that `query` names.
    SearchToken { query: String },
    /// Sleep for `seconds`.
    Sleep { seconds: u64 },
}

/// An `Action`, with its texts as characters.
pub enum ActionView {
    Finish(Outcome),
    FetchTopTokens { limit: usize },
    DescribeToken { index: usize },
    Complete { agent: usize, prompt: Seq<char> },
    ResolveUserId,
    FetchNotifications { user_id: u64 },
    Post { text: Seq<char>, with_image: bool },
    Reply { to: Seq<char>, text: Seq<char> },
    LookupAddress { address: Seq<char> },
    SearchToken { query: Seq<char> },
    Sleep { seconds: u64 },
}

impl View for Action {
    type V = ActionView;

    open spec fn view(&self) -> ActionView {
        match *self {
            Action::Finish(o) => ActionView::Finish(o),
            Action::FetchTopTokens { limit } => ActionView::FetchTopTokens { limit },
            Action::DescribeToken { index } => ActionView::DescribeToken { index },
            Action::Complete { agent, prompt } => ActionView::Complete { agent, prompt: prompt@ },
            Action::ResolveUserId => ActionView::ResolveUserId,
            Action::FetchNotifications { user_id } => ActionView::FetchNotifications { user_id },
            Action::Post { text, with_image } => ActionView::Post { text: text@, with_image },
            Action::Reply { to, text } => ActionView::Reply { to: to@, text: text@ },
            Action::LookupAddress { address } => ActionView::LookupAddress { address: address@ },
            Action::SearchToken { query } => ActionView::SearchToken { query: query@ },
            Action::Sleep { seconds } => ActionView::Sleep { seconds },
        }
    }
}

/// What the embedding program reports.
#[derive(Debug)]
pub enum Event {
    /// A cycle is to start.
    Begin,
    /// `count` tokens were fetched.
    TokensFetched { count: usize },
    /// The token asked about: its symbol, its summary, and the rendered
    /// figures of its first pool where it has one.
    TokenDescribed { symbol: String, summary: String, figures: Option<PoolFigures> },
    /// The language model answered `text`.
    Completion { text: String },
    /// The platform named the account `text`.
    UserId { text: String },
    /// The notifications of the account.
    Notifications { items: Vec<Notification> },
    /// The post went out under the identifier `id`.
    Posted { id: String },
    /// The reply went out.
    Replied,
    /// The summary of the token looked up or searched for, if it was found.
    TokenFound { summary: Option<String> },
    /// The sleep is over.
    Slept,
    /// The action failed with the error text `message`.
    Failed { message: String },
}

/// Where the post cycle stands.
#[derive(Debug)]
pub enum PostPhase {
    /// No cycle is under way.
    Idle,
    /// The tokens were asked for.
    FetchingTokens { variant: Variant, agent: usize },
    /// The description of one token was asked for.
    DescribingToken { variant: Variant, agent: usize },
    /// A draft was asked for with `prompt`; `rejected` drafts were turned
    /// down for repeating a recent phrase, and the language model was asked
    /// `attempt` times since.
    Drafting { variant: Variant, agent: usize, prompt: String, rejected: usize, attempt: usize },
    /// The account identifier was asked for, to post `draft`.
    ResolvingUser { agent: usize, draft: String },
    /// `draft` was handed over for posting.
    Posting { variant: Variant, agent: usize, draft: String },
    /// The cycle sleeps after a refusal for rate.
    BackingOff,
}

/// A `PostPhase`, with its texts as characters.
pub enum PostPhaseView {
    Idle,
    FetchingTokens { variant: Variant, agent: usize },
    DescribingToken { variant: Variant, agent: usize },
    Drafting { variant: Variant, agent: usize, prompt: Seq<char>, rejected: usize, attempt: usize },
    ResolvingUser { agent: usize, draft: Seq<char> },
    Posting { variant: Variant, agent: usize, draft: Seq<char> },
    BackingOff,
}

impl View for PostPhase {
    type V = PostPhaseView;

    open spec fn view(&self) -> PostPhaseView {
        match *self {
            PostPhase::Idle => PostPhaseView::Idle,
            PostPhase::FetchingTokens { variant, agent } => PostPhaseView::FetchingTokens {
                variant,
                agent,
            },
            PostPhase::DescribingToken { variant, agent } => PostPhaseView::DescribingToken {
                variant,
                agent,
            },
            PostPhase::Drafting {
                variant,
                agent,
                prompt,
                rejected,
                attempt,
            } => PostPhaseView::Drafting { variant, agent, prompt: prompt@, rejected, attempt },
            PostPhase::ResolvingUser { agent, draft } => PostPhaseView::ResolvingUser {
                agent,
                draft: draft@,
            },
            PostPhase::Posting { variant, agent, draft } => PostPhaseView::Posting {
                variant,
                agent,
                draft: draft@,
            },
            PostPhase::BackingOff => PostPhaseView::BackingOff,
        }
    }
}

/// How the answer to one notification is being written.
#[derive(Clone, Copy, Debug, PartialEq, Eq, Structural)]
pub enum DraftKind {
    /// A reply in the persona's voice.
    Reply,
    /// A retort to a message that names no token.
    Retort,
    /// A comment on the token that the message names.
    Editorial,
    /// A comment for a token that was not found.
    Generic,
}

/// Where the notification cycle stands. `queue` holds the notifications
/// chosen for an answer, and `at` is the one in hand.
#[derive(Debug)]
pub enum ReplyPhase {
    /// No cycle is under way.
    Idle,
    /// The account identifier was asked for.
    ResolvingUser { variant: Variant },
    /// The notifications were asked for.
    Fetching { variant: Variant },
    /// The language model was asked whether the message deserves an answer.
    Classifying { queue: Vec<Notification>, at: usize },
    /// The token that the message names was asked for.
    LookingUp { queue: Vec<Notification>, at: usize },
    /// An answer was asked for with `prompt`, for the `attempt`-th time.
    Drafting {
        variant: Variant,
        queue: Vec<Notification>,
        at: usize,
        kind: DraftKind,
        prompt: String,
        attempt: usize,
    },
    /// The answer was handed over for posting.
    Sending { variant: Variant, queue: Vec<Notification>, at: usize },
    /// The cycle pauses before it turns to the next notification.
    Pausing { variant: Variant, queue: Vec<Notification>, at: usize },
}

/// A `ReplyPhase`, with its texts as characters.
pub enum ReplyPhaseView {
    Idle,
    ResolvingUser { variant: Variant },
    Fetching { variant: Variant },
    Classifying { queue: Seq<NotificationView>, at: usize },
    LookingUp { queue: Seq<NotificationView>, at: usize },
    Drafting {
        variant: Variant,
        queue: Seq<NotificationView>,
        at: usize,
        kind: DraftKind,
        prompt: Seq<char>,
        attempt: usize,
    },
    Sending { variant: Variant, queue: Seq<NotificationView>, at: usize },
    Pausing { variant: Variant, queue: Seq<NotificationView>, at: usize },
}

impl View for ReplyPhase {
    type V = ReplyPhaseView;

    open spec fn view(&self) -> ReplyPhaseView {
        match *self {
            ReplyPhase::Idle => ReplyPhaseView::Idle,
            ReplyPhase::ResolvingUser { variant } => ReplyPhaseView::ResolvingUser { variant },
            ReplyPhase::Fetching { variant } => ReplyPhaseView::Fetching { variant },
            ReplyPhase::Classifying { queue, at } => ReplyPhaseView::Classifying {
                queue: notes(queue@),
                at,
            },
            ReplyPhase::LookingUp { queue, at } => ReplyPhaseView::LookingUp {
                queue: notes(queue@),
                at,
            },
            ReplyPhase::Drafting {
                variant,
                queue,
                at,
                kind,
                prompt,
                attempt,
            } => ReplyPhaseView::Drafting {
                variant,
                queue: notes(queue@),
                at,
                kind,
                prompt: prompt@,
                attempt,
            },
            ReplyPhase::Sending { variant, queue, at } => ReplyPhaseView::Sending {
                variant,
                queue: notes(queue@),
                at,
            },
            ReplyPhase::Pausing { variant, queue, at } => ReplyPhaseView::Pausing {
                variant,
                queue: notes(queue@),
                at,
            },
        }
    }
}

/// Everything that the loop knows.
#[derive(Debug)]
pub struct Runtime {
    pub agents: Vec<Agent>,
    pub memory: Memory,
    pub processed_tweets: ProcessedNotifications,
    pub cached_user_id: Option<u64>,
    pub last_notification_check: Option<Timestamp>,
    pub last_tweet_time: Option<Timestamp>,
    pub character_config: CharacterConfig,
    pub recent_phrases: PhraseWindow,
    pub solana_tracker: SolanaTracker,
    /// The contract address of the agent's own token; empty if there is
    /// none.
    pub token_address: String,
    /// The ticker of the agent's own token; empty if there is none.
    pub token_symbol: String,
    /// The most notifications that are answered in one check.
    pub notification_cap: usize,
    /// Where the post cycle stands.
    pub post_phase: PostPhase,
    /// Where the notification cycle stands.
    pub reply_phase: ReplyPhase,
}

/// What a `Runtime` holds, with texts as characters and collections as
/// sequences and sets.
pub struct RuntimeView {
    pub agents: Seq<Agent>,
    pub memory: MemoryView,
    pub processed: Set<Seq<char>>,
    pub cached_user_id: Option<u64>,
    pub last_notification_check: Option<Timestamp>,
    pub last_tweet_time: Option<Timestamp>,
    pub character_config: CharacterConfig,
    pub recent: Seq<Seq<char>>,
    pub recent_limit: nat,
    pub solana_tracker: SolanaTracker,
    pub token_address: Seq<char>,
    pub token_symbol: Seq<char>,
    pub notification_cap: usize,
    pub post_phase: PostPhaseView,
    pub reply_phase: ReplyPhaseView,
}

impl View for Runtime {
    type V = RuntimeView;

    open spec fn view(&self) -> RuntimeView {
        RuntimeView {
            agents: self.agents@,
            memory: self.memory@,
            processed: self.processed_tweets@,
            cached_user_id: self.cached_user_id,
            last_notification_check: self.last_notification_check,
            last_tweet_time: self.last_tweet_time,
            character_config: self.character_config,
            recent: self.recent_phrases@,
            recent_limit: self.recent_phrases.limit(),
            solana_tracker: self.solana_tracker,
            token_address: self.token_address@,
            token_symbol: self.token_symbol@,
            notification_cap: self.notification_cap,
            post_phase: self.post_phase@,
            reply_phase: self.reply_phase@,
        }
    }
}

/// What asking for the account identifier `text` leaves of the cache.
pub open spec fn user_id_from(text: Seq<char>) -> Option<u64> {
    parsed_u64(text)
}

impl Runtime {
    /// The invariants of the parts: identifiers in order, no duplicates
    /// among the handled notifications or the recent phrases, and no more
    /// recent phrases than the window takes.
    pub open spec fn wf(&self) -> bool {
        &&& self.memory.wf()
        &&& self.processed_tweets.wf()
        &&& self.recent_phrases.wf()
    }

    /// A loop for the persona `character_config` that starts from the
    /// stored memory and handled notifications, or from nothing where
    /// nothing was stored. It has no agents yet, knows nothing of the
    /// account, and has neither posted nor checked.
    pub fn new(
        solana_tracker_api_key: &str,
        character_config: CharacterConfig,
        stored_memory: Option<Memory>,
        stored_processed: Option<Vec<String>>,
    ) -> (rt: Runtime)
        ensures
            rt.agents@.len() == 0,
            stored_memory matches Some(m) ==> rt.memory == m,
            stored_memory is None ==> rt.memory@.tweets.len() == 0 && rt.memory.next_id == 0
                && !rt.memory.tweet_mode && !rt.memory.debug_mode,
            rt.processed_tweets@ == match stored_processed {
                Some(ids) => crate::text::texts(ids@).to_set(),
                None => Set::<Seq<char>>::empty(),
            },
            rt.processed_tweets.wf(),
            rt.cached_user_id is None,
            rt.last_notification_check is None,
            rt.last_tweet_time is None,
            rt.character_config == character_config,
            rt.recent_phrases@.len() == 0,
            rt.recent_phrases.limit() == PHRASE_CAPACITY,
            rt.recent_phrases.wf(),
            rt.solana_tracker.api_key@ == solana_tracker_api_key@,
            rt.token_address@.len() == 0,
            rt.token_symbol@.len() == 0,
            rt.notification_cap == NOTIFICATION_CAP,
            rt.post_phase is Idle,
            rt.reply_phase is Idle,
            stored_memory is None ==> rt.wf(),
            stored_memory matches Some(m) ==> (m.wf() ==> rt.wf()),
    {
        Runtime {
            agents: Vec::new(),
            memory: MemoryStore::load_memory(stored_memory),
            processed_tweets: MemoryStore::load_processed_tweets(stored_processed),
            cached_user_id: None,
            last_notification_check: None,
            last_tweet_time: None,
            character_config,
            recent_phrases: PhraseWindow::new(PHRASE_CAPACITY),
            solana_tracker: SolanaTracker::new(solana_tracker_api_key),
            token_address: String::new(),
            token_symbol: String::new(),
            notification_cap: NOTIFICATION_CAP,
            post_phase: PostPhase::Idle,
            reply_phase: ReplyPhase::Idle,
        }
    }

    /// Adds an agent for the persona that `prompt` describes.
    pub fn add_agent(&mut self, prompt: &str)
        ensures
            final(self)@.agents.len() == old(self)@.agents.len() + 1,
            final(self)@.agents.drop_last() == old(self)@.agents,
            final(self)@.agents.last().prompt@ == prompt@,
            final(self)@ == (RuntimeView { agents: final(self)@.agents, ..old(self)@ }),
            old(self).wf() ==> final(self).wf(),
    {
        let agent = Agent::new(prompt);
        self.agents.push(agent);
        assert(self@.agents.drop_last() =~= old(self)@.agents);
    }

    /// Whether a post is allowed at `now`: none went out within the
    /// cooldown.
    pub fn allows_tweet_at(&self, now: Timestamp) -> (r: bool)
        ensures
            r == cooldown_over(self.last_tweet_time, now),
    {
        cooldown_elapsed(self.last_tweet_time, now)
    }

    /// Whether a post is allowed now.
    pub fn should_allow_tweet(&self) -> (r: bool)
        ensures
            self.last_tweet_time is None ==> r,
            exists|now: Timestamp| r == cooldown_over(self.last_tweet_time, now),
    {
        let now = utc_now();
        let r = self.allows_tweet_at(now.at);
        assert(r == cooldown_over(self.last_tweet_time, now.at));
        r
    }

    /// Whether the notifications may be checked at `now`: they were not
    /// checked within the cooldown.
    pub fn allows_check_at(&self, now: Timestamp) -> (r: bool)
        ensures
            r == cooldown_over(self.last_notification_check, now),
    {
        cooldown_elapsed(self.last_notification_check, now)
    }

    /// Whether the notifications may be checked now.
    pub fn should_check_notifications(&self) -> (r: bool)
        ensures
            self.last_notification_check is None ==> r,
            exists|now: Timestamp| r == cooldown_over(self.last_notification_check, now),
    {
        let now = utc_now();
        let r = self.allows_check_at(now.at);
        assert(r == cooldown_over(self.last_notification_check, now.at));
        r
    }

    /// The account identifier, where it is known; otherwise what the
    /// platform named as the account is read as a number and remembered.
    /// `None` where it is no number.
    pub fn ensure_user_id(&mut self, named: &str) -> (r: Option<u64>)
        ensures
            r == match old(self).cached_user_id {
                Some(id) => Some(id),
                None => user_id_from(named@),
            },
            final(self)@ == (RuntimeView { cached_user_id: r, ..old(self)@ }),
            old(self).wf() ==> final(self).wf(),
    {
        match self.cached_user_id {
            Some(id) => Some(id),
            None => {
                let parsed = parse_u64(named);
                self.cached_user_id = parsed;
                parsed
            },
        }
    }
}

} // verus!
