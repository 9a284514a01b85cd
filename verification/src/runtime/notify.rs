//! The notification cycle: from the decision that a check is due to the
//! record of what was answered.

use crate::agent::{
    editorial_reading, editorialized_fud_prompt_text, generic_fud_prompt_text, reply_prompt_text,
    respond_marker, respond_prompt_text, Agent, ResponseDecision,
};
use crate::chance::shuffle;
use crate::clock::{cooldown_over, utc_now, Timestamp};
use crate::memory::MemoryStore;
use crate::models::TweetType;
use crate::providers::solanatracker::{
    component_closings, component_intros, generic_answer, generic_reasons,
};
use crate::runtime::post::remembered;
use crate::runtime::state::{
    is_rate_limited, notes, rate_limit_mark, user_id_from, Action, ActionView, DraftKind, Event,
    Failure, Notification, NotificationView, Outcome, ReplyPhase, ReplyPhaseView, Runtime,
    RuntimeView, Variant, REPLY_PAUSE_SECONDS,
};
use crate::text::{contains_text, lowercase_of, parse_u64, trimmed, uppercase_of};
use crate::topics::{
    extract_ticker_or_address, is_known, is_token_info_request, replies_for, reply_with,
    request_in, stock_reply, topic_of, TokenInfoRequest,
};
use vstd::prelude::*;

verus! {

/// The task that asks for a retort to a message that names no token.
pub open spec fn retort_prompt_text() -> Seq<char> {
    "Task: Generate a vicious sarcastic insult response.\n                        Requirements:\n                        - Stay under 240 characters\n                        - Be extremely condescending and mocking\n                        - Question the person's intelligence and trading abilities\n                        - Use all lowercase except for token symbols\n                        - Focus on their lack of understanding or research\n                        - Do not include tickers or symbols ($) in your response\n                        - Do not mention specific tokens\n                        Write ONLY the response text with no additional commentary:"@
}

/// The task that asks for a retort to a message that names no token.
pub fn retort_prompt() -> (r: &'static str)
    ensures
        r@ == retort_prompt_text(),
{
    "Task: Generate a vicious sarcastic insult response.\n                        Requirements:\n                        - Stay under 240 characters\n                        - Be extremely condescending and mocking\n                        - Question the person's intelligence and trading abilities\n                        - Use all lowercase except for token symbols\n                        - Focus on their lack of understanding or research\n                        - Do not include tickers or symbols ($) in your response\n                        - Do not mention specific tokens\n                        Write ONLY the response text with no additional commentary:"
}

/// The cycle is given up for `failure` and nothing else changes.
pub open spec fn replies_given_up(
    pre: RuntimeView,
    failure: Failure,
    next: RuntimeView,
    a: ActionView,
) -> bool {
    next == (RuntimeView { reply_phase: ReplyPhaseView::Idle, ..pre }) && a == ActionView::Finish(
        Outcome::Failed(failure),
    )
}

/// A notification is fresh where it was not handled and no remembered post
/// answers it.
pub open spec fn is_fresh(pre: RuntimeView, n: NotificationView) -> bool {
    !pre.processed.contains(n.id) && !pre.memory.has_reply_to(n.id)
}

/// The fresh ones among `items`, in order.
pub open spec fn fresh_of(pre: RuntimeView, items: Seq<NotificationView>) -> Seq<
    NotificationView,
>
    decreases items.len(),
{
    if items.len() == 0 {
        Seq::empty()
    } else if is_fresh(pre, items.last()) {
        fresh_of(pre, items.drop_last()).push(items.last())
    } else {
        fresh_of(pre, items.drop_last())
    }
}

/// `handled` with the identifiers of `items`.
pub open spec fn with_ids(handled: Set<Seq<char>>, items: Seq<NotificationView>) -> Set<Seq<char>>
    decreases items.len(),
{
    if items.len() == 0 {
        handled
    } else {
        with_ids(handled, items.drop_last()).insert(items.last().id)
    }
}

/// `picks` names `cap` different members of a sequence of `len` members.
pub open spec fn picks_ok(picks: Seq<usize>, len: nat, cap: nat) -> bool {
    &&& picks.len() == cap
    &&& picks.no_duplicates()
    &&& forall|i: int| 0 <= i < picks.len() ==> (#[trigger] picks[i]) < len
}

/// The members of `fresh` that `picks` names, in the order of the picks.
pub open spec fn picked(fresh: Seq<NotificationView>, picks: Seq<usize>) -> Seq<NotificationView> {
    Seq::new(picks.len(), |i: int| fresh[picks[i] as int])
}

/// `queue` is what is answered of `fresh`: all of it where it is no more
/// than `cap`, otherwise `cap` different members of it.
pub open spec fn chosen_from(fresh: Seq<NotificationView>, cap: nat, queue: Seq<NotificationView>) -> bool {
    if fresh.len() <= cap {
        queue == fresh
    } else {
        exists|picks: Seq<usize>| picks_ok(picks, fresh.len(), cap) && queue == #[trigger] picked(
            fresh,
            picks,
        )
    }
}

/// As many notifications are answered as are fresh, but no more than the
/// cap.
pub proof fn lemma_chosen_count(fresh: Seq<NotificationView>, cap: nat, queue: Seq<NotificationView>)
    requires
        chosen_from(fresh, cap, queue),
    ensures
        queue.len() == if fresh.len() <= cap {
            fresh.len()
        } else {
            cap
        },
{
}

/// The state after the answer `response` to `queue[at]` was recorded.
pub open spec fn with_reply(
    pre: RuntimeView,
    queue: Seq<NotificationView>,
    at: int,
    response: Seq<char>,
    now: Timestamp,
) -> RuntimeView {
    RuntimeView {
        memory: remembered(
            pre,
            response,
            pre.agents[0].prompt@,
            Some(queue[at].id),
            TweetType::Reply,
            Some(queue[at].id),
            now,
        ),
        ..pre
    }
}

/// The answer that needs no language model: the stock answer to a request
/// for the agent's own contract address or ticker.
pub open spec fn stock_answer(pre: RuntimeView, request: TokenInfoRequest) -> Seq<char> {
    let value = match request {
        TokenInfoRequest::ContractAddress => pre.token_address,
        TokenInfoRequest::Ticker => pre.token_symbol,
    };
    reply_with(replies_for(request, is_known(value))[0], value)
}

/// Where the cycle stands and what it asks for once it turns to
/// `queue[at]`. Behind the last notification the cycle is over. The plain
/// persona asks whether the message deserves an answer. The topical one
/// answers a request for its own token at once, records the answer, and
/// hands it over for posting or, with the tweet mode off, turns to the next
/// notification; it has a token looked up that the message names; and it
/// asks for a retort to any other message.
pub open spec fn advance_result(
    pre: RuntimeView,
    variant: Variant,
    queue: Seq<NotificationView>,
    at: nat,
    now: Timestamp,
) -> (RuntimeView, ActionView)
    decreases queue.len() - at,
{
    if at >= queue.len() {
        (
            RuntimeView { reply_phase: ReplyPhaseView::Idle, ..pre },
            ActionView::Finish(Outcome::Handled),
        )
    } else if variant == Variant::Plain {
        (
            RuntimeView { reply_phase: ReplyPhaseView::Classifying { queue, at: at as usize }, ..pre },
            ActionView::Complete { agent: 0, prompt: respond_prompt_text(queue[at as int].text) },
        )
    } else {
        match request_in(lowercase_of(queue[at as int].text)) {
            Some(request) => {
                let recorded = with_reply(pre, queue, at as int, stock_answer(pre, request), now);
                if pre.memory.tweet_mode {
                    (
                        RuntimeView {
                            reply_phase: ReplyPhaseView::Sending { variant, queue, at: at as usize },
                            ..recorded
                        },
                        ActionView::Reply {
                            to: queue[at as int].id,
                            text: stock_answer(pre, request),
                        },
                    )
                } else {
                    advance_result(recorded, variant, queue, at + 1, now)
                }
            },
            None => match topic_of(queue[at as int].text) {
                Some((token, by_address)) => (
                    RuntimeView {
                        reply_phase: ReplyPhaseView::LookingUp { queue, at: at as usize },
                        ..pre
                    },
                    if by_address {
                        ActionView::LookupAddress { address: token }
                    } else {
                        ActionView::SearchToken { query: token }
                    },
                ),
                None => (
                    RuntimeView {
                        reply_phase: ReplyPhaseView::Drafting {
                            variant,
                            queue,
                            at: at as usize,
                            kind: DraftKind::Retort,
                            prompt: retort_prompt_text(),
                            attempt: 0,
                        },
                        ..pre
                    },
                    ActionView::Complete { agent: 0, prompt: retort_prompt_text() },
                ),
            },
        }
    }
}

/// Where the cycle stands and what it asks for once the answer `response`
/// to `queue[at]` is written: the answer is recorded; with the tweet mode
/// on it is handed over for posting, with the tweet mode off the cycle
/// turns to the next notification.
pub open spec fn delivered(
    pre: RuntimeView,
    variant: Variant,
    queue: Seq<NotificationView>,
    at: usize,
    response: Seq<char>,
    now: Timestamp,
) -> (RuntimeView, ActionView) {
    let recorded = with_reply(pre, queue, at as int, response, now);
    if pre.memory.tweet_mode {
        (
            RuntimeView { reply_phase: ReplyPhaseView::Sending { variant, queue, at }, ..recorded },
            ActionView::Reply { to: queue[at as int].id, text: response },
        )
    } else {
        advance_result(recorded, variant, queue, (at + 1) as nat, now)
    }
}

/// The start of a cycle. Without agents the cycle fails; within the
/// cooldown it is skipped; otherwise the notifications are asked for, after
/// the account where it is not known.
pub open spec fn replies_begun(
    pre: RuntimeView,
    variant: Variant,
    now: Timestamp,
    next: RuntimeView,
    a: ActionView,
) -> bool {
    if pre.agents.len() == 0 {
        replies_given_up(pre, Failure::NoAgents, next, a)
    } else if !cooldown_over(pre.last_notification_check, now) {
        next == (RuntimeView { reply_phase: ReplyPhaseView::Idle, ..pre }) && a == ActionView::Finish(
            Outcome::Skipped,
        )
    } else {
        match pre.cached_user_id {
            Some(user_id) => next == (RuntimeView {
                reply_phase: ReplyPhaseView::Fetching { variant },
                ..pre
            }) && a == (ActionView::FetchNotifications { user_id }),
            None => next == (RuntimeView {
                reply_phase: ReplyPhaseView::ResolvingUser { variant },
                ..pre
            }) && a == ActionView::ResolveUserId,
        }
    }
}

/// The platform named the account. A name that is a number is remembered
/// and the notifications are asked for; any other fails the cycle.
pub open spec fn replies_account_seen(
    pre: RuntimeView,
    variant: Variant,
    named: Seq<char>,
    next: RuntimeView,
    a: ActionView,
) -> bool {
    match user_id_from(named) {
        Some(user_id) => next == (RuntimeView {
            reply_phase: ReplyPhaseView::Fetching { variant },
            cached_user_id: Some(user_id),
            ..pre
        }) && a == (ActionView::FetchNotifications { user_id }),
        None => replies_given_up(pre, Failure::BadUserId, next, a),
    }
}

/// The notifications came. The time of the check is set; every fresh
/// notification is marked as handled; and the cycle turns to the first of
/// those that are chosen for an answer.
pub open spec fn notifications_seen(
    pre: RuntimeView,
    variant: Variant,
    items: Seq<NotificationView>,
    now: Timestamp,
    next: RuntimeView,
    a: ActionView,
) -> bool {
    let fresh = fresh_of(pre, items);
    let marked = RuntimeView {
        last_notification_check: Some(now),
        processed: with_ids(pre.processed, fresh),
        ..pre
    };
    exists|queue: Seq<NotificationView>| #[trigger]
        chosen_from(fresh, pre.notification_cap as nat, queue) && (next, a) == advance_result(
            marked,
            variant,
            queue,
            0,
            now,
        )
}

/// The language model said whether `queue[at]` deserves an answer: for one
/// that does a reply is asked for, from one that does not the cycle turns
/// to the next.
pub open spec fn classified(
    pre: RuntimeView,
    queue: Seq<NotificationView>,
    at: usize,
    text: Seq<char>,
    now: Timestamp,
) -> (RuntimeView, ActionView) {
    if contains_text(uppercase_of(text), respond_marker()) {
        (
            RuntimeView {
                reply_phase: ReplyPhaseView::Drafting {
                    variant: Variant::Plain,
                    queue,
                    at,
                    kind: DraftKind::Reply,
                    prompt: reply_prompt_text(queue[at as int].text),
                    attempt: 0,
                },
                ..pre
            },
            ActionView::Complete { agent: 0, prompt: reply_prompt_text(queue[at as int].text) },
        )
    } else {
        advance_result(pre, Variant::Plain, queue, (at + 1) as nat, now)
    }
}

/// `prompt` asks for a comment built on an intro, a reason and a closing
/// from the tables.
pub open spec fn generic_prompt(persona: Seq<char>, prompt: Seq<char>) -> bool {
    exists|intro: Seq<char>, reason: Seq<char>, closing: Seq<char>|
        component_intros().contains(intro) && generic_reasons().contains(reason)
            && component_closings().contains(closing) && prompt == #[trigger] generic_fud_prompt_text(
            persona,
            intro,
            reason,
            closing,
        )
}

/// The token that the message names was looked for. For one that was
/// found a comment on it is asked for; for one that was not, a comment on
/// no token in particular.
pub open spec fn token_looked_up(
    pre: RuntimeView,
    queue: Seq<NotificationView>,
    at: usize,
    summary: Option<Seq<char>>,
    next: RuntimeView,
    a: ActionView,
) -> bool {
    match summary {
        Some(s) => {
            let prompt = editorialized_fud_prompt_text(pre.agents[0].prompt@, s);
            next == (RuntimeView {
                reply_phase: ReplyPhaseView::Drafting {
                    variant: Variant::Topical,
                    queue,
                    at,
                    kind: DraftKind::Editorial,
                    prompt,
                    attempt: 0,
                },
                ..pre
            }) && a == (ActionView::Complete { agent: 0, prompt })
        },
        None => exists|prompt: Seq<char>| #[trigger]
            generic_prompt(pre.agents[0].prompt@, prompt) && next == (RuntimeView {
                reply_phase: ReplyPhaseView::Drafting {
                    variant: Variant::Topical,
                    queue,
                    at,
                    kind: DraftKind::Generic,
                    prompt,
                    attempt: 0,
                },
                ..pre
            }) && a == (ActionView::Complete { agent: 0, prompt }),
    }
}

/// The language model wrote an answer. A reply or a retort is delivered
/// as it is, trimmed. A comment on a token is read by the agent: what the
/// agent turns down is asked for again, what it accepts is delivered. A
/// comment on no token in particular is restyled, put between marks and
/// delivered.
pub open spec fn answer_seen(
    pre: RuntimeView,
    variant: Variant,
    queue: Seq<NotificationView>,
    at: usize,
    kind: DraftKind,
    prompt: Seq<char>,
    attempt: usize,
    text: Seq<char>,
    now: Timestamp,
    next: RuntimeView,
    a: ActionView,
) -> bool {
    match kind {
        DraftKind::Reply => (next, a) == delivered(pre, variant, queue, at, trimmed(text), now),
        DraftKind::Retort => (next, a) == delivered(pre, variant, queue, at, trimmed(text), now),
        DraftKind::Editorial => exists|later: Agent, r: Option<String>| #[trigger]
            editorial_reading(pre.agents[0], later, text, attempt, r) && match r {
                None => next == (RuntimeView {
                    reply_phase: ReplyPhaseView::Drafting {
                        variant,
                        queue,
                        at,
                        kind,
                        prompt,
                        attempt: (attempt + 1) as usize,
                    },
                    ..pre
                }) && a == (ActionView::Complete { agent: 0, prompt }),
                Some(comment) => (next, a) == delivered(
                    RuntimeView { agents: pre.agents.update(0, later), ..pre },
                    variant,
                    queue,
                    at,
                    comment@,
                    now,
                ),
            },
        DraftKind::Generic => exists|answer: Seq<char>| #[trigger]
            generic_answer(text, answer) && (next, a) == delivered(
                pre,
                variant,
                queue,
                at,
                answer,
                now,
            ),
    }
}

/// An action failed. Notifications refused for rate count as checked and
/// end the cycle without a failure; a reply refused for rate ends the cycle
/// at once, and one that failed otherwise is passed over; a token that
/// could not be looked up counts as not found; any other failure ends the
/// cycle.
pub open spec fn replies_failed(
    pre: RuntimeView,
    phase: ReplyPhaseView,
    message: Seq<char>,
    now: Timestamp,
    next: RuntimeView,
    a: ActionView,
) -> bool {
    let limited = contains_text(message, rate_limit_mark());
    match phase {
        ReplyPhaseView::Fetching { .. } => if limited {
            next == (RuntimeView {
                reply_phase: ReplyPhaseView::Idle,
                last_notification_check: Some(now),
                ..pre
            }) && a == ActionView::Finish(Outcome::RateLimited)
        } else {
            replies_given_up(pre, Failure::External, next, a)
        },
        ReplyPhaseView::Sending { variant, queue, at } => if limited {
            next == (RuntimeView { reply_phase: ReplyPhaseView::Idle, ..pre }) && a
                == ActionView::Finish(Outcome::RateLimited)
        } else {
            (next, a) == advance_result(pre, variant, queue, (at + 1) as nat, now)
        },
        ReplyPhaseView::LookingUp { queue, at } => token_looked_up(pre, queue, at, None, next, a),
        _ => replies_given_up(pre, Failure::External, next, a),
    }
}

/// The phase names a notification of its queue, and there is an agent to
/// answer it.
pub open spec fn replies_in_order(pre: RuntimeView) -> bool {
    match pre.reply_phase {
        ReplyPhaseView::Idle => true,
        ReplyPhaseView::ResolvingUser { .. } => pre.agents.len() > 0,
        ReplyPhaseView::Fetching { .. } => pre.agents.len() > 0,
        ReplyPhaseView::Classifying { queue, at } => pre.agents.len() > 0 && at < queue.len(),
        ReplyPhaseView::LookingUp { queue, at } => pre.agents.len() > 0 && at < queue.len(),
        ReplyPhaseView::Drafting { queue, at, .. } => pre.agents.len() > 0 && at < queue.len(),
        ReplyPhaseView::Sending { queue, at, .. } => pre.agents.len() > 0 && at < queue.len(),
        ReplyPhaseView::Pausing { queue, at, .. } => pre.agents.len() > 0 && at < queue.len(),
    }
}

/// An optional string as characters.
pub open spec fn summary_text(s: Option<String>) -> Option<Seq<char>> {
    match s {
        Some(t) => Some(t@),
        None => None,
    }
}

/// One step of the notification cycle: what the state `pre` and the event
/// make of the state and which action is asked for. `begin_as` says which
/// persona a new cycle is for. An event that does not answer the action
/// last asked for ends the cycle. Each step starts from the state with the
/// phase taken out, and says which phase is put in.
pub open spec fn replies_stepped(
    pre: RuntimeView,
    begin_as: Variant,
    event: Event,
    now: Timestamp,
    next: RuntimeView,
    a: ActionView,
) -> bool {
    let idle = RuntimeView { reply_phase: ReplyPhaseView::Idle, ..pre };
    if !replies_in_order(pre) {
        replies_given_up(pre, Failure::OutOfTurn, next, a)
    } else {
        match (pre.reply_phase, event) {
            (ReplyPhaseView::Idle, Event::Begin) => replies_begun(idle, begin_as, now, next, a),
            (ReplyPhaseView::Idle, _) => replies_given_up(pre, Failure::OutOfTurn, next, a),
            (phase, Event::Failed { message }) => replies_failed(
                idle,
                phase,
                message@,
                now,
                next,
                a,
            ),
            (ReplyPhaseView::ResolvingUser { variant }, Event::UserId { text }) => replies_account_seen(
                idle,
                variant,
                text@,
                next,
                a,
            ),
            (ReplyPhaseView::Fetching { variant }, Event::Notifications { items }) => notifications_seen(
                idle,
                variant,
                notes(items@),
                now,
                next,
                a,
            ),
            (ReplyPhaseView::Classifying { queue, at }, Event::Completion { text }) => (next, a)
                == classified(idle, queue, at, text@, now),
            (ReplyPhaseView::LookingUp { queue, at }, Event::TokenFound { summary }) => token_looked_up(
                idle,
                queue,
                at,
                summary_text(summary),
                next,
                a,
            ),
            (
                ReplyPhaseView::Drafting { variant, queue, at, kind, prompt, attempt },
                Event::Completion { text },
            ) => answer_seen(idle, variant, queue, at, kind, prompt, attempt, text@, now, next, a),
            (ReplyPhaseView::Sending { variant, queue, at }, Event::Replied) => next
                == (RuntimeView { reply_phase: ReplyPhaseView::Pausing { variant, queue, at }, ..pre })
                && a == (ActionView::Sleep { seconds: REPLY_PAUSE_SECONDS }),
            (ReplyPhaseView::Pausing { variant, queue, at }, Event::Slept) => (next, a)
                == advance_result(idle, variant, queue, (at + 1) as nat, now),
            _ => replies_given_up(pre, Failure::OutOfTurn, next, a),
        }
    }
}

/// With the tweet mode off, turning to a notification asks for no reply to
/// go out, and leaves the tweet mode off.
pub proof fn lemma_advance_sends_nothing(
    pre: RuntimeView,
    variant: Variant,
    queue: Seq<NotificationView>,
    at: nat,
    now: Timestamp,
)
    requires
        !pre.memory.tweet_mode,
    ensures
        !(advance_result(pre, variant, queue, at, now).1 is Reply),
        !(advance_result(pre, variant, queue, at, now).1 is Post),
        !advance_result(pre, variant, queue, at, now).0.memory.tweet_mode,
    decreases queue.len() - at,
{
    if at < queue.len() && variant == Variant::Topical {
        match request_in(lowercase_of(queue[at as int].text)) {
            Some(request) => {
                let recorded = with_reply(pre, queue, at as int, stock_answer(pre, request), now);
                lemma_advance_sends_nothing(recorded, variant, queue, at + 1, now);
            },
            None => {},
        }
    }
}

/// Turning to a notification leaves the handled identifiers as they are.
pub proof fn lemma_advance_keeps_handled(
    pre: RuntimeView,
    variant: Variant,
    queue: Seq<NotificationView>,
    at: nat,
    now: Timestamp,
)
    ensures
        advance_result(pre, variant, queue, at, now).0.processed == pre.processed,
    decreases queue.len() - at,
{
    if at < queue.len() && variant == Variant::Topical {
        match request_in(lowercase_of(queue[at as int].text)) {
            Some(request) => {
                let recorded = with_reply(pre, queue, at as int, stock_answer(pre, request), now);
                lemma_advance_keeps_handled(recorded, variant, queue, at + 1, now);
            },
            None => {},
        }
    }
}

/// Marking notifications as handled keeps what was handled and adds the
/// identifier of each of them.
pub proof fn lemma_with_ids_grows(handled: Set<Seq<char>>, items: Seq<NotificationView>)
    ensures
        handled.subset_of(with_ids(handled, items)),
        forall|i: int| 0 <= i < items.len() ==> with_ids(handled, items).contains(#[trigger] items[i].id),
    decreases items.len(),
{
    if items.len() > 0 {
        lemma_with_ids_grows(handled, items.drop_last());
        assert forall|i: int| 0 <= i < items.len() implies with_ids(handled, items).contains(
            #[trigger] items[i].id,
        ) by {
            if i < items.len() - 1 {
                assert(items.drop_last()[i] == items[i]);
            }
        }
    }
}

/// An identifier, once handled, stays handled through every step of the
/// notification cycle; and the step that sees the notifications marks each
/// fresh one as handled, whether or not it is chosen for an answer.
pub proof fn lemma_handled_stay_handled(
    pre: RuntimeView,
    begin_as: Variant,
    event: Event,
    now: Timestamp,
    next: RuntimeView,
    a: ActionView,
)
    requires
        replies_stepped(pre, begin_as, event, now, next, a),
    ensures
        pre.processed.subset_of(next.processed),
        (replies_in_order(pre) && pre.reply_phase is Fetching && event is Notifications) ==> forall|
            i: int,
        |
            0 <= i < event->items@.len() && is_fresh(pre, (#[trigger] event->items@[i])@)
                ==> next.processed.contains(event->items@[i].id@),
{
    let idle = RuntimeView { reply_phase: ReplyPhaseView::Idle, ..pre };
    if replies_in_order(pre) {
        match (pre.reply_phase, event) {
            (ReplyPhaseView::Idle, _) => {},
            (phase, Event::Failed { message }) => {
                match phase {
                    ReplyPhaseView::Sending { variant, queue, at } => {
                        lemma_advance_keeps_handled(idle, variant, queue, (at + 1) as nat, now);
                    },
                    _ => {},
                }
            },
            (ReplyPhaseView::Fetching { variant }, Event::Notifications { items }) => {
                let fresh = fresh_of(idle, notes(items@));
                let marked = RuntimeView {
                    last_notification_check: Some(now),
                    processed: with_ids(idle.processed, fresh),
                    ..idle
                };
                let queue = choose|queue: Seq<NotificationView>| #[trigger]
                    chosen_from(fresh, idle.notification_cap as nat, queue) && (next, a)
                        == advance_result(marked, variant, queue, 0, now);
                lemma_advance_keeps_handled(marked, variant, queue, 0, now);
                lemma_with_ids_grows(idle.processed, fresh);
                assert forall|i: int|
                    0 <= i < items@.len() && is_fresh(pre, (#[trigger] items@[i])@) implies next.processed.contains(
                    items@[i].id@,
                ) by {
                    lemma_fresh_holds(idle, notes(items@), i);
                    let k = choose|k: int| 0 <= k < fresh.len() && fresh[k] == notes(items@)[i];
                    assert(with_ids(idle.processed, fresh).contains(fresh[k].id));
                }
            },
            (ReplyPhaseView::Classifying { queue, at }, Event::Completion { text }) => {
                lemma_advance_keeps_handled(idle, Variant::Plain, queue, (at + 1) as nat, now);
            },
            (
                ReplyPhaseView::Drafting { variant, queue, at, kind, prompt, attempt },
                Event::Completion { text },
            ) => {
                match kind {
                    DraftKind::Editorial => {
                        let (later, r) = choose|later: Agent, r: Option<String>| #[trigger]
                            editorial_reading(idle.agents[0], later, text@, attempt, r) && match r {
                                None => next == (RuntimeView {
                                    reply_phase: ReplyPhaseView::Drafting {
                                        variant,
                                        queue,
                                        at,
                                        kind,
                                        prompt,
                                        attempt: (attempt + 1) as usize,
                                    },
                                    ..idle
                                }) && a == (ActionView::Complete { agent: 0, prompt }),
                                Some(comment) => (next, a) == delivered(
                                    RuntimeView { agents: idle.agents.update(0, later), ..idle },
                                    variant,
                                    queue,
                                    at,
                                    comment@,
                                    now,
                                ),
                            };
                        match r {
                            None => {},
                            Some(comment) => {
                                let from = RuntimeView {
                                    agents: idle.agents.update(0, later),
                                    ..idle
                                };
                                lemma_advance_keeps_handled(
                                    with_reply(from, queue, at as int, comment@, now),
                                    variant,
                                    queue,
                                    (at + 1) as nat,
                                    now,
                                );
                            },
                        }
                    },
                    DraftKind::Generic => {
                        let answer = choose|answer: Seq<char>| #[trigger]
                            generic_answer(text@, answer) && (next, a) == delivered(
                                idle,
                                variant,
                                queue,
                                at,
                                answer,
                                now,
                            );
                        lemma_advance_keeps_handled(
                            with_reply(idle, queue, at as int, answer, now),
                            variant,
                            queue,
                            (at + 1) as nat,
                            now,
                        );
                    },
                    _ => {
                        lemma_advance_keeps_handled(
                            with_reply(idle, queue, at as int, trimmed(text@), now),
                            variant,
                            queue,
                            (at + 1) as nat,
                            now,
                        );
                    },
                }
            },
            (ReplyPhaseView::Pausing { variant, queue, at }, Event::Slept) => {
                lemma_advance_keeps_handled(idle, variant, queue, (at + 1) as nat, now);
            },
            _ => {},
        }
    }
}

/// A fresh member of `items` is a member of the fresh ones.
pub proof fn lemma_fresh_holds(pre: RuntimeView, items: Seq<NotificationView>, i: int)
    requires
        0 <= i < items.len(),
        is_fresh(pre, items[i]),
    ensures
        fresh_of(pre, items).contains(items[i]),
    decreases items.len(),
{
    let fresh = fresh_of(pre, items);
    if i == items.len() - 1 {
        assert(fresh[fresh.len() - 1] == items[i]);
    } else {
        lemma_fresh_holds(pre, items.drop_last(), i);
        let rest = fresh_of(pre, items.drop_last());
        let k = choose|k: int| 0 <= k < rest.len() && rest[k] == items.drop_last()[i];
        assert(fresh[k] == items[i]);
    }
}

/// With the tweet mode off no step of the notification cycle asks for a
/// reply or a post to go out.
pub proof fn lemma_nothing_sent_with_tweet_mode_off(
    pre: RuntimeView,
    begin_as: Variant,
    event: Event,
    now: Timestamp,
    next: RuntimeView,
    a: ActionView,
)
    requires
        replies_stepped(pre, begin_as, event, now, next, a),
        !pre.memory.tweet_mode,
    ensures
        !(a is Reply),
        !(a is Post),
{
    let idle = RuntimeView { reply_phase: ReplyPhaseView::Idle, ..pre };
    if replies_in_order(pre) {
        match (pre.reply_phase, event) {
            (ReplyPhaseView::Idle, _) => {},
            (phase, Event::Failed { message }) => {
                match phase {
                    ReplyPhaseView::Sending { variant, queue, at } => {
                        lemma_advance_sends_nothing(idle, variant, queue, (at + 1) as nat, now);
                    },
                    _ => {},
                }
            },
            (ReplyPhaseView::Fetching { variant }, Event::Notifications { items }) => {
                let fresh = fresh_of(idle, notes(items@));
                let marked = RuntimeView {
                    last_notification_check: Some(now),
                    processed: with_ids(idle.processed, fresh),
                    ..idle
                };
                let queue = choose|queue: Seq<NotificationView>| #[trigger]
                    chosen_from(fresh, idle.notification_cap as nat, queue) && (next, a)
                        == advance_result(marked, variant, queue, 0, now);
                lemma_advance_sends_nothing(marked, variant, queue, 0, now);
            },
            (ReplyPhaseView::Classifying { queue, at }, Event::Completion { text }) => {
                lemma_advance_sends_nothing(idle, Variant::Plain, queue, (at + 1) as nat, now);
            },
            (
                ReplyPhaseView::Drafting { variant, queue, at, kind, prompt, attempt },
                Event::Completion { text },
            ) => {
                match kind {
                    DraftKind::Editorial => {
                        let (later, r) = choose|later: Agent, r: Option<String>| #[trigger]
                            editorial_reading(idle.agents[0], later, text@, attempt, r) && match r {
                                None => next == (RuntimeView {
                                    reply_phase: ReplyPhaseView::Drafting {
                                        variant,
                                        queue,
                                        at,
                                        kind,
                                        prompt,
                                        attempt: (attempt + 1) as usize,
                                    },
                                    ..idle
                                }) && a == (ActionView::Complete { agent: 0, prompt }),
                                Some(comment) => (next, a) == delivered(
                                    RuntimeView { agents: idle.agents.update(0, later), ..idle },
                                    variant,
                                    queue,
                                    at,
                                    comment@,
                                    now,
                                ),
                            };
                        match r {
                            None => {},
                            Some(comment) => {
                                let from = RuntimeView {
                                    agents: idle.agents.update(0, later),
                                    ..idle
                                };
                                lemma_advance_sends_nothing(
                                    with_reply(from, queue, at as int, comment@, now),
                                    variant,
                                    queue,
                                    (at + 1) as nat,
                                    now,
                                );
                            },
                        }
                    },
                    DraftKind::Generic => {
                        let answer = choose|answer: Seq<char>| #[trigger]
                            generic_answer(text@, answer) && (next, a) == delivered(
                                idle,
                                variant,
                                queue,
                                at,
                                answer,
                                now,
                            );
                        lemma_advance_sends_nothing(
                            with_reply(idle, queue, at as int, answer, now),
                            variant,
                            queue,
                            (at + 1) as nat,
                            now,
                        );
                    },
                    _ => {
                        lemma_advance_sends_nothing(
                            with_reply(idle, queue, at as int, trimmed(text@), now),
                            variant,
                            queue,
                            (at + 1) as nat,
                            now,
                        );
                    },
                }
            },
            (ReplyPhaseView::Pausing { variant, queue, at }, Event::Slept) => {
                lemma_advance_sends_nothing(idle, variant, queue, (at + 1) as nat, now);
            },
            _ => {},
        }
    }
}

/// A copy of `n`.
pub fn copy_notification(n: &Notification) -> (r: Notification)
    ensures
        r@ == n@,
{
    Notification { id: n.id.clone(), text: n.text.clone() }
}

/// The numbers from zero up to, not including, `n`.
fn count_up(n: usize) -> (v: Vec<usize>)
    ensures
        v@.len() == n,
        forall|i: int| 0 <= i < n ==> v@[i] == i,
        v@.no_duplicates(),
{
    let mut v: Vec<usize> = Vec::new();
    let mut i: usize = 0;
    while i < n
        invariant
            i <= n,
            v@.len() == i,
            forall|j: int| 0 <= j < i ==> v@[j] == j,
        decreases n - i,
    {
        v.push(i);
        i += 1;
    }
    v
}

/// A rearrangement of distinct numbers below a bound holds distinct
/// numbers below that bound.
proof fn lemma_rearranged(before: Seq<usize>, after: Seq<usize>, bound: nat)
    requires
        before.no_duplicates(),
        forall|i: int| 0 <= i < before.len() ==> (#[trigger] before[i]) < bound,
        after.to_multiset() == before.to_multiset(),
    ensures
        after.no_duplicates(),
        after.len() == before.len(),
        forall|i: int| 0 <= i < after.len() ==> (#[trigger] after[i]) < bound,
{
    broadcast use vstd::seq_lib::to_multiset_contains;

    before.lemma_multiset_has_no_duplicates();
    after.lemma_multiset_has_no_duplicates_conv();
    vstd::seq_lib::to_multiset_len(before);
    vstd::seq_lib::to_multiset_len(after);
    assert forall|i: int| 0 <= i < after.len() implies (#[trigger] after[i]) < bound by {
        assert(after.contains(after[i]));
        assert(after.to_multiset().count(after[i]) > 0);
        assert(before.contains(after[i]));
        let k = choose|k: int| 0 <= k < before.len() && before[k] == after[i];
        assert(before[k] < bound);
    }
}

/// The notifications that are answered of `fresh`: all of them where they
/// are no more than `cap`, otherwise `cap` of them, chosen at random.
pub fn choose_queue(fresh: Vec<Notification>, cap: usize) -> (queue: Vec<Notification>)
    ensures
        chosen_from(notes(fresh@), cap as nat, notes(queue@)),
{
    if fresh.len() <= cap {
        return fresh;
    }
    let mut order = count_up(fresh.len());
    let ghost sorted = order@;
    shuffle(&mut order);
    proof {
        lemma_rearranged(sorted, order@, fresh.len() as nat);
    }
    let mut queue: Vec<Notification> = Vec::new();
    let mut i: usize = 0;
    while i < cap
        invariant
            i <= cap < fresh.len(),
            order@.len() == fresh.len(),
            order@.no_duplicates(),
            forall|j: int| 0 <= j < order@.len() ==> (#[trigger] order@[j]) < fresh.len(),
            notes(queue@) == picked(notes(fresh@), order@.take(i as int)),
        decreases cap - i,
    {
        let ghost so_far = notes(queue@);
        let k = order[i];
        queue.push(copy_notification(&fresh[k]));
        assert(notes(queue@) =~= so_far.push(notes(fresh@)[k as int]));
        assert(picked(notes(fresh@), order@.take(i + 1)) =~= picked(
            notes(fresh@),
            order@.take(i as int),
        ).push(notes(fresh@)[k as int]));
        i += 1;
    }
    proof {
        let picks = order@.take(cap as int);
        assert(picks_ok(picks, notes(fresh@).len(), cap as nat));
        assert(notes(queue@) == picked(notes(fresh@), picks));
    }
    queue
}

impl Runtime {
    /// The fresh ones among `items`, in order.
    pub fn select_fresh(&self, items: &Vec<Notification>) -> (fresh: Vec<Notification>)
        ensures
            notes(fresh@) == fresh_of(self@, notes(items@)),
    {
        let mut fresh: Vec<Notification> = Vec::new();
        let mut i: usize = 0;
        assert(notes(items@).take(0) =~= Seq::<NotificationView>::empty());
        while i < items.len()
            invariant
                i <= items.len(),
                notes(fresh@) == fresh_of(self@, notes(items@).take(i as int)),
            decreases items.len() - i,
        {
            let ghost so_far = notes(fresh@);
            assert(notes(items@).take(i + 1).drop_last() =~= notes(items@).take(i as int));
            assert(notes(items@).take(i + 1).last() == items@[i as int]@);
            let id = items[i].id.as_str();
            if !self.processed_tweets.contains(id) && !self.memory.has_reply_to(id) {
                fresh.push(copy_notification(&items[i]));
                assert(notes(fresh@) =~= so_far.push(items@[i as int]@));
            }
            i += 1;
        }
        assert(notes(items@).take(items.len() as int) =~= notes(items@));
        fresh
    }

    /// Marks each of `fresh` as handled.
    pub fn mark_handled(&mut self, fresh: &Vec<Notification>)
        ensures
            final(self)@ == (RuntimeView {
                processed: with_ids(old(self)@.processed, notes(fresh@)),
                ..old(self)@
            }),
            old(self).wf() ==> final(self).wf(),
    {
        let mut i: usize = 0;
        assert(notes(fresh@).take(0) =~= Seq::<NotificationView>::empty());
        while i < fresh.len()
            invariant
                i <= fresh.len(),
                self@ == (RuntimeView {
                    processed: with_ids(old(self)@.processed, notes(fresh@).take(i as int)),
                    ..old(self)@
                }),
                old(self).wf() ==> self.wf(),
            decreases fresh.len() - i,
        {
            assert(notes(fresh@).take(i + 1).drop_last() =~= notes(fresh@).take(i as int));
            assert(notes(fresh@).take(i + 1).last() == fresh@[i as int]@);
            self.processed_tweets.insert(fresh[i].id.as_str());
            i += 1;
        }
        assert(notes(fresh@).take(fresh.len() as int) =~= notes(fresh@));
    }

    /// Records the answer `response` to `queue[at]`.
    fn record_reply(&mut self, queue: &Vec<Notification>, at: usize, response: &str, now: Timestamp)
        requires
            at < queue.len(),
            old(self).agents.len() > 0,
        ensures
            final(self)@ == with_reply(old(self)@, notes(queue@), at as int, response@, now),
            old(self).wf() ==> final(self).wf(),
    {
        if self.memory.next_id < u64::MAX {
            MemoryStore::record(
                &mut self.memory,
                response,
                self.agents[0].prompt.as_str(),
                Some(queue[at].id.clone()),
                TweetType::Reply,
                Some(queue[at].id.clone()),
                now,
            );
        }
    }

    /// Turns to `queue[at]`.
    fn advance(&mut self, variant: Variant, queue: Vec<Notification>, at: usize, now: Timestamp) -> (a:
        Action)
        requires
            old(self).agents.len() > 0,
            old(self).reply_phase is Idle,
        ensures
            (final(self)@, a@) == advance_result(
                old(self)@,
                variant,
                notes(queue@),
                at as nat,
                now,
            ),
            old(self).wf() ==> final(self).wf(),
    {
        let mut i: usize = at;
        loop
            invariant
                self.agents.len() > 0,
                self.reply_phase is Idle,
                old(self).wf() ==> self.wf(),
                advance_result(old(self)@, variant, notes(queue@), at as nat, now)
                    == advance_result(self@, variant, notes(queue@), i as nat, now),
            decreases queue.len() - i,
        {
            if i >= queue.len() {
                assert(self@ == (RuntimeView { reply_phase: ReplyPhaseView::Idle, ..self@ }));
                return Action::Finish(Outcome::Handled);
            }
            assert(notes(queue@)[i as int] == queue@[i as int]@);
            match variant {
                Variant::Plain => {
                    let prompt = self.agents[0].should_respond_prompt(queue[i].text.as_str());
                    self.reply_phase = ReplyPhase::Classifying { queue, at: i };
                    return Action::Complete { agent: 0, prompt };
                },
                Variant::Topical => {
                    match is_token_info_request(queue[i].text.as_str()) {
                        Some(request) => {
                            let response = match request {
                                TokenInfoRequest::ContractAddress => stock_reply(
                                    request,
                                    self.token_address.as_str(),
                                ),
                                TokenInfoRequest::Ticker => stock_reply(
                                    request,
                                    self.token_symbol.as_str(),
                                ),
                            };
                            assert(response@ == stock_answer(self@, request));
                            let tweet_mode = self.memory.tweet_mode;
                            self.record_reply(&queue, i, response.as_str(), now);
                            if tweet_mode {
                                let to = queue[i].id.clone();
                                self.reply_phase = ReplyPhase::Sending { variant, queue, at: i };
                                return Action::Reply { to, text: response };
                            }
                            i += 1;
                        },
                        None => {
                            match extract_ticker_or_address(queue[i].text.as_str()) {
                                Some((token, by_address)) => {
                                    self.reply_phase = ReplyPhase::LookingUp { queue, at: i };
                                    if by_address {
                                        return Action::LookupAddress { address: token };
                                    } else {
                                        return Action::SearchToken { query: token };
                                    }
                                },
                                None => {
                                    let prompt = retort_prompt();
                                    self.reply_phase = ReplyPhase::Drafting {
                                        variant,
                                        queue,
                                        at: i,
                                        kind: DraftKind::Retort,
                                        prompt: prompt.to_owned(),
                                        attempt: 0,
                                    };
                                    return Action::Complete { agent: 0, prompt: prompt.to_owned() };
                                },
                            }
                        },
                    }
                },
            }
        }
    }

    /// Records the answer `response` to `queue[at]` and hands it over or
    /// moves on.
    fn deliver(
        &mut self,
        variant: Variant,
        queue: Vec<Notification>,
        at: usize,
        response: String,
        now: Timestamp,
    ) -> (a: Action)
        requires
            old(self).agents.len() > 0,
            old(self).reply_phase is Idle,
            at < queue.len(),
        ensures
            (final(self)@, a@) == delivered(
                old(self)@,
                variant,
                notes(queue@),
                at,
                response@,
                now,
            ),
            old(self).wf() ==> final(self).wf(),
    {
        assert(notes(queue@)[at as int] == queue@[at as int]@);
        let tweet_mode = self.memory.tweet_mode;
        self.record_reply(&queue, at, response.as_str(), now);
        if tweet_mode {
            let to = queue[at].id.clone();
            self.reply_phase = ReplyPhase::Sending { variant, queue, at };
            Action::Reply { to, text: response }
        } else {
            self.advance(variant, queue, at + 1, now)
        }
    }

    /// Asks for a comment once the token was looked for.
    fn after_lookup(&mut self, queue: Vec<Notification>, at: usize, summary: Option<String>) -> (a:
        Action)
        requires
            old(self).agents.len() > 0,
            old(self).reply_phase is Idle,
            at < queue.len(),
        ensures
            token_looked_up(
                old(self)@,
                notes(queue@),
                at,
                summary_text(summary),
                final(self)@,
                a@,
            ),
            old(self).wf() ==> final(self).wf(),
    {
        match summary {
            Some(s) => {
                let prompt = self.agents[0].generate_editorialized_fud_prompt(s.as_str());
                self.reply_phase = ReplyPhase::Drafting {
                    variant: Variant::Topical,
                    queue,
                    at,
                    kind: DraftKind::Editorial,
                    prompt: prompt.clone(),
                    attempt: 0,
                };
                Action::Complete { agent: 0, prompt }
            },
            None => {
                let (intro, reason, closing) = self.solana_tracker.get_fud_components();
                let prompt = self.agents[0].generate_generic_fud_prompt(
                    intro.as_str(),
                    reason.as_str(),
                    closing.as_str(),
                );
                assert(generic_prompt(old(self)@.agents[0].prompt@, prompt@));
                self.reply_phase = ReplyPhase::Drafting {
                    variant: Variant::Topical,
                    queue,
                    at,
                    kind: DraftKind::Generic,
                    prompt: prompt.clone(),
                    attempt: 0,
                };
                Action::Complete { agent: 0, prompt }
            },
        }
    }

    /// Reads the answer that the language model wrote.
    fn read_answer(
        &mut self,
        variant: Variant,
        queue: Vec<Notification>,
        at: usize,
        kind: DraftKind,
        prompt: String,
        attempt: usize,
        text: &str,
        now: Timestamp,
    ) -> (a: Action)
        requires
            old(self).agents.len() > 0,
            old(self).reply_phase is Idle,
            at < queue.len(),
        ensures
            answer_seen(
                old(self)@,
                variant,
                notes(queue@),
                at,
                kind,
                prompt@,
                attempt,
                text@,
                now,
                final(self)@,
                a@,
            ),
            old(self).wf() ==> final(self).wf(),
    {
        match kind {
            DraftKind::Reply => {
                let response = self.agents[0].generate_reply(text);
                self.deliver(variant, queue, at, response, now)
            },
            DraftKind::Retort => {
                let response = self.agents[0].generate_custom_response(text);
                self.deliver(variant, queue, at, response, now)
            },
            DraftKind::Editorial => {
                let mut writer = self.agents.remove(0);
                let ghost before = writer;
                let r = writer.generate_editorialized_fud(text, attempt);
                let ghost later = writer;
                self.agents.insert(0, writer);
                assert(self.agents@ =~= old(self).agents@.update(0, later));
                assert(editorial_reading(old(self)@.agents[0], later, text@, attempt, r));
                match r {
                    None => {
                        assert(later == before);
                        assert(self.agents@ =~= old(self).agents@);
                        assert(attempt < usize::MAX);
                        self.reply_phase = ReplyPhase::Drafting {
                            variant,
                            queue,
                            at,
                            kind,
                            prompt: prompt.clone(),
                            attempt: attempt + 1,
                        };
                        Action::Complete { agent: 0, prompt }
                    },
                    Some(comment) => {
                        assert(self@ == (RuntimeView {
                            agents: old(self)@.agents.update(0, later),
                            ..old(self)@
                        }));
                        self.deliver(variant, queue, at, comment, now)
                    },
                }
            },
            DraftKind::Generic => {
                let answer = self.solana_tracker.generate_generic_fud_with_agent(
                    &self.agents[0],
                    text,
                );
                let ghost shown = answer@;
                let a = self.deliver(variant, queue, at, answer, now);
                assert(generic_answer(text@, shown) && (self@, a@) == delivered(
                    old(self)@,
                    variant,
                    notes(queue@),
                    at,
                    shown,
                    now,
                ));
                a
            },
        }
    }

    /// One step of the notification cycle at the time `now`.
    pub fn reply_step_at(&mut self, begin_as: Variant, event: Event, now: Timestamp) -> (a: Action)
        ensures
            replies_stepped(old(self)@, begin_as, event, now, final(self)@, a@),
            old(self).wf() ==> final(self).wf(),
    {
        let mut phase = ReplyPhase::Idle;
        core::mem::swap(&mut self.reply_phase, &mut phase);
        let ghost idle = self@;
        assert(idle == (RuntimeView { reply_phase: ReplyPhaseView::Idle, ..old(self)@ }));
        let in_order = match &phase {
            ReplyPhase::Idle => true,
            ReplyPhase::ResolvingUser { .. } => self.agents.len() > 0,
            ReplyPhase::Fetching { .. } => self.agents.len() > 0,
            ReplyPhase::Classifying { queue, at } => self.agents.len() > 0 && *at < queue.len(),
            ReplyPhase::LookingUp { queue, at } => self.agents.len() > 0 && *at < queue.len(),
            ReplyPhase::Drafting { queue, at, .. } => self.agents.len() > 0 && *at < queue.len(),
            ReplyPhase::Sending { queue, at, .. } => self.agents.len() > 0 && *at < queue.len(),
            ReplyPhase::Pausing { queue, at, .. } => self.agents.len() > 0 && *at < queue.len(),
        };
        if !in_order {
            return Action::Finish(Outcome::Failed(Failure::OutOfTurn));
        }
        match (phase, event) {
            (ReplyPhase::Idle, Event::Begin) => {
                if self.agents.len() == 0 {
                    Action::Finish(Outcome::Failed(Failure::NoAgents))
                } else if !self.allows_check_at(now) {
                    Action::Finish(Outcome::Skipped)
                } else {
                    match self.cached_user_id {
                        Some(user_id) => {
                            self.reply_phase = ReplyPhase::Fetching { variant: begin_as };
                            Action::FetchNotifications { user_id }
                        },
                        None => {
                            self.reply_phase = ReplyPhase::ResolvingUser { variant: begin_as };
                            Action::ResolveUserId
                        },
                    }
                }
            },
            (ReplyPhase::Idle, _) => Action::Finish(Outcome::Failed(Failure::OutOfTurn)),
            (phase, Event::Failed { message }) => {
                let limited = is_rate_limited(message.as_str());
                match phase {
                    ReplyPhase::Fetching { .. } => {
                        if limited {
                            self.last_notification_check = Some(now);
                            Action::Finish(Outcome::RateLimited)
                        } else {
                            Action::Finish(Outcome::Failed(Failure::External))
                        }
                    },
                    ReplyPhase::Sending { variant, queue, at } => {
                        if limited {
                            Action::Finish(Outcome::RateLimited)
                        } else {
                            self.advance(variant, queue, at + 1, now)
                        }
                    },
                    ReplyPhase::LookingUp { queue, at } => self.after_lookup(queue, at, None),
                    _ => Action::Finish(Outcome::Failed(Failure::External)),
                }
            },
            (ReplyPhase::ResolvingUser { variant }, Event::UserId { text }) => {
                match parse_u64(text.as_str()) {
                    Some(user_id) => {
                        self.cached_user_id = Some(user_id);
                        self.reply_phase = ReplyPhase::Fetching { variant };
                        Action::FetchNotifications { user_id }
                    },
                    None => Action::Finish(Outcome::Failed(Failure::BadUserId)),
                }
            },
            (ReplyPhase::Fetching { variant }, Event::Notifications { items }) => {
                let fresh = self.select_fresh(&items);
                let cap = self.notification_cap;
                self.last_notification_check = Some(now);
                self.mark_handled(&fresh);
                let ghost marked = self@;
                let ghost all = notes(fresh@);
                let queue = choose_queue(fresh, cap);
                let a = self.advance(variant, queue, 0, now);
                assert(chosen_from(all, cap as nat, notes(queue@)) && (self@, a@)
                    == advance_result(marked, variant, notes(queue@), 0, now));
                a
            },
            (ReplyPhase::Classifying { queue, at }, Event::Completion { text }) => {
                assert(notes(queue@)[at as int] == queue@[at as int]@);
                match self.agents[0].should_respond(text.as_str()) {
                    ResponseDecision::Respond => {
                        let prompt = self.agents[0].generate_reply_prompt(queue[at].text.as_str());
                        self.reply_phase = ReplyPhase::Drafting {
                            variant: Variant::Plain,
                            queue,
                            at,
                            kind: DraftKind::Reply,
                            prompt: prompt.clone(),
                            attempt: 0,
                        };
                        Action::Complete { agent: 0, prompt }
                    },
                    ResponseDecision::Ignore => self.advance(Variant::Plain, queue, at + 1, now),
                }
            },
            (ReplyPhase::LookingUp { queue, at }, Event::TokenFound { summary }) => self.after_lookup(
                queue,
                at,
                summary,
            ),
            (
                ReplyPhase::Drafting { variant, queue, at, kind, prompt, attempt },
                Event::Completion { text },
            ) => self.read_answer(variant, queue, at, kind, prompt, attempt, text.as_str(), now),
            (ReplyPhase::Sending { variant, queue, at }, Event::Replied) => {
                self.reply_phase = ReplyPhase::Pausing { variant, queue, at };
                Action::Sleep { seconds: REPLY_PAUSE_SECONDS }
            },
            (ReplyPhase::Pausing { variant, queue, at }, Event::Slept) => self.advance(
                variant,
                queue,
                at + 1,
                now,
            ),
            _ => Action::Finish(Outcome::Failed(Failure::OutOfTurn)),
        }
    }

    /// One step of the plain persona's notification cycle at the time
    /// `now`.
    pub fn handle_notifications_at(&mut self, event: Event, now: Timestamp) -> (a: Action)
        ensures
            replies_stepped(old(self)@, Variant::Plain, event, now, final(self)@, a@),
            old(self).wf() ==> final(self).wf(),
    {
        self.reply_step_at(Variant::Plain, event, now)
    }

    /// One step of the plain persona's notification cycle: of the fresh
    /// notifications those that the language model finds worth an answer
    /// are replied to.
    pub fn handle_notifications(&mut self, event: Event) -> (a: Action)
        ensures
            exists|now: Timestamp| #[trigger]
                replies_stepped(old(self)@, Variant::Plain, event, now, final(self)@, a@),
            old(self).wf() ==> final(self).wf(),
    {
        let now = utc_now();
        let a = self.reply_step_at(Variant::Plain, event, now.at);
        assert(replies_stepped(old(self)@, Variant::Plain, event, now.at, self@, a@));
        a
    }

    /// One step of the topical persona's notification cycle at the time
    /// `now`.
    pub fn handle_notifications_fud_at(&mut self, event: Event, now: Timestamp) -> (a: Action)
        ensures
            replies_stepped(old(self)@, Variant::Topical, event, now, final(self)@, a@),
            old(self).wf() ==> final(self).wf(),
    {
        self.reply_step_at(Variant::Topical, event, now)
    }

    /// One step of the topical persona's notification cycle: each fresh
    /// notification that is chosen gets the stock answer on the agent's own
    /// token, a comment on the token that it names, or a retort.
    pub fn handle_notifications_fud(&mut self, event: Event) -> (a: Action)
        ensures
            exists|now: Timestamp| #[trigger]
                replies_stepped(old(self)@, Variant::Topical, event, now, final(self)@, a@),
            old(self).wf() ==> final(self).wf(),
    {
        let now = utc_now();
        let a = self.reply_step_at(Variant::Topical, event, now.at);
        assert(replies_stepped(old(self)@, Variant::Topical, event, now.at, self@, a@));
        a
    }
}

} // verus!
