use persona_bot::character::CharacterConfig;
use persona_bot::clock::{Timestamp, WallClock};
use persona_bot::models::TweetType;
use persona_bot::providers::solanatracker::PoolFigures;
use persona_bot::runtime::notify::choose_queue;
use persona_bot::runtime::schedule::{Startup, Tick};
use persona_bot::runtime::state::{
    is_rate_limited, Action, Event, Failure, Notification, Outcome, PostPhase, ReplyPhase,
    Runtime,
};

fn at(secs: i64) -> Timestamp {
    Timestamp { secs, nanos: 0 }
}

fn runtime(name: &str, tweet_mode: bool) -> Runtime {
    let config = CharacterConfig { name: name.to_string(), prompt: "You are a cynic.".to_string() };
    let mut rt = Runtime::new("key", config, None, None);
    rt.add_agent("You are a cynic.");
    rt.memory.tweet_mode = tweet_mode;
    rt
}

fn note(id: &str, text: &str) -> Notification {
    Notification { id: id.to_string(), text: text.to_string() }
}

fn completion(text: &str) -> Event {
    Event::Completion { text: text.to_string() }
}

fn described() -> Event {
    Event::TokenDescribed {
        symbol: "WIF".to_string(),
        summary: "Token: $WIF\nMarket Cap: $1.5M\nLiquidity: $20.0K\n".to_string(),
        figures: Some(PoolFigures {
            market_cap: "$1.5M".to_string(),
            price: "0.00150000".to_string(),
            liquidity: "$20K".to_string(),
        }),
    }
}

/// Drives the topical post cycle up to the first request for a draft.
fn to_first_draft(rt: &mut Runtime, now: Timestamp) -> String {
    assert!(matches!(
        rt.generate_and_post_fud_at(Event::Begin, now),
        Action::FetchTopTokens { limit: 30 }
    ));
    match rt.generate_and_post_fud_at(Event::TokensFetched { count: 7 }, now) {
        Action::DescribeToken { index } => assert!(index < 7),
        other => panic!("{:?}", other),
    }
    match rt.generate_and_post_fud_at(described(), now) {
        Action::Complete { prompt, .. } => {
            assert!(prompt.starts_with("You are a cynic.\n\nTask: Generate unique, creative FUD"));
            assert!(prompt.contains("Token: $WIF\nMarket Cap: $1.5M\n"));
            prompt
        }
        other => panic!("{:?}", other),
    }
}

#[test]
fn a_new_runtime_knows_nothing() {
    let config = CharacterConfig { name: "fud".to_string(), prompt: "p".to_string() };
    let rt = Runtime::new("key", config, None, Some(vec!["7".to_string(), "7".to_string()]));
    assert_eq!(rt.agents.len(), 0);
    assert_eq!(rt.memory.next_id, 0);
    assert_eq!(rt.cached_user_id, None);
    assert_eq!(rt.last_tweet_time, None);
    assert_eq!(rt.last_notification_check, None);
    assert_eq!(rt.recent_phrases.capacity(), 50);
    assert_eq!(rt.recent_phrases.len(), 0);
    assert_eq!(rt.notification_cap, 3);
    assert_eq!(rt.solana_tracker.api_key, "key");
    assert!(rt.processed_tweets.contains("7"));
    assert_eq!(rt.processed_tweets.ids().len(), 1);
    assert!(matches!(rt.post_phase, PostPhase::Idle));
    assert!(matches!(rt.reply_phase, ReplyPhase::Idle));
    assert!(rt.should_allow_tweet());
    assert!(rt.should_check_notifications());
}

#[test]
fn rate_limits_are_told_by_their_number() {
    assert!(is_rate_limited("HTTP status client error (429 Too Many Requests)"));
    assert!(!is_rate_limited("HTTP status server error (500)"));
    assert!(!is_rate_limited(""));
}

#[test]
fn without_agents_a_cycle_fails() {
    let config = CharacterConfig { name: "fud".to_string(), prompt: "p".to_string() };
    let mut rt = Runtime::new("key", config, None, None);
    assert!(matches!(
        rt.generate_and_post_fud_at(Event::Begin, at(0)),
        Action::Finish(Outcome::Failed(Failure::NoAgents))
    ));
    assert!(matches!(
        rt.run_at(Event::Begin, at(0)),
        Action::Finish(Outcome::Failed(Failure::NoAgents))
    ));
    assert!(matches!(
        rt.handle_notifications_fud_at(Event::Begin, at(0)),
        Action::Finish(Outcome::Failed(Failure::NoAgents))
    ));
    assert!(matches!(
        rt.handle_notifications_at(Event::Begin, at(0)),
        Action::Finish(Outcome::Failed(Failure::NoAgents))
    ));
}

#[test]
fn within_the_cooldown_a_post_cycle_is_skipped() {
    let mut rt = runtime("fud", true);
    rt.last_tweet_time = Some(at(1000));
    assert!(matches!(
        rt.generate_and_post_fud_at(Event::Begin, at(1299)),
        Action::Finish(Outcome::Skipped)
    ));
    assert!(matches!(rt.run_at(Event::Begin, at(1200)), Action::Finish(Outcome::Skipped)));
    assert!(matches!(
        rt.generate_and_post_fud_at(Event::Begin, at(1300)),
        Action::FetchTopTokens { limit: 30 }
    ));
}

#[test]
fn an_empty_token_list_ends_the_cycle_without_a_post() {
    for tweet_mode in [false, true] {
        let mut rt = runtime("fud", tweet_mode);
        assert!(matches!(
            rt.generate_and_post_fud_at(Event::Begin, at(0)),
            Action::FetchTopTokens { limit: 30 }
        ));
        assert!(matches!(
            rt.generate_and_post_fud_at(Event::TokensFetched { count: 0 }, at(1)),
            Action::Finish(Outcome::Failed(Failure::NoTokens))
        ));
        assert!(matches!(rt.post_phase, PostPhase::Idle));
        assert_eq!(rt.memory.tweets.len(), 0);
        assert_eq!(rt.last_tweet_time, None);
        assert!(matches!(
            rt.generate_and_post_fud_at(Event::Begin, at(2)),
            Action::FetchTopTokens { limit: 30 }
        ));
    }
}

#[test]
fn with_the_tweet_mode_off_content_is_recorded_and_never_posted() {
    let mut rt = runtime("fud", false);
    to_first_draft(&mut rt, at(100));
    let action = rt.generate_and_post_fud_at(completion("  numbers look grim?  "), at(101));
    assert!(matches!(action, Action::Finish(Outcome::Recorded)));
    assert_eq!(rt.memory.tweets.len(), 1);
    assert_eq!(rt.memory.next_id, 1);
    let post = &rt.memory.tweets[0];
    assert_eq!(post.text, "numbers look grim?");
    assert_eq!(post.prompt, "You are a cynic.");
    assert_eq!(post.twitter_id, None);
    assert_eq!(post.tweet_type, TweetType::Original);
    assert_eq!(post.timestamp, at(101));
    assert_eq!(rt.last_tweet_time, None);
    assert_eq!(rt.recent_phrases.len(), 0);
    assert!(matches!(rt.post_phase, PostPhase::Idle));
}

#[test]
fn with_the_tweet_mode_off_the_plain_cycle_records_too() {
    for _ in 0..20 {
        let mut rt = runtime("rina", false);
        let mut action = rt.run_at(Event::Begin, at(0));
        let mut steps = 0;
        loop {
            steps += 1;
            assert!(steps < 10);
            action = match action {
                Action::FetchTopTokens { limit } => {
                    assert_eq!(limit, 35);
                    rt.run_at(Event::TokensFetched { count: 2 }, at(1))
                }
                Action::DescribeToken { index } => {
                    assert!(index < 2);
                    rt.run_at(described(), at(2))
                }
                Action::Complete { prompt, .. } => {
                    assert!(prompt.starts_with("Write a 1-3 sentence post"));
                    rt.run_at(completion(" a thought \n"), at(3))
                }
                Action::Finish(outcome) => {
                    assert_eq!(outcome, Outcome::Recorded);
                    break;
                }
                other => panic!("{:?}", other),
            };
        }
        assert_eq!(rt.memory.tweets.len(), 1);
        let text = rt.memory.tweets[0].text.clone();
        assert!(text == "a thought" || text.contains("$WIF"));
        if text != "a thought" {
            assert!(text.contains("\n\nPrice: $0.00150000\nMC: $1.5M\n\n"));
        }
    }
}

#[test]
fn a_post_that_went_out_is_recorded_with_its_identifier() {
    let mut rt = runtime("fud", true);
    rt.cached_user_id = Some(42);
    to_first_draft(&mut rt, at(100));
    match rt.generate_and_post_fud_at(completion("liquidity thinner than paper?"), at(101)) {
        Action::Post { text, .. } => assert_eq!(text, "liquidity thinner than paper?"),
        other => panic!("{:?}", other),
    }
    assert_eq!(rt.memory.tweets.len(), 0);
    let action = rt.generate_and_post_fud_at(Event::Posted { id: "1849".to_string() }, at(105));
    assert!(matches!(action, Action::Finish(Outcome::Posted)));
    assert_eq!(rt.last_tweet_time, Some(at(105)));
    assert_eq!(rt.memory.tweets.len(), 1);
    assert_eq!(rt.memory.tweets[0].twitter_id, Some("1849".to_string()));
    assert_eq!(rt.memory.tweets[0].text, "liquidity thinner than paper?");
    assert!(rt.recent_phrases.contains("liquidity thinner than"));
    assert!(rt.recent_phrases.contains("thinner than paper?"));
    assert_eq!(rt.recent_phrases.len(), 2);
}

#[test]
fn the_account_is_asked_for_once() {
    let mut rt = runtime("fud", true);
    to_first_draft(&mut rt, at(100));
    assert!(matches!(
        rt.generate_and_post_fud_at(completion("first remark here?"), at(101)),
        Action::ResolveUserId
    ));
    match rt.generate_and_post_fud_at(Event::UserId { text: "777".to_string() }, at(102)) {
        Action::Post { text, .. } => assert_eq!(text, "first remark here?"),
        other => panic!("{:?}", other),
    }
    assert_eq!(rt.cached_user_id, Some(777));
    rt.generate_and_post_fud_at(Event::Posted { id: "1".to_string() }, at(103));
    to_first_draft(&mut rt, at(1000));
    assert!(matches!(
        rt.generate_and_post_fud_at(completion("second remark there?"), at(1001)),
        Action::Post { .. }
    ));
}

#[test]
fn an_account_that_is_no_number_fails_the_cycle() {
    let mut rt = runtime("fud", true);
    to_first_draft(&mut rt, at(100));
    rt.generate_and_post_fud_at(completion("first remark here?"), at(101));
    assert!(matches!(
        rt.generate_and_post_fud_at(Event::UserId { text: "@fudbot".to_string() }, at(102)),
        Action::Finish(Outcome::Failed(Failure::BadUserId))
    ));
    assert_eq!(rt.cached_user_id, None);
    assert_eq!(rt.memory.tweets.len(), 0);
}

#[test]
fn a_refusal_for_rate_makes_the_cycle_sleep_and_leaves_the_last_post_time() {
    let mut rt = runtime("fud", true);
    rt.cached_user_id = Some(42);
    rt.last_tweet_time = Some(at(10));
    to_first_draft(&mut rt, at(1000));
    assert!(matches!(
        rt.generate_and_post_fud_at(completion("some remark here?"), at(1001)),
        Action::Post { .. }
    ));
    let action = rt.generate_and_post_fud_at(
        Event::Failed { message: "error 429: rate limit exceeded".to_string() },
        at(1002),
    );
    assert!(matches!(action, Action::Sleep { seconds: 900 }));
    assert_eq!(rt.last_tweet_time, Some(at(10)));
    let action = rt.generate_and_post_fud_at(Event::Slept, at(1902));
    assert!(matches!(action, Action::Finish(Outcome::RateLimited)));
    assert_eq!(rt.last_tweet_time, Some(at(10)));
    assert_eq!(rt.memory.tweets.len(), 0);
    assert!(matches!(rt.post_phase, PostPhase::Idle));
}

#[test]
fn any_other_failure_ends_the_cycle() {
    let mut rt = runtime("fud", true);
    rt.cached_user_id = Some(42);
    to_first_draft(&mut rt, at(100));
    rt.generate_and_post_fud_at(completion("some remark here?"), at(101));
    assert!(matches!(
        rt.generate_and_post_fud_at(Event::Failed { message: "503".to_string() }, at(102)),
        Action::Finish(Outcome::Failed(Failure::External))
    ));
    assert_eq!(rt.last_tweet_time, None);
    let mut rt = runtime("fud", true);
    rt.generate_and_post_fud_at(Event::Begin, at(0));
    assert!(matches!(
        rt.generate_and_post_fud_at(Event::Failed { message: "429".to_string() }, at(1)),
        Action::Finish(Outcome::Failed(Failure::External))
    ));
}

#[test]
fn a_draft_that_repeats_a_recent_phrase_is_asked_for_again_up_to_three_times() {
    let mut rt = runtime("fud", false);
    rt.recent_phrases.check_and_record("same old story?");
    let prompt = to_first_draft(&mut rt, at(100));
    for turned_down in 1..=3 {
        match rt.generate_and_post_fud_at(completion("Same OLD story?"), at(101)) {
            Action::Complete { prompt: again, .. } => assert_eq!(again, prompt),
            other => panic!("{:?}", other),
        }
        match &rt.post_phase {
            PostPhase::Drafting { rejected, attempt, .. } => {
                assert_eq!(*rejected, turned_down);
                assert_eq!(*attempt, 0);
            }
            other => panic!("{:?}", other),
        }
    }
    assert!(matches!(
        rt.generate_and_post_fud_at(completion("Same OLD story?"), at(102)),
        Action::Finish(Outcome::Recorded)
    ));
    assert_eq!(rt.memory.tweets[0].text, "Same OLD story?");
}

#[test]
fn an_event_out_of_turn_ends_the_cycle() {
    let mut rt = runtime("fud", true);
    assert!(matches!(
        rt.generate_and_post_fud_at(Event::Slept, at(0)),
        Action::Finish(Outcome::Failed(Failure::OutOfTurn))
    ));
    rt.generate_and_post_fud_at(Event::Begin, at(0));
    assert!(matches!(
        rt.generate_and_post_fud_at(completion("x"), at(1)),
        Action::Finish(Outcome::Failed(Failure::OutOfTurn))
    ));
    assert!(matches!(rt.post_phase, PostPhase::Idle));
    assert!(matches!(
        rt.handle_notifications_fud_at(Event::Replied, at(1)),
        Action::Finish(Outcome::Failed(Failure::OutOfTurn))
    ));
}

#[test]
fn of_five_fresh_notifications_two_are_answered_and_all_are_marked() {
    let mut rt = runtime("rina", false);
    rt.notification_cap = 2;
    assert!(matches!(rt.handle_notifications_at(Event::Begin, at(0)), Action::ResolveUserId));
    assert!(matches!(
        rt.handle_notifications_at(Event::UserId { text: "12345".to_string() }, at(1)),
        Action::FetchNotifications { user_id: 12345 }
    ));
    let items: Vec<Notification> =
        (1..=5).map(|i| note(&format!("n{}", i), &format!("message {}", i))).collect();
    let mut action = rt.handle_notifications_at(Event::Notifications { items }, at(2));
    assert_eq!(rt.last_notification_check, Some(at(2)));
    for i in 1..=5 {
        assert!(rt.processed_tweets.contains(&format!("n{}", i)));
    }
    let mut classified = 0;
    let mut answered = 0;
    loop {
        action = match action {
            Action::Complete { prompt, .. } if prompt.starts_with("Tweet: message ") => {
                classified += 1;
                rt.handle_notifications_at(completion("[RESPOND]"), at(3))
            }
            Action::Complete { prompt, .. } => {
                assert!(prompt.contains("Current Post: 'message "));
                answered += 1;
                rt.handle_notifications_at(completion(" an answer "), at(4))
            }
            Action::Finish(outcome) => {
                assert_eq!(outcome, Outcome::Handled);
                break;
            }
            other => panic!("{:?}", other),
        };
    }
    assert_eq!(classified, 2);
    assert_eq!(answered, 2);
    assert_eq!(rt.memory.tweets.len(), 2);
    let first = rt.memory.tweets[0].reply_to.clone().unwrap();
    let second = rt.memory.tweets[1].reply_to.clone().unwrap();
    assert_ne!(first, second);
    for t in rt.memory.tweets.iter() {
        assert_eq!(t.tweet_type, TweetType::Reply);
        assert_eq!(t.text, "an answer");
        assert_eq!(t.twitter_id, t.reply_to);
    }
    assert_eq!(rt.processed_tweets.ids().len(), 5);
}

#[test]
fn handled_and_answered_notifications_are_passed_over() {
    let mut rt = runtime("fud", false);
    rt.cached_user_id = Some(1);
    rt.processed_tweets.insert("old");
    rt.token_symbol = "FUD".to_string();
    persona_bot::memory::MemoryStore::record(
        &mut rt.memory,
        "earlier answer",
        "p",
        None,
        TweetType::Reply,
        Some("answered".to_string()),
        at(0),
    );
    assert!(matches!(
        rt.handle_notifications_fud_at(Event::Begin, at(10)),
        Action::FetchNotifications { user_id: 1 }
    ));
    let items = vec![
        note("old", "what's your ticker"),
        note("answered", "what's your ticker"),
        note("new", "what's your ticker"),
    ];
    let action = rt.handle_notifications_fud_at(Event::Notifications { items }, at(11));
    assert!(matches!(action, Action::Finish(Outcome::Handled)));
    assert_eq!(rt.memory.tweets.len(), 2);
    assert_eq!(rt.memory.tweets[1].reply_to, Some("new".to_string()));
    assert_eq!(rt.memory.tweets[1].text, "$FUD \n\ndon't say i didn't warn you");
    assert!(rt.processed_tweets.contains("new"));
    assert!(!rt.processed_tweets.contains("answered"));
}

#[test]
fn within_the_cooldown_the_notifications_are_not_checked() {
    let mut rt = runtime("fud", true);
    rt.cached_user_id = Some(1);
    rt.last_notification_check = Some(at(100));
    assert!(matches!(
        rt.handle_notifications_fud_at(Event::Begin, at(399)),
        Action::Finish(Outcome::Skipped)
    ));
    assert!(matches!(
        rt.handle_notifications_fud_at(Event::Begin, at(400)),
        Action::FetchNotifications { user_id: 1 }
    ));
}

#[test]
fn notifications_refused_for_rate_count_as_checked() {
    let mut rt = runtime("fud", true);
    rt.cached_user_id = Some(1);
    rt.handle_notifications_fud_at(Event::Begin, at(0));
    assert!(matches!(
        rt.handle_notifications_fud_at(Event::Failed { message: "429".to_string() }, at(5)),
        Action::Finish(Outcome::RateLimited)
    ));
    assert_eq!(rt.last_notification_check, Some(at(5)));
    let mut rt = runtime("fud", true);
    rt.cached_user_id = Some(1);
    rt.handle_notifications_fud_at(Event::Begin, at(0));
    assert!(matches!(
        rt.handle_notifications_fud_at(Event::Failed { message: "boom".to_string() }, at(5)),
        Action::Finish(Outcome::Failed(Failure::External))
    ));
    assert_eq!(rt.last_notification_check, None);
}

#[test]
fn replies_go_out_thirty_seconds_apart() {
    let mut rt = runtime("fud", true);
    rt.cached_user_id = Some(1);
    rt.token_address = "So1".to_string();
    rt.handle_notifications_fud_at(Event::Begin, at(0));
    let items = vec![note("a", "contract?"), note("b", "wen ticker?")];
    match rt.handle_notifications_fud_at(Event::Notifications { items }, at(1)) {
        Action::Reply { to, text } => {
            assert_eq!(to, "a");
            assert_eq!(text, "contract: So1 \n\nape responsibly ser");
        }
        other => panic!("{:?}", other),
    }
    assert_eq!(rt.memory.tweets.len(), 1);
    assert!(matches!(
        rt.handle_notifications_fud_at(Event::Replied, at(2)),
        Action::Sleep { seconds: 30 }
    ));
    match rt.handle_notifications_fud_at(Event::Slept, at(32)) {
        Action::Reply { to, text } => {
            assert_eq!(to, "b");
            assert_eq!(
                text,
                "imagine asking for a ticker when the devs haven't even told me what it is yet"
            );
        }
        other => panic!("{:?}", other),
    }
    rt.handle_notifications_fud_at(Event::Replied, at(33));
    assert!(matches!(
        rt.handle_notifications_fud_at(Event::Slept, at(63)),
        Action::Finish(Outcome::Handled)
    ));
    assert_eq!(rt.memory.tweets.len(), 2);
}

#[test]
fn a_reply_refused_for_rate_ends_the_batch_and_keeps_what_was_done() {
    let mut rt = runtime("fud", true);
    rt.cached_user_id = Some(1);
    rt.handle_notifications_fud_at(Event::Begin, at(0));
    let items = vec![note("a", "contract?"), note("b", "contract?"), note("c", "contract?")];
    assert!(matches!(
        rt.handle_notifications_fud_at(Event::Notifications { items }, at(1)),
        Action::Reply { .. }
    ));
    assert!(matches!(
        rt.handle_notifications_fud_at(Event::Failed { message: "429 slow down".to_string() }, at(2)),
        Action::Finish(Outcome::RateLimited)
    ));
    assert_eq!(rt.memory.tweets.len(), 1);
    for id in ["a", "b", "c"] {
        assert!(rt.processed_tweets.contains(id));
    }
    assert!(matches!(rt.reply_phase, ReplyPhase::Idle));
}

#[test]
fn a_reply_that_fails_otherwise_is_passed_over() {
    let mut rt = runtime("fud", true);
    rt.cached_user_id = Some(1);
    rt.handle_notifications_fud_at(Event::Begin, at(0));
    let items = vec![note("a", "contract?"), note("b", "contract?")];
    rt.handle_notifications_fud_at(Event::Notifications { items }, at(1));
    match rt.handle_notifications_fud_at(Event::Failed { message: "duplicate".to_string() }, at(2)) {
        Action::Reply { to, .. } => assert_eq!(to, "b"),
        other => panic!("{:?}", other),
    }
}

#[test]
fn a_named_token_is_looked_up_and_commented_on() {
    let mut rt = runtime("fud", false);
    rt.cached_user_id = Some(1);
    rt.handle_notifications_fud_at(Event::Begin, at(0));
    let address = "So11111111111111111111111111111111111111112";
    let items = vec![note("a", "hey $WIF pumping"), note("b", address), note("c", "gm")];
    match rt.handle_notifications_fud_at(Event::Notifications { items }, at(1)) {
        Action::SearchToken { query } => assert_eq!(query, "WIF"),
        other => panic!("{:?}", other),
    }
    let found = Event::TokenFound { summary: Some("Token: $WIF\n".to_string()) };
    match rt.handle_notifications_fud_at(found, at(2)) {
        Action::Complete { prompt, .. } => assert!(prompt.contains("FUD about this token:\nToken: $WIF\n")),
        other => panic!("{:?}", other),
    }
    match rt.handle_notifications_fud_at(completion("it goes to zero?"), at(3)) {
        Action::LookupAddress { address: asked } => assert_eq!(asked, address),
        other => panic!("{:?}", other),
    }
    assert_eq!(rt.memory.tweets[0].text, "it goes to zero?");
    match rt.handle_notifications_fud_at(Event::TokenFound { summary: None }, at(4)) {
        Action::Complete { prompt, .. } => {
            assert!(prompt.contains("Task: Generate a creative and unique cynical comment."))
        }
        other => panic!("{:?}", other),
    }
    match rt.handle_notifications_fud_at(completion("nothing to see?"), at(5)) {
        Action::Complete { prompt, .. } => {
            assert!(prompt.starts_with("Task: Generate a vicious sarcastic insult response."))
        }
        other => panic!("{:?}", other),
    }
    let marked = rt.memory.tweets[1].text.clone();
    assert!(marked.contains("nothing to see?"));
    assert!(marked.len() > "nothing to see?".len());
    assert!(matches!(
        rt.handle_notifications_fud_at(completion(" a retort "), at(6)),
        Action::Finish(Outcome::Handled)
    ));
    assert_eq!(rt.memory.tweets[2].text, "a retort");
    assert_eq!(rt.memory.tweets.len(), 3);
}

#[test]
fn a_lookup_that_fails_counts_as_not_found() {
    let mut rt = runtime("fud", false);
    rt.cached_user_id = Some(1);
    rt.handle_notifications_fud_at(Event::Begin, at(0));
    rt.handle_notifications_fud_at(Event::Notifications { items: vec![note("a", "$WIF")] }, at(1));
    match rt.handle_notifications_fud_at(Event::Failed { message: "404".to_string() }, at(2)) {
        Action::Complete { prompt, .. } => {
            assert!(prompt.contains("Task: Generate a creative and unique cynical comment."))
        }
        other => panic!("{:?}", other),
    }
}

#[test]
fn the_plain_persona_ignores_what_the_model_does_not_find_worth_an_answer() {
    let mut rt = runtime("rina", true);
    rt.cached_user_id = Some(1);
    rt.handle_notifications_at(Event::Begin, at(0));
    let items = vec![note("a", "spam"), note("b", "a question?")];
    assert!(matches!(
        rt.handle_notifications_at(Event::Notifications { items }, at(1)),
        Action::Complete { .. }
    ));
    match rt.handle_notifications_at(completion("[IGNORE]"), at(2)) {
        Action::Complete { prompt, .. } => assert!(prompt.starts_with("Tweet: a question?\n")),
        other => panic!("{:?}", other),
    }
    assert!(matches!(
        rt.handle_notifications_at(completion("[respond]"), at(3)),
        Action::Complete { .. }
    ));
    match rt.handle_notifications_at(completion("an answer"), at(4)) {
        Action::Reply { to, text } => {
            assert_eq!(to, "b");
            assert_eq!(text, "an answer");
        }
        other => panic!("{:?}", other),
    }
    assert_eq!(rt.memory.tweets.len(), 1);
}

#[test]
fn the_queue_is_all_that_is_fresh_or_as_many_as_the_cap() {
    let fresh: Vec<Notification> = (0..6).map(|i| note(&format!("{}", i), "t")).collect();
    let all = choose_queue(fresh.clone(), 6);
    assert_eq!(all.len(), 6);
    for (i, n) in all.iter().enumerate() {
        assert_eq!(n.id, format!("{}", i));
    }
    assert_eq!(choose_queue(fresh.clone(), 10).len(), 6);
    assert_eq!(choose_queue(fresh.clone(), 0).len(), 0);
    let mut orders = std::collections::HashSet::new();
    for _ in 0..100 {
        let some = choose_queue(fresh.clone(), 3);
        assert_eq!(some.len(), 3);
        let ids: std::collections::HashSet<String> = some.iter().map(|n| n.id.clone()).collect();
        assert_eq!(ids.len(), 3);
        for id in ids.iter() {
            assert!(fresh.iter().any(|n| &n.id == id));
        }
        orders.insert(some.iter().map(|n| n.id.clone()).collect::<Vec<String>>());
    }
    assert!(orders.len() > 1);
}

#[test]
fn the_loop_starts_with_a_diagnostic_run_only_in_debug_mode_without_tweets() {
    let mut rt = runtime("fud", false);
    assert_eq!(rt.startup(), Startup::Loop);
    rt.memory.debug_mode = true;
    assert_eq!(rt.startup(), Startup::DebugRun);
    rt.memory.tweet_mode = true;
    assert_eq!(rt.startup(), Startup::Loop);
}

fn clock(secs: i64, nanos: u32, minute: u32, second: u32) -> WallClock {
    WallClock { at: Timestamp { secs, nanos }, hour: 3, minute, second }
}

#[test]
fn what_is_due_at_a_tick() {
    let mut rt = runtime("fud", true);
    assert_eq!(
        rt.run_periodically_at(&clock(900, 250_000_000, 15, 0)),
        Tick { post_due: true, check_due: true, sleep_millis: 750 }
    );
    assert_eq!(
        rt.run_periodically_at(&clock(901, 0, 15, 1)),
        Tick { post_due: false, check_due: true, sleep_millis: 1000 }
    );
    assert_eq!(
        rt.run_periodically_at(&clock(960, 0, 16, 0)),
        Tick { post_due: false, check_due: true, sleep_millis: 1000 }
    );
    rt.last_tweet_time = Some(at(700));
    rt.last_notification_check = Some(at(800));
    assert_eq!(
        rt.run_periodically_at(&clock(900, 0, 15, 0)),
        Tick { post_due: false, check_due: false, sleep_millis: 1000 }
    );
    assert_eq!(
        rt.run_periodically_at(&clock(1800, 0, 30, 0)),
        Tick { post_due: true, check_due: true, sleep_millis: 1000 }
    );
    let other = runtime("rina", true);
    assert_eq!(
        other.run_periodically_at(&clock(900, 0, 15, 0)),
        Tick { post_due: false, check_due: false, sleep_millis: 1000 }
    );
    let now = rt.run_periodically();
    assert!(now.sleep_millis <= 1000);
}

#[test]
fn the_next_post_is_scheduled_five_to_fifteen_minutes_ahead() {
    let mut rt = runtime("fud", true);
    assert_eq!(rt.wait_until_next_tweet_at(at(0)), (false, 0));
    assert_eq!(rt.wait_until_next_tweet(), (false, 0));
    rt.schedule_next_tweet_at(at(1000), 420);
    assert_eq!(rt.memory.next_tweet, Some(at(1420)));
    assert_eq!(rt.wait_until_next_tweet_at(at(1000)), (true, 420));
    assert_eq!(rt.wait_until_next_tweet_at(at(1420)), (true, 0));
    assert_eq!(rt.wait_until_next_tweet_at(at(2000)), (true, 0));
    for _ in 0..50 {
        let before = chrono::Utc::now().timestamp();
        rt.schedule_next_tweet();
        let after = chrono::Utc::now().timestamp();
        let next = rt.memory.next_tweet.unwrap().secs;
        assert!(before + 300 <= next && next < after + 900);
    }
}

#[test]
fn the_runtime_tells_a_repeat_and_records() {
    let mut rt = runtime("fud", true);
    assert!(!rt.contains_recent_phrase("one two three"));
    assert!(rt.contains_recent_phrase("ONE TWO THREE four"));
    assert_eq!(rt.recent_phrases.len(), 2);
}

#[test]
fn the_search_for_a_named_token_asks_for_the_largest_unburdened_one() {
    let rt = runtime("fud", true);
    let p = rt.topic_search_params("WIF".to_string());
    assert_eq!(
        rt.solana_tracker.token_search(&p),
        "https://data.solanatracker.io/search?query=WIF&limit=1&sortBy=marketCapUsd&sortOrder=desc&freezeAuthority=null&mintAuthority=null"
    );
}

#[test]
fn the_account_is_remembered_once_it_is_a_number() {
    let mut rt = runtime("fud", true);
    assert_eq!(rt.ensure_user_id("abc"), None);
    assert_eq!(rt.cached_user_id, None);
    assert_eq!(rt.ensure_user_id("1234567890123456789"), Some(1234567890123456789));
    assert_eq!(rt.ensure_user_id("5"), Some(1234567890123456789));
}

#[test]
fn the_own_token_is_named_in_a_random_reply() {
    let mut rt = runtime("fud", true);
    rt.token_symbol = "FUD".to_string();
    let reply = rt.handle_token_info_request(persona_bot::topics::TokenInfoRequest::Ticker);
    assert!(reply.contains("$FUD"));
    let reply = rt.handle_token_info_request(persona_bot::topics::TokenInfoRequest::ContractAddress);
    assert!(!reply.contains("{}"));
    assert_eq!(Runtime::get_fud_examples().len(), 13);
}

#[test]
fn the_summary_shows_five_tokens() {
    let rt = runtime("fud", true);
    let rows: Vec<persona_bot::providers::solanatracker::SummaryRow> = (0..7)
        .map(|i| persona_bot::providers::solanatracker::SummaryRow {
            symbol: format!("T{}", i),
            figures: Some(PoolFigures {
                market_cap: "m".to_string(),
                price: "p".to_string(),
                liquidity: "l".to_string(),
            }),
        })
        .collect();
    let text = rt.get_trending_solana_summary(&rows);
    assert!(text.contains("#5 $T4\n"));
    assert!(!text.contains("#6 "));
}

#[test]
fn instructions_are_the_prompt_of_the_persona() {
    let config = CharacterConfig { name: "fud".to_string(), prompt: "be grim".to_string() };
    let builder = persona_bot::character::InstructionBuilder::new(config);
    assert_eq!(builder.get_instructions(), "be grim");
}

#[test]
fn a_full_memory_fails_the_cycle_that_would_record() {
    let mut rt = runtime("fud", false);
    rt.memory.next_id = u64::MAX;
    to_first_draft(&mut rt, at(100));
    assert!(matches!(
        rt.generate_and_post_fud_at(completion("nothing fits any more?"), at(101)),
        Action::Finish(Outcome::Failed(Failure::MemoryFull))
    ));
    assert_eq!(rt.memory.tweets.len(), 0);
    assert_eq!(rt.memory.next_id, u64::MAX);
}

#[test]
fn a_phase_that_names_no_agent_is_out_of_turn() {
    let mut rt = runtime("fud", true);
    rt.post_phase = PostPhase::Posting {
        variant: persona_bot::runtime::state::Variant::Topical,
        agent: 4,
        draft: "x".to_string(),
    };
    assert!(matches!(
        rt.generate_and_post_fud_at(Event::Posted { id: "1".to_string() }, at(0)),
        Action::Finish(Outcome::Failed(Failure::OutOfTurn))
    ));
    assert_eq!(rt.memory.tweets.len(), 0);
    rt.reply_phase = ReplyPhase::Sending {
        variant: persona_bot::runtime::state::Variant::Topical,
        queue: Vec::new(),
        at: 0,
    };
    assert!(matches!(
        rt.handle_notifications_fud_at(Event::Replied, at(0)),
        Action::Finish(Outcome::Failed(Failure::OutOfTurn))
    ));
}
