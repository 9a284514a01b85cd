use persona_bot::clock::Timestamp;
use persona_bot::memory::MemoryStore;
use persona_bot::models::{Memory, ProcessedNotifications, Tweet, TweetType};

fn at(secs: i64) -> Timestamp {
    Timestamp { secs, nanos: 0 }
}

#[test]
fn an_empty_memory_is_the_default() {
    let memory = Memory::default();
    assert_eq!(memory.tweets.len(), 0);
    assert_eq!(memory.next_id, 0);
    assert_eq!(memory.next_tweet, None);
    assert!(!memory.debug_mode);
    assert!(!memory.tweet_mode);
    assert!(memory.check_ids());
    let loaded = MemoryStore::load_memory(None);
    assert_eq!(loaded.tweets.len(), 0);
    assert_eq!(loaded.next_id, 0);
}

#[test]
fn posts_take_the_next_identifier() {
    let mut memory = Memory::default();
    assert!(MemoryStore::add_to_memory(&mut memory, "first", "persona", None).is_ok());
    assert!(MemoryStore::add_to_memory(&mut memory, "second", "persona", Some("99".to_string()))
        .is_ok());
    assert!(MemoryStore::add_reply_to_memory(
        &mut memory,
        "third",
        "persona",
        Some("100".to_string()),
        "55".to_string()
    )
    .is_ok());
    assert_eq!(memory.next_id, 3);
    assert_eq!(memory.tweets.len(), 3);
    assert_eq!(memory.tweets[0].internal_id, 0);
    assert_eq!(memory.tweets[0].text, "first");
    assert_eq!(memory.tweets[0].prompt, "persona");
    assert_eq!(memory.tweets[0].twitter_id, None);
    assert_eq!(memory.tweets[0].tweet_type, TweetType::Original);
    assert_eq!(memory.tweets[0].reply_to, None);
    assert_eq!(memory.tweets[1].internal_id, 1);
    assert_eq!(memory.tweets[1].twitter_id, Some("99".to_string()));
    assert_eq!(memory.tweets[2].internal_id, 2);
    assert_eq!(memory.tweets[2].tweet_type, TweetType::Reply);
    assert_eq!(memory.tweets[2].reply_to, Some("55".to_string()));
    assert!(memory.check_ids());
    assert!(memory.has_reply_to("55"));
    assert!(!memory.has_reply_to("100"));
}

#[test]
fn record_stamps_the_post_with_the_given_time() {
    let mut memory = Memory::default();
    MemoryStore::record(&mut memory, "t", "p", None, TweetType::Original, None, at(1_700_000_000));
    assert_eq!(memory.tweets[0].timestamp, at(1_700_000_000));
}

#[test]
fn a_full_memory_takes_no_more_posts() {
    let mut memory = Memory::default();
    memory.next_id = u64::MAX;
    assert!(MemoryStore::add_to_memory(&mut memory, "t", "p", None).is_err());
    assert!(MemoryStore::add_reply_to_memory(&mut memory, "t", "p", None, "1".to_string()).is_err());
    assert_eq!(memory.tweets.len(), 0);
    assert_eq!(memory.next_id, u64::MAX);
}

fn stored_form(memory: &Memory) -> String {
    let mut posts = Vec::new();
    for t in memory.tweets.iter() {
        let mut post = serde_json::Map::new();
        post.insert("internal_id".to_string(), serde_json::Value::from(t.internal_id));
        post.insert("twitter_id".to_string(), serde_json::Value::from(t.twitter_id.clone()));
        post.insert("text".to_string(), serde_json::Value::from(t.text.clone()));
        post.insert("prompt".to_string(), serde_json::Value::from(t.prompt.clone()));
        post.insert("timestamp".to_string(), serde_json::Value::from(t.timestamp.secs));
        post.insert(
            "tweet_type".to_string(),
            serde_json::Value::from(match t.tweet_type {
                TweetType::Original => "Original",
                TweetType::Reply => "Reply",
            }),
        );
        post.insert("reply_to".to_string(), serde_json::Value::from(t.reply_to.clone()));
        posts.push(serde_json::Value::Object(post));
    }
    let mut root = serde_json::Map::new();
    root.insert("tweets".to_string(), serde_json::Value::Array(posts));
    root.insert("next_id".to_string(), serde_json::Value::from(memory.next_id));
    root.insert("debug_mode".to_string(), serde_json::Value::from(memory.debug_mode));
    root.insert("tweet_mode".to_string(), serde_json::Value::from(memory.tweet_mode));
    serde_json::to_string_pretty(&serde_json::Value::Object(root)).unwrap()
}

fn loaded_form(text: &str) -> Memory {
    let root: serde_json::Value = serde_json::from_str(text).unwrap();
    let mut tweets = Vec::new();
    for p in root["tweets"].as_array().unwrap() {
        tweets.push(Tweet {
            internal_id: p["internal_id"].as_u64().unwrap(),
            twitter_id: p["twitter_id"].as_str().map(|s| s.to_string()),
            text: p["text"].as_str().unwrap().to_string(),
            prompt: p["prompt"].as_str().unwrap().to_string(),
            timestamp: at(p["timestamp"].as_i64().unwrap()),
            tweet_type: if p["tweet_type"].as_str().unwrap() == "Reply" {
                TweetType::Reply
            } else {
                TweetType::Original
            },
            reply_to: p["reply_to"].as_str().map(|s| s.to_string()),
        });
    }
    Memory {
        tweets,
        next_id: root["next_id"].as_u64().unwrap(),
        next_tweet: None,
        debug_mode: root["debug_mode"].as_bool().unwrap(),
        tweet_mode: root["tweet_mode"].as_bool().unwrap(),
    }
}

#[test]
fn next_id_follows_the_highest_identifier_after_every_save_and_load() {
    let mut memory = Memory::default();
    for round in 0..6u64 {
        if round % 2 == 0 {
            MemoryStore::add_to_memory(&mut memory, "post", "persona", None).unwrap();
        } else {
            MemoryStore::add_reply_to_memory(
                &mut memory,
                "reply",
                "persona",
                Some(format!("{}", round)),
                format!("{}", 1000 + round),
            )
            .unwrap();
        }
        let loaded = MemoryStore::load_memory(Some(loaded_form(&stored_form(&memory))));
        let highest = loaded.tweets.iter().map(|t| t.internal_id).max().unwrap();
        assert_eq!(loaded.next_id, highest + 1);
        assert_eq!(loaded.next_id, round + 1);
        assert!(loaded.check_ids());
        memory = loaded;
    }
}

#[test]
fn check_ids_finds_what_is_out_of_order() {
    let mut memory = Memory::default();
    MemoryStore::add_to_memory(&mut memory, "a", "p", None).unwrap();
    MemoryStore::add_to_memory(&mut memory, "b", "p", None).unwrap();
    assert!(memory.check_ids());
    memory.next_id = 5;
    assert!(!memory.check_ids());
    memory.next_id = 2;
    memory.tweets[1].internal_id = 0;
    assert!(!memory.check_ids());
    memory.tweets[1].internal_id = u64::MAX;
    assert!(!memory.check_ids());
}

#[test]
fn modes_and_schedule() {
    let mut memory = Memory::default();
    assert_eq!(MemoryStore::get_next_tweet_time(&memory), None);
    MemoryStore::update_next_tweet_time(&mut memory, at(42));
    assert_eq!(MemoryStore::get_next_tweet_time(&memory), Some(at(42)));
    assert!(!MemoryStore::get_debug_mode(&memory));
    MemoryStore::set_debug_mode(&mut memory, true);
    assert!(MemoryStore::get_debug_mode(&memory));
    assert!(!MemoryStore::get_tweet_mode(&memory));
    memory.tweet_mode = true;
    assert!(MemoryStore::get_tweet_mode(&memory));
}

#[test]
fn handled_identifiers_are_a_set() {
    let mut handled = ProcessedNotifications::new();
    assert!(!handled.contains("1"));
    handled.insert("1");
    handled.insert("2");
    handled.insert("1");
    assert!(handled.contains("1"));
    assert!(handled.contains("2"));
    assert!(!handled.contains("3"));
    assert_eq!(handled.ids().len(), 2);
}

#[test]
fn handled_identifiers_survive_writing_and_reading() {
    let ids = ["1849", "", "not a number", "🚀", "1849", "a\"b\\c", "line\nbreak", "2"];
    let mut handled = ProcessedNotifications::new();
    for id in ids {
        handled.insert(id);
    }
    let written = serde_json::to_string_pretty(&MemoryStore::save_processed_tweets(&handled)).unwrap();
    let read: Vec<String> = serde_json::from_str(&written).unwrap();
    let back = MemoryStore::load_processed_tweets(Some(read));
    let a: std::collections::HashSet<String> = handled.ids().into_iter().collect();
    let b: std::collections::HashSet<String> = back.ids().into_iter().collect();
    assert_eq!(a, b);
    assert_eq!(a.len(), 7);
    for id in ids {
        assert!(back.contains(id));
    }
    assert!(!back.contains("3"));
}

#[test]
fn a_list_with_repeats_is_read_as_a_set() {
    let read = vec!["b".to_string(), "a".to_string(), "b".to_string()];
    let handled = ProcessedNotifications::from_ids(&read);
    assert_eq!(handled.ids().len(), 2);
    assert!(handled.contains("a") && handled.contains("b"));
    let nothing = MemoryStore::load_processed_tweets(None);
    assert_eq!(nothing.ids().len(), 0);
}
