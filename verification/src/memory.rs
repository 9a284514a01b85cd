//! Operations on the agent's memory.
//!
//! Writing the memory to storage is the embedding program's part: it saves
//! after each of the mutating operations below.

use crate::clock::{utc_now, Timestamp};
use crate::models::{Memory, MemoryView, ProcessedNotifications, Tweet, TweetType, TweetView};
use vstd::prelude::*;

verus! {

/// The operations on `Memory`.
pub struct MemoryStore;

/// `m` with one more post at its end, which takes the next identifier.
pub open spec fn with_post(
    m: MemoryView,
    text: Seq<char>,
    prompt: Seq<char>,
    twitter_id: Option<Seq<char>>,
    tweet_type: TweetType,
    reply_to: Option<Seq<char>>,
    timestamp: Timestamp,
) -> MemoryView {
    MemoryView {
        tweets: m.tweets.push(
            TweetView {
                internal_id: m.next_id,
                twitter_id,
                text,
                prompt,
                timestamp,
                tweet_type,
                reply_to,
            },
        ),
        next_id: (m.next_id + 1) as u64,
        ..m
    }
}

/// Appending a post keeps the identifiers in order.
pub proof fn lemma_with_post_keeps_order(
    m: MemoryView,
    text: Seq<char>,
    prompt: Seq<char>,
    twitter_id: Option<Seq<char>>,
    tweet_type: TweetType,
    reply_to: Option<Seq<char>>,
    timestamp: Timestamp,
)
    requires
        m.ids_in_order(),
        m.next_id < u64::MAX,
    ensures
        with_post(m, text, prompt, twitter_id, tweet_type, reply_to, timestamp).ids_in_order(),
{
    let after = with_post(m, text, prompt, twitter_id, tweet_type, reply_to, timestamp);
    assert forall|i: int, j: int| 0 <= i < j < after.tweets.len() implies after.tweets[i].internal_id
        < after.tweets[j].internal_id by {
        if j == m.tweets.len() {
            if i < m.tweets.len() - 1 {
                assert(m.tweets[i].internal_id < m.tweets[m.tweets.len() - 1].internal_id);
            }
        }
    }
}

/// In a memory whose identifiers are in order and that holds a post, the
/// next identifier is one more than the highest identifier held.
pub proof fn lemma_next_id_follows_highest(m: MemoryView)
    requires
        m.ids_in_order(),
        m.tweets.len() > 0,
    ensures
        forall|i: int| 0 <= i < m.tweets.len() ==> m.tweets[i].internal_id < m.next_id,
        exists|i: int| 0 <= i < m.tweets.len() && m.tweets[i].internal_id + 1 == m.next_id,
{
    let last = m.tweets.len() - 1;
    assert(m.tweets[last].internal_id + 1 == m.next_id);
    assert forall|i: int| 0 <= i < m.tweets.len() implies m.tweets[i].internal_id < m.next_id by {
        if i < last {
            assert(m.tweets[i].internal_id < m.tweets[last].internal_id);
        }
    }
}

impl MemoryStore {
    /// The memory to start from: the stored one, or an empty one where
    /// nothing was stored.
    pub fn load_memory(stored: Option<Memory>) -> (m: Memory)
        ensures
            stored matches Some(s) ==> m == s,
            stored is None ==> m@.tweets.len() == 0 && m.next_id == 0 && m.next_tweet is None
                && !m.debug_mode && !m.tweet_mode,
    {
        match stored {
            Some(s) => s,
            None => Memory::default(),
        }
    }

    /// The handled identifiers to start from: the stored ones, or none
    /// where nothing was stored.
    pub fn load_processed_tweets(stored: Option<Vec<String>>) -> (p: ProcessedNotifications)
        ensures
            p.wf(),
            p@ == match stored {
                Some(ids) => crate::text::texts(ids@).to_set(),
                None => Set::<Seq<char>>::empty(),
            },
    {
        match stored {
            Some(ids) => ProcessedNotifications::from_ids(&ids),
            None => ProcessedNotifications::new(),
        }
    }

    /// The list to store for a set of handled identifiers.
    pub fn save_processed_tweets(processed_tweets: &ProcessedNotifications) -> (ids: Vec<String>)
        ensures
            crate::text::texts(ids@).to_set() == processed_tweets@,
    {
        processed_tweets.ids()
    }

    /// Appends a post made at `timestamp` and advances the identifier.
    pub fn record(
        memory: &mut Memory,
        text: &str,
        prompt: &str,
        twitter_id: Option<String>,
        tweet_type: TweetType,
        reply_to: Option<String>,
        timestamp: Timestamp,
    )
        requires
            old(memory).next_id < u64::MAX,
        ensures
            final(memory)@ == with_post(
                old(memory)@,
                text@,
                prompt@,
                crate::models::opt_text(twitter_id),
                tweet_type,
                crate::models::opt_text(reply_to),
                timestamp,
            ),
            old(memory).wf() ==> final(memory).wf(),
    {
        let tweet = Tweet {
            internal_id: memory.next_id,
            twitter_id,
            text: text.to_owned(),
            prompt: prompt.to_owned(),
            timestamp,
            tweet_type,
            reply_to,
        };
        memory.tweets.push(tweet);
        memory.next_id += 1;
        proof {
            let expected = with_post(
                old(memory)@,
                text@,
                prompt@,
                crate::models::opt_text(twitter_id),
                tweet_type,
                crate::models::opt_text(reply_to),
                timestamp,
            );
            assert(memory@.tweets =~= expected.tweets);
            if old(memory).wf() {
                lemma_with_post_keeps_order(
                    old(memory)@,
                    text@,
                    prompt@,
                    crate::models::opt_text(twitter_id),
                    tweet_type,
                    crate::models::opt_text(reply_to),
                    timestamp,
                );
            }
        }
    }

    /// Remembers an original post, stamped with the current time. Returns
    /// `Err` only where no identifier is left to give out.
    pub fn add_to_memory(
        memory: &mut Memory,
        text: &str,
        prompt: &str,
        twitter_id: Option<String>,
    ) -> (r: Result<(), String>)
        ensures
            r is Ok <==> old(memory).next_id < u64::MAX,
            r is Err ==> *final(memory) == *old(memory),
            r is Ok ==> exists|timestamp: Timestamp|
                final(memory)@ == with_post(
                    old(memory)@,
                    text@,
                    prompt@,
                    crate::models::opt_text(twitter_id),
                    TweetType::Original,
                    None,
                    timestamp,
                ),
            old(memory).wf() ==> final(memory).wf(),
    {
        if memory.next_id == u64::MAX {
            return Err("no identifier left".to_owned());
        }
        let now = utc_now();
        Self::record(memory, text, prompt, twitter_id, TweetType::Original, None, now.at);
        Ok(())
    }

    /// Remembers a reply to the message `reply_to`, stamped with the current
    /// time. Returns `Err` only where no identifier is left to give out.
    pub fn add_reply_to_memory(
        memory: &mut Memory,
        text: &str,
        prompt: &str,
        twitter_id: Option<String>,
        reply_to: String,
    ) -> (r: Result<(), String>)
        ensures
            r is Ok <==> old(memory).next_id < u64::MAX,
            r is Err ==> *final(memory) == *old(memory),
            r is Ok ==> exists|timestamp: Timestamp|
                final(memory)@ == with_post(
                    old(memory)@,
                    text@,
                    prompt@,
                    crate::models::opt_text(twitter_id),
                    TweetType::Reply,
                    Some(reply_to@),
                    timestamp,
                ),
            old(memory).wf() ==> final(memory).wf(),
    {
        if memory.next_id == u64::MAX {
            return Err("no identifier left".to_owned());
        }
        let now = utc_now();
        Self::record(memory, text, prompt, twitter_id, TweetType::Reply, Some(reply_to), now.at);
        Ok(())
    }

    /// Sets the time of the next scheduled post.
    pub fn update_next_tweet_time(memory: &mut Memory, next_tweet: Timestamp)
        ensures
            final(memory)@ == (MemoryView { next_tweet: Some(next_tweet), ..old(memory)@ }),
            old(memory).wf() ==> final(memory).wf(),
    {
        memory.next_tweet = Some(next_tweet);
    }

    /// The time of the next scheduled post.
    pub fn get_next_tweet_time(memory: &Memory) -> (r: Option<Timestamp>)
        ensures
            r == memory.next_tweet,
    {
        memory.next_tweet
    }

    /// Whether generated content is sent out, not only recorded.
    pub fn get_tweet_mode(memory: &Memory) -> (r: bool)
        ensures
            r == memory.tweet_mode,
    {
        memory.tweet_mode
    }

    /// Whether a diagnostic run replaces the main loop.
    pub fn get_debug_mode(memory: &Memory) -> (r: bool)
        ensures
            r == memory.debug_mode,
    {
        memory.debug_mode
    }

    /// Switches the diagnostic run on or off.
    pub fn set_debug_mode(memory: &mut Memory, debug: bool)
        ensures
            final(memory)@ == (MemoryView { debug_mode: debug, ..old(memory)@ }),
            old(memory).wf() ==> final(memory).wf(),
    {
        memory.debug_mode = debug;
    }
}

} // verus!
