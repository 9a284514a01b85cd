//! The records that the agent keeps between runs.

use crate::clock::Timestamp;
use vstd::prelude::*;

verus! {

/// Whether a post stands alone or answers another one.
#[derive(Clone, Copy, Debug, PartialEq, Eq, Structural)]
pub enum TweetType {
    Original,
    Reply,
}

/// One generated post, as it is remembered.
#[derive(Clone, Debug)]
pub struct Tweet {
    pub internal_id: u64,
    pub twitter_id: Option<String>,
    pub text: String,
    pub prompt: String,
    pub timestamp: Timestamp,
    pub tweet_type: TweetType,
    pub reply_to: Option<String>,
}

/// What a `Tweet` holds, with texts as character sequences.
pub struct TweetView {
    pub internal_id: u64,
    pub twitter_id: Option<Seq<char>>,
    pub text: Seq<char>,
    pub prompt: Seq<char>,
    pub timestamp: Timestamp,
    pub tweet_type: TweetType,
    pub reply_to: Option<Seq<char>>,
}

/// The characters of an optional string.
pub open spec fn opt_text(s: Option<String>) -> Option<Seq<char>> {
    match s {
        Some(t) => Some(t@),
        None => None,
    }
}

impl View for Tweet {
    type V = TweetView;

    open spec fn view(&self) -> TweetView {
        TweetView {
            internal_id: self.internal_id,
            twitter_id: opt_text(self.twitter_id),
            text: self.text@,
            prompt: self.prompt@,
            timestamp: self.timestamp,
            tweet_type: self.tweet_type,
            reply_to: opt_text(self.reply_to),
        }
    }
}

/// The agent's memory: every post it generated, the next identifier to give
/// out, the next scheduled post, and the two mode switches.
#[derive(Debug)]
pub struct Memory {
    pub tweets: Vec<Tweet>,
    pub next_id: u64,
    pub next_tweet: Option<Timestamp>,
    pub debug_mode: bool,
    pub tweet_mode: bool,
}

/// What a `Memory` holds, with texts as character sequences.
pub struct MemoryView {
    pub tweets: Seq<TweetView>,
    pub next_id: u64,
    pub next_tweet: Option<Timestamp>,
    pub debug_mode: bool,
    pub tweet_mode: bool,
}

impl View for Memory {
    type V = MemoryView;

    open spec fn view(&self) -> MemoryView {
        MemoryView {
            tweets: Seq::new(self.tweets@.len(), |i: int| self.tweets@[i]@),
            next_id: self.next_id,
            next_tweet: self.next_tweet,
            debug_mode: self.debug_mode,
            tweet_mode: self.tweet_mode,
        }
    }
}

impl MemoryView {
    /// Identifiers grow strictly along the posts, and the next identifier
    /// follows the last one that was given out.
    pub open spec fn ids_in_order(self) -> bool {
        &&& forall|i: int, j: int|
            0 <= i < j < self.tweets.len() ==> self.tweets[i].internal_id
                < self.tweets[j].internal_id
        &&& self.tweets.len() > 0 ==> self.tweets.last().internal_id + 1 == self.next_id
    }

    /// Some remembered post answers the message `id`.
    pub open spec fn has_reply_to(self, id: Seq<char>) -> bool {
        exists|i: int| 0 <= i < self.tweets.len() && self.tweets[i].reply_to == Some(id)
    }
}

impl Memory {
    /// The invariant of a memory that this library built: see
    /// `MemoryView::ids_in_order`.
    pub open spec fn wf(&self) -> bool {
        self@.ids_in_order()
    }

    /// Whether the identifiers are in order, so that `next_id` is fresh.
    pub fn check_ids(&self) -> (r: bool)
        ensures
            r == self.wf(),
    {
        let n = self.tweets.len();
        if n == 0 {
            return true;
        }
        let mut i: usize = 1;
        while i < n
            invariant
                1 <= i <= n,
                n == self.tweets@.len(),
                forall|a: int, b: int|
                    0 <= a < b < i ==> self@.tweets[a].internal_id < self@.tweets[b].internal_id,
            decreases n - i,
        {
            if self.tweets[i - 1].internal_id >= self.tweets[i].internal_id {
                assert(!(self@.tweets[i - 1].internal_id < self@.tweets[i as int].internal_id));
                return false;
            }
            assert forall|a: int, b: int| 0 <= a < b < i + 1 implies self@.tweets[a].internal_id
                < self@.tweets[b].internal_id by {
                if b == i && a < i - 1 {
                    assert(self@.tweets[a].internal_id < self@.tweets[i - 1].internal_id);
                }
            }
            i += 1;
        }
        let last = self.tweets[n - 1].internal_id;
        assert(self@.tweets.last().internal_id == last);
        last < u64::MAX && last + 1 == self.next_id
    }

    /// Whether some remembered post answers the message `id`.
    pub fn has_reply_to(&self, id: &str) -> (r: bool)
        ensures
            r == self@.has_reply_to(id@),
    {
        let mut i: usize = 0;
        while i < self.tweets.len()
            invariant
                i <= self.tweets.len(),
                forall|j: int| 0 <= j < i ==> self@.tweets[j].reply_to != Some(id@),
            decreases self.tweets.len() - i,
        {
            let hit = match &self.tweets[i].reply_to {
                Some(r) => crate::text::same_text(r.as_str(), id),
                None => false,
            };
            if hit {
                assert(self@.tweets[i as int].reply_to == Some(id@));
                return true;
            }
            i += 1;
        }
        false
    }
}

impl Default for Memory {
    /// An empty memory with both switches off.
    fn default() -> (m: Memory)
        ensures
            m@.tweets.len() == 0,
            m.next_id == 0,
            m.next_tweet is None,
            !m.debug_mode,
            !m.tweet_mode,
            m.wf(),
    {
        Memory { tweets: Vec::new(), next_id: 0, next_tweet: None, debug_mode: false, tweet_mode: false }
    }
}

/// The identifiers of the inbound messages that were already handled. An
/// identifier, once added, stays.
#[derive(Debug)]
pub struct ProcessedNotifications {
    pub tweet_ids: Vec<String>,
}

impl View for ProcessedNotifications {
    type V = Set<Seq<char>>;

    open spec fn view(&self) -> Set<Seq<char>> {
        crate::text::texts(self.tweet_ids@).to_set()
    }
}

impl ProcessedNotifications {
    /// No identifier is held twice.
    pub open spec fn wf(&self) -> bool {
        crate::text::texts(self.tweet_ids@).no_duplicates()
    }

    /// The empty set.
    pub fn new() -> (p: ProcessedNotifications)
        ensures
            p@ == Set::<Seq<char>>::empty(),
            p.wf(),
    {
        let p = ProcessedNotifications { tweet_ids: Vec::new() };
        assert(p@ =~= Set::<Seq<char>>::empty());
        p
    }

    /// Whether `id` was handled.
    pub fn contains(&self, id: &str) -> (r: bool)
        ensures
            r == self@.contains(id@),
    {
        let mut i: usize = 0;
        while i < self.tweet_ids.len()
            invariant
                i <= self.tweet_ids.len(),
                forall|j: int| 0 <= j < i ==> crate::text::texts(self.tweet_ids@)[j] != id@,
            decreases self.tweet_ids.len() - i,
        {
            if crate::text::same_text(self.tweet_ids[i].as_str(), id) {
                assert(crate::text::texts(self.tweet_ids@)[i as int] == id@);
                return true;
            }
            i += 1;
        }
        false
    }

    /// Marks `id` as handled.
    pub fn insert(&mut self, id: &str)
        ensures
            final(self)@ == old(self)@.insert(id@),
            old(self).wf() ==> final(self).wf(),
    {
        if !self.contains(id) {
            let ghost before = crate::text::texts(self.tweet_ids@);
            self.tweet_ids.push(id.to_owned());
            assert(crate::text::texts(self.tweet_ids@) =~= before.push(id@));
            proof {
                before.lemma_push_to_set_commute(id@);
            }
        } else {
            assert(self@ =~= old(self)@.insert(id@));
        }
    }

    /// The set that holds exactly the identifiers of `ids`.
    pub fn from_ids(ids: &Vec<String>) -> (p: ProcessedNotifications)
        ensures
            p@ == crate::text::texts(ids@).to_set(),
            p.wf(),
    {
        let mut p = ProcessedNotifications::new();
        let mut i: usize = 0;
        while i < ids.len()
            invariant
                i <= ids.len(),
                p.wf(),
                p@ == crate::text::texts(ids@).take(i as int).to_set(),
            decreases ids.len() - i,
        {
            p.insert(ids[i].as_str());
            assert(crate::text::texts(ids@).take(i + 1) =~= crate::text::texts(ids@).take(
                i as int,
            ).push(ids@[i as int]@));
            proof {
                crate::text::texts(ids@).take(i as int).lemma_push_to_set_commute(ids@[i as int]@);
            }
            i += 1;
        }
        assert(crate::text::texts(ids@).take(ids.len() as int) =~= crate::text::texts(ids@));
        p
    }

    /// The identifiers held, each once.
    pub fn ids(&self) -> (v: Vec<String>)
        ensures
            crate::text::texts(v@) == crate::text::texts(self.tweet_ids@),
            crate::text::texts(v@).to_set() == self@,
    {
        let mut v: Vec<String> = Vec::new();
        let mut i: usize = 0;
        while i < self.tweet_ids.len()
            invariant
                i <= self.tweet_ids.len(),
                crate::text::texts(v@) == crate::text::texts(self.tweet_ids@).take(i as int),
            decreases self.tweet_ids.len() - i,
        {
            let ghost before = crate::text::texts(v@);
            v.push(self.tweet_ids[i].clone());
            assert(crate::text::texts(v@) =~= before.push(self.tweet_ids@[i as int]@));
            assert(crate::text::texts(self.tweet_ids@).take(i + 1) =~= crate::text::texts(
                self.tweet_ids@,
            ).take(i as int).push(self.tweet_ids@[i as int]@));
            i += 1;
        }
        assert(crate::text::texts(self.tweet_ids@).take(self.tweet_ids.len() as int)
            =~= crate::text::texts(self.tweet_ids@));
        v
    }
}

/// Writing a set of identifiers out as a list and reading the list back
/// yields the same set.
pub proof fn lemma_processed_round_trip(p: ProcessedNotifications, listed: Seq<String>, back: ProcessedNotifications)
    requires
        crate::text::texts(listed).to_set() == p@,
        back@ == crate::text::texts(listed).to_set(),
    ensures
        back@ == p@,
{
}

} // verus!
