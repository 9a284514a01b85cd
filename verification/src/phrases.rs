//! The window of recently used three-word phrases, by which repeated
//! content is recognised.

use crate::text::{
    join_words, joined, lowercase_of, same_text, split_whitespace, texts, to_lowercase,
    whitespace_words,
};
use vstd::prelude::*;

verus! {

/// Words in one phrase.
pub const PHRASE_WORDS: usize = 3;

/// The phrase that starts at word `i`: three words in a row, joined by
/// single spaces, in lower case.
pub open spec fn phrase_at(words: Seq<Seq<char>>, i: int) -> Seq<char> {
    lowercase_of(joined(words, i, 3))
}

/// The phrases of a sequence of words: one for each run of three
/// neighbouring words, in order; none where there are fewer than three.
pub open spec fn phrases_of_words(words: Seq<Seq<char>>) -> Seq<Seq<char>> {
    Seq::new(
        if words.len() >= 3 {
            (words.len() - 2) as nat
        } else {
            0
        },
        |i: int| phrase_at(words, i),
    )
}

/// The phrases of a text, whose words are what white space separates.
pub open spec fn phrases_of(text: Seq<char>) -> Seq<Seq<char>> {
    phrases_of_words(whitespace_words(text))
}

/// `held` followed by those of `fresh` that it lacks, each once, in the
/// order in which they first come.
pub open spec fn merged(held: Seq<Seq<char>>, fresh: Seq<Seq<char>>) -> Seq<Seq<char>>
    decreases fresh.len(),
{
    if fresh.len() == 0 {
        held
    } else {
        let before = merged(held, fresh.drop_last());
        if before.contains(fresh.last()) {
            before
        } else {
            before.push(fresh.last())
        }
    }
}

/// The last `capacity` members of `all`, or all of them if they are fewer.
pub open spec fn newest(all: Seq<Seq<char>>, capacity: nat) -> Seq<Seq<char>> {
    if all.len() > capacity {
        all.skip(all.len() - capacity)
    } else {
        all
    }
}

/// Some member of `phrases` is held in `held`.
pub open spec fn any_held(held: Seq<Seq<char>>, phrases: Seq<Seq<char>>) -> bool {
    exists|i: int| 0 <= i < phrases.len() && held.contains(phrases[i])
}

/// Merging keeps every member of `held` where it was and adds no
/// duplicates.
pub proof fn lemma_merged(held: Seq<Seq<char>>, fresh: Seq<Seq<char>>)
    ensures
        held.len() <= merged(held, fresh).len() <= held.len() + fresh.len(),
        merged(held, fresh).take(held.len() as int) == held,
        held.no_duplicates() ==> merged(held, fresh).no_duplicates(),
        forall|x: Seq<char>|
            merged(held, fresh).contains(x) <==> held.contains(x) || fresh.contains(x),
    decreases fresh.len(),
{
    if fresh.len() == 0 {
        assert(held.take(held.len() as int) =~= held);
    } else {
        let before = merged(held, fresh.drop_last());
        lemma_merged(held, fresh.drop_last());
        let all = merged(held, fresh);
        if before.contains(fresh.last()) {
        } else {
            assert(all.take(held.len() as int) =~= before.take(held.len() as int));
        }
        assert forall|x: Seq<char>| all.contains(x) <==> held.contains(x) || fresh.contains(
            x,
        ) by {
            if all.contains(x) {
                let k = choose|k: int| 0 <= k < all.len() && all[k] == x;
                if k < before.len() {
                    assert(before[k] == x);
                    assert(before.contains(x));
                    if fresh.drop_last().contains(x) {
                        let j = choose|j: int|
                            0 <= j < fresh.drop_last().len() && fresh.drop_last()[j] == x;
                        assert(fresh[j] == x);
                    }
                } else {
                    assert(x == fresh.last());
                    assert(fresh[fresh.len() - 1] == x);
                }
            }
            if held.contains(x) {
                assert(before.contains(x));
                let k = choose|k: int| 0 <= k < before.len() && before[k] == x;
                assert(all[k] == x);
            }
            if fresh.contains(x) {
                let j = choose|j: int| 0 <= j < fresh.len() && fresh[j] == x;
                if j < fresh.len() - 1 {
                    assert(fresh.drop_last()[j] == x);
                    assert(fresh.drop_last().contains(x));
                    assert(before.contains(x));
                    let k = choose|k: int| 0 <= k < before.len() && before[k] == x;
                    assert(all[k] == x);
                } else {
                    if before.contains(x) {
                    } else {
                        assert(all[all.len() - 1] == x);
                    }
                }
            }
        }
    }
}

/// Whatever is recorded, a window never holds more than its capacity: the
/// newest members of any sequence are at most `capacity`, and exactly the
/// smaller of the two counts.
pub proof fn lemma_newest_within_capacity(all: Seq<Seq<char>>, capacity: nat)
    ensures
        newest(all, capacity).len() <= capacity,
        newest(all, capacity).len() == if all.len() <= capacity {
            all.len()
        } else {
            capacity
        },
        all.no_duplicates() ==> newest(all, capacity).no_duplicates(),
        forall|x: Seq<char>| newest(all, capacity).contains(x) ==> all.contains(x),
{
    let kept = newest(all, capacity);
    if all.len() > capacity {
        let cut = all.len() - capacity;
        assert forall|x: Seq<char>| kept.contains(x) implies all.contains(x) by {
            let k = choose|k: int| 0 <= k < kept.len() && kept[k] == x;
            assert(all[k + cut] == x);
        }
    }
}

/// A bounded window of recently used phrases, oldest first.
#[derive(Debug)]
pub struct PhraseWindow {
    phrases: Vec<String>,
    capacity: usize,
}

impl View for PhraseWindow {
    type V = Seq<Seq<char>>;

    closed spec fn view(&self) -> Seq<Seq<char>> {
        texts(self.phrases@)
    }
}

impl PhraseWindow {
    /// The most phrases that the window holds.
    pub closed spec fn limit(&self) -> nat {
        self.capacity as nat
    }

    /// No phrase is held twice, and no more than the capacity are held.
    pub open spec fn wf(&self) -> bool {
        &&& self@.no_duplicates()
        &&& self@.len() <= self.limit()
    }

    /// An empty window that holds up to `capacity` phrases.
    pub fn new(capacity: usize) -> (w: PhraseWindow)
        ensures
            w@ == Seq::<Seq<char>>::empty(),
            w.limit() == capacity,
            w.wf(),
    {
        let w = PhraseWindow { phrases: Vec::new(), capacity };
        assert(w@ =~= Seq::<Seq<char>>::empty());
        w
    }

    /// How many phrases are held.
    pub fn len(&self) -> (n: usize)
        ensures
            n == self@.len(),
    {
        self.phrases.len()
    }

    /// The most phrases that the window holds.
    pub fn capacity(&self) -> (n: usize)
        ensures
            n == self.limit(),
    {
        self.capacity
    }

    /// Whether `phrase` is held.
    pub fn contains(&self, phrase: &str) -> (r: bool)
        ensures
            r == self@.contains(phrase@),
    {
        let mut i: usize = 0;
        while i < self.phrases.len()
            invariant
                i <= self.phrases.len(),
                forall|j: int| 0 <= j < i ==> self@[j] != phrase@,
            decreases self.phrases.len() - i,
        {
            if same_text(self.phrases[i].as_str(), phrase) {
                assert(self@[i as int] == phrase@);
                return true;
            }
            i += 1;
        }
        false
    }

    /// Whether one of `phrases` is held.
    pub fn contains_any(&self, phrases: &Vec<String>) -> (r: bool)
        ensures
            r == any_held(self@, texts(phrases@)),
    {
        let mut i: usize = 0;
        while i < phrases.len()
            invariant
                i <= phrases.len(),
                forall|j: int| 0 <= j < i ==> !self@.contains(texts(phrases@)[j]),
            decreases phrases.len() - i,
        {
            if self.contains(phrases[i].as_str()) {
                assert(self@.contains(texts(phrases@)[i as int]));
                return true;
            }
            i += 1;
        }
        false
    }

    /// Takes `phrases` into the window, then drops the oldest members until
    /// no more than the capacity are left.
    pub fn record(&mut self, phrases: &Vec<String>)
        ensures
            final(self)@ == newest(merged(old(self)@, texts(phrases@)), old(self).limit()),
            final(self).limit() == old(self).limit(),
            final(self)@.len() <= final(self).limit(),
            old(self).wf() ==> final(self).wf(),
    {
        let ghost fresh = texts(phrases@);
        let mut i: usize = 0;
        assert(fresh.take(0) =~= Seq::<Seq<char>>::empty());
        while i < phrases.len()
            invariant
                i <= phrases.len(),
                fresh == texts(phrases@),
                self.capacity == old(self).capacity,
                self@ == merged(old(self)@, fresh.take(i as int)),
            decreases phrases.len() - i,
        {
            let ghost before = self@;
            assert(fresh.take(i + 1).drop_last() =~= fresh.take(i as int));
            assert(fresh.take(i + 1).last() == phrases@[i as int]@);
            if !self.contains(phrases[i].as_str()) {
                self.phrases.push(phrases[i].clone());
                assert(self@ =~= before.push(phrases@[i as int]@));
            }
            i += 1;
        }
        assert(fresh.take(phrases.len() as int) =~= fresh);
        let ghost all = self@;
        if self.phrases.len() > self.capacity {
            let cut: usize = self.phrases.len() - self.capacity;
            let mut kept: Vec<String> = Vec::new();
            let mut k: usize = cut;
            while k < self.phrases.len()
                invariant
                    cut <= k <= self.phrases.len(),
                    self@ == all,
                    texts(kept@) == all.subrange(cut as int, k as int),
                decreases self.phrases.len() - k,
            {
                let ghost so_far = texts(kept@);
                kept.push(self.phrases[k].clone());
                assert(texts(kept@) =~= so_far.push(all[k as int]));
                assert(all.subrange(cut as int, k + 1) =~= all.subrange(cut as int, k as int).push(
                    all[k as int],
                ));
                k += 1;
            }
            self.phrases = kept;
            assert(all.subrange(cut as int, all.len() as int) =~= all.skip(cut as int));
        }
        proof {
            lemma_merged(old(self)@, fresh);
            lemma_newest_within_capacity(all, old(self).limit());
        }
    }

    /// Whether one of `phrases` was already held; all of them are taken into
    /// the window whether or not that is so.
    pub fn check_and_record_phrases(&mut self, phrases: &Vec<String>) -> (repeat: bool)
        ensures
            repeat == any_held(old(self)@, texts(phrases@)),
            final(self)@ == newest(merged(old(self)@, texts(phrases@)), old(self).limit()),
            final(self).limit() == old(self).limit(),
            final(self)@.len() <= final(self).limit(),
            old(self).wf() ==> final(self).wf(),
    {
        let repeat = self.contains_any(phrases);
        self.record(phrases);
        repeat
    }

    /// Whether `text` repeats a phrase that is held; its phrases are taken
    /// into the window whether or not that is so.
    pub fn check_and_record(&mut self, text: &str) -> (repeat: bool)
        ensures
            repeat == any_held(old(self)@, phrases_of(text@)),
            final(self)@ == newest(merged(old(self)@, phrases_of(text@)), old(self).limit()),
            final(self).limit() == old(self).limit(),
            final(self)@.len() <= final(self).limit(),
            old(self).wf() ==> final(self).wf(),
    {
        let phrases = three_word_phrases(text);
        self.check_and_record_phrases(&phrases)
    }
}

/// The three-word phrases of a sequence of words.
pub fn phrases_from_words(words: &Vec<String>) -> (phrases: Vec<String>)
    ensures
        texts(phrases@) == phrases_of_words(texts(words@)),
{
    let mut phrases: Vec<String> = Vec::new();
    if words.len() < PHRASE_WORDS {
        assert(texts(phrases@) =~= phrases_of_words(texts(words@)));
        return phrases;
    }
    let count: usize = words.len() - 2;
    let mut i: usize = 0;
    while i < count
        invariant
            i <= count,
            count == words.len() - 2,
            words.len() >= 3,
            texts(phrases@) == phrases_of_words(texts(words@)).take(i as int),
        decreases count - i,
    {
        let ghost so_far = texts(phrases@);
        let window = join_words(words, i, PHRASE_WORDS);
        let phrase = to_lowercase(window.as_str());
        phrases.push(phrase);
        assert(texts(phrases@) =~= so_far.push(phrase_at(texts(words@), i as int)));
        assert(phrases_of_words(texts(words@)).take(i + 1) =~= phrases_of_words(
            texts(words@),
        ).take(i as int).push(phrase_at(texts(words@), i as int)));
        i += 1;
    }
    assert(phrases_of_words(texts(words@)).take(count as int) =~= phrases_of_words(texts(words@)));
    phrases
}

/// The three-word phrases of a text.
pub fn three_word_phrases(text: &str) -> (phrases: Vec<String>)
    ensures
        texts(phrases@) == phrases_of(text@),
{
    let words = split_whitespace(text);
    phrases_from_words(&words)
}

} // verus!
