//! Counters keyed by text.

use crate::text::same_text;
use vstd::prelude::*;

verus! {

/// The count that the first entry for `key` holds; zero where there is no
/// such entry.
pub open spec fn lookup(entries: Seq<(Seq<char>, usize)>, key: Seq<char>) -> nat
    decreases entries.len(),
{
    if entries.len() == 0 {
        0
    } else if entries[0].0 == key {
        entries[0].1 as nat
    } else {
        lookup(entries.drop_first(), key)
    }
}

/// One more than `n`, held at the largest `usize`.
pub open spec fn bumped(n: nat) -> nat {
    if n < usize::MAX {
        n + 1
    } else {
        n
    }
}

/// A prefix without an entry for `key` does not matter to the lookup.
proof fn lemma_lookup_skip(entries: Seq<(Seq<char>, usize)>, key: Seq<char>, n: int)
    requires
        0 <= n <= entries.len(),
        forall|j: int| 0 <= j < n ==> entries[j].0 != key,
    ensures
        lookup(entries, key) == lookup(entries.skip(n), key),
    decreases n,
{
    if n == 0 {
        assert(entries.skip(0) =~= entries);
    } else {
        assert(entries.drop_first().skip(n - 1) =~= entries.skip(n));
        lemma_lookup_skip(entries.drop_first(), key, n - 1);
    }
}

/// Replacing the count of the entry at `at` changes the lookup of its key
/// alone, if no earlier entry has that key.
proof fn lemma_lookup_update(
    entries: Seq<(Seq<char>, usize)>,
    at: int,
    count: usize,
    other: Seq<char>,
)
    requires
        0 <= at < entries.len(),
        forall|j: int| 0 <= j < at ==> entries[j].0 != entries[at].0,
    ensures
        lookup(entries.update(at, (entries[at].0, count)), other) == if other == entries[at].0 {
            count as nat
        } else {
            lookup(entries, other)
        },
    decreases at,
{
    let after = entries.update(at, (entries[at].0, count));
    if at == 0 {
        assert(after.drop_first() =~= entries.drop_first());
    } else {
        assert(after.drop_first() =~= entries.drop_first().update(
            at - 1,
            (entries[at].0, count),
        ));
        lemma_lookup_update(entries.drop_first(), at - 1, count, other);
    }
}

/// A new entry at the end changes the lookup of its key alone, if no entry
/// had that key.
proof fn lemma_lookup_push(
    entries: Seq<(Seq<char>, usize)>,
    key: Seq<char>,
    count: usize,
    other: Seq<char>,
)
    requires
        forall|j: int| 0 <= j < entries.len() ==> entries[j].0 != key,
    ensures
        lookup(entries.push((key, count)), other) == if other == key {
            count as nat
        } else {
            lookup(entries, other)
        },
    decreases entries.len(),
{
    let after = entries.push((key, count));
    if entries.len() == 0 {
        assert(after.drop_first() =~= Seq::<(Seq<char>, usize)>::empty());
        assert(after[0] == (key, count));
        assert(lookup(after.drop_first(), other) == 0);
    } else {
        assert(after.drop_first() =~= entries.drop_first().push((key, count)));
        assert(after[0] == entries[0]);
        assert(entries[0].0 != key);
        lemma_lookup_push(entries.drop_first(), key, count, other);
    }
}

/// A lookup yields a count that some entry holds, or zero.
proof fn lemma_lookup_bounded(entries: Seq<(Seq<char>, usize)>, key: Seq<char>)
    ensures
        lookup(entries, key) <= usize::MAX,
    decreases entries.len(),
{
    if entries.len() > 0 && entries[0].0 != key {
        lemma_lookup_bounded(entries.drop_first(), key);
    }
}

/// How often each text was counted.
#[derive(Debug)]
pub struct Tally {
    entries: Vec<(String, usize)>,
}

impl Tally {
    /// The entries, with keys as character sequences.
    pub closed spec fn pairs(&self) -> Seq<(Seq<char>, usize)> {
        Seq::new(self.entries@.len(), |i: int| (self.entries@[i].0@, self.entries@[i].1))
    }

    /// How often `key` was counted.
    pub closed spec fn count_of(&self, key: Seq<char>) -> nat {
        lookup(self.pairs(), key)
    }

    /// Every count fits the machine word in which it is held.
    pub proof fn lemma_count_bounded(&self, key: Seq<char>)
        ensures
            self.count_of(key) <= usize::MAX,
    {
        lemma_lookup_bounded(self.pairs(), key);
    }

    /// A tally in which nothing was counted.
    pub fn new() -> (t: Tally)
        ensures
            forall|key: Seq<char>| t.count_of(key) == 0,
    {
        Tally { entries: Vec::new() }
    }

    /// The place of the first entry for `key`.
    fn position(&self, key: &str) -> (r: Option<usize>)
        ensures
            match r {
                Some(at) => at < self.pairs().len() && self.pairs()[at as int].0 == key@
                    && forall|j: int| 0 <= j < at ==> self.pairs()[j].0 != key@,
                None => forall|j: int| 0 <= j < self.pairs().len() ==> self.pairs()[j].0 != key@,
            },
    {
        let mut i: usize = 0;
        while i < self.entries.len()
            invariant
                i <= self.entries.len(),
                forall|j: int| 0 <= j < i ==> self.pairs()[j].0 != key@,
            decreases self.entries.len() - i,
        {
            if same_text(self.entries[i].0.as_str(), key) {
                return Some(i);
            }
            i += 1;
        }
        None
    }

    /// How often `key` was counted.
    pub fn count(&self, key: &str) -> (n: usize)
        ensures
            n == self.count_of(key@),
    {
        match self.position(key) {
            Some(at) => {
                proof {
                    lemma_lookup_skip(self.pairs(), key@, at as int);
                }
                self.entries[at].1
            },
            None => {
                proof {
                    lemma_lookup_skip(self.pairs(), key@, self.pairs().len() as int);
                }
                0
            },
        }
    }

    /// Counts `key` once more.
    pub fn bump(&mut self, key: &str)
        ensures
            forall|other: Seq<char>|
                final(self).count_of(other) == if other == key@ {
                    bumped(old(self).count_of(other))
                } else {
                    old(self).count_of(other)
                },
    {
        let ghost before = self.pairs();
        match self.position(key) {
            Some(at) => {
                let n = self.entries[at].1;
                proof {
                    lemma_lookup_skip(before, key@, at as int);
                }
                let next: usize = if n < usize::MAX {
                    n + 1
                } else {
                    n
                };
                let name = self.entries[at].0.clone();
                self.entries.set(at, (name, next));
                assert(self.pairs() =~= before.update(at as int, (before[at as int].0, next)));
                assert forall|other: Seq<char>|
                    self.count_of(other) == if other == key@ {
                        bumped(old(self).count_of(other))
                    } else {
                        old(self).count_of(other)
                    } by {
                    lemma_lookup_update(before, at as int, next, other);
                }
            },
            None => {
                proof {
                    lemma_lookup_skip(before, key@, before.len() as int);
                }
                self.entries.push((key.to_owned(), 1));
                assert(self.pairs() =~= before.push((key@, 1usize)));
                assert forall|other: Seq<char>|
                    self.count_of(other) == if other == key@ {
                        bumped(old(self).count_of(other))
                    } else {
                        old(self).count_of(other)
                    } by {
                    lemma_lookup_push(before, key@, 1, other);
                }
            },
        }
    }
}

} // verus!
