//! One persona-driven writer: its prompts, its reading of what the language
//! model answered, and the bookkeeping by which it varies its style.

use crate::chance::{pick_one, random_ratio};
use crate::tally::{bumped, Tally};
use crate::text::{
    concat2, concat3, contains, contains_char, contains_text, lowercase_of,
    occurrences, replace_first, replace_first_spec, split_whitespace, starts_with_any,
    starts_with_any_of, strs, texts, to_lowercase, to_uppercase, trim, trimmed, uppercase_of,
    whitespace_words,
};
use vstd::prelude::*;

verus! {

/// Whether an inbound message is answered.
#[derive(Clone, Copy, Debug, PartialEq, Eq, Structural)]
pub enum ResponseDecision {
    Respond,
    Ignore,
}

/// A word counted more often than this is overused.
pub const WORD_LIMIT: usize = 5;

/// A stock expression counted more often than this is overused.
pub const PATTERN_LIMIT: usize = 3;

/// The draft in which an answer is accepted whatever it repeats.
pub const LAST_ATTEMPT: usize = 2;

/// The stock expressions whose use is counted.
pub open spec fn tracked_patterns() -> Seq<Seq<char>> {
    seq!["ser"@, "ngmi"@, "wen"@, "just"@, "literally"@]
}

/// The stock expressions whose use is counted.
pub fn tracked_pattern_list() -> (v: Vec<&'static str>)
    ensures
        strs(v@) == tracked_patterns(),
        v@.len() > 0,
{
    let v = vec!["ser", "ngmi", "wen", "just", "literally"];
    assert(strs(v@) =~= tracked_patterns());
    v
}

/// The words of a text, each in lower case.
pub open spec fn lower_words(text: Seq<char>) -> Seq<Seq<char>> {
    whitespace_words(text).map_values(|w: Seq<char>| lowercase_of(w))
}

/// `n` and `more` together, held at the largest `usize`.
pub open spec fn capped_sum(n: nat, more: nat) -> nat {
    if n + more <= usize::MAX {
        n + more
    } else {
        usize::MAX as nat
    }
}

/// How often the agent used each word and each stock expression.
#[derive(Debug)]
pub struct FudAnalysis {
    word_frequencies: Tally,
    pattern_frequencies: Tally,
}

impl FudAnalysis {
    /// How often the word `key` was used.
    pub closed spec fn word_count(&self, key: Seq<char>) -> nat {
        self.word_frequencies.count_of(key)
    }

    /// In how many texts the stock expression `key` was used.
    pub closed spec fn pattern_count(&self, key: Seq<char>) -> nat {
        self.pattern_frequencies.count_of(key)
    }

    /// `later` is `self` after `text` was counted: each word of `text`, in
    /// lower case, once per occurrence; each tracked stock expression that
    /// stands in the lower-case text, once.
    pub open spec fn counted(&self, later: &FudAnalysis, text: Seq<char>) -> bool {
        &&& forall|key: Seq<char>| #[trigger]
            later.word_count(key) == capped_sum(
                self.word_count(key),
                occurrences(lower_words(text), key),
            )
        &&& forall|key: Seq<char>| #[trigger]
            later.pattern_count(key) == if tracked_patterns().contains(key) && contains_text(
                lowercase_of(text),
                key,
            ) {
                bumped(self.pattern_count(key))
            } else {
                self.pattern_count(key)
            }
    }

    /// A word of `text` was used more than five times, or a stock expression
    /// that stands in `text` was used in more than three texts.
    pub open spec fn overused(&self, text: Seq<char>) -> bool {
        ||| exists|i: int|
            0 <= i < lower_words(text).len() && self.word_count(lower_words(text)[i]) > WORD_LIMIT
        ||| exists|j: int|
            0 <= j < tracked_patterns().len() && self.pattern_count(tracked_patterns()[j])
                > PATTERN_LIMIT && contains_text(lowercase_of(text), tracked_patterns()[j])
    }

    /// An analysis in which nothing was counted.
    pub fn new() -> (a: FudAnalysis)
        ensures
            forall|key: Seq<char>| a.word_count(key) == 0,
            forall|key: Seq<char>| a.pattern_count(key) == 0,
    {
        FudAnalysis { word_frequencies: Tally::new(), pattern_frequencies: Tally::new() }
    }

    /// Counts the words and stock expressions of `text`.
    pub fn update(&mut self, text: &str)
        ensures
            old(self).counted(final(self), text@),
    {
        let words = split_whitespace(text);
        let ghost lowered = lower_words(text@);
        let mut i: usize = 0;
        assert(lowered.take(0) =~= Seq::<Seq<char>>::empty());
        assert forall|key: Seq<char>| #[trigger]
            self.word_count(key) == capped_sum(
                old(self).word_count(key),
                occurrences(lowered.take(0), key),
            ) by {
            self.word_frequencies.lemma_count_bounded(key);
        }
        while i < words.len()
            invariant
                i <= words.len(),
                texts(words@) == whitespace_words(text@),
                lowered == lower_words(text@),
                self.pattern_frequencies == old(self).pattern_frequencies,
                forall|key: Seq<char>| #[trigger]
                    self.word_count(key) == capped_sum(
                        old(self).word_count(key),
                        occurrences(lowered.take(i as int), key),
                    ),
            decreases words.len() - i,
        {
            let word = to_lowercase(words[i].as_str());
            assert(texts(words@)[i as int] == words@[i as int]@);
            assert(word@ == lowered[i as int]);
            assert(lowered.take(i + 1).drop_last() =~= lowered.take(i as int));
            assert(lowered.take(i + 1).last() == word@);
            let ghost prev = *self;
            self.word_frequencies.bump(word.as_str());
            assert forall|key: Seq<char>| #[trigger]
                self.word_count(key) == capped_sum(
                    old(self).word_count(key),
                    occurrences(lowered.take(i + 1), key),
                ) by {
                prev.word_frequencies.lemma_count_bounded(key);
                old(self).word_frequencies.lemma_count_bounded(key);
                assert(prev.word_count(key) == capped_sum(
                    old(self).word_count(key),
                    occurrences(lowered.take(i as int), key),
                ));
            }
            i += 1;
        }
        assert(lowered.take(words.len() as int) =~= lowered);
        let lower = to_lowercase(text);
        let patterns = tracked_pattern_list();
        proof {
            reveal_strlit("ser");
            reveal_strlit("ngmi");
            reveal_strlit("wen");
            reveal_strlit("just");
            reveal_strlit("literally");
            assert("ser"@[0] == 's' && "ngmi"@[0] == 'n' && "wen"@[0] == 'w' && "just"@[0] == 'j' && "literally"@[0] == 'l');
        }
        let ghost mid = *self;
        let mut j: usize = 0;
        while j < patterns.len()
            invariant
                j <= patterns.len(),
                strs(patterns@) == tracked_patterns(),
                tracked_patterns().no_duplicates(),
                lower@ == lowercase_of(text@),
                self.word_frequencies == mid.word_frequencies,
                forall|key: Seq<char>| #[trigger]
                    self.pattern_count(key) == if tracked_patterns().take(j as int).contains(key)
                        && contains_text(lowercase_of(text@), key) {
                        bumped(old(self).pattern_count(key))
                    } else {
                        old(self).pattern_count(key)
                    },
            decreases patterns.len() - j,
        {
            let ghost p = tracked_patterns()[j as int];
            assert(strs(patterns@)[j as int] == patterns@[j as int]@);
            assert(tracked_patterns().take(j + 1) =~= tracked_patterns().take(j as int).push(p));
            assert(!tracked_patterns().take(j as int).contains(p)) by {
                if tracked_patterns().take(j as int).contains(p) {
                    let k = choose|k: int|
                        0 <= k < j && tracked_patterns().take(j as int)[k] == p;
                    assert(tracked_patterns()[k] == tracked_patterns()[j as int]);
                }
            }
            assert forall|key: Seq<char>|
                tracked_patterns().take(j + 1).contains(key) <==> (tracked_patterns().take(
                    j as int,
                ).contains(key) || key == p) by {
                if tracked_patterns().take(j as int).contains(key) {
                    let k = choose|k: int|
                        0 <= k < j && tracked_patterns().take(j as int)[k] == key;
                    assert(tracked_patterns().take(j + 1)[k] == key);
                }
                if key == p {
                    assert(tracked_patterns().take(j + 1)[j as int] == key);
                }
            }
            let ghost prev = *self;
            if contains(lower.as_str(), patterns[j]) {
                self.pattern_frequencies.bump(patterns[j]);
            }
            assert forall|key: Seq<char>| #[trigger]
                self.pattern_count(key) == if tracked_patterns().take(j + 1).contains(key)
                    && contains_text(lowercase_of(text@), key) {
                    bumped(old(self).pattern_count(key))
                } else {
                    old(self).pattern_count(key)
                } by {
                assert(prev.pattern_count(key) == if tracked_patterns().take(j as int).contains(
                    key,
                ) && contains_text(lowercase_of(text@), key) {
                    bumped(old(self).pattern_count(key))
                } else {
                    old(self).pattern_count(key)
                });
            }
            j += 1;
        }
        assert(tracked_patterns().take(patterns.len() as int) =~= tracked_patterns());
        assert forall|key: Seq<char>| #[trigger]
            self.word_count(key) == capped_sum(
                old(self).word_count(key),
                occurrences(lower_words(text@), key),
            ) by {
            assert(self.word_count(key) == mid.word_count(key));
        }
    }

    /// Whether `text`, whose words in lower case are `words` and whose
    /// lower-case form is `lower`, leans on what was used too often.
    pub fn is_overused_in(&self, words: &Vec<String>, lower: &str) -> (r: bool)
        ensures
            r == ((exists|i: int|
                0 <= i < words.len() && self.word_count(texts(words@)[i]) > WORD_LIMIT) || (exists|
                j: int,
            |
                0 <= j < tracked_patterns().len() && self.pattern_count(tracked_patterns()[j])
                    > PATTERN_LIMIT && contains_text(lower@, tracked_patterns()[j]))),
    {
        let mut i: usize = 0;
        while i < words.len()
            invariant
                i <= words.len(),
                forall|k: int| 0 <= k < i ==> self.word_count(texts(words@)[k]) <= WORD_LIMIT,
            decreases words.len() - i,
        {
            if self.word_frequencies.count(words[i].as_str()) > WORD_LIMIT {
                assert(self.word_count(texts(words@)[i as int]) > WORD_LIMIT);
                return true;
            }
            i += 1;
        }
        let patterns = tracked_pattern_list();
        let mut j: usize = 0;
        while j < patterns.len()
            invariant
                j <= patterns.len(),
                strs(patterns@) == tracked_patterns(),
                forall|k: int| 0 <= k < words.len() ==> self.word_count(texts(words@)[k]) <= WORD_LIMIT,
                forall|k: int|
                    0 <= k < j ==> !(self.pattern_count(tracked_patterns()[k]) > PATTERN_LIMIT
                        && contains_text(lower@, tracked_patterns()[k])),
            decreases patterns.len() - j,
        {
            assert(strs(patterns@)[j as int] == patterns@[j as int]@);
            if self.pattern_frequencies.count(patterns[j]) > PATTERN_LIMIT && contains(
                lower,
                patterns[j],
            ) {
                assert(self.pattern_count(tracked_patterns()[j as int]) > PATTERN_LIMIT
                    && contains_text(lower@, tracked_patterns()[j as int]));
                return true;
            }
            j += 1;
        }
        false
    }

    /// Whether `text` leans on what was used too often.
    pub fn is_overused(&self, text: &str) -> (r: bool)
        ensures
            r == self.overused(text@),
    {
        let words = split_whitespace(text);
        let mut lowered: Vec<String> = Vec::new();
        let mut i: usize = 0;
        while i < words.len()
            invariant
                i <= words.len(),
                texts(words@) == whitespace_words(text@),
                texts(lowered@) == lower_words(text@).take(i as int),
            decreases words.len() - i,
        {
            let ghost so_far = texts(lowered@);
            let w = to_lowercase(words[i].as_str());
            lowered.push(w);
            assert(texts(words@)[i as int] == words@[i as int]@);
            assert(texts(lowered@) =~= so_far.push(lower_words(text@)[i as int]));
            assert(lower_words(text@).take(i + 1) =~= lower_words(text@).take(i as int).push(
                lower_words(text@)[i as int],
            ));
            i += 1;
        }
        assert(lower_words(text@).take(words.len() as int) =~= lower_words(text@));
        let lower = to_lowercase(text);
        self.is_overused_in(&lowered, lower.as_str())
    }
}

/// The text of an optional string slice.
pub open spec fn opt_str(s: Option<&'static str>) -> Option<Seq<char>> {
    match s {
        Some(t) => Some(t@),
        None => None,
    }
}

/// The stock expressions that the restyling varies.
pub open spec fn common_patterns() -> Seq<Seq<char>> {
    seq![
        "ser"@,
        "ngmi"@,
        "wen"@,
        "just"@,
        "literally"@,
        "probably"@,
        "definitely"@,
        "obviously"@,
        "clearly"@,
        "absolutely"@,
    ]
}

/// What may stand in for a stock expression.
pub open spec fn alternatives() -> Seq<Seq<char>> {
    seq![
        "looking kinda"@,
        "straight up"@,
        "ngl"@,
        "fr fr"@,
        "lowkey"@,
        "highkey"@,
        "certified"@,
        "actual"@,
    ]
}

/// The openings that are too common.
pub open spec fn common_starts() -> Seq<Seq<char>> {
    seq!["another"@, "just"@, "ser"@, "breaking:"@, "imagine"@]
}

/// What may be put in front of a text that opens in a common way.
pub open spec fn openers() -> Seq<Seq<char>> {
    seq![
        "bruh"@,
        "certified"@,
        "actual"@,
        "friendly reminder:"@,
        "psa:"@,
        "reminder:"@,
        "daily dose of"@,
    ]
}

/// What may be put at the end of a text without `?` or `!`.
pub open spec fn endings() -> Seq<Seq<char>> {
    seq![".."@, "..."@, "!!"@, "!?"@, "???"@]
}

/// The stock expressions that the restyling varies.
pub fn common_pattern_list() -> (v: Vec<&'static str>)
    ensures
        strs(v@) == common_patterns(),
        v@.len() > 0,
{
    let v = vec![
        "ser",
        "ngmi",
        "wen",
        "just",
        "literally",
        "probably",
        "definitely",
        "obviously",
        "clearly",
        "absolutely",
    ];
    assert(strs(v@) =~= common_patterns());
    v
}

/// What may stand in for a stock expression.
pub fn alternative_list() -> (v: Vec<&'static str>)
    ensures
        strs(v@) == alternatives(),
        v@.len() > 0,
{
    let v = vec![
        "looking kinda",
        "straight up",
        "ngl",
        "fr fr",
        "lowkey",
        "highkey",
        "certified",
        "actual",
    ];
    assert(strs(v@) =~= alternatives());
    v
}

/// The openings that are too common.
pub fn common_start_list() -> (v: Vec<&'static str>)
    ensures
        strs(v@) == common_starts(),
        v@.len() > 0,
{
    let v = vec!["another", "just", "ser", "breaking:", "imagine"];
    assert(strs(v@) =~= common_starts());
    v
}

/// What may be put in front of a text that opens in a common way.
pub fn opener_list() -> (v: Vec<&'static str>)
    ensures
        strs(v@) == openers(),
        v@.len() > 0,
{
    let v = vec![
        "bruh",
        "certified",
        "actual",
        "friendly reminder:",
        "psa:",
        "reminder:",
        "daily dose of",
    ];
    assert(strs(v@) =~= openers());
    v
}

/// What may be put at the end of a text without `?` or `!`.
pub fn ending_list() -> (v: Vec<&'static str>)
    ensures
        strs(v@) == endings(),
        v@.len() > 0,
{
    let v = vec!["..", "...", "!!", "!?", "???"];
    assert(strs(v@) =~= endings());
    v
}

/// How many of `patterns` stand in `lower`.
pub open spec fn present_count(lower: Seq<char>, patterns: Seq<Seq<char>>) -> nat
    decreases patterns.len(),
{
    if patterns.len() == 0 {
        0
    } else {
        present_count(lower, patterns.drop_last()) + if contains_text(lower, patterns.last()) {
            1nat
        } else {
            0nat
        }
    }
}

/// The replacement drawn for the `k`-th stock expression, if one was drawn.
pub open spec fn swap_at(swaps: Seq<Option<Seq<char>>>, k: int) -> Option<Seq<char>> {
    if 0 <= k < swaps.len() {
        swaps[k]
    } else {
        None
    }
}

/// `text` after the first `k` stock expressions were handled: each one that
/// stands in the lower-case form of the text as it then is, and for which a
/// replacement was drawn, has its leftmost occurrence replaced.
pub open spec fn swapped(text: Seq<char>, swaps: Seq<Option<Seq<char>>>, k: nat) -> Seq<char>
    decreases k,
{
    if k == 0 || k > common_patterns().len() {
        text
    } else {
        let prev = swapped(text, swaps, (k - 1) as nat);
        let p = common_patterns()[k - 1];
        if contains_text(lowercase_of(prev), p) && swap_at(swaps, k - 1) is Some {
            replace_first_spec(prev, p, swap_at(swaps, k - 1).unwrap())
        } else {
            prev
        }
    }
}

/// `response` restyled with the given draws: where more than two stock
/// expressions stand in it, those with a drawn replacement are replaced;
/// where the result opens in a common way and an opener was drawn, the
/// opener and a space are put in front; where the result holds neither `?`
/// nor `!` and an ending was drawn, the ending is appended.
pub open spec fn restyled(
    response: Seq<char>,
    swaps: Seq<Option<Seq<char>>>,
    opener: Option<Seq<char>>,
    ending: Option<Seq<char>>,
) -> Seq<char> {
    let a = if present_count(lowercase_of(response), common_patterns()) > 2 {
        swapped(response, swaps, common_patterns().len())
    } else {
        response
    };
    let b = if starts_with_any_of(lowercase_of(a), common_starts()) && opener is Some {
        opener.unwrap() + seq![' '] + a
    } else {
        a
    };
    if !b.contains('?') && !b.contains('!') && ending is Some {
        b + ending.unwrap()
    } else {
        b
    }
}

/// Each draw comes from the table that it is drawn from.
pub open spec fn draws_allowed(
    swaps: Seq<Option<Seq<char>>>,
    opener: Option<Seq<char>>,
    ending: Option<Seq<char>>,
) -> bool {
    &&& forall|k: int|
        0 <= k < swaps.len() && swaps[k] is Some ==> alternatives().contains(
            #[trigger] swaps[k].unwrap(),
        )
    &&& opener is Some ==> openers().contains(opener.unwrap())
    &&& ending is Some ==> endings().contains(ending.unwrap())
}

/// The random choices of one restyling.
#[derive(Debug)]
pub struct StyleDraws {
    /// For each stock expression, in order, the replacement to put in.
    pub swaps: Vec<Option<&'static str>>,
    /// What to put in front of a common opening.
    pub opener: Option<&'static str>,
    /// What to append to a text without `?` or `!`.
    pub ending: Option<&'static str>,
}

impl StyleDraws {
    /// The replacements, as texts.
    pub open spec fn swap_texts(&self) -> Seq<Option<Seq<char>>> {
        Seq::new(self.swaps@.len(), |k: int| opt_str(self.swaps@[k]))
    }

    /// Each draw comes from its table.
    pub open spec fn allowed(&self) -> bool {
        draws_allowed(self.swap_texts(), opt_str(self.opener), opt_str(self.ending))
    }

    /// No replacement, no opener, no ending.
    pub fn none() -> (d: StyleDraws)
        ensures
            d.swaps@.len() == 0,
            d.opener is None,
            d.ending is None,
            d.allowed(),
    {
        StyleDraws { swaps: Vec::new(), opener: None, ending: None }
    }
}

/// What a draw yields once the coin fell and a member was picked: the
/// member where the coin shows `true`, nothing otherwise.
pub open spec fn kept_pick(coin: bool, pick: Option<&&'static str>) -> Option<&'static str> {
    match pick {
        Some(t) if coin => Some(*t),
        _ => None,
    }
}

/// The member that was picked, where the coin shows `true`.
fn keep_pick(coin: bool, pick: Option<&&'static str>) -> (r: Option<&'static str>)
    ensures
        r == kept_pick(coin, pick),
{
    match pick {
        Some(t) => {
            if coin {
                Some(*t)
            } else {
                None
            }
        },
        None => None,
    }
}

/// One of `table`, with the given odds; nothing otherwise. With odds of
/// zero, or from an empty table, nothing is drawn; with even numerator and
/// denominator a member of a table that has one is drawn for certain.
fn draw_from(table: &Vec<&'static str>, numerator: u32, denominator: u32) -> (r: Option<
    &'static str,
>)
    requires
        0 < denominator,
        numerator <= denominator,
    ensures
        r is Some ==> strs(table@).contains(r.unwrap()@),
        numerator == 0 || table.len() == 0 ==> r is None,
        numerator == denominator && table.len() > 0 ==> r is Some,
{
    let coin = random_ratio(numerator, denominator);
    let pick = pick_one(table);
    let r = keep_pick(coin, pick);
    proof {
        if r is Some {
            let chosen = r.unwrap();
            let i = choose|i: int| 0 <= i < table.len() && table@[i] == chosen;
            assert(strs(table@)[i] == chosen@);
        }
    }
    r
}

/// Draws the random choices of one restyling: a replacement for each stock
/// expression with odds of 7 in 10, an opener with odds of 6 in 10, an
/// ending with odds of 3 in 10.
pub fn draw_style() -> (d: StyleDraws)
    ensures
        d.allowed(),
        d.swaps@.len() == common_patterns().len(),
{
    let table = alternative_list();
    let mut swaps: Vec<Option<&'static str>> = Vec::new();
    let mut k: usize = 0;
    while k < 10
        invariant
            k <= 10,
            swaps@.len() == k,
            strs(table@) == alternatives(),
            forall|j: int|
                0 <= j < k && swaps@[j] is Some ==> alternatives().contains(
                    #[trigger] opt_str(swaps@[j]).unwrap(),
                ),
        decreases 10 - k,
    {
        let drawn = draw_from(&table, 7, 10);
        swaps.push(drawn);
        k += 1;
    }
    let open_table = opener_list();
    let opener = draw_from(&open_table, 6, 10);
    let end_table = ending_list();
    let ending = draw_from(&end_table, 3, 10);
    let d = StyleDraws { swaps, opener, ending };
    assert forall|j: int|
        0 <= j < d.swap_texts().len() && d.swap_texts()[j] is Some implies alternatives().contains(
        #[trigger] d.swap_texts()[j].unwrap(),
    ) by {
        assert(d.swap_texts()[j] == opt_str(d.swaps@[j]));
    }
    d
}

/// How many of the stock expressions stand in `lower`.
fn count_present(lower: &str, patterns: &Vec<&'static str>) -> (n: usize)
    ensures
        n == present_count(lower@, strs(patterns@)),
{
    let mut n: usize = 0;
    let mut i: usize = 0;
    assert(strs(patterns@).take(0) =~= Seq::<Seq<char>>::empty());
    while i < patterns.len()
        invariant
            i <= patterns.len(),
            n <= i,
            n == present_count(lower@, strs(patterns@).take(i as int)),
        decreases patterns.len() - i,
    {
        assert(strs(patterns@).take(i + 1).drop_last() =~= strs(patterns@).take(i as int));
        assert(strs(patterns@).take(i + 1).last() == patterns@[i as int]@);
        if contains(lower, patterns[i]) {
            n += 1;
        }
        i += 1;
    }
    assert(strs(patterns@).take(patterns.len() as int) =~= strs(patterns@));
    n
}

/// Restyles `response` with the given draws.
pub fn restyle(response: &str, draws: &StyleDraws) -> (r: String)
    ensures
        r@ == restyled(
            response@,
            draws.swap_texts(),
            opt_str(draws.opener),
            opt_str(draws.ending),
        ),
{
    let patterns = common_pattern_list();
    let mut processed: String = response.to_owned();
    let lower = to_lowercase(response);
    if count_present(lower.as_str(), &patterns) > 2 {
        let mut k: usize = 0;
        while k < patterns.len()
            invariant
                k <= patterns.len(),
                strs(patterns@) == common_patterns(),
                processed@ == swapped(response@, draws.swap_texts(), k as nat),
            decreases patterns.len() - k,
        {
            assert(strs(patterns@)[k as int] == patterns@[k as int]@);
            let now_lower = to_lowercase(processed.as_str());
            if contains(now_lower.as_str(), patterns[k]) && k < draws.swaps.len() {
                assert(draws.swap_texts()[k as int] == opt_str(draws.swaps@[k as int]));
                match draws.swaps[k] {
                    Some(alt) => {
                        processed = replace_first(processed.as_str(), patterns[k], alt);
                    },
                    None => {},
                }
            }
            k += 1;
        }
    }
    let ghost a = processed@;
    let starts = common_start_list();
    let lower_a = to_lowercase(processed.as_str());
    if starts_with_any(lower_a.as_str(), &starts) {
        match draws.opener {
            Some(o) => {
                processed = concat3(o, " ", processed.as_str());
                proof {
                    reveal_strlit(" ");
                    assert(" "@ =~= seq![' ']);
                }
            },
            None => {},
        }
    }
    if !contains_char(processed.as_str(), '?') && !contains_char(processed.as_str(), '!') {
        match draws.ending {
            Some(e) => {
                processed = concat2(processed.as_str(), e);
            },
            None => {},
        }
    }
    processed
}

/// The task that asks whether a message deserves an answer.
pub open spec fn respond_prompt_text(tweet: Seq<char>) -> Seq<char> {
    "Tweet: "@ + tweet
        + "\nTask: Reply [RESPOND] or [IGNORE] based on:\n[RESPOND] if:\n- Direct mention/address\n- Contains question\n- Contains command/request\n[IGNORE] if:\n- Unrelated content\n- Spam/nonsensical\nAnswer:"@
}

/// The task that asks for a reply to a message.
pub open spec fn reply_prompt_text(tweet: Seq<char>) -> Seq<char> {
    "Task: Generate a post/reply in your voice, style and perspective while using this as context:\nCurrent Post: '"@
        + tweet
        + "'\nGenerate a brief, single response that:\n- Uses all lowercase\n- Avoids punctuation\n- Is direct and very sarcastic\n- Stays under 280 characters\nWrite only the response text, nothing else:"@
}

/// The task that asks for a post of the persona's own.
pub open spec fn post_prompt_text() -> Seq<char> {
    "Write a 1-3 sentence post that would be engaging to readers. Your response should be the EXACT text of the tweet only, with no introductions, meta-commentary, or explanations.\n\n            Requirements:\n            - Stay under 280 characters\n            - No emojis\n            - No hashtags\n            - No questions\n            - Brief, concise statements only\n            - Focus on personal experiences, observations, or thoughts\n            - Write ONLY THE TWEET TEXT with no additional words or commentary"@
}

/// The task that asks for a cynical comment built on three given elements.
pub open spec fn generic_fud_prompt_text(
    persona: Seq<char>,
    intro: Seq<char>,
    reason: Seq<char>,
    closing: Seq<char>,
) -> Seq<char> {
    persona
        + "\n\nTask: Generate a creative and unique cynical comment.\nBase elements to incorporate:\n- Intro theme: "@
        + intro + "\n- Core criticism: "@ + reason + "\n- Closing note: "@ + closing
        + "\n\nRequirements:\n- Transform these elements creatively - don't use them verbatim\n- Create unexpected analogies or metaphors\n- Mix technical and casual language\n- Stay under 280 characters\n- do not include any tickers or ticker symbols\n- Use all lowercase\n- Sound authentic - like a real frustrated trader\nWrite ONLY the tweet text:"@
}

/// The task that asks for a critical comment on one token.
pub open spec fn editorialized_fud_prompt_text(persona: Seq<char>, token_info: Seq<char>) -> Seq<
    char,
> {
    persona + "\n\nTask: Generate unique, creative FUD about this token:\n"@ + token_info
        + "\nRequirements:\n- Be extremely sarcastic and cynical, but make it clear when overt sarcasm is being used\n- dont encapsulate your response in quotes\n- Always use proper token symbol from the info\n- Use numbers from the token info creatively and sarcastically\n- Stay under 280 characters\n- Use all lowercase except for token symbols\n- Avoid repetitive phrases and metaphors\n- Variety is key - use different structures and approaches\n- Make each criticism unique and specific\n- Avoid overused phrases like 'chart looks like' or 'mcdonalds'\n- Mix different FUD styles: technical, social, financial, or conspiracy theories\n\nSome varied FUD approaches (use as inspiration, don't copy directly):\n- Question developer competence\n- Imply suspicious transaction patterns\n- Mock community engagement (make sure you don't use words like 'ucertifieds' which your responses hae generated in the past. for example, refer to telegram 'users')\n- Point out red flags in tokenomics\n- Compare to historic failures\n- Create absurd conspiracy theories\n- Mock marketing efforts\n- Question technical implementation\nWrite ONLY the tweet text with no additional commentary:"@
}

/// What marks an answer as a decision to respond.
pub open spec fn respond_marker() -> Seq<char> {
    "[RESPOND]"@
}

/// One persona-driven writer.
#[derive(Debug)]
pub struct Agent {
    /// The persona's behavioural prompt.
    pub prompt: String,
    /// What the agent used so far.
    pub fud_analysis: FudAnalysis,
}

/// `later` and `r` are what judging the restyled draft `processed` in the
/// attempt numbered `attempt` leaves of the agent `before`: in the last
/// attempt, or where the draft does not lean on what was used too often, the
/// draft is returned and counted; otherwise nothing is returned and nothing
/// changes.
pub open spec fn judged(
    before: Agent,
    later: Agent,
    processed: Seq<char>,
    attempt: usize,
    r: Option<String>,
) -> bool {
    let accepted = attempt >= LAST_ATTEMPT || !before.analysis().overused(processed);
    &&& later.prompt == before.prompt
    &&& accepted ==> r is Some && r.unwrap()@ == processed && before.analysis().counted(
        &later.analysis(),
        processed,
    )
    &&& !accepted ==> r is None && later == before
}

/// `later` and `r` are what reading the language model's answer
/// `completion` in the attempt numbered `attempt` leaves of the agent
/// `before`: the answer is trimmed and restyled with some allowed draws,
/// and the result is judged.
pub open spec fn editorial_reading(
    before: Agent,
    later: Agent,
    completion: Seq<char>,
    attempt: usize,
    r: Option<String>,
) -> bool {
    exists|swaps: Seq<Option<Seq<char>>>, opener: Option<Seq<char>>, ending: Option<Seq<char>>|
        #[trigger] draws_allowed(swaps, opener, ending) && judged(
            before,
            later,
            restyled(trimmed(completion), swaps, opener, ending),
            attempt,
            r,
        )
}

/// `r` is `response` restyled with some allowed draws.
pub open spec fn some_restyling(response: Seq<char>, r: Seq<char>) -> bool {
    exists|swaps: Seq<Option<Seq<char>>>, opener: Option<Seq<char>>, ending: Option<Seq<char>>|
        #[trigger] draws_allowed(swaps, opener, ending) && r == restyled(
            response,
            swaps,
            opener,
            ending,
        )
}

impl Agent {
    /// The agent's record of what it used.
    pub open spec fn analysis(&self) -> FudAnalysis {
        self.fud_analysis
    }

    /// An agent for the persona that `prompt` describes, which has used
    /// nothing yet.
    pub fn new(prompt: &str) -> (a: Agent)
        ensures
            a.prompt@ == prompt@,
            forall|key: Seq<char>| a.analysis().word_count(key) == 0,
            forall|key: Seq<char>| a.analysis().pattern_count(key) == 0,
    {
        Agent { prompt: prompt.to_owned(), fud_analysis: FudAnalysis::new() }
    }

    /// The task to put to the language model to learn whether `tweet`
    /// deserves an answer.
    pub fn should_respond_prompt(&self, tweet: &str) -> (r: String)
        ensures
            r@ == respond_prompt_text(tweet@),
    {
        concat3(
            "Tweet: ",
            tweet,
            "\nTask: Reply [RESPOND] or [IGNORE] based on:\n[RESPOND] if:\n- Direct mention/address\n- Contains question\n- Contains command/request\n[IGNORE] if:\n- Unrelated content\n- Spam/nonsensical\nAnswer:",
        )
    }

    /// Reads the language model's answer to `should_respond_prompt`: respond
    /// where its upper-case form holds `[RESPOND]`, ignore otherwise.
    pub fn should_respond(&self, completion: &str) -> (r: ResponseDecision)
        ensures
            r == if contains_text(uppercase_of(completion@), respond_marker()) {
                ResponseDecision::Respond
            } else {
                ResponseDecision::Ignore
            },
    {
        let upper = to_uppercase(completion);
        Self::decision_from(upper.as_str())
    }

    /// The decision that an answer in upper case carries.
    pub fn decision_from(upper: &str) -> (r: ResponseDecision)
        ensures
            r == if contains_text(upper@, respond_marker()) {
                ResponseDecision::Respond
            } else {
                ResponseDecision::Ignore
            },
    {
        if contains(upper, "[RESPOND]") {
            ResponseDecision::Respond
        } else {
            ResponseDecision::Ignore
        }
    }

    /// The task to put to the language model for a reply to `tweet`.
    pub fn generate_reply_prompt(&self, tweet: &str) -> (r: String)
        ensures
            r@ == reply_prompt_text(tweet@),
    {
        concat3(
            "Task: Generate a post/reply in your voice, style and perspective while using this as context:\nCurrent Post: '",
            tweet,
            "'\nGenerate a brief, single response that:\n- Uses all lowercase\n- Avoids punctuation\n- Is direct and very sarcastic\n- Stays under 280 characters\nWrite only the response text, nothing else:",
        )
    }

    /// The reply that the language model's answer holds.
    pub fn generate_reply(&self, completion: &str) -> (r: String)
        ensures
            r@ == trimmed(completion@),
    {
        trim(completion)
    }

    /// The response that the language model's answer to a task of the
    /// caller's own holds.
    pub fn generate_custom_response(&self, completion: &str) -> (r: String)
        ensures
            r@ == trimmed(completion@),
    {
        trim(completion)
    }

    /// The task to put to the language model for a post of the persona's
    /// own.
    pub fn generate_post_prompt(&self) -> (r: &'static str)
        ensures
            r@ == post_prompt_text(),
    {
        "Write a 1-3 sentence post that would be engaging to readers. Your response should be the EXACT text of the tweet only, with no introductions, meta-commentary, or explanations.\n\n            Requirements:\n            - Stay under 280 characters\n            - No emojis\n            - No hashtags\n            - No questions\n            - Brief, concise statements only\n            - Focus on personal experiences, observations, or thoughts\n            - Write ONLY THE TWEET TEXT with no additional words or commentary"
    }

    /// The post that the language model's answer holds.
    pub fn generate_post(&self, completion: &str) -> (r: String)
        ensures
            r@ == trimmed(completion@),
    {
        trim(completion)
    }

    /// The task to put to the language model for a cynical comment built on
    /// an intro, a reason and a closing.
    pub fn generate_generic_fud_prompt(&self, intro: &str, reason: &str, closing: &str) -> (r:
        String)
        ensures
            r@ == generic_fud_prompt_text(self.prompt@, intro@, reason@, closing@),
    {
        let a = concat3(
            self.prompt.as_str(),
            "\n\nTask: Generate a creative and unique cynical comment.\nBase elements to incorporate:\n- Intro theme: ",
            intro,
        );
        let b = concat3(a.as_str(), "\n- Core criticism: ", reason);
        let c = concat3(b.as_str(), "\n- Closing note: ", closing);
        concat2(
            c.as_str(),
            "\n\nRequirements:\n- Transform these elements creatively - don't use them verbatim\n- Create unexpected analogies or metaphors\n- Mix technical and casual language\n- Stay under 280 characters\n- do not include any tickers or ticker symbols\n- Use all lowercase\n- Sound authentic - like a real frustrated trader\nWrite ONLY the tweet text:",
        )
    }

    /// The comment that the language model's answer holds, restyled with
    /// random draws.
    pub fn generate_generic_fud(&self, completion: &str) -> (r: String)
        ensures
            some_restyling(trimmed(completion@), r@),
    {
        let t = trim(completion);
        self.ensure_unique_style(t.as_str())
    }

    /// The task to put to the language model for a critical comment on the
    /// token that `token_info` describes.
    pub fn generate_editorialized_fud_prompt(&self, token_info: &str) -> (r: String)
        ensures
            r@ == editorialized_fud_prompt_text(self.prompt@, token_info@),
    {
        let a = concat3(
            self.prompt.as_str(),
            "\n\nTask: Generate unique, creative FUD about this token:\n",
            token_info,
        );
        concat2(
            a.as_str(),
            "\nRequirements:\n- Be extremely sarcastic and cynical, but make it clear when overt sarcasm is being used\n- dont encapsulate your response in quotes\n- Always use proper token symbol from the info\n- Use numbers from the token info creatively and sarcastically\n- Stay under 280 characters\n- Use all lowercase except for token symbols\n- Avoid repetitive phrases and metaphors\n- Variety is key - use different structures and approaches\n- Make each criticism unique and specific\n- Avoid overused phrases like 'chart looks like' or 'mcdonalds'\n- Mix different FUD styles: technical, social, financial, or conspiracy theories\n\nSome varied FUD approaches (use as inspiration, don't copy directly):\n- Question developer competence\n- Imply suspicious transaction patterns\n- Mock community engagement (make sure you don't use words like 'ucertifieds' which your responses hae generated in the past. for example, refer to telegram 'users')\n- Point out red flags in tokenomics\n- Compare to historic failures\n- Create absurd conspiracy theories\n- Mock marketing efforts\n- Question technical implementation\nWrite ONLY the tweet text with no additional commentary:",
        )
    }

    /// Judges a restyled draft: in the last attempt, or where the draft
    /// does not lean on what was used too often, the draft is accepted and
    /// counted; otherwise it is turned down and nothing changes.
    pub fn accept_draft(&mut self, processed: String, attempt: usize) -> (r: Option<String>)
        ensures
            judged(*old(self), *final(self), processed@, attempt, r),
            r is Some ==> r.unwrap() == processed,
    {
        if attempt >= LAST_ATTEMPT || !self.fud_analysis.is_overused(processed.as_str()) {
            self.fud_analysis.update(processed.as_str());
            Some(processed)
        } else {
            None
        }
    }

    /// Reads the language model's answer to
    /// `generate_editorialized_fud_prompt` in the attempt numbered `attempt`
    /// from zero: the answer is trimmed and restyled with random draws, then
    /// judged as `accept_draft` says. `None` asks for another attempt.
    pub fn generate_editorialized_fud(&mut self, completion: &str, attempt: usize) -> (r: Option<
        String,
    >)
        ensures
            editorial_reading(*old(self), *final(self), completion@, attempt, r),
    {
        let t = trim(completion);
        let draws = draw_style();
        let processed = restyle(t.as_str(), &draws);
        let r = self.accept_draft(processed, attempt);
        assert(draws_allowed(draws.swap_texts(), opt_str(draws.opener), opt_str(draws.ending))
            && judged(
            *old(self),
            *self,
            restyled(
                trimmed(completion@),
                draws.swap_texts(),
                opt_str(draws.opener),
                opt_str(draws.ending),
            ),
            attempt,
            r,
        ));
        r
    }

    /// Restyles `response` with random draws, so that the agent's texts do
    /// not all sound alike.
    pub fn ensure_unique_style(&self, response: &str) -> (r: String)
        ensures
            some_restyling(response@, r@),
    {
        let draws = draw_style();
        let r = restyle(response, &draws);
        assert(draws_allowed(draws.swap_texts(), opt_str(draws.opener), opt_str(draws.ending))
            && r@ == restyled(
            response@,
            draws.swap_texts(),
            opt_str(draws.opener),
            opt_str(draws.ending),
        ));
        r
    }
}

} // verus!
