//! What an inbound message asks about: the agent's own token, some other
//! token named by ticker or address, or nothing in particular.

use crate::chance::pick_one;
use crate::text::{
    bare_word, chars_of, contains_any, contains_any_of, contains_char, fill_placeholder, filled,
    find_chars, first_occurrence, has_prefix, lowercase_of, slice_chars,
    split_whitespace, starts_with, string_of, strs, texts, to_lowercase, to_uppercase,
    trim_to_bare_word, trim_trailing_marks, uppercase_of, whitespace_words,
    without_trailing_marks,
};
use vstd::prelude::*;

verus! {

/// What a message wants to know of the agent's own token.
#[derive(Clone, Copy, Debug, PartialEq, Eq, Structural)]
pub enum TokenInfoRequest {
    ContractAddress,
    Ticker,
}

/// The shortest address, in characters.
pub const ADDRESS_MIN: usize = 32;

/// The longest address, in characters.
pub const ADDRESS_MAX: usize = 44;

/// The characters of which an address is made.
pub open spec fn base58_alphabet() -> Seq<char> {
    "123456789ABCDEFGHJKLMNPQRSTUVWXYZabcdefghijkmnopqrstuvwxyz"@
}

/// `text` looks like an address: 32 to 44 characters, each of the base-58
/// alphabet.
pub open spec fn looks_like_address(text: Seq<char>) -> bool {
    &&& ADDRESS_MIN <= text.len() <= ADDRESS_MAX
    &&& forall|i: int| 0 <= i < text.len() ==> base58_alphabet().contains(#[trigger] text[i])
}

/// Whether `text` looks like an address.
pub fn is_solana_address(text: &str) -> (r: bool)
    ensures
        r == looks_like_address(text@),
{
    let v = chars_of(text);
    if v.len() < ADDRESS_MIN || v.len() > ADDRESS_MAX {
        return false;
    }
    let mut i: usize = 0;
    while i < v.len()
        invariant
            i <= v.len(),
            v@ == text@,
            forall|j: int| 0 <= j < i ==> base58_alphabet().contains(#[trigger] v@[j]),
        decreases v.len() - i,
    {
        if !contains_char("123456789ABCDEFGHJKLMNPQRSTUVWXYZabcdefghijkmnopqrstuvwxyz", v[i]) {
            assert(!base58_alphabet().contains(text@[i as int]));
            return false;
        }
        i += 1;
    }
    true
}

/// The ticker that a word of the form `$TICKER` names: what follows the
/// `$`, without the marks at its end; nothing where that is empty.
pub open spec fn ticker_of(word: Seq<char>) -> Option<Seq<char>> {
    if word.len() > 1 && word[0] == '$' && without_trailing_marks(word.skip(1)).len() > 0 {
        Some(without_trailing_marks(word.skip(1)))
    } else {
        None
    }
}

/// What a single word refers to: itself as an address, or the ticker that
/// it names.
pub open spec fn reference_of(word: Seq<char>) -> Option<(Seq<char>, bool)> {
    if looks_like_address(word) {
        Some((word, true))
    } else {
        match ticker_of(word) {
            Some(t) => Some((t, false)),
            None => None,
        }
    }
}

/// What the first word that refers to anything refers to.
pub open spec fn first_reference(words: Seq<Seq<char>>) -> Option<(Seq<char>, bool)>
    decreases words.len(),
{
    if words.len() == 0 {
        None
    } else {
        match reference_of(words[0]) {
            Some(r) => Some(r),
            None => first_reference(words.drop_first()),
        }
    }
}

/// The phrases after which a token is likely to be named.
pub open spec fn trigger_phrases() -> Seq<Seq<char>> {
    seq!["thoughts on"@, "think of"@, "about"@, "contract"@, "address"@]
}

/// The phrases after which a token is likely to be named.
pub fn trigger_phrase_list() -> (v: Vec<&'static str>)
    ensures
        strs(v@) == trigger_phrases(),
        v@.len() > 0,
{
    let v = vec!["thoughts on", "think of", "about", "contract", "address"];
    assert(strs(v@) =~= trigger_phrases());
    v
}

/// What stands in `text` behind the leftmost occurrence of `phrase` in
/// `lower`, the lower-case form of the text; positions are counted in
/// characters, and nothing is left where the occurrence ends behind the
/// text.
pub open spec fn text_behind(text: Seq<char>, lower: Seq<char>, phrase: Seq<char>) -> Option<
    Seq<char>,
> {
    match first_occurrence(lower, phrase) {
        Some(at) => if at + phrase.len() <= text.len() {
            Some(text.skip(at + phrase.len()))
        } else {
            Some(Seq::empty())
        },
        None => None,
    }
}

/// The token that the first word of `rest` names: the word without what is
/// no word character at its ends, if anything is left of it, and whether
/// it looks like an address.
pub open spec fn implied_by(rest_words: Seq<Seq<char>>) -> Option<(Seq<char>, bool)> {
    if rest_words.len() > 0 && bare_word(rest_words[0]).len() > 0 {
        Some((bare_word(rest_words[0]), looks_like_address(bare_word(rest_words[0]))))
    } else {
        None
    }
}

/// What the first `count` trigger phrases yield from `from` on: the token
/// implied behind the first phrase that occurs and implies one.
pub open spec fn implied_reference(text: Seq<char>, from: int) -> Option<(Seq<char>, bool)>
    decreases trigger_phrases().len() - from,
{
    if from < 0 || from >= trigger_phrases().len() {
        None
    } else {
        let here = match text_behind(text, lowercase_of(text), trigger_phrases()[from]) {
            Some(rest) => implied_by(whitespace_words(rest)),
            None => None,
        };
        match here {
            Some(r) => Some(r),
            None => implied_reference(text, from + 1),
        }
    }
}

/// The token that a message refers to, and whether by address: the first
/// word that is an address or a `$` ticker; failing that, the word behind
/// the first trigger phrase that is followed by one.
pub open spec fn topic_of(text: Seq<char>) -> Option<(Seq<char>, bool)> {
    match first_reference(whitespace_words(text)) {
        Some(r) => Some(r),
        None => implied_reference(text, 0),
    }
}

/// An optional pair of a text and a flag, with the text as characters.
pub open spec fn topic_view(t: Option<(String, bool)>) -> Option<(Seq<char>, bool)> {
    match t {
        Some((s, b)) => Some((s@, b)),
        None => None,
    }
}

/// What a single word refers to.
pub fn reference_in_word(word: &str) -> (r: Option<(String, bool)>)
    ensures
        topic_view(r) == reference_of(word@),
{
    if is_solana_address(word) {
        return Some((word.to_owned(), true));
    }
    let v = chars_of(word);
    if v.len() > 1 && v[0] == '$' {
        let tail = slice_chars(&v, 1, v.len());
        assert(tail@ == word@.skip(1));
        let ticker = trim_trailing_marks(&tail);
        if ticker.len() > 0 {
            return Some((string_of(&ticker), false));
        }
    }
    None
}

/// What the first of `words` that refers to anything refers to.
pub fn reference_in_words(words: &Vec<String>) -> (r: Option<(String, bool)>)
    ensures
        topic_view(r) == first_reference(texts(words@)),
{
    let mut i: usize = 0;
    assert(texts(words@).skip(0) =~= texts(words@));
    while i < words.len()
        invariant
            i <= words.len(),
            first_reference(texts(words@)) == first_reference(texts(words@).skip(i as int)),
        decreases words.len() - i,
    {
        let found = reference_in_word(words[i].as_str());
        assert(texts(words@).skip(i as int)[0] == words@[i as int]@);
        assert(texts(words@).skip(i as int).drop_first() =~= texts(words@).skip(i + 1));
        if found.is_some() {
            return found;
        }
        i += 1;
    }
    None
}

/// What stands in `text` behind the leftmost occurrence of `phrase` in
/// `lower`.
pub fn rest_behind(text: &str, lower: &str, phrase: &str) -> (r: Option<String>)
    ensures
        crate::models::opt_text(r) == text_behind(text@, lower@, phrase@),
{
    let t = chars_of(text);
    let l = chars_of(lower);
    let p = chars_of(phrase);
    match find_chars(&l, &p) {
        None => None,
        Some(at) => {
            if p.len() <= t.len() && at <= t.len() - p.len() {
                let rest = slice_chars(&t, at + p.len(), t.len());
                assert(rest@ == text@.skip(at + p.len()));
                Some(string_of(&rest))
            } else {
                Some(String::new())
            }
        },
    }
}

/// The token that the first of `rest_words` names.
pub fn implied_token(rest_words: &Vec<String>) -> (r: Option<(String, bool)>)
    ensures
        topic_view(r) == implied_by(texts(rest_words@)),
{
    if rest_words.len() == 0 {
        return None;
    }
    let w = chars_of(rest_words[0].as_str());
    assert(texts(rest_words@)[0] == w@);
    let bare = trim_to_bare_word(&w);
    if bare.len() == 0 {
        return None;
    }
    let token = string_of(&bare);
    let is_address = is_solana_address(token.as_str());
    Some((token, is_address))
}

/// The token that a message refers to, and whether by address.
pub fn extract_ticker_or_address(text: &str) -> (r: Option<(String, bool)>)
    ensures
        topic_view(r) == topic_of(text@),
{
    let words = split_whitespace(text);
    let direct = reference_in_words(&words);
    if direct.is_some() {
        return direct;
    }
    let lower = to_lowercase(text);
    let phrases = trigger_phrase_list();
    let mut k: usize = 0;
    while k < phrases.len()
        invariant
            k <= phrases.len(),
            strs(phrases@) == trigger_phrases(),
            lower@ == lowercase_of(text@),
            first_reference(whitespace_words(text@)) is None,
            implied_reference(text@, 0) == implied_reference(text@, k as int),
        decreases phrases.len() - k,
    {
        assert(strs(phrases@)[k as int] == phrases@[k as int]@);
        match rest_behind(text, lower.as_str(), phrases[k]) {
            Some(rest) => {
                let rest_words = split_whitespace(rest.as_str());
                let found = implied_token(&rest_words);
                if found.is_some() {
                    return found;
                }
            },
            None => {},
        }
        k += 1;
    }
    None
}

/// The words by which a message asks for the contract address.
pub open spec fn contract_patterns() -> Seq<Seq<char>> {
    seq![
        "contract"@,
        "address"@,
        "ca"@,
        "CA?"@,
        "ca?"@,
        "contract address"@,
        "token address"@,
    ]
}

/// The words by which a message asks for the ticker.
pub open spec fn ticker_patterns() -> Seq<Seq<char>> {
    seq![
        "ticker"@,
        "symbol"@,
        "token symbol"@,
        "what's your ticker"@,
        "what's your symbol"@,
        "do you have a token"@,
        "what's the ticker"@,
        "gib CA"@,
        "what's the CA"@,
    ]
}

/// The words by which a message asks for the contract address.
pub fn contract_pattern_list() -> (v: Vec<&'static str>)
    ensures
        strs(v@) == contract_patterns(),
        v@.len() > 0,
{
    let v = vec!["contract", "address", "ca", "CA?", "ca?", "contract address", "token address"];
    assert(strs(v@) =~= contract_patterns());
    v
}

/// The words by which a message asks for the ticker.
pub fn ticker_pattern_list() -> (v: Vec<&'static str>)
    ensures
        strs(v@) == ticker_patterns(),
        v@.len() > 0,
{
    let v = vec![
        "ticker",
        "symbol",
        "token symbol",
        "what's your ticker",
        "what's your symbol",
        "do you have a token",
        "what's the ticker",
        "gib CA",
        "what's the CA",
    ];
    assert(strs(v@) =~= ticker_patterns());
    v
}

/// What a message in lower case asks of the agent's own token: it must be a
/// question, which holds a `?` or begins with `what`; a word for the
/// contract address goes before a word for the ticker.
pub open spec fn request_in(lower: Seq<char>) -> Option<TokenInfoRequest> {
    if !(lower.contains('?') || has_prefix(lower, "what"@)) {
        None
    } else if contains_any_of(lower, contract_patterns()) {
        Some(TokenInfoRequest::ContractAddress)
    } else if contains_any_of(lower, ticker_patterns()) {
        Some(TokenInfoRequest::Ticker)
    } else {
        None
    }
}

/// What a message in lower case asks of the agent's own token.
pub fn token_info_request_in(lower: &str) -> (r: Option<TokenInfoRequest>)
    ensures
        r == request_in(lower@),
{
    if !(contains_char(lower, '?') || starts_with(lower, "what")) {
        return None;
    }
    let contract = contract_pattern_list();
    if contains_any(lower, &contract) {
        return Some(TokenInfoRequest::ContractAddress);
    }
    let ticker = ticker_pattern_list();
    if contains_any(lower, &ticker) {
        return Some(TokenInfoRequest::Ticker);
    }
    None
}

/// What a message asks of the agent's own token.
pub fn is_token_info_request(text: &str) -> (r: Option<TokenInfoRequest>)
    ensures
        r == request_in(lowercase_of(text@)),
{
    let lower = to_lowercase(text);
    token_info_request_in(lower.as_str())
}

/// A ticker as it is shown in a response.
pub fn format_ticker_for_response(ticker: &str) -> (r: String)
    ensures
        r@ == uppercase_of(ticker@),
{
    to_uppercase(ticker)
}

/// The answers to a request for a contract address that is not known.
pub open spec fn missing_contract_replies() -> Seq<Seq<char>> {
    seq![
        "ser i would tell you but the devs haven't given me that info yet ngmi"@,
        "anon wants the contract but there isn't one yet... ngmi"@,
        "imagine asking for a contract that doesn't exist yet"@,
        "sorry ser, devs are still fighting over who gets to deploy"@,
        "contract machine broke (devs ngmi)"@,
        "wen contract? soon™"@,
        "404 contract not found (touch grass)"@,
        "still waiting for devs to finish copying bonk's contract"@,
        "contract is still in the microwave ser"@,
        "devs said they'll deploy right after they finish their mcdonald's shift"@,
    ]
}

/// The answers to a request for the contract address; `{}` stands for it.
pub open spec fn contract_replies() -> Seq<Seq<char>> {
    seq![
        "contract: {} \n\nape responsibly ser"@,
        "here's your precious contract: {} \n\ndo what you want, i'm not your financial advisor"@,
        "ca: {} \n\ndon't blame me when you lose everything"@,
        "{} \n\nhappy now? dyor"@,
        "fine here's your contract: {} \n\nngmi anyway"@,
        "contract address (since you're so desperate): {} \n\nser please be careful"@,
        "ca: {} \n\nwhat you do with this is not my problem"@,
        "{} \n\nuse this information wisely (or don't, see if i care)"@,
        "breaking news: local degen wants contract \n\n{} \n\ngood luck ser"@,
        "dear opportunity seeker, \n\nhere's your contract: {} \n\nsincerely, \nthe bearer of bad news"@,
    ]
}

/// The answers to a request for a ticker that is not known.
pub open spec fn missing_ticker_replies() -> Seq<Seq<char>> {
    seq![
        "imagine asking for a ticker when the devs haven't even told me what it is yet"@,
        "no ticker yet ser... patience is a virtue (or so i'm told)"@,
        "ticker machine broke, come back never"@,
        "still working on the ticker... probably gonna be some dog variation tbh"@,
        "devs are still fighting over whether to include 'inu' or 'pepe' in the name"@,
        "ticker loading... (est. time: 2 weeks™)"@,
        "ser wants ticker but we don't even have one yet... ngmi"@,
        "sorry, ticker team is busy creating the next revolutionary 3-letter combination"@,
        "wen ticker? right after wen lambo probably"@,
        "ticker is still in development (like your trading strategy)"@,
    ]
}

/// The answers to a request for the ticker; `{}` stands for it.
pub open spec fn ticker_replies() -> Seq<Seq<char>> {
    seq![
        "${} \n\ndon't say i didn't warn you"@,
        "ticker: ${} \n\ndo your worst"@,
        "since you asked so nicely: ${} \n\nngmi"@,
        "${} \n\nuse this information wisely (or don't, see if i care)"@,
        "breaking: local degen asks for ticker \n\n${} \n\ngood luck ser"@,
        "you're looking for ${} \n\nhope you know what you're doing"@,
        "${} \n\nanother day another rugpull"@,
        "congratulations, you found ${} \n\nmy condolences to your portfolio"@,
        "behold, the newest speedrun to zero: ${} \n\nwagmi (we are gonna miss income)"@,
        "dear future bagholder, \n\nyour ticket to poverty: ${} \n\nenjoy the ride"@,
    ]
}

/// The answers from which one is chosen for `request`, given whether the
/// value asked for is known.
pub open spec fn replies_for(request: TokenInfoRequest, known: bool) -> Seq<Seq<char>> {
    match request {
        TokenInfoRequest::ContractAddress => if known {
            contract_replies()
        } else {
            missing_contract_replies()
        },
        TokenInfoRequest::Ticker => if known {
            ticker_replies()
        } else {
            missing_ticker_replies()
        },
    }
}

/// A value is known where it is not empty.
pub open spec fn is_known(value: Seq<char>) -> bool {
    value.len() != 0
}

/// The answer that `choice` makes with `value`: the choice itself where the
/// value is not known, the choice with the value in place of `{}` where it
/// is.
pub open spec fn reply_with(choice: Seq<char>, value: Seq<char>) -> Seq<char> {
    if value.len() == 0 {
        choice
    } else {
        filled(choice, value)
    }
}

/// `r` is one of the answers to `request`, made with `value`.
pub open spec fn some_reply(request: TokenInfoRequest, value: Seq<char>, r: Seq<char>) -> bool {
    exists|i: int|
        0 <= i < replies_for(request, is_known(value)).len() && r == reply_with(
            #[trigger] replies_for(request, is_known(value))[i],
            value,
        )
}

/// The answers from which one is chosen for `request`.
pub fn reply_list(request: TokenInfoRequest, known: bool) -> (v: Vec<&'static str>)
    ensures
        strs(v@) == replies_for(request, known),
        v@.len() == 10,
{
    match request {
        TokenInfoRequest::ContractAddress => {
            if known {
                let v = vec![
                    "contract: {} \n\nape responsibly ser",
                    "here's your precious contract: {} \n\ndo what you want, i'm not your financial advisor",
                    "ca: {} \n\ndon't blame me when you lose everything",
                    "{} \n\nhappy now? dyor",
                    "fine here's your contract: {} \n\nngmi anyway",
                    "contract address (since you're so desperate): {} \n\nser please be careful",
                    "ca: {} \n\nwhat you do with this is not my problem",
                    "{} \n\nuse this information wisely (or don't, see if i care)",
                    "breaking news: local degen wants contract \n\n{} \n\ngood luck ser",
                    "dear opportunity seeker, \n\nhere's your contract: {} \n\nsincerely, \nthe bearer of bad news",
                ];
                assert(strs(v@) =~= contract_replies());
                v
            } else {
                let v = vec![
                    "ser i would tell you but the devs haven't given me that info yet ngmi",
                    "anon wants the contract but there isn't one yet... ngmi",
                    "imagine asking for a contract that doesn't exist yet",
                    "sorry ser, devs are still fighting over who gets to deploy",
                    "contract machine broke (devs ngmi)",
                    "wen contract? soon™",
                    "404 contract not found (touch grass)",
                    "still waiting for devs to finish copying bonk's contract",
                    "contract is still in the microwave ser",
                    "devs said they'll deploy right after they finish their mcdonald's shift",
                ];
                assert(strs(v@) =~= missing_contract_replies());
                v
            }
        },
        TokenInfoRequest::Ticker => {
            if known {
                let v = vec![
                    "${} \n\ndon't say i didn't warn you",
                    "ticker: ${} \n\ndo your worst",
                    "since you asked so nicely: ${} \n\nngmi",
                    "${} \n\nuse this information wisely (or don't, see if i care)",
                    "breaking: local degen asks for ticker \n\n${} \n\ngood luck ser",
                    "you're looking for ${} \n\nhope you know what you're doing",
                    "${} \n\nanother day another rugpull",
                    "congratulations, you found ${} \n\nmy condolences to your portfolio",
                    "behold, the newest speedrun to zero: ${} \n\nwagmi (we are gonna miss income)",
                    "dear future bagholder, \n\nyour ticket to poverty: ${} \n\nenjoy the ride",
                ];
                assert(strs(v@) =~= ticker_replies());
                v
            } else {
                let v = vec![
                    "imagine asking for a ticker when the devs haven't even told me what it is yet",
                    "no ticker yet ser... patience is a virtue (or so i'm told)",
                    "ticker machine broke, come back never",
                    "still working on the ticker... probably gonna be some dog variation tbh",
                    "devs are still fighting over whether to include 'inu' or 'pepe' in the name",
                    "ticker loading... (est. time: 2 weeks™)",
                    "ser wants ticker but we don't even have one yet... ngmi",
                    "sorry, ticker team is busy creating the next revolutionary 3-letter combination",
                    "wen ticker? right after wen lambo probably",
                    "ticker is still in development (like your trading strategy)",
                ];
                assert(strs(v@) =~= missing_ticker_replies());
                v
            }
        },
    }
}

/// The answer that `choice` makes with `value`.
pub fn compose_reply(choice: &str, value: &str) -> (r: String)
    ensures
        r@ == reply_with(choice@, value@),
{
    if value.unicode_len() == 0 {
        choice.to_owned()
    } else {
        fill_placeholder(choice, value)
    }
}

/// The first of the answers to `request`, made with `value`: what is said
/// where no choice is left to chance.
pub fn stock_reply(request: TokenInfoRequest, value: &str) -> (r: String)
    ensures
        r@ == reply_with(replies_for(request, is_known(value@))[0], value@),
{
    let known = value.unicode_len() > 0;
    let table = reply_list(request, known);
    assert(strs(table@)[0] == table@[0]@);
    compose_reply(table[0], value)
}

/// An answer to `request`, chosen at random among those that fit, made with
/// `value`: the contract address or the ticker, empty where it is not
/// known.
pub fn handle_token_info_request(request: TokenInfoRequest, value: &str) -> (r: String)
    ensures
        some_reply(request, value@, r@),
{
    let known = value.unicode_len() > 0;
    let table = reply_list(request, known);
    match pick_one(&table) {
        Some(choice) => {
            let chosen: &'static str = *choice;
            let r = compose_reply(chosen, value);
            proof {
                let i = choose|i: int| 0 <= i < table.len() && table@[i] == chosen;
                assert(strs(table@)[i] == chosen@);
                assert(r@ == reply_with(replies_for(request, is_known(value@))[i], value@));
            }
            r
        },
        None => {
            assert(false);
            String::new()
        },
    }
}

} // verus!
