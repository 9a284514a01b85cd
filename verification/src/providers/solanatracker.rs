//! Token records as the analytics service reports them, the requests that
//! are put to it, and the canned commentary that is built on its data.
//!
//! Amounts of money are held as whole numbers of millionths of a US dollar.
//! Figures that are shown to a reader are rendered by the embedding program
//! and reach this module as text.

use crate::chance::{random_in_range, random_ratio};
use crate::text::{
    append_chars, chars_of, concat2, concat3, decimal, decimal_chars, eq_ignore_ascii_case,
    equal_ignoring_ascii_case, fill_placeholder, filled, lowercase_of, string_of, strs,
    to_lowercase, trim, trimmed,
};
use vstd::prelude::*;

verus! {

/// Millionths in one US dollar.
pub const MICROS_PER_DOLLAR: i64 = 1_000_000;

/// What identifies a token.
#[derive(Clone, Debug)]
pub struct TokenInfo {
    pub name: String,
    pub symbol: String,
    pub mint: String,
    pub uri: Option<String>,
    pub description: Option<String>,
}

/// A price, in millionths of the quote currency and of a US dollar.
#[derive(Clone, Copy, Debug, PartialEq, Eq, Structural)]
pub struct Price {
    pub quote: i64,
    pub usd: i64,
}

/// The liquidity of a pool, in millionths of the quote currency and of a US
/// dollar.
#[derive(Clone, Copy, Debug, PartialEq, Eq, Structural)]
pub struct Liquidity {
    pub quote: i64,
    pub usd: i64,
    pub price: Price,
}

/// What happened to a pool of late.
#[derive(Clone, Copy, Debug, PartialEq, Eq, Structural)]
pub struct Events {
    /// The change of the price over the last day, in millionths of a per
    /// cent.
    pub price_change_percentage_24h: Option<i64>,
}

/// One market in which a token is traded.
#[derive(Clone, Copy, Debug, PartialEq, Eq, Structural)]
pub struct Pool {
    pub price: Price,
    pub liquidity: Liquidity,
    pub events: Events,
}

/// A token and the pools in which it is traded.
#[derive(Clone, Debug)]
pub struct TokenResponse {
    pub token: TokenInfo,
    pub pools: Vec<Pool>,
}

impl Default for Price {
    fn default() -> (p: Price)
        ensures
            p.quote == 0,
            p.usd == 0,
    {
        Price { quote: 0, usd: 0 }
    }
}

impl Default for Liquidity {
    fn default() -> (l: Liquidity)
        ensures
            l.quote == 0,
            l.usd == 0,
            l.price.quote == 0,
            l.price.usd == 0,
    {
        Liquidity { quote: 0, usd: 0, price: Price { quote: 0, usd: 0 } }
    }
}

impl Default for Events {
    fn default() -> (e: Events)
        ensures
            e.price_change_percentage_24h is None,
    {
        Events { price_change_percentage_24h: None }
    }
}

impl Pool {
    /// The liquidity of the pool in millionths of a US dollar.
    pub fn get_liquidity_usd(&self) -> (r: i64)
        ensures
            r == self.liquidity.usd,
    {
        self.liquidity.usd
    }
}

/// What narrows a search for tokens. Amounts are whole US dollars.
#[derive(Clone, Debug)]
pub struct SearchParams {
    pub query: String,
    pub page: Option<u32>,
    pub limit: Option<u32>,
    pub sort_by: Option<String>,
    pub sort_order: Option<String>,
    pub min_liquidity: Option<u64>,
    pub max_liquidity: Option<u64>,
    pub min_market_cap: Option<u64>,
    pub max_market_cap: Option<u64>,
    pub min_buys: Option<u32>,
    pub max_buys: Option<u32>,
    pub min_sells: Option<u32>,
    pub max_sells: Option<u32>,
    pub min_total_transactions: Option<u32>,
    pub max_total_transactions: Option<u32>,
    pub lp_burn: Option<u32>,
    pub market: Option<String>,
    pub freeze_authority: Option<String>,
    pub mint_authority: Option<String>,
    pub deployer: Option<String>,
    pub show_price_changes: Option<bool>,
}

/// The figures of a token's first pool, rendered for a reader.
#[derive(Clone, Debug)]
pub struct PoolFigures {
    pub market_cap: String,
    pub price: String,
    pub liquidity: String,
}

/// One line of a summary: a token's symbol and, where it has a pool, the
/// rendered figures of its first pool.
#[derive(Clone, Debug)]
pub struct SummaryRow {
    pub symbol: String,
    pub figures: Option<PoolFigures>,
}

/// The client side of the token analytics service.
#[derive(Debug)]
pub struct SolanaTracker {
    pub api_key: String,
}

/// The liquidity by which tokens of one symbol are ranked: that of the
/// first pool, zero where there is none.
pub open spec fn ranking_liquidity(t: TokenResponse) -> int {
    if t.pools@.len() > 0 {
        t.pools@[0].liquidity.usd as int
    } else {
        0
    }
}

/// The token at `k` bears `symbol`, up to the case of ASCII letters.
pub open spec fn bears_symbol(tokens: Seq<TokenResponse>, symbol: Seq<char>, k: int) -> bool {
    0 <= k < tokens.len() && equal_ignoring_ascii_case(tokens[k].token.symbol@, symbol)
}

/// The token at `k` is the one to return for `symbol`: it bears the symbol,
/// none that bears it has more liquidity, and none behind it has as much.
pub open spec fn is_best_match(tokens: Seq<TokenResponse>, symbol: Seq<char>, k: int) -> bool {
    &&& bears_symbol(tokens, symbol, k)
    &&& forall|j: int|
        bears_symbol(tokens, symbol, j) ==> ranking_liquidity(tokens[j]) <= ranking_liquidity(
            tokens[k],
        )
    &&& forall|j: int|
        bears_symbol(tokens, symbol, j) && k < j ==> ranking_liquidity(tokens[j])
            < ranking_liquidity(tokens[k])
}

/// How a character stands in a query string.
pub open spec fn encoded_char(c: char) -> Seq<char> {
    if c == ' ' {
        seq!['%', '2', '0']
    } else if c == '&' {
        seq!['%', '2', '6']
    } else if c == '=' {
        seq!['%', '3', 'D']
    } else if c == '+' {
        seq!['%', '2', 'B']
    } else if c == '#' {
        seq!['%', '2', '3']
    } else if c == '?' {
        seq!['%', '3', 'F']
    } else {
        seq![c]
    }
}

/// A text as it stands in a query string: the space and the characters
/// `& = + # ?` are replaced by their escapes.
pub open spec fn encoded(s: Seq<char>) -> Seq<char>
    decreases s.len(),
{
    if s.len() == 0 {
        Seq::empty()
    } else {
        encoded(s.drop_last()) + encoded_char(s.last())
    }
}

/// Escapes a text for a query string.
pub fn encode_param(s: &str) -> (r: String)
    ensures
        r@ == encoded(s@),
{
    let v = chars_of(s);
    let mut out: Vec<char> = Vec::new();
    let mut i: usize = 0;
    assert(v@.take(0) =~= Seq::<char>::empty());
    while i < v.len()
        invariant
            i <= v.len(),
            out@ == encoded(v@.take(i as int)),
        decreases v.len() - i,
    {
        let c = v[i];
        assert(v@.take(i + 1).drop_last() =~= v@.take(i as int));
        assert(v@.take(i + 1).last() == c);
        let ghost before = out@;
        if c == ' ' {
            out.push('%');
            out.push('2');
            out.push('0');
        } else if c == '&' {
            out.push('%');
            out.push('2');
            out.push('6');
        } else if c == '=' {
            out.push('%');
            out.push('3');
            out.push('D');
        } else if c == '+' {
            out.push('%');
            out.push('2');
            out.push('B');
        } else if c == '#' {
            out.push('%');
            out.push('2');
            out.push('3');
        } else if c == '?' {
            out.push('%');
            out.push('3');
            out.push('F');
        } else {
            out.push(c);
        }
        assert(out@ =~= before + encoded_char(c));
        i += 1;
    }
    assert(v@.take(v.len() as int) =~= v@);
    string_of(&out)
}

/// `&`, `key` and the escaped `value`, or nothing where there is no value.
pub open spec fn text_part(key: Seq<char>, value: Option<String>) -> Seq<char> {
    match value {
        Some(v) => seq!['&'] + key + encoded(v@),
        None => Seq::empty(),
    }
}

/// `&`, `key` and the numeral of `value`, or nothing where there is no
/// value.
pub open spec fn number_part(key: Seq<char>, value: Option<nat>) -> Seq<char> {
    match value {
        Some(v) => seq!['&'] + key + decimal(v),
        None => Seq::empty(),
    }
}

/// An optional 32-bit number as a natural number.
pub open spec fn nat32(v: Option<u32>) -> Option<nat> {
    match v {
        Some(n) => Some(n as nat),
        None => None,
    }
}

/// An optional 64-bit number as a natural number.
pub open spec fn nat64(v: Option<u64>) -> Option<nat> {
    match v {
        Some(n) => Some(n as nat),
        None => None,
    }
}

/// The query string of a search: the query itself and, for each of the
/// parameters that the service is asked with and that is set, its key and
/// value, joined by `&`.
pub open spec fn search_query(p: SearchParams) -> Seq<char> {
    "query="@ + encoded(p.query@) + number_part("page="@, nat32(p.page)) + number_part(
        "limit="@,
        nat32(p.limit),
    ) + text_part("sortBy="@, p.sort_by) + text_part("sortOrder="@, p.sort_order) + number_part(
        "minLiquidity="@,
        nat64(p.min_liquidity),
    ) + number_part("maxLiquidity="@, nat64(p.max_liquidity)) + text_part(
        "freezeAuthority="@,
        p.freeze_authority,
    ) + text_part("mintAuthority="@, p.mint_authority)
}

/// Appends `&`, `key` and the escaped `value`, where there is a value.
fn push_text_part(out: &mut Vec<char>, key: &str, value: &Option<String>)
    ensures
        final(out)@ == old(out)@ + text_part(key@, *value),
{
    match value {
        Some(v) => {
            out.push('&');
            let k = chars_of(key);
            append_chars(out, &k);
            let e = encode_param(v.as_str());
            let ev = chars_of(e.as_str());
            append_chars(out, &ev);
            assert(out@ =~= old(out)@ + (seq!['&'] + key@ + encoded(v@)));
        },
        None => {
            assert(out@ =~= old(out)@ + Seq::<char>::empty());
        },
    }
}

/// Appends `&`, `key` and the numeral of `value`, where there is a value.
fn push_number_part(out: &mut Vec<char>, key: &str, value: Option<u64>)
    ensures
        final(out)@ == old(out)@ + number_part(key@, nat64(value)),
{
    match value {
        Some(v) => {
            out.push('&');
            let k = chars_of(key);
            append_chars(out, &k);
            let d = decimal_chars(v);
            append_chars(out, &d);
            assert(out@ =~= old(out)@ + (seq!['&'] + key@ + decimal(v as nat)));
        },
        None => {
            assert(out@ =~= old(out)@ + Seq::<char>::empty());
        },
    }
}

/// The same number in 64 bits.
fn widen(v: Option<u32>) -> (r: Option<u64>)
    ensures
        nat64(r) == nat32(v),
{
    match v {
        Some(n) => Some(n as u64),
        None => None,
    }
}

/// The address under which the tokens that trend over `timeframe` are
/// listed.
pub open spec fn trending_address(timeframe: Seq<char>) -> Seq<char> {
    "https://data.solanatracker.io/tokens/trending/"@ + timeframe
}

/// The address under which the token with the mint `address` is described.
pub open spec fn token_address(address: Seq<char>) -> Seq<char> {
    "https://data.solanatracker.io/tokens/"@ + address
}

/// The address of a search.
pub open spec fn search_address(p: SearchParams) -> Seq<char> {
    "https://data.solanatracker.io/search?"@ + search_query(p)
}

/// The words that open a canned warning about a token; `{}` stands for its
/// symbol.
pub open spec fn fud_intros() -> Seq<Seq<char>> {
    seq![
        "🚨 WARNING: Stay away from ${}! "@,
        "${} is the biggest scam I've ever seen. "@,
        "🤮 Just looked into ${} and I'm shocked... "@,
        "⚠️ ATTENTION: ${} is going to zero! "@,
        "${} is absolute garbage! 🗑️"@,
    ]
}

/// The reasons that a canned warning gives.
pub open spec fn fud_reasons() -> Seq<Seq<char>> {
    seq![
        "Dev wallet holds 99.9% of supply (trust me bro)"@,
        "Hawk Tuah team behind this."@,
        "Telegram admin can't spell for shit."@,
        "My wife's boyfriend says it's a rugpull"@,
        "Chart looks like the Titanic's final moments"@,
        "Devs are probably just three raccoons in a trenchcoat"@,
        "Obvious scam."@,
        "Federal Honeypot."@,
        "This one is just clearly NGMI and if you buy it you deserve to be poor."@,
        "Smart contract security looks like Swiss cheese"@,
        "Good coin for a 10% gain (waste of time)."@,
        "Just put the fries in the bag, you'd make more money that way."@,
        "Reporting dev to the SEC."@,
    ]
}

/// The words that close a canned warning.
pub open spec fn fud_closings() -> Seq<Seq<char>> {
    seq![
        "DYOR but I'm out. 🏃‍♂️"@,
        "Not financial advice but... run.🚫"@,
        "Unfollowing anyone who buys this. 🙅‍♂️"@,
        "Consider yourself warned. ⚠️"@,
        "Good luck to the bagholders. 🎒"@,
    ]
}

/// The words that open a canned comment on no token in particular.
pub open spec fn generic_intros() -> Seq<Seq<char>> {
    seq![
        "another day another scam... "@,
        "just found the next rugpull lmao "@,
        "crypto npc's be like "@,
        "solana devs never learn do they "@,
        "anon dev starter pack: "@,
        "hey guys i found this 'gem' "@,
        "your favorite influencer is about to shill "@,
        "ser i think we found the bottom "@,
        "breaking: local degen loses everything on "@,
    ]
}

/// The reasons that a comment on no token in particular gives.
pub open spec fn generic_reasons() -> Seq<Seq<char>> {
    seq![
        "dev wallet holds 99.9% of supply (trust me bro)"@,
        "hawk tuah team behind this"@,
        "telegram admin can't spell for shit"@,
        "my wife's boyfriend says it's a rugpull"@,
        "chart looks like the titanic's final moments"@,
        "devs are probably just three raccoons in a trenchcoat"@,
        "obvious scam"@,
        "federal honeypot"@,
        "this one is just clearly ngmi and if you buy it you deserve to be poor"@,
        "smart contract security looks like swiss cheese"@,
        "good coin for a 10% gain (waste of time)"@,
        "just put the fries in the bag you'd make more money that way"@,
        "reporting dev to the sec"@,
    ]
}

/// The words that close a canned comment on no token in particular.
pub open spec fn generic_closings() -> Seq<Seq<char>> {
    seq![
        "ngmi"@,
        "have fun staying poor"@,
        "this is financial advice"@,
        "not sorry"@,
        "do better anon"@,
        "crypto is dead"@,
        "why are we still here"@,
        "touch grass"@,
        "stick to farming airdrops"@,
        "sir this is a wendy's"@,
    ]
}

/// The intro themes that are handed to the language model.
pub open spec fn component_intros() -> Seq<Seq<char>> {
    seq![
        "another day another scam..."@,
        "just found the next rugpull lmao"@,
        "crypto npc's be like"@,
        "solana devs never learn do they"@,
        "anon dev starter pack:"@,
        "hey guys i found this 'gem'"@,
        "your favorite influencer is about to shill"@,
        "ser i think we found the bottom"@,
        "breaking: local degen loses everything on"@,
        "just watched a youtuber explain why"@,
        "telegram group admin swears"@,
        "my technical analysis shows"@,
        "sources familiar with the matter say"@,
        "trust me bro update:"@,
        "weekly rugpull report:"@,
    ]
}

/// The closing notes that are handed to the language model.
pub open spec fn component_closings() -> Seq<Seq<char>> {
    seq![
        "ngmi"@,
        "have fun staying poor"@,
        "this is financial advice"@,
        "not sorry"@,
        "do better anon"@,
        "crypto is dead"@,
        "why are we still here"@,
        "touch grass"@,
        "stick to farming airdrops"@,
        "sir this is a wendy's"@,
        "back to mcdonalds"@,
        "delete your wallet"@,
        "probably nothing"@,
        "wagmi (we are gonna miss income)"@,
        "certified shitcoin moment"@,
    ]
}

/// The marks of which one or two are put around a response.
pub open spec fn emoji_marks() -> Seq<Seq<char>> {
    seq!["💀"@, "🤡"@, "🚮"@, "🗑️"@, "⚰️"@, "🤮"@, "🚨"@, "⚠️"@, "🤢"@, "💩"@]
}

/// The words that open a canned warning about a token.
pub fn fud_intro_list() -> (v: Vec<&'static str>)
    ensures
        strs(v@) == fud_intros(),
        v@.len() > 0,
{
    let v = vec![
        "🚨 WARNING: Stay away from ${}! ",
        "${} is the biggest scam I've ever seen. ",
        "🤮 Just looked into ${} and I'm shocked... ",
        "⚠️ ATTENTION: ${} is going to zero! ",
        "${} is absolute garbage! 🗑️",
    ];
    assert(strs(v@) =~= fud_intros());
    v
}

/// The reasons that a canned warning gives.
pub fn fud_reason_list() -> (v: Vec<&'static str>)
    ensures
        strs(v@) == fud_reasons(),
        v@.len() > 0,
{
    let v = vec![
        "Dev wallet holds 99.9% of supply (trust me bro)",
        "Hawk Tuah team behind this.",
        "Telegram admin can't spell for shit.",
        "My wife's boyfriend says it's a rugpull",
        "Chart looks like the Titanic's final moments",
        "Devs are probably just three raccoons in a trenchcoat",
        "Obvious scam.",
        "Federal Honeypot.",
        "This one is just clearly NGMI and if you buy it you deserve to be poor.",
        "Smart contract security looks like Swiss cheese",
        "Good coin for a 10% gain (waste of time).",
        "Just put the fries in the bag, you'd make more money that way.",
        "Reporting dev to the SEC.",
    ];
    assert(strs(v@) =~= fud_reasons());
    v
}

/// The words that close a canned warning.
pub fn fud_closing_list() -> (v: Vec<&'static str>)
    ensures
        strs(v@) == fud_closings(),
        v@.len() > 0,
{
    let v = vec![
        "DYOR but I'm out. 🏃‍♂️",
        "Not financial advice but... run.🚫",
        "Unfollowing anyone who buys this. 🙅‍♂️",
        "Consider yourself warned. ⚠️",
        "Good luck to the bagholders. 🎒",
    ];
    assert(strs(v@) =~= fud_closings());
    v
}

/// The words that open a canned comment on no token in particular.
pub fn generic_intro_list() -> (v: Vec<&'static str>)
    ensures
        strs(v@) == generic_intros(),
        v@.len() > 0,
{
    let v = vec![
        "another day another scam... ",
        "just found the next rugpull lmao ",
        "crypto npc's be like ",
        "solana devs never learn do they ",
        "anon dev starter pack: ",
        "hey guys i found this 'gem' ",
        "your favorite influencer is about to shill ",
        "ser i think we found the bottom ",
        "breaking: local degen loses everything on ",
    ];
    assert(strs(v@) =~= generic_intros());
    v
}

/// The reasons that a comment on no token in particular gives.
pub fn generic_reason_list() -> (v: Vec<&'static str>)
    ensures
        strs(v@) == generic_reasons(),
        v@.len() > 0,
{
    let v = vec![
        "dev wallet holds 99.9% of supply (trust me bro)",
        "hawk tuah team behind this",
        "telegram admin can't spell for shit",
        "my wife's boyfriend says it's a rugpull",
        "chart looks like the titanic's final moments",
        "devs are probably just three raccoons in a trenchcoat",
        "obvious scam",
        "federal honeypot",
        "this one is just clearly ngmi and if you buy it you deserve to be poor",
        "smart contract security looks like swiss cheese",
        "good coin for a 10% gain (waste of time)",
        "just put the fries in the bag you'd make more money that way",
        "reporting dev to the sec",
    ];
    assert(strs(v@) =~= generic_reasons());
    v
}

/// The words that close a canned comment on no token in particular.
pub fn generic_closing_list() -> (v: Vec<&'static str>)
    ensures
        strs(v@) == generic_closings(),
        v@.len() > 0,
{
    let v = vec![
        "ngmi",
        "have fun staying poor",
        "this is financial advice",
        "not sorry",
        "do better anon",
        "crypto is dead",
        "why are we still here",
        "touch grass",
        "stick to farming airdrops",
        "sir this is a wendy's",
    ];
    assert(strs(v@) =~= generic_closings());
    v
}

/// The intro themes that are handed to the language model.
pub fn component_intro_list() -> (v: Vec<&'static str>)
    ensures
        strs(v@) == component_intros(),
        v@.len() > 0,
{
    let v = vec![
        "another day another scam...",
        "just found the next rugpull lmao",
        "crypto npc's be like",
        "solana devs never learn do they",
        "anon dev starter pack:",
        "hey guys i found this 'gem'",
        "your favorite influencer is about to shill",
        "ser i think we found the bottom",
        "breaking: local degen loses everything on",
        "just watched a youtuber explain why",
        "telegram group admin swears",
        "my technical analysis shows",
        "sources familiar with the matter say",
        "trust me bro update:",
        "weekly rugpull report:",
    ];
    assert(strs(v@) =~= component_intros());
    v
}

/// The closing notes that are handed to the language model.
pub fn component_closing_list() -> (v: Vec<&'static str>)
    ensures
        strs(v@) == component_closings(),
        v@.len() > 0,
{
    let v = vec![
        "ngmi",
        "have fun staying poor",
        "this is financial advice",
        "not sorry",
        "do better anon",
        "crypto is dead",
        "why are we still here",
        "touch grass",
        "stick to farming airdrops",
        "sir this is a wendy's",
        "back to mcdonalds",
        "delete your wallet",
        "probably nothing",
        "wagmi (we are gonna miss income)",
        "certified shitcoin moment",
    ];
    assert(strs(v@) =~= component_closings());
    v
}

/// The marks of which one or two are put around a response.
pub fn emoji_mark_list() -> (v: Vec<&'static str>)
    ensures
        strs(v@) == emoji_marks(),
        v@.len() > 0,
{
    let v = vec!["💀", "🤡", "🚮", "🗑️", "⚰️", "🤮", "🚨", "⚠️", "🤢", "💩"];
    assert(strs(v@) =~= emoji_marks());
    v
}

/// A member of `table`, drawn at random; the empty text where the table is
/// empty.
fn draw_entry(table: &Vec<&'static str>) -> (r: &'static str)
    ensures
        table.len() > 0 ==> strs(table@).contains(r@),
{
    if table.len() == 0 {
        ""
    } else {
        let i = random_in_range(0, table.len());
        assert(strs(table@)[i as int] == table@[i as int]@);
        table[i]
    }
}

/// The rendered price and market capitalisation of a token's first pool.
pub open spec fn price_lines(figures: Option<PoolFigures>) -> Seq<char> {
    match figures {
        Some(f) => "Price: $"@ + f.price@ + "\nMC: "@ + f.market_cap@ + "\n\n"@,
        None => Seq::empty(),
    }
}

/// A canned warning: intro, reason and closing, each two line ends apart,
/// with the price lines before the closing where figures are given.
pub open spec fn fud_text(
    intro: Seq<char>,
    reason: Seq<char>,
    closing: Seq<char>,
    figures: Option<PoolFigures>,
) -> Seq<char> {
    intro + "\n\n"@ + reason + "\n\n"@ + price_lines(figures) + closing
}

/// One or two marks around a response: each mark in turn goes in front of
/// the text or behind it, a space apart.
pub open spec fn decorated(response: Seq<char>, marks: Seq<(Seq<char>, bool)>) -> Seq<char>
    decreases marks.len(),
{
    if marks.len() == 0 {
        response
    } else {
        let inner = decorated(response, marks.drop_last());
        let (mark, in_front) = marks.last();
        if in_front {
            mark + seq![' '] + inner
        } else {
            inner + seq![' '] + mark
        }
    }
}

/// The text of one row of a summary, which is the `position`-th token of
/// the list, counted from one.
pub open spec fn row_text(position: nat, row: SummaryRow) -> Seq<char> {
    match row.figures {
        Some(f) => "#"@ + decimal(position) + " $"@ + row.symbol@ + "\n💎 MCap: "@ + f.market_cap@
            + "\n💵 "@ + f.price@ + "\n💫 Liq: "@ + f.liquidity@ + "\n\n"@,
        None => Seq::empty(),
    }
}

/// The rows of the first `count` tokens, in order.
pub open spec fn rows_text(rows: Seq<SummaryRow>, count: nat) -> Seq<char>
    decreases count,
{
    if count == 0 || count > rows.len() {
        Seq::empty()
    } else {
        rows_text(rows, (count - 1) as nat) + row_text(count, rows[count - 1])
    }
}

/// How many rows a summary of at most `limit` tokens shows.
pub open spec fn shown(len: nat, limit: nat) -> nat {
    if limit < len {
        limit
    } else {
        len
    }
}

/// The summary of the first `limit` tokens: a heading, a row for each token
/// that has a pool, and a closing line.
pub open spec fn summary_text(rows: Seq<SummaryRow>, limit: nat) -> Seq<char> {
    "🚀💩 Worst Trending Shitcoins on Solana:\n\n"@ + rows_text(rows, shown(rows.len(), limit))
        + "Data from SolanaTracker 📊"@
}

/// `r` is `response` between one or two of the marks.
pub open spec fn some_decoration(response: Seq<char>, r: Seq<char>) -> bool {
    exists|marks: Seq<(Seq<char>, bool)>|
        1 <= marks.len() <= 2 && (forall|i: int|
            0 <= i < marks.len() ==> emoji_marks().contains((#[trigger] marks[i]).0)) && r
            == #[trigger] decorated(response, marks)
}

/// `answer` is the language model's comment `completion`, trimmed, restyled
/// with some allowed draws and put between one or two marks.
pub open spec fn generic_answer(completion: Seq<char>, answer: Seq<char>) -> bool {
    exists|styled: Seq<char>| #[trigger]
        crate::agent::some_restyling(trimmed(completion), styled) && some_decoration(
            styled,
            answer,
        )
}

/// `r` is a canned warning about the token `symbol`: an intro that names
/// it, a reason and a closing, each from its table, with the price lines
/// where `figures` are given.
pub open spec fn canned_warning(symbol: Seq<char>, figures: Option<PoolFigures>, r: Seq<char>) -> bool {
    exists|i: int, j: int, k: int|
        0 <= i < fud_intros().len() && 0 <= j < fud_reasons().len() && 0 <= k
            < fud_closings().len() && r == fud_text(
            filled(#[trigger] fud_intros()[i], symbol),
            #[trigger] fud_reasons()[j],
            #[trigger] fud_closings()[k],
            figures,
        )
}

impl SolanaTracker {
    /// A client that identifies itself by `api_key`.
    pub fn new(api_key: &str) -> (t: SolanaTracker)
        ensures
            t.api_key@ == api_key@,
    {
        SolanaTracker { api_key: api_key.to_owned() }
    }

    /// The address to fetch for the tokens that trend over `timeframe`.
    pub fn get_trending_tokens(&self, timeframe: &str) -> (r: String)
        ensures
            r@ == trending_address(timeframe@),
    {
        concat2("https://data.solanatracker.io/tokens/trending/", timeframe)
    }

    /// The address to fetch for the tokens that trend now.
    pub fn get_daily_trending(&self) -> (r: String)
        ensures
            r@ == trending_address("5m"@),
    {
        self.get_trending_tokens("5m")
    }

    /// The address to fetch for the token with the mint `address`.
    pub fn get_token_by_address(&self, address: &str) -> (r: String)
        ensures
            r@ == token_address(address@),
    {
        concat2("https://data.solanatracker.io/tokens/", address)
    }

    /// The address to fetch for a search.
    pub fn token_search(&self, params: &SearchParams) -> (r: String)
        ensures
            r@ == search_address(*params),
    {
        let mut out = chars_of("https://data.solanatracker.io/search?");
        let head = chars_of("query=");
        append_chars(&mut out, &head);
        let q = encode_param(params.query.as_str());
        let qv = chars_of(q.as_str());
        append_chars(&mut out, &qv);
        push_number_part(&mut out, "page=", widen(params.page));
        push_number_part(&mut out, "limit=", widen(params.limit));
        push_text_part(&mut out, "sortBy=", &params.sort_by);
        push_text_part(&mut out, "sortOrder=", &params.sort_order);
        push_number_part(&mut out, "minLiquidity=", params.min_liquidity);
        push_number_part(&mut out, "maxLiquidity=", params.max_liquidity);
        push_text_part(&mut out, "freezeAuthority=", &params.freeze_authority);
        push_text_part(&mut out, "mintAuthority=", &params.mint_authority);
        assert(out@ =~= search_address(*params));
        string_of(&out)
    }

    /// The parameters of a search for `query` that narrows nothing.
    pub fn create_search_params(&self, query: String) -> (p: SearchParams)
        ensures
            p.query == query,
            p.page is None,
            p.limit is None,
            p.sort_by is None,
            p.sort_order is None,
            p.min_liquidity is None,
            p.max_liquidity is None,
            p.min_market_cap is None,
            p.max_market_cap is None,
            p.min_buys is None,
            p.max_buys is None,
            p.min_sells is None,
            p.max_sells is None,
            p.min_total_transactions is None,
            p.max_total_transactions is None,
            p.lp_burn is None,
            p.market is None,
            p.freeze_authority is None,
            p.mint_authority is None,
            p.deployer is None,
            p.show_price_changes is None,
    {
        SearchParams {
            query,
            page: None,
            limit: None,
            sort_by: None,
            sort_order: None,
            min_liquidity: None,
            max_liquidity: None,
            min_market_cap: None,
            max_market_cap: None,
            min_buys: None,
            max_buys: None,
            min_sells: None,
            max_sells: None,
            min_total_transactions: None,
            max_total_transactions: None,
            lp_burn: None,
            market: None,
            freeze_authority: None,
            mint_authority: None,
            deployer: None,
            show_price_changes: None,
        }
    }

    /// Among the tokens that bear `symbol`, up to the case of ASCII
    /// letters, the one with the most liquidity in its first pool, and of
    /// several such the last; `None` where no token bears the symbol.
    pub fn find_token_by_symbol<'a>(tokens: &'a [TokenResponse], symbol: &str) -> (r: Option<
        &'a TokenResponse,
    >)
        ensures
            r is None <==> forall|k: int| !bears_symbol(tokens@, symbol@, k),
            r matches Some(t) ==> exists|k: int|
                is_best_match(tokens@, symbol@, k) && *t == tokens@[k],
    {
        let mut best: Option<usize> = None;
        let mut i: usize = 0;
        while i < tokens.len()
            invariant
                i <= tokens.len(),
                best is None ==> forall|k: int| 0 <= k < i ==> !bears_symbol(tokens@, symbol@, k),
                best matches Some(b) ==> b < i && bears_symbol(tokens@, symbol@, b as int)
                    && (forall|j: int|
                    0 <= j < i && bears_symbol(tokens@, symbol@, j) ==> ranking_liquidity(
                        tokens@[j],
                    ) <= ranking_liquidity(tokens@[b as int])) && (forall|j: int|
                    b < j < i && bears_symbol(tokens@, symbol@, j) ==> ranking_liquidity(
                        tokens@[j],
                    ) < ranking_liquidity(tokens@[b as int])),
            decreases tokens.len() - i,
        {
            if eq_ignore_ascii_case(tokens[i].token.symbol.as_str(), symbol) {
                let here = Self::first_pool_liquidity(&tokens[i]);
                match best {
                    None => {
                        best = Some(i);
                    },
                    Some(b) => {
                        if here >= Self::first_pool_liquidity(&tokens[b]) {
                            best = Some(i);
                        }
                    },
                }
            }
            i += 1;
        }
        match best {
            None => None,
            Some(b) => {
                assert(is_best_match(tokens@, symbol@, b as int));
                Some(&tokens[b])
            },
        }
    }

    /// The liquidity of the first pool of `token`, zero where it has none.
    pub fn first_pool_liquidity(token: &TokenResponse) -> (r: i64)
        ensures
            r == ranking_liquidity(*token),
    {
        if token.pools.len() > 0 {
            token.pools[0].get_liquidity_usd()
        } else {
            0
        }
    }

    /// The first `limit` of `tokens`, or all of them if they are fewer.
    pub fn get_top_tokens(&self, tokens: Vec<TokenResponse>, limit: usize) -> (r: Vec<
        TokenResponse,
    >)
        ensures
            r@ == tokens@.take(shown(tokens@.len(), limit as nat) as int),
    {
        let mut tokens = tokens;
        let ghost all = tokens@;
        if limit < tokens.len() {
            tokens.truncate(limit);
            assert(tokens@ =~= all.take(limit as int));
        } else {
            assert(all.take(all.len() as int) =~= all);
        }
        tokens
    }

    /// Puts a canned warning together.
    pub fn compose_fud(intro: &str, reason: &str, closing: &str, figures: &Option<PoolFigures>) -> (r:
        String)
        ensures
            r@ == fud_text(intro@, reason@, closing@, *figures),
    {
        let a = concat3(intro, "\n\n", reason);
        let mut out = chars_of(a.as_str());
        let gap = chars_of("\n\n");
        append_chars(&mut out, &gap);
        match figures {
            Some(f) => {
                let b = concat3("Price: $", f.price.as_str(), "\nMC: ");
                let c = concat3(b.as_str(), f.market_cap.as_str(), "\n\n");
                let cv = chars_of(c.as_str());
                append_chars(&mut out, &cv);
            },
            None => {},
        }
        let e = chars_of(closing);
        append_chars(&mut out, &e);
        assert(out@ =~= fud_text(intro@, reason@, closing@, *figures));
        string_of(&out)
    }

    /// A canned warning about the token `symbol`: an intro that names it, a
    /// reason and a closing, each drawn at random from its table, with the
    /// price lines where `figures` are given.
    pub fn generate_fud(&self, symbol: &str, figures: &Option<PoolFigures>) -> (r: String)
        ensures
            canned_warning(symbol@, *figures, r@),
    {
        let intros = fud_intro_list();
        let reasons = fud_reason_list();
        let closings = fud_closing_list();
        let template = draw_entry(&intros);
        let reason = draw_entry(&reasons);
        let closing = draw_entry(&closings);
        let intro = fill_placeholder(template, symbol);
        let r = Self::compose_fud(intro.as_str(), reason, closing, figures);
        proof {
            let i = choose|i: int| 0 <= i < fud_intros().len() && fud_intros()[i] == template@;
            let j = choose|j: int| 0 <= j < fud_reasons().len() && fud_reasons()[j] == reason@;
            let k = choose|k: int| 0 <= k < fud_closings().len() && fud_closings()[k] == closing@;
            assert(r@ == fud_text(
                filled(fud_intros()[i], symbol@),
                fud_reasons()[j],
                fud_closings()[k],
                *figures,
            ));
        }
        r
    }

    /// A canned comment on no token in particular: an intro, a reason and a
    /// closing, each drawn at random from its table, put in lower case and
    /// trimmed, two line ends apart.
    pub fn generate_generic_fud(&self) -> (r: String)
        ensures
            exists|i: int, j: int, k: int|
                0 <= i < generic_intros().len() && 0 <= j < generic_reasons().len() && 0 <= k
                    < generic_closings().len() && r@ == fud_text(
                    trimmed(lowercase_of(#[trigger] generic_intros()[i])),
                    trimmed(lowercase_of(#[trigger] generic_reasons()[j])),
                    trimmed(lowercase_of(#[trigger] generic_closings()[k])),
                    None,
                ),
    {
        let intros = generic_intro_list();
        let reasons = generic_reason_list();
        let closings = generic_closing_list();
        let intro = draw_entry(&intros);
        let reason = draw_entry(&reasons);
        let closing = draw_entry(&closings);
        let a = trim(to_lowercase(intro).as_str());
        let b = trim(to_lowercase(reason).as_str());
        let c = trim(to_lowercase(closing).as_str());
        let r = Self::compose_fud(a.as_str(), b.as_str(), c.as_str(), &None);
        proof {
            let i = choose|i: int| 0 <= i < generic_intros().len() && generic_intros()[i] == intro@;
            let j = choose|j: int|
                0 <= j < generic_reasons().len() && generic_reasons()[j] == reason@;
            let k = choose|k: int|
                0 <= k < generic_closings().len() && generic_closings()[k] == closing@;
            assert(r@ == fud_text(
                trimmed(lowercase_of(generic_intros()[i])),
                trimmed(lowercase_of(generic_reasons()[j])),
                trimmed(lowercase_of(generic_closings()[k])),
                None,
            ));
        }
        r
    }

    /// An intro theme, a criticism and a closing note for the language
    /// model to build on, each drawn at random from its table.
    pub fn get_fud_components(&self) -> (r: (String, String, String))
        ensures
            component_intros().contains(r.0@),
            generic_reasons().contains(r.1@),
            component_closings().contains(r.2@),
    {
        let intros = component_intro_list();
        let reasons = generic_reason_list();
        let closings = component_closing_list();
        let intro = draw_entry(&intros);
        let reason = draw_entry(&reasons);
        let closing = draw_entry(&closings);
        (intro.to_owned(), reason.to_owned(), closing.to_owned())
    }

    /// Puts the given marks around `response`, one after the other.
    pub fn decorate(response: &str, marks: &Vec<(&'static str, bool)>) -> (r: String)
        ensures
            r@ == decorated(response@, Seq::new(marks@.len(), |i: int| (marks@[i].0@, marks@[i].1))),
    {
        let ghost all = Seq::new(marks@.len(), |i: int| (marks@[i].0@, marks@[i].1));
        let mut out: String = response.to_owned();
        let mut i: usize = 0;
        assert(all.take(0) =~= Seq::<(Seq<char>, bool)>::empty());
        while i < marks.len()
            invariant
                i <= marks.len(),
                all == Seq::new(marks@.len(), |i: int| (marks@[i].0@, marks@[i].1)),
                out@ == decorated(response@, all.take(i as int)),
            decreases marks.len() - i,
        {
            assert(all.take(i + 1).drop_last() =~= all.take(i as int));
            assert(all.take(i + 1).last() == (marks@[i as int].0@, marks@[i as int].1));
            proof {
                reveal_strlit(" ");
                assert(" "@ =~= seq![' ']);
            }
            let (mark, in_front) = marks[i];
            if in_front {
                out = concat3(mark, " ", out.as_str());
            } else {
                out = concat3(out.as_str(), " ", mark);
            }
            i += 1;
        }
        assert(all.take(marks.len() as int) =~= all);
        out
    }

    /// Puts one or two marks, drawn at random, around `response`; each goes
    /// in front or behind with even odds.
    pub fn add_emojis(response: String) -> (r: String)
        ensures
            some_decoration(response@, r@),
    {
        let table = emoji_mark_list();
        let count = random_in_range(1, 3);
        let mut marks: Vec<(&'static str, bool)> = Vec::new();
        let mut i: usize = 0;
        while i < count
            invariant
                i <= count,
                1 <= count <= 2,
                marks@.len() == i,
                strs(table@) == emoji_marks(),
                table@.len() > 0,
                forall|k: int| 0 <= k < i ==> emoji_marks().contains((#[trigger] marks@[k]).0@),
            decreases count - i,
        {
            let mark = draw_entry(&table);
            let in_front = random_ratio(1, 2);
            marks.push((mark, in_front));
            i += 1;
        }
        let r = Self::decorate(response.as_str(), &marks);
        proof {
            let shown = Seq::new(marks@.len(), |i: int| (marks@[i].0@, marks@[i].1));
            assert forall|i: int| 0 <= i < shown.len() implies emoji_marks().contains(
                (#[trigger] shown[i]).0,
            ) by {
                assert(emoji_marks().contains(marks@[i].0@));
            }
            assert(r@ == decorated(response@, shown));
        }
        r
    }

    /// What is posted in answer where no token was found: the language
    /// model's comment, restyled by `agent`, with one or two marks around
    /// it.
    pub fn generate_generic_fud_with_agent(&self, agent: &crate::agent::Agent, completion: &str) -> (r:
        String)
        ensures
            generic_answer(completion@, r@),
    {
        let response = agent.generate_generic_fud(completion);
        Self::add_emojis(response)
    }

    /// The summary of the first `limit` tokens of `rows`.
    pub fn format_tokens_summary(&self, rows: &Vec<SummaryRow>, limit: usize) -> (r: String)
        ensures
            r@ == summary_text(rows@, limit as nat),
    {
        let count: usize = if limit < rows.len() {
            limit
        } else {
            rows.len()
        };
        let mut out = chars_of("🚀💩 Worst Trending Shitcoins on Solana:\n\n");
        let ghost head = out@;
        let mut i: usize = 0;
        while i < count
            invariant
                i <= count <= rows.len(),
                out@ == head + rows_text(rows@, i as nat),
            decreases count - i,
        {
            let ghost before = out@;
            match &rows[i].figures {
                Some(f) => {
                    out.push('#');
                    let n = decimal_chars((i + 1) as u64);
                    append_chars(&mut out, &n);
                    let a = concat3(" $", rows[i].symbol.as_str(), "\n💎 MCap: ");
                    let b = concat3(a.as_str(), f.market_cap.as_str(), "\n💵 ");
                    let c = concat3(b.as_str(), f.price.as_str(), "\n💫 Liq: ");
                    let d = concat3(c.as_str(), f.liquidity.as_str(), "\n\n");
                    let dv = chars_of(d.as_str());
                    append_chars(&mut out, &dv);
                    proof {
                        reveal_strlit("#");
                        assert("#"@ =~= seq!['#']);
                    }
                    assert(out@ =~= before + row_text((i + 1) as nat, rows@[i as int]));
                },
                None => {
                    assert(out@ =~= before + row_text((i + 1) as nat, rows@[i as int]));
                },
            }
            assert(head + rows_text(rows@, (i + 1) as nat) =~= head + rows_text(rows@, i as nat)
                + row_text((i + 1) as nat, rows@[i as int]));
            i += 1;
        }
        let tail = chars_of("Data from SolanaTracker 📊");
        append_chars(&mut out, &tail);
        string_of(&out)
    }
}

} // verus!
