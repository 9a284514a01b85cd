use persona_bot::providers::solanatracker::{
    encode_param, Liquidity, Pool, PoolFigures, SolanaTracker, SummaryRow, TokenInfo, TokenResponse,
    MICROS_PER_DOLLAR,
};

#[test]
fn test_find_token_by_symbol() {
    // Create test data
    let tokens = vec![
        TokenResponse {
            token: TokenInfo {
                symbol: "TEST".to_string(),
                name: "Test Token 1".to_string(),
                mint: "mint1".to_string(),
                uri: None,
                description: None,
            },
            pools: vec![Pool {
                liquidity: Liquidity {
                    usd: 1000 * MICROS_PER_DOLLAR,
                    quote: 0,
                    price: Default::default(),
                },
                price: Default::default(),
                events: Default::default(),
            }],
        },
        TokenResponse {
            token: TokenInfo {
                symbol: "TEST".to_string(),
                name: "Test Token 2".to_string(),
                mint: "mint2".to_string(),
                uri: None,
                description: None,
            },
            pools: vec![Pool {
                liquidity: Liquidity {
                    usd: 5000 * MICROS_PER_DOLLAR,
                    quote: 0,
                    price: Default::default(),
                },
                price: Default::default(),
                events: Default::default(),
            }],
        },
    ];

    let result = SolanaTracker::find_token_by_symbol(&tokens, "TEST");
    assert!(result.is_some(), "Should find a token");

    let found_token = result.unwrap();
    assert_eq!(
        found_token.pools[0].liquidity.usd,
        5000 * MICROS_PER_DOLLAR,
        "Should return token with highest liquidity"
    );

    // Test case insensitivity
    let lowercase_result = SolanaTracker::find_token_by_symbol(&tokens, "test");
    assert!(lowercase_result.is_some(), "Should find token with case-insensitive search");

    // Test non-existent token
    let no_result = SolanaTracker::find_token_by_symbol(&tokens, "NONEXISTENT");
    assert!(no_result.is_none(), "Should return None for non-existent token");
}

#[test]
fn test_find_token_empty_pools() {
    let tokens = vec![TokenResponse {
        token: TokenInfo {
            symbol: "TEST".to_string(),
            name: "Test Token".to_string(),
            mint: "mint1".to_string(),
            uri: None,
            description: None,
        },
        pools: vec![], // Empty pools
    }];

    let result = SolanaTracker::find_token_by_symbol(&tokens, "TEST");
    assert!(result.is_some(), "Should find token even with empty pools");
}

fn token(symbol: &str, mint: &str, liquidity: Option<i64>) -> TokenResponse {
    TokenResponse {
        token: TokenInfo {
            symbol: symbol.to_string(),
            name: symbol.to_string(),
            mint: mint.to_string(),
            uri: None,
            description: None,
        },
        pools: match liquidity {
            Some(usd) => vec![Pool {
                liquidity: Liquidity { usd, quote: 0, price: Default::default() },
                price: Default::default(),
                events: Default::default(),
            }],
            None => vec![],
        },
    }
}

#[test]
fn find_token_prefers_the_last_of_equally_liquid_tokens() {
    let tokens = vec![
        token("AAA", "first", Some(7)),
        token("bbb", "other", Some(100)),
        token("aaa", "second", Some(7)),
        token("Aaa", "third", Some(3)),
    ];
    let found = SolanaTracker::find_token_by_symbol(&tokens, "aAa").unwrap();
    assert_eq!(found.token.mint, "second");
}

#[test]
fn find_token_counts_a_token_without_pools_as_illiquid() {
    let tokens = vec![token("X", "none", None), token("X", "negative", Some(-5))];
    let found = SolanaTracker::find_token_by_symbol(&tokens, "x").unwrap();
    assert_eq!(found.token.mint, "none");
    let tokens = vec![token("X", "none", None), token("X", "zero", Some(0))];
    let found = SolanaTracker::find_token_by_symbol(&tokens, "x").unwrap();
    assert_eq!(found.token.mint, "zero");
}

#[test]
fn search_address_holds_the_set_parameters_in_order() {
    let tracker = SolanaTracker::new("key");
    let mut params = tracker.create_search_params("dog wif hat".to_string());
    assert_eq!(
        tracker.token_search(&params),
        "https://data.solanatracker.io/search?query=dog%20wif%20hat"
    );
    params.sort_by = Some("marketCapUsd".to_string());
    params.sort_order = Some("desc".to_string());
    params.limit = Some(1);
    params.page = Some(20);
    params.min_liquidity = Some(1000);
    params.freeze_authority = Some("null".to_string());
    params.mint_authority = Some("a&b=c".to_string());
    params.deployer = Some("ignored".to_string());
    assert_eq!(
        tracker.token_search(&params),
        "https://data.solanatracker.io/search?query=dog%20wif%20hat&page=20&limit=1&sortBy=marketCapUsd&sortOrder=desc&minLiquidity=1000&freezeAuthority=null&mintAuthority=a%26b%3Dc"
    );
}

#[test]
fn encode_param_escapes_the_six_marks() {
    assert_eq!(encode_param(" &=+#?"), "%20%26%3D%2B%23%3F");
    assert_eq!(encode_param("plain_text-1.2"), "plain_text-1.2");
    assert_eq!(encode_param(""), "");
    assert_eq!(encode_param("100%"), "100%");
}

#[test]
fn addresses_of_the_service() {
    let tracker = SolanaTracker::new("key");
    assert_eq!(tracker.api_key, "key");
    assert_eq!(
        tracker.get_trending_tokens("1h"),
        "https://data.solanatracker.io/tokens/trending/1h"
    );
    assert_eq!(tracker.get_daily_trending(), "https://data.solanatracker.io/tokens/trending/5m");
    assert_eq!(
        tracker.get_token_by_address("So11111111111111111111111111111111111111112"),
        "https://data.solanatracker.io/tokens/So11111111111111111111111111111111111111112"
    );
}

#[test]
fn top_tokens_are_the_first_of_the_list() {
    let tracker = SolanaTracker::new("key");
    let tokens = vec![token("A", "1", None), token("B", "2", None), token("C", "3", None)];
    let top = tracker.get_top_tokens(tokens.clone(), 2);
    assert_eq!(top.len(), 2);
    assert_eq!(top[0].token.symbol, "A");
    assert_eq!(top[1].token.symbol, "B");
    assert_eq!(tracker.get_top_tokens(tokens.clone(), 3).len(), 3);
    assert_eq!(tracker.get_top_tokens(tokens.clone(), 10).len(), 3);
    assert_eq!(tracker.get_top_tokens(tokens, 0).len(), 0);
}

#[test]
fn compose_fud_with_and_without_figures() {
    let figures = Some(PoolFigures {
        market_cap: "$1.5M".to_string(),
        price: "0.00150000".to_string(),
        liquidity: "$20K".to_string(),
    });
    assert_eq!(
        SolanaTracker::compose_fud("intro", "reason", "closing", &figures),
        "intro\n\nreason\n\nPrice: $0.00150000\nMC: $1.5M\n\nclosing"
    );
    assert_eq!(
        SolanaTracker::compose_fud("intro", "reason", "closing", &None),
        "intro\n\nreason\n\nclosing"
    );
}

#[test]
fn generated_fud_names_the_token_and_keeps_the_shape() {
    let tracker = SolanaTracker::new("key");
    let intros = persona_bot::providers::solanatracker::fud_intro_list();
    let reasons = persona_bot::providers::solanatracker::fud_reason_list();
    let closings = persona_bot::providers::solanatracker::fud_closing_list();
    for _ in 0..50 {
        let text = tracker.generate_fud("WIF", &None);
        let parts: Vec<&str> = text.split("\n\n").collect();
        assert_eq!(parts.len(), 3);
        assert!(intros.iter().any(|i| i.replace("{}", "WIF") == parts[0]));
        assert!(parts[0].contains("$WIF"));
        assert!(reasons.contains(&parts[1]));
        assert!(closings.contains(&parts[2]));
    }
}

#[test]
fn generic_fud_is_lower_case_and_trimmed() {
    let tracker = SolanaTracker::new("key");
    let intros = persona_bot::providers::solanatracker::generic_intro_list();
    for _ in 0..50 {
        let text = tracker.generate_generic_fud();
        let parts: Vec<&str> = text.split("\n\n").collect();
        assert_eq!(parts.len(), 3);
        assert!(intros.iter().any(|i| i.trim() == parts[0]));
        assert_eq!(parts[0], parts[0].trim());
        assert_eq!(text, text.to_lowercase());
    }
}

#[test]
fn fud_components_come_from_their_tables() {
    let tracker = SolanaTracker::new("key");
    let intros = persona_bot::providers::solanatracker::component_intro_list();
    let reasons = persona_bot::providers::solanatracker::generic_reason_list();
    let closings = persona_bot::providers::solanatracker::component_closing_list();
    assert_eq!(intros.len(), 15);
    assert_eq!(closings.len(), 15);
    for _ in 0..50 {
        let (intro, reason, closing) = tracker.get_fud_components();
        assert!(intros.contains(&intro.as_str()));
        assert!(reasons.contains(&reason.as_str()));
        assert!(closings.contains(&closing.as_str()));
    }
}

#[test]
fn decorate_puts_each_mark_in_front_or_behind() {
    assert_eq!(SolanaTracker::decorate("text", &vec![]), "text");
    assert_eq!(SolanaTracker::decorate("text", &vec![("A", true)]), "A text");
    assert_eq!(SolanaTracker::decorate("text", &vec![("A", false)]), "text A");
    assert_eq!(SolanaTracker::decorate("text", &vec![("A", true), ("B", false)]), "A text B");
    assert_eq!(SolanaTracker::decorate("text", &vec![("A", true), ("B", true)]), "B A text");
}

#[test]
fn add_emojis_adds_one_or_two_marks() {
    let marks = persona_bot::providers::solanatracker::emoji_mark_list();
    assert_eq!(marks.len(), 10);
    let mut seen_one = false;
    let mut seen_two = false;
    for _ in 0..200 {
        let text = SolanaTracker::add_emojis("rug".to_string());
        let words: Vec<&str> = text.split(' ').collect();
        assert!(words.len() == 2 || words.len() == 3);
        assert_eq!(words.iter().filter(|w| **w == "rug").count(), 1);
        for w in words.iter() {
            assert!(*w == "rug" || marks.contains(w));
        }
        if words.len() == 2 {
            seen_one = true;
        } else {
            seen_two = true;
        }
    }
    assert!(seen_one && seen_two);
}

#[test]
fn summary_numbers_the_tokens_and_skips_those_without_pools() {
    let tracker = SolanaTracker::new("key");
    let figures = |m: &str, p: &str, l: &str| {
        Some(PoolFigures {
            market_cap: m.to_string(),
            price: p.to_string(),
            liquidity: l.to_string(),
        })
    };
    let rows = vec![
        SummaryRow { symbol: "AAA".to_string(), figures: figures("$1.0M", "$0.001", "$10K") },
        SummaryRow { symbol: "BBB".to_string(), figures: None },
        SummaryRow { symbol: "CCC".to_string(), figures: figures("$2.5B", "$2.50", "$1.2M") },
        SummaryRow { symbol: "DDD".to_string(), figures: figures("N/A", "N/A", "$0K") },
    ];
    assert_eq!(
        tracker.format_tokens_summary(&rows, 3),
        "🚀💩 Worst Trending Shitcoins on Solana:\n\n#1 $AAA\n💎 MCap: $1.0M\n💵 $0.001\n💫 Liq: $10K\n\n#3 $CCC\n💎 MCap: $2.5B\n💵 $2.50\n💫 Liq: $1.2M\n\nData from SolanaTracker 📊"
    );
    assert_eq!(
        tracker.format_tokens_summary(&rows, 0),
        "🚀💩 Worst Trending Shitcoins on Solana:\n\nData from SolanaTracker 📊"
    );
    assert!(tracker.format_tokens_summary(&rows, 100).contains("#4 $DDD\n"));
}

#[test]
fn summary_numbers_go_past_nine() {
    let tracker = SolanaTracker::new("key");
    let mut rows = Vec::new();
    for i in 0..12 {
        rows.push(SummaryRow {
            symbol: format!("T{}", i),
            figures: Some(PoolFigures {
                market_cap: "m".to_string(),
                price: "p".to_string(),
                liquidity: "l".to_string(),
            }),
        });
    }
    let text = tracker.format_tokens_summary(&rows, 12);
    assert!(text.contains("#10 $T9\n"));
    assert!(text.contains("#12 $T11\n"));
}
