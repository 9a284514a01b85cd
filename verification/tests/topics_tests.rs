use persona_bot::topics::{
    compose_reply, extract_ticker_or_address, format_ticker_for_response,
    handle_token_info_request, is_solana_address, is_token_info_request, reference_in_word,
    reply_list, stock_reply, TokenInfoRequest,
};

const ADDRESS: &str = "So11111111111111111111111111111111111111112";

#[test]
fn an_address_is_32_to_44_base58_characters() {
    assert!(is_solana_address(ADDRESS));
    assert!(is_solana_address(&"1".repeat(32)));
    assert!(is_solana_address(&"z".repeat(44)));
    assert!(!is_solana_address(&"1".repeat(31)));
    assert!(!is_solana_address(&"1".repeat(45)));
    assert!(!is_solana_address(""));
    for bad in ['0', 'O', 'I', 'l', ' ', '$', 'é'] {
        let mut text = "1".repeat(31);
        text.push(bad);
        assert!(!is_solana_address(&text), "{:?}", bad);
    }
    assert!(!is_solana_address(&"é".repeat(20)));
}

#[test]
fn a_word_refers_to_an_address_or_a_ticker() {
    assert_eq!(reference_in_word(ADDRESS), Some((ADDRESS.to_string(), true)));
    assert_eq!(reference_in_word("$WIF"), Some(("WIF".to_string(), false)));
    assert_eq!(reference_in_word("$WIF?!"), Some(("WIF".to_string(), false)));
    assert_eq!(reference_in_word("$wif,"), Some(("wif".to_string(), false)));
    assert_eq!(reference_in_word("$"), None);
    assert_eq!(reference_in_word("$$$"), None);
    assert_eq!(reference_in_word("$?"), None);
    assert_eq!(reference_in_word("WIF"), None);
    assert_eq!(reference_in_word("a$WIF"), None);
    assert_eq!(reference_in_word("$a$b"), Some(("a$b".to_string(), false)));
}

#[test]
fn the_first_word_that_refers_wins() {
    assert_eq!(
        extract_ticker_or_address("gm what about $BONK and $WIF"),
        Some(("BONK".to_string(), false))
    );
    assert_eq!(
        extract_ticker_or_address(&format!("is $BONK like {} ?", ADDRESS)),
        Some(("BONK".to_string(), false))
    );
    assert_eq!(
        extract_ticker_or_address(&format!("look at {} and $BONK", ADDRESS)),
        Some((ADDRESS.to_string(), true))
    );
}

#[test]
fn a_trigger_phrase_implies_the_word_behind_it() {
    assert_eq!(
        extract_ticker_or_address("any Thoughts On bonk?"),
        Some(("bonk".to_string(), false))
    );
    assert_eq!(
        extract_ticker_or_address("what do you think of (popcat)"),
        Some(("popcat".to_string(), false))
    );
    assert_eq!(
        extract_ticker_or_address("tell me about the_dog!"),
        Some(("the_dog".to_string(), false))
    );
    assert_eq!(
        extract_ticker_or_address(&format!("check the contract {}.", ADDRESS)),
        Some((ADDRESS.to_string(), true))
    );
    assert_eq!(extract_ticker_or_address(&format!("check the contract: {}.", ADDRESS)), None);
    assert_eq!(extract_ticker_or_address("thoughts on"), None);
    assert_eq!(extract_ticker_or_address("thoughts on ???"), None);
    assert_eq!(extract_ticker_or_address("hello there"), None);
    assert_eq!(extract_ticker_or_address(""), None);
}

#[test]
fn trigger_phrases_are_tried_in_their_order() {
    assert_eq!(
        extract_ticker_or_address("about time, any thoughts on pepe"),
        Some(("pepe".to_string(), false))
    );
    assert_eq!(
        extract_ticker_or_address("thoughts on ... whatever, think of doge"),
        Some(("doge".to_string(), false))
    );
    assert_eq!(
        extract_ticker_or_address("about face about turn"),
        Some(("face".to_string(), false))
    );
}

#[test]
fn a_request_for_the_own_token_must_be_a_question() {
    assert_eq!(is_token_info_request("what's your ticker"), Some(TokenInfoRequest::Ticker));
    assert_eq!(is_token_info_request("Symbol?"), Some(TokenInfoRequest::Ticker));
    assert_eq!(is_token_info_request("gib ticker"), None);
    assert_eq!(is_token_info_request("wen contract?"), Some(TokenInfoRequest::ContractAddress));
    assert_eq!(is_token_info_request("contract"), None);
    assert_eq!(is_token_info_request("What address"), Some(TokenInfoRequest::ContractAddress));
    assert_eq!(is_token_info_request("is this real?"), None);
    assert_eq!(is_token_info_request(""), None);
}

#[test]
fn the_contract_goes_before_the_ticker() {
    assert_eq!(
        is_token_info_request("ticker and contract?"),
        Some(TokenInfoRequest::ContractAddress)
    );
    assert_eq!(
        is_token_info_request("what's the ticker because i asked"),
        Some(TokenInfoRequest::ContractAddress)
    );
    assert_eq!(is_token_info_request("what's the symbol"), Some(TokenInfoRequest::Ticker));
}

#[test]
fn tickers_are_shown_in_upper_case() {
    assert_eq!(format_ticker_for_response("wif"), "WIF");
    assert_eq!(format_ticker_for_response("Bonk1"), "BONK1");
}

#[test]
fn replies_are_made_with_the_value_where_it_is_known() {
    assert_eq!(compose_reply("ca: {} \n\ndyor", "So1"), "ca: So1 \n\ndyor");
    assert_eq!(compose_reply("no ticker yet {}", ""), "no ticker yet {}");
    assert_eq!(
        stock_reply(TokenInfoRequest::ContractAddress, "So1"),
        "contract: So1 \n\nape responsibly ser"
    );
    assert_eq!(
        stock_reply(TokenInfoRequest::ContractAddress, ""),
        "ser i would tell you but the devs haven't given me that info yet ngmi"
    );
    assert_eq!(
        stock_reply(TokenInfoRequest::Ticker, "FUD"),
        "$FUD \n\ndon't say i didn't warn you"
    );
    assert_eq!(
        stock_reply(TokenInfoRequest::Ticker, ""),
        "imagine asking for a ticker when the devs haven't even told me what it is yet"
    );
}

#[test]
fn a_random_reply_is_one_of_its_table() {
    for request in [TokenInfoRequest::ContractAddress, TokenInfoRequest::Ticker] {
        for value in ["", "XYZ"] {
            let table = reply_list(request, !value.is_empty());
            assert_eq!(table.len(), 10);
            let mut seen = std::collections::HashSet::new();
            for _ in 0..200 {
                let reply = handle_token_info_request(request, value);
                assert!(table.iter().any(|t| compose_reply(t, value) == reply));
                if !value.is_empty() {
                    assert!(reply.contains("XYZ"));
                    assert!(!reply.contains("{}"));
                }
                seen.insert(reply);
            }
            assert!(seen.len() > 1);
        }
    }
}
