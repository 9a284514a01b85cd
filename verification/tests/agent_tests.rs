use persona_bot::agent::{
    alternative_list, common_pattern_list, draw_style, ending_list, opener_list, restyle, Agent,
    FudAnalysis, ResponseDecision, StyleDraws,
};

#[test]
fn the_answer_is_read_in_upper_case() {
    let agent = Agent::new("persona");
    assert_eq!(agent.should_respond("[RESPOND]"), ResponseDecision::Respond);
    assert_eq!(agent.should_respond("i think [respond] fits"), ResponseDecision::Respond);
    assert_eq!(agent.should_respond("[IGNORE]"), ResponseDecision::Ignore);
    assert_eq!(agent.should_respond("RESPOND"), ResponseDecision::Ignore);
    assert_eq!(agent.should_respond(""), ResponseDecision::Ignore);
    assert_eq!(Agent::decision_from("[respond]"), ResponseDecision::Ignore);
    assert_eq!(Agent::decision_from("x[RESPOND]x"), ResponseDecision::Respond);
}

#[test]
fn answers_are_trimmed() {
    let agent = Agent::new("persona");
    assert_eq!(agent.generate_reply("  \n a reply \t\n"), "a reply");
    assert_eq!(agent.generate_custom_response(" x "), "x");
    assert_eq!(agent.generate_post("\npost\n"), "post");
    assert_eq!(agent.generate_post("   "), "");
}

#[test]
fn prompts_hold_what_they_are_about() {
    let agent = Agent::new("You are a cynic.");
    assert_eq!(agent.prompt, "You are a cynic.");
    let p = agent.should_respond_prompt("gm");
    assert!(p.starts_with("Tweet: gm\nTask: Reply [RESPOND] or [IGNORE] based on:\n[RESPOND] if:\n"));
    assert!(p.ends_with("- Spam/nonsensical\nAnswer:"));
    let p = agent.generate_reply_prompt("wen moon");
    assert!(p.starts_with("Task: Generate a post/reply in your voice"));
    assert!(p.contains("\nCurrent Post: 'wen moon'\nGenerate a brief, single response that:\n"));
    assert!(p.ends_with("Write only the response text, nothing else:"));
    let p = agent.generate_post_prompt();
    assert!(p.starts_with("Write a 1-3 sentence post"));
    assert!(p.contains("\n\n            Requirements:\n            - Stay under 280 characters\n"));
    let p = agent.generate_generic_fud_prompt("INTRO", "REASON", "CLOSING");
    assert!(p.starts_with("You are a cynic.\n\nTask: Generate a creative and unique cynical comment.\n"));
    assert!(p.contains("- Intro theme: INTRO\n- Core criticism: REASON\n- Closing note: CLOSING\n\nRequirements:\n"));
    assert!(p.ends_with("Write ONLY the tweet text:"));
    let p = agent.generate_editorialized_fud_prompt("Token: $WIF\n");
    assert!(p.starts_with("You are a cynic.\n\nTask: Generate unique, creative FUD about this token:\nToken: $WIF\n\nRequirements:\n"));
    assert!(p.ends_with("Write ONLY the tweet text with no additional commentary:"));
}

fn draws(swaps: Vec<Option<&'static str>>, opener: Option<&'static str>, ending: Option<&'static str>) -> StyleDraws {
    StyleDraws { swaps, opener, ending }
}

#[test]
fn without_draws_nothing_is_restyled() {
    let text = "ser this is just literally ngmi";
    assert_eq!(restyle(text, &StyleDraws::none()), text);
    assert_eq!(restyle("", &StyleDraws::none()), "");
}

#[test]
fn stock_expressions_are_replaced_only_where_more_than_two_stand() {
    let all = vec![Some("ngl"); 10];
    assert_eq!(restyle("ser this is just fine", &draws(all.clone(), None, None)), "ser this is just fine");
    assert_eq!(
        restyle("ser this is just literally fine!", &draws(all.clone(), None, None)),
        "ngl this is ngl ngl fine!"
    );
    let some = vec![Some("fr fr"), None, None, Some("lowkey")];
    assert_eq!(
        restyle("ser this is just literally fine!", &draws(some, None, None)),
        "fr fr this is lowkey literally fine!"
    );
}

#[test]
fn a_replacement_touches_the_leftmost_occurrence_in_the_text_as_written() {
    let all = vec![Some("ngl"); 10];
    assert_eq!(
        restyle("SER ser just literally? ser", &draws(all.clone(), None, None)),
        "SER ngl ngl ngl? ser"
    );
    assert_eq!(
        restyle("SER JUST LITERALLY?", &draws(all, None, None)),
        "SER JUST LITERALLY?"
    );
}

#[test]
fn an_opener_goes_before_a_common_opening() {
    assert_eq!(restyle("just a scam!", &draws(vec![], Some("psa:"), None)), "psa: just a scam!");
    assert_eq!(restyle("Imagine buying this!", &draws(vec![], Some("bruh"), None)), "bruh Imagine buying this!");
    assert_eq!(restyle("what a scam!", &draws(vec![], Some("psa:"), None)), "what a scam!");
    assert_eq!(restyle("it is just a scam!", &draws(vec![], Some("psa:"), None)), "it is just a scam!");
}

#[test]
fn an_ending_goes_behind_a_text_without_question_or_exclamation() {
    assert_eq!(restyle("a scam", &draws(vec![], None, Some("..."))), "a scam...");
    assert_eq!(restyle("a scam?", &draws(vec![], None, Some("..."))), "a scam?");
    assert_eq!(restyle("a! scam", &draws(vec![], None, Some("!?"))), "a! scam");
    assert_eq!(restyle("just a scam", &draws(vec![], Some("bruh"), Some("!!"))), "bruh just a scam!!");
}

#[test]
fn drawn_styles_come_from_the_tables() {
    assert_eq!(common_pattern_list().len(), 10);
    let alternatives = alternative_list();
    let openers = opener_list();
    let endings = ending_list();
    let mut some = 0;
    let mut none = 0;
    for _ in 0..100 {
        let d = draw_style();
        assert_eq!(d.swaps.len(), 10);
        for s in d.swaps.iter() {
            match s {
                Some(alt) => {
                    assert!(alternatives.contains(alt));
                    some += 1;
                }
                None => none += 1,
            }
        }
        if let Some(o) = d.opener {
            assert!(openers.contains(&o));
        }
        if let Some(e) = d.ending {
            assert!(endings.contains(&e));
        }
    }
    assert!(some > 0 && none > 0);
}

#[test]
fn the_random_restyling_keeps_a_plain_text_but_for_its_end() {
    let agent = Agent::new("persona");
    let endings = ending_list();
    for _ in 0..50 {
        let styled = agent.ensure_unique_style("a quiet remark");
        assert!(styled == "a quiet remark" || endings.iter().any(|e| styled == format!("a quiet remark{}", e)));
        let styled = agent.generate_generic_fud("  a quiet remark?  ");
        assert_eq!(styled, "a quiet remark?");
    }
}

#[test]
fn words_are_overused_after_more_than_five_uses() {
    let mut analysis = FudAnalysis::new();
    assert!(!analysis.is_overused("rug incoming"));
    for _ in 0..5 {
        analysis.update("Rug incoming");
    }
    assert!(!analysis.is_overused("rug"));
    analysis.update("RUG");
    assert!(analysis.is_overused("another rug here"));
    assert!(analysis.is_overused("RUG"));
    assert!(!analysis.is_overused("incoming"));
    assert!(!analysis.is_overused("rugs"));
    assert!(!analysis.is_overused(""));
}

#[test]
fn a_word_counts_once_for_each_occurrence() {
    let mut analysis = FudAnalysis::new();
    analysis.update("dump dump dump");
    analysis.update("dump dump");
    assert!(!analysis.is_overused("dump"));
    analysis.update("dump");
    assert!(analysis.is_overused("dump"));
}

#[test]
fn stock_expressions_are_overused_after_more_than_three_texts() {
    let mut analysis = FudAnalysis::new();
    for i in 0..3 {
        analysis.update(&format!("observer{} says hi", i));
    }
    assert!(!analysis.is_overused("conSERvative"));
    analysis.update("passerby waves");
    assert!(analysis.is_overused("conSERvative"));
    assert!(!analysis.is_overused("nothing of the kind"));
}

#[test]
fn a_stock_expression_counts_once_per_text() {
    let mut analysis = FudAnalysis::new();
    analysis.update("wen1 wen2 wen3 wen4 wen5");
    assert!(!analysis.is_overused("owen"));
}

#[test]
fn a_draft_is_accepted_unless_it_is_overused_before_the_last_attempt() {
    let mut agent = Agent::new("persona");
    for _ in 0..6 {
        agent.fud_analysis.update("rugpull");
    }
    assert_eq!(agent.accept_draft("total rugpull".to_string(), 0), None);
    assert_eq!(agent.accept_draft("total rugpull".to_string(), 1), None);
    assert_eq!(
        agent.accept_draft("total rugpull".to_string(), 2),
        Some("total rugpull".to_string())
    );
    assert_eq!(agent.accept_draft("fine text".to_string(), 0), Some("fine text".to_string()));
    for _ in 0..5 {
        agent.accept_draft("fine".to_string(), 0);
    }
    assert_eq!(agent.accept_draft("fine".to_string(), 0), None);
}

#[test]
fn reading_an_answer_trims_and_judges_it() {
    let mut agent = Agent::new("persona");
    let read = agent.generate_editorialized_fud("  quiet words?  ", 0);
    assert_eq!(read, Some("quiet words?".to_string()));
    for _ in 0..6 {
        agent.fud_analysis.update("quiet");
    }
    assert_eq!(agent.generate_editorialized_fud("  quiet words?  ", 0), None);
    assert_eq!(
        agent.generate_editorialized_fud("  quiet words?  ", 2),
        Some("quiet words?".to_string())
    );
}
