use persona_bot::phrases::{phrases_from_words, three_word_phrases, PhraseWindow};

#[test]
fn phrases_are_runs_of_three_words_in_lower_case() {
    assert_eq!(
        three_word_phrases("The  quick\tBROWN fox\njumps"),
        vec!["the quick brown", "quick brown fox", "brown fox jumps"]
    );
    assert_eq!(three_word_phrases("only two"), Vec::<String>::new());
    assert_eq!(three_word_phrases(""), Vec::<String>::new());
    assert_eq!(three_word_phrases("  a b c  "), vec!["a b c"]);
    let words: Vec<String> = vec!["A".into(), "b".into(), "C".into(), "d".into()];
    assert_eq!(phrases_from_words(&words), vec!["a b c", "b c d"]);
}

#[test]
fn a_repeat_is_a_phrase_that_was_recorded() {
    let mut window = PhraseWindow::new(50);
    assert!(!window.check_and_record("dev wallet holds most of the supply"));
    assert_eq!(window.len(), 5);
    assert!(window.check_and_record("the DEV WALLET HOLDS nothing"));
    assert!(!window.check_and_record("entirely different words here"));
    assert!(!window.check_and_record("wallet dev holds"));
}

#[test]
fn phrases_are_recorded_even_when_a_repeat_is_found() {
    let mut window = PhraseWindow::new(50);
    assert!(!window.check_and_record("one two three"));
    assert!(window.check_and_record("one two three four five"));
    assert!(window.contains("two three four"));
    assert!(window.contains("three four five"));
    assert_eq!(window.len(), 3);
    assert!(window.check_and_record("x three four five"));
}

#[test]
fn the_window_never_holds_more_than_its_capacity() {
    let mut window = PhraseWindow::new(4);
    assert_eq!(window.capacity(), 4);
    let texts = [
        "a b c d e",
        "f g h i j k l m n",
        "a b c",
        "",
        "o p q r s t u v w x y z one two three four",
    ];
    for text in texts {
        window.check_and_record(text);
        assert!(window.len() <= 4);
    }
    assert_eq!(window.len(), 4);
}

#[test]
fn the_count_is_the_smaller_of_what_was_seen_and_the_capacity() {
    let mut window = PhraseWindow::new(50);
    window.check_and_record("w1 w2 w3 w4 w5 w6 w7 w8 w9 w10 w11 w12");
    assert_eq!(window.len(), 10);
    let long: Vec<String> = (0..80).map(|i| format!("x{}", i)).collect();
    window.check_and_record(&long.join(" "));
    assert_eq!(window.len(), 50);
}

#[test]
fn the_oldest_phrases_leave_first() {
    let mut window = PhraseWindow::new(3);
    window.check_and_record("a b c d");
    assert!(window.contains("a b c") && window.contains("b c d"));
    window.check_and_record("e f g h");
    assert_eq!(window.len(), 3);
    assert!(!window.contains("a b c"));
    assert!(window.contains("b c d"));
    assert!(window.contains("e f g"));
    assert!(window.contains("f g h"));
}

#[test]
fn a_window_without_room_holds_nothing() {
    let mut window = PhraseWindow::new(0);
    assert!(!window.check_and_record("a b c"));
    assert_eq!(window.len(), 0);
    assert!(!window.check_and_record("a b c"));
}

#[test]
fn checking_without_recording_changes_nothing() {
    let mut window = PhraseWindow::new(10);
    let phrases = three_word_phrases("never gonna give you up");
    assert!(!window.contains_any(&phrases));
    assert_eq!(window.len(), 0);
    window.record(&phrases);
    assert_eq!(window.len(), 3);
    assert!(window.contains_any(&phrases));
    window.record(&phrases);
    assert_eq!(window.len(), 3);
    assert!(!window.contains_any(&Vec::new()));
}
