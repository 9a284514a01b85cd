use persona_bot::clock::{cooldown_elapsed, is_minute_mark, Timestamp, WallClock};

fn at(secs: i64, nanos: u32) -> Timestamp {
    Timestamp { secs, nanos }
}

fn clock(minute: u32, second: u32) -> WallClock {
    WallClock { at: at(1_700_000_000, 0), hour: 12, minute, second }
}

#[test]
fn nothing_before_means_the_cooldown_is_over() {
    assert!(cooldown_elapsed(None, at(0, 0)));
    assert!(cooldown_elapsed(None, at(i64::MIN, 0)));
}

#[test]
fn the_cooldown_is_five_minutes_to_the_nanosecond() {
    let last = at(1000, 500);
    assert!(!cooldown_elapsed(Some(last), at(1000, 500)));
    assert!(!cooldown_elapsed(Some(last), at(1299, 999_999_999)));
    assert!(!cooldown_elapsed(Some(last), at(1300, 499)));
    assert!(cooldown_elapsed(Some(last), at(1300, 500)));
    assert!(cooldown_elapsed(Some(last), at(1300, 501)));
    assert!(cooldown_elapsed(Some(last), at(5000, 0)));
    assert!(!cooldown_elapsed(Some(last), at(0, 0)));
}

#[test]
fn the_cooldown_holds_at_the_ends_of_time() {
    assert!(cooldown_elapsed(Some(at(i64::MIN, 0)), at(i64::MAX, 999_999_999)));
    assert!(!cooldown_elapsed(Some(at(i64::MAX, 0)), at(i64::MIN, 0)));
}

#[test]
fn elapsed_time() {
    assert!(at(10, 0).at_least_after(&at(7, 0), 3));
    assert!(!at(10, 0).at_least_after(&at(7, 1), 3));
    assert!(at(10, 0).at_least_after(&at(10, 0), 0));
    assert_eq!(at(10, 0).seconds_until(&at(25, 999_999_999)), 15);
    assert_eq!(at(10, 1).seconds_until(&at(25, 0)), 14);
    assert_eq!(at(10, 0).seconds_until(&at(10, 0)), 0);
    assert_eq!(at(10, 0).seconds_until(&at(5, 0)), 0);
    assert_eq!(at(10, 5).plus_seconds(300), at(310, 5));
    assert_eq!(at(i64::MAX - 1, 5).plus_seconds(300), at(i64::MAX, 5));
    assert_eq!(at(-10, 0).plus_seconds(4), at(-6, 0));
}

#[test]
fn the_loop_sleeps_to_the_next_second() {
    assert_eq!(at(5, 0).millis_until_next_second(), 1000);
    assert_eq!(at(5, 1).millis_until_next_second(), 999);
    assert_eq!(at(5, 250_000_000).millis_until_next_second(), 750);
    assert_eq!(at(5, 999_000_000).millis_until_next_second(), 1);
    assert_eq!(at(5, 999_000_001).millis_until_next_second(), 0);
    assert_eq!(at(5, 999_999_999).millis_until_next_second(), 0);
    assert_eq!(at(5, 1_500_000_000).millis_until_next_second(), 0);
}

#[test]
fn a_mark_is_the_first_second_of_a_listed_minute() {
    let marks = vec![0, 15, 30, 45];
    assert!(is_minute_mark(&marks, &clock(0, 0)));
    assert!(is_minute_mark(&marks, &clock(15, 0)));
    assert!(is_minute_mark(&marks, &clock(45, 0)));
    assert!(!is_minute_mark(&marks, &clock(15, 1)));
    assert!(!is_minute_mark(&marks, &clock(15, 59)));
    assert!(!is_minute_mark(&marks, &clock(14, 0)));
    assert!(!is_minute_mark(&marks, &clock(16, 0)));
    assert!(!is_minute_mark(&Vec::new(), &clock(0, 0)));
}
