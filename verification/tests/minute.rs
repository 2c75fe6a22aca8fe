use sugar_price_oracle::minute::{whole_minutes, SECONDS_PER_MINUTE};

#[test]
fn a_minute_has_sixty_seconds() {
    assert_eq!(SECONDS_PER_MINUTE, 60);
}

#[test]
fn whole_minutes_drops_the_seconds() {
    assert_eq!(whole_minutes(0), 0);
    assert_eq!(whole_minutes(59), 0);
    assert_eq!(whole_minutes(60), 1);
    assert_eq!(whole_minutes(119), 1);
    assert_eq!(whole_minutes(120), 2);
    assert_eq!(whole_minutes(1_700_000_000), 28_333_333);
}

#[test]
fn whole_minutes_rounds_towards_the_past() {
    assert_eq!(whole_minutes(-1), -1);
    assert_eq!(whole_minutes(-59), -1);
    assert_eq!(whole_minutes(-60), -1);
    assert_eq!(whole_minutes(-61), -2);
}

#[test]
fn whole_minutes_of_the_extremes() {
    assert_eq!(whole_minutes(i64::MAX), 153_722_867_280_912_930);
    assert_eq!(whole_minutes(i64::MIN), -153_722_867_280_912_931);
}
