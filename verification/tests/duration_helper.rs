use kv_from_rust::duration_helper::{DurationHelper, TimeUnit};

#[test]
fn test1() {
    let result = DurationHelper::convert("1d").unwrap();
    assert_eq!(result, 24 * 60 * 60);
}

#[test]
fn counts_and_units_add_up() {
    assert_eq!(DurationHelper::convert("1d1h").unwrap(), 25 * 60 * 60);
    assert_eq!(DurationHelper::convert("1d 1h").unwrap(), 25 * 60 * 60);
    assert_eq!(DurationHelper::convert("90 min").unwrap(), 90 * 60);
    assert_eq!(DurationHelper::convert("1 d").unwrap(), DurationHelper::convert("1d").unwrap());
    assert_eq!(DurationHelper::convert("1h30m15s").unwrap(), 3600 + 1800 + 15);
}

#[test]
fn unit_synonyms_agree() {
    for text in ["2days", "2day", "2d"] {
        assert_eq!(DurationHelper::convert(text).unwrap(), 2 * 86400);
    }
    for text in ["2seconds", "2second", "2secs", "2sec", "2s"] {
        assert_eq!(DurationHelper::convert(text).unwrap(), 2);
    }
    for text in ["3h", "3hr", "3hrs", "3hour", "3hours"] {
        assert_eq!(DurationHelper::convert(text).unwrap(), 3 * 3600);
    }
    for text in ["4m", "4min", "4mins", "4minute", "4minutes"] {
        assert_eq!(DurationHelper::convert(text).unwrap(), 4 * 60);
    }
    for text in ["5w", "5wk", "5wks", "5week", "5weeks"] {
        assert_eq!(DurationHelper::convert(text).unwrap(), 5 * 604800);
    }
    for text in ["1mon", "1month", "1months"] {
        assert_eq!(DurationHelper::convert(text).unwrap(), 30 * 86400);
    }
    for text in ["1y", "1yr", "1yrs", "1year", "1years"] {
        assert_eq!(DurationHelper::convert(text).unwrap(), 52 * 604800);
    }
}

#[test]
fn units_read_case_insensitively() {
    assert_eq!(DurationHelper::convert("1D").unwrap(), 86400);
    assert_eq!(DurationHelper::convert("2HOURS").unwrap(), 7200);
}

#[test]
fn unknown_units_are_refused() {
    assert_eq!(DurationHelper::convert("1mo"), Err("Invalid duration spec:1mo".to_string()));
    assert_eq!(DurationHelper::convert("abc"), Err("Invalid duration spec:abc".to_string()));
    assert_eq!(DurationHelper::convert("1x2d"), Err("Invalid duration spec:1x2d".to_string()));
}

#[test]
fn count_without_unit_adds_nothing() {
    assert_eq!(DurationHelper::convert("5").unwrap(), 0);
    assert_eq!(DurationHelper::convert("").unwrap(), 0);
    assert_eq!(DurationHelper::convert("  ").unwrap(), 0);
    assert_eq!(DurationHelper::convert("d").unwrap(), 0);
}

#[test]
fn minus_starts_a_count_of_minus_one() {
    assert_eq!(DurationHelper::convert("-d").unwrap(), -86400);
    assert_eq!(DurationHelper::convert("-5d").unwrap(), -15 * 86400);
}

#[test]
fn totals_beyond_range_are_refused() {
    assert_eq!(DurationHelper::convert("106751991167d").unwrap(), 106751991167 * 86400);
    let text = "106751991167d106751991167d";
    assert_eq!(DurationHelper::convert(text), Err(format!("Invalid duration {}", text)));
}

#[test]
fn overflowing_texts_are_flagged() {
    assert!(!DurationHelper::would_panic("1d"));
    assert!(!DurationHelper::would_panic("abc"));
    assert!(DurationHelper::would_panic("106751991168d"));
    assert!(DurationHelper::would_panic("99999999999999999999s"));
    assert!(DurationHelper::would_panic("9223372036854776s"));
    assert!(!DurationHelper::would_panic("9223372036854775s"));
}

#[test]
fn stepping_by_hand() {
    let mut h = DurationHelper::start("1d");
    assert_eq!(h.step('1', false), Some(Ok(())));
    assert_eq!(h.step('d', false), Some(Ok(())));
    assert!(!h.tally_would_panic());
    assert_eq!(h.tally(), Ok(()));
    assert_eq!(h.tally(), Ok(()));
    let mut big = DurationHelper::start("106751991168d");
    for c in "106751991168d".chars() {
        assert_eq!(big.step(c, false), Some(Ok(())));
    }
    assert!(big.tally_would_panic());
    let mut bad = DurationHelper::start("1q");
    assert_eq!(bad.step('1', false), Some(Ok(())));
    assert_eq!(bad.step('q', false), Some(Ok(())));
    assert_eq!(bad.tally(), Err("Invalid duration spec:1q".to_string()));
}

#[test]
fn unit_names() {
    assert_eq!(TimeUnit::from_name("days"), Some(TimeUnit::Day));
    assert_eq!(TimeUnit::from_name("mon"), Some(TimeUnit::Month));
    assert_eq!(TimeUnit::from_name("month"), Some(TimeUnit::Month));
    assert_eq!(TimeUnit::from_name("mo"), None);
    assert_eq!(TimeUnit::from_name("Days"), None);
}

#[test]
fn whitespace_of_any_kind_separates() {
    assert_eq!(DurationHelper::convert("1d\t1h").unwrap(), 90000);
    assert_eq!(DurationHelper::convert("1d\n1h").unwrap(), 90000);
    assert_eq!(DurationHelper::convert("1d\u{A0}1h").unwrap(), 90000);
}

#[test]
fn each_unit_reaches_the_total() {
    assert_eq!(DurationHelper::convert("7s").unwrap(), 7);
    assert_eq!(DurationHelper::convert("7m").unwrap(), 420);
    assert_eq!(DurationHelper::convert("7h").unwrap(), 25200);
    assert_eq!(DurationHelper::convert("7d").unwrap(), 604800);
    assert_eq!(DurationHelper::convert("7w").unwrap(), 7 * 604800);
    assert_eq!(DurationHelper::convert("2mon").unwrap(), 60 * 86400);
    assert_eq!(DurationHelper::convert("2y").unwrap(), 104 * 604800);
    assert_eq!(DurationHelper::convert("1d-h").unwrap(), 86400 - 3600);
    assert_eq!(DurationHelper::convert("1d-1h").unwrap(), 86400 - 11 * 3600);
}
