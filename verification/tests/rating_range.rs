use rating_link::rating_range::RatingRange;

// This test is for ranges like U1000
#[test]
fn is_match_recognises_exclusively_under() {
    let rr = RatingRange::new(0, None, Some(10));

    assert!(rr.is_match(9));
    assert!(!rr.is_match(10));
    assert!(!rr.is_match(11));
}

// This test is for ranges like 2200+
#[test]
fn is_match_recognises_exclusively_over() {
    let rr = RatingRange::new(0, Some(10), None);

    assert!(!rr.is_match(9));
    assert!(rr.is_match(10));
    assert!(rr.is_match(11));
}

// This test is for ranges like 1000-1099 or 1400-1699
#[test]
fn is_match_recognises_in_between() {
    let rr = RatingRange::new(0, Some(10), Some(19));

    assert!(!rr.is_match(9));
    assert!(rr.is_match(10));
    assert!(rr.is_match(19));
    assert!(!rr.is_match(20));
}

#[test]
fn is_match_closed_interval_boundaries() {
    let rr = RatingRange::new(3, Some(1000), Some(1099));

    assert!(!rr.is_match(999));
    assert!(rr.is_match(1000));
    assert!(rr.is_match(1050));
    assert!(rr.is_match(1099));
    assert!(!rr.is_match(1100));
}

#[test]
fn is_match_without_bounds_never_matches() {
    let rr = RatingRange::new(0, None, None);

    assert!(!rr.is_match(i16::MIN));
    assert!(!rr.is_match(-1));
    assert!(!rr.is_match(0));
    assert!(!rr.is_match(1500));
    assert!(!rr.is_match(i16::MAX));
}

#[test]
fn role_id_returns_configured_role() {
    let rr = RatingRange::new(77, Some(1), Some(2));

    assert_eq!(rr.role_id(), 77);
}
