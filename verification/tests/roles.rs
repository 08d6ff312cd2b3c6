use rating_link::rating_range::RatingRange;
use rating_link::roles::{evaluate, evaluate_revoked};

const ROLE_A: u64 = 10;
const ROLE_B: u64 = 20;

fn adjacent_bands() -> Vec<RatingRange> {
    vec![
        RatingRange::new(ROLE_A, Some(1000), Some(1099)),
        RatingRange::new(ROLE_B, Some(1100), Some(1199)),
    ]
}

#[test]
fn evaluate_picks_the_band_holding_the_rating() {
    let ranges = adjacent_bands();

    assert_eq!(evaluate(1099, &ranges), vec![ROLE_A]);
    assert_eq!(evaluate(1100, &ranges), vec![ROLE_B]);
}

#[test]
fn evaluate_outside_every_band_grants_nothing() {
    let ranges = adjacent_bands();

    assert_eq!(evaluate(2000, &ranges), Vec::<u64>::new());
}

#[test]
fn evaluate_overlapping_bands_grants_all_matches() {
    let ranges = vec![
        RatingRange::new(ROLE_A, Some(1000), Some(1199)),
        RatingRange::new(ROLE_B, Some(1100), None),
    ];

    assert_eq!(evaluate(1150, &ranges), vec![ROLE_A, ROLE_B]);
}

#[test]
fn evaluate_empty_configuration_grants_nothing() {
    assert_eq!(evaluate(1500, &Vec::new()), Vec::<u64>::new());
}

#[test]
fn evaluate_revoked_lists_the_bands_left_behind() {
    let ranges = adjacent_bands();

    assert_eq!(evaluate_revoked(1099, &ranges), vec![ROLE_B]);
    assert_eq!(evaluate_revoked(1100, &ranges), vec![ROLE_A]);
    assert_eq!(evaluate_revoked(2000, &ranges), vec![ROLE_A, ROLE_B]);
}
