use rating_link::challenge::{decode_challenge, encode_challenge, Challenge};
use rating_link::error::Error;
use rating_link::store::ChallengeStore;

#[test]
fn consume_returns_what_was_created() {
    let mut store = ChallengeStore::new();
    store.create_challenge(Challenge::new(42, 7, vec![1, 2, 3]));

    let c = store.consume_challenge(42).expect("challenge should be found");

    assert_eq!(c.state, 42);
    assert_eq!(c.requester_id, 7);
    assert_eq!(c.code_verifier, vec![1, 2, 3]);
}

#[test]
fn consume_twice_returns_not_found() {
    let mut store = ChallengeStore::new();
    store.create_challenge(Challenge::new(42, 7, vec![1, 2, 3]));

    assert!(store.consume_challenge(42).is_ok());
    assert_eq!(store.consume_challenge(42), Err(Error::ChallengeNotFound));
}

#[test]
fn consume_of_unknown_state_is_shaped_like_already_consumed() {
    let mut store = ChallengeStore::new();
    store.create_challenge(Challenge::new(42, 7, vec![1, 2, 3]));

    let never_created = store.consume_challenge(99);
    store.consume_challenge(42).expect("challenge should be found");
    let already_consumed = store.consume_challenge(42);

    assert_eq!(never_created, Err(Error::ChallengeNotFound));
    assert_eq!(never_created, already_consumed);
}

#[test]
fn consuming_one_state_leaves_the_others() {
    let mut store = ChallengeStore::new();
    store.create_challenge(Challenge::new(1, 10, vec![]));
    store.create_challenge(Challenge::new(2, 20, vec![]));

    store.consume_challenge(1).expect("challenge should be found");

    let c = store.consume_challenge(2).expect("challenge should be found");
    assert_eq!(c.requester_id, 20);
}

#[test]
fn codec_round_trips_a_challenge() {
    let c = Challenge::new(42, 0xDEAD_BEEF_0123_4567, vec![9, 8, 7, 0, 255]);

    let bytes = encode_challenge(&c);
    let decoded = decode_challenge(42, &bytes).expect("encoded value should decode");

    assert_eq!(decoded, c);
}

#[test]
fn codec_round_trips_an_empty_verifier() {
    let c = Challenge::new(0, u64::MAX, vec![]);

    let bytes = encode_challenge(&c);
    assert_eq!(bytes.len(), 8);
    assert_eq!(decode_challenge(0, &bytes).expect("encoded value should decode"), c);
}

#[test]
fn decode_rejects_a_truncated_value() {
    assert_eq!(decode_challenge(1, &vec![]), None);
    assert_eq!(decode_challenge(1, &vec![1, 2, 3, 4, 5, 6, 7]), None);
}

#[test]
fn encode_is_requester_id_then_verifier() {
    let c = Challenge::new(5, 1, vec![0xAB]);

    assert_eq!(encode_challenge(&c), vec![1, 0, 0, 0, 0, 0, 0, 0, 0xAB]);
}
