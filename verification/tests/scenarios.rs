//! Scenarios that test a relay from outside.

use moq::scenarios::{
    lowered_error_is_expected, subscribe_error_is_expected, TestConnectionIds,
};

#[test]
fn connections_are_collected_in_order() {
    let mut ids = TestConnectionIds::default();
    assert!(ids.cids.is_empty());
    ids.add("a".to_owned());
    ids.add("b".to_owned());
    assert_eq!(ids.cids, vec!["a".to_owned(), "b".to_owned()]);
}

#[test]
fn missing_track_is_told_in_many_words() {
    for text in [
        "Track NOT FOUND",
        "NotFound",
        "No such track",
        "it doesn't exist",
        "Does Not Exist!",
        "UNKNOWN namespace",
    ] {
        assert!(subscribe_error_is_expected(text), "{}", text);
    }
    for text in ["", "timeout", "not  found", "found not"] {
        assert!(!subscribe_error_is_expected(text), "{}", text);
    }
    assert!(lowered_error_is_expected("unknown"));
    assert!(!lowered_error_is_expected("UNKNOWN"));
}
